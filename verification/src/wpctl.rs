//! The `wpctl` command lines that the daemon runs, and what their output says.

use vstd::prelude::*;
use vstd::string::*;

use crate::audio::SourceId;
use crate::numeral::{numeral_kind, NumeralKind};
use crate::text::{decimal, find, matches_at, part, same};

verus! {

/// What a command is aimed at.
#[derive(Clone, Copy, Debug, PartialEq, Eq, Structural)]
pub enum AudioTarget {
    /// Whatever source is the default one when the command runs.
    DefaultSource,
    Source(SourceId),
}

/// A command line for `wpctl`.
#[derive(Clone, Copy, Debug, PartialEq, Eq, Structural)]
pub enum WpctlCommand {
    InspectDefault,
    QueryDefaultVolume,
    SetMute { target: AudioTarget, muted: bool },
}

impl AudioTarget {
    /// How the target is named on the command line.
    pub open spec fn text(self) -> Seq<char> {
        match self {
            AudioTarget::DefaultSource => "@DEFAULT_AUDIO_SOURCE@"@,
            AudioTarget::Source(source) => crate::text::decimal_text(source.0 as nat),
        }
    }

    fn argument(&self) -> (argument: String)
        ensures
            argument@ == self.text(),
    {
        match self {
            AudioTarget::DefaultSource => "@DEFAULT_AUDIO_SOURCE@".to_owned(),
            AudioTarget::Source(source) => decimal(source.0 as u64),
        }
    }
}

impl WpctlCommand {
    /// The arguments of the command.
    pub open spec fn words(self) -> Seq<Seq<char>> {
        match self {
            WpctlCommand::InspectDefault => seq!["inspect"@, "@DEFAULT_AUDIO_SOURCE@"@],
            WpctlCommand::QueryDefaultVolume => seq!["get-volume"@, "@DEFAULT_AUDIO_SOURCE@"@],
            WpctlCommand::SetMute { target, muted } => seq![
                "set-mute"@,
                target.text(),
                if muted {
                    "1"@
                } else {
                    "0"@
                },
            ],
        }
    }

    /// The arguments to run `wpctl` with.
    pub fn arguments(&self) -> (arguments: Vec<String>)
        ensures
            arguments@.map_values(|argument: String| argument@) == self.words(),
    {
        let mut arguments: Vec<String> = Vec::new();
        match self {
            WpctlCommand::InspectDefault => {
                arguments.push("inspect".to_owned());
                arguments.push(AudioTarget::DefaultSource.argument());
            },
            WpctlCommand::QueryDefaultVolume => {
                arguments.push("get-volume".to_owned());
                arguments.push(AudioTarget::DefaultSource.argument());
            },
            WpctlCommand::SetMute { target, muted } => {
                arguments.push("set-mute".to_owned());
                arguments.push(target.argument());
                arguments.push(
                    if *muted {
                        "1".to_owned()
                    } else {
                        "0".to_owned()
                    },
                );
            },
        }
        assert(arguments@.map_values(|argument: String| argument@) =~= self.words());
        arguments
    }
}

/// How `std::str::from_utf8` describes what is wrong with bytes that are not UTF-8.
pub uninterp spec fn utf8_error_text(bytes: Seq<u8>) -> Seq<char>;

/// Calls `std::str::from_utf8`, which accepts exactly the bytes that are UTF-8. Its description of
/// the error, a function of the bytes alone, goes by a name.
#[verifier::external_body]
fn check_utf8(bytes: &[u8]) -> (checked: Result<(), String>)
    ensures
        checked is Ok <==> vstd::utf8::valid_utf8(bytes@),
        checked matches Err(message) ==> message@ == utf8_error_text(bytes@),
{
    std::str::from_utf8(bytes).map(|_| ()).map_err(|error| error.to_string())
}

/// The first line of an output, without its line ending.
pub open spec fn first_line(output: Seq<u8>) -> Option<Seq<u8>> {
    if output.len() == 0 {
        None
    } else {
        match crate::text::position(output, seq![10u8]) {
            None => Some(output),
            Some(end) => if end > 0 && output[end - 1] == 13 {
                Some(output.take(end - 1))
            } else {
                Some(output.take(end))
            },
        }
    }
}

/// The two parts of a line `id .., type ..`.
pub open spec fn identity_header(line: Seq<u8>) -> Option<(Seq<u8>, Seq<u8>)> {
    let prefix = "id ".spec_bytes();
    let separator = ", type ".spec_bytes();
    if !crate::text::has_prefix(line, prefix) {
        None
    } else {
        let rest = line.skip(prefix.len() as int);
        match crate::text::position(rest, separator) {
            None => None,
            Some(at) => Some((rest.take(at), rest.skip(at + separator.len()))),
        }
    }
}

/// The source that a header names, given its two parts.
pub open spec fn identified_source(id: Seq<u8>, node_type: Seq<u8>) -> Result<SourceId, Seq<char>> {
    if node_type != "PipeWire:Interface:Node".spec_bytes() {
        Err("default source is not a PipeWire node"@)
    } else if id.len() == 0 || !crate::numeral::all_digits(id) {
        Err("source ID is not numeric"@)
    } else if crate::numeral::value_of(id) > u32::MAX {
        Err("source ID is out of range"@)
    } else if crate::numeral::value_of(id) == 0 {
        Err("source ID must be positive"@)
    } else {
        Ok(SourceId(crate::numeral::value_of(id) as u32))
    }
}

/// What the output of `wpctl inspect` says of the source.
pub open spec fn source_in(output: Seq<u8>) -> Result<SourceId, Seq<char>> {
    if !vstd::utf8::valid_utf8(output) {
        Err(utf8_error_text(output))
    } else {
        match first_line(output) {
            None => Err("output is empty"@),
            Some(line) => match identity_header(line) {
                None => Err("missing source identity header"@),
                Some((id, node_type)) => identified_source(id, node_type),
            },
        }
    }
}

/// The output without one line feed at its end.
pub open spec fn without_final_newline(output: Seq<u8>) -> Seq<u8> {
    if output.len() > 0 && output.last() == 10 {
        output.drop_last()
    } else {
        output
    }
}

/// What a volume, the rest of a line `Volume: ..`, says of the mute state.
pub open spec fn mute_of_volume(volume: Seq<u8>) -> Result<bool, Seq<char>> {
    let mark = " [MUTED]".spec_bytes();
    let muted = crate::text::has_suffix(volume, mark);
    let number = if muted {
        volume.take(volume.len() - mark.len())
    } else {
        volume
    };
    match crate::numeral::kind_of(number) {
        NumeralKind::NotNumeric => Err("volume is not numeric"@),
        NumeralKind::NotFinite => Err("volume is not finite"@),
        NumeralKind::Finite => Ok(muted),
    }
}

/// What the output of `wpctl get-volume` says of the mute state.
pub open spec fn mute_in(output: Seq<u8>) -> Result<bool, Seq<char>> {
    let prefix = "Volume: ".spec_bytes();
    let line = without_final_newline(output);
    if !vstd::utf8::valid_utf8(output) {
        Err(utf8_error_text(output))
    } else if line.contains(10u8) || line.contains(13u8) {
        Err("unexpected trailing output"@)
    } else if !crate::text::has_prefix(line, prefix) {
        Err("missing volume prefix"@)
    } else {
        mute_of_volume(line.skip(prefix.len() as int))
    }
}

/// Whether a result is the wanted one, its error taken as text.
pub open spec fn reads_as<T>(result: Result<T, String>, wanted: Result<T, Seq<char>>) -> bool {
    match (result, wanted) {
        (Ok(value), Ok(wanted)) => value == wanted,
        (Err(message), Err(wanted)) => message@ == wanted,
        _ => false,
    }
}

fn parse_line(output: &[u8]) -> (line: Option<&[u8]>)
    ensures
        line is Some == first_line(output@) is Some,
        line matches Some(line) ==> line@ == first_line(output@)->0,
{
    if output.len() == 0 {
        return None;
    }
    let newline: [u8; 1] = [10];
    assert(newline@ =~= seq![10u8]);
    match find(output, newline.as_slice()) {
        None => Some(output),
        Some(end) => {
            assert(output@.subrange(0, end as int) =~= output@.take(end as int));
            if end > 0 && output[end - 1] == 13 {
                assert(output@.subrange(0, end - 1) =~= output@.take(end - 1));
                Some(part(output, 0, end - 1))
            } else {
                Some(part(output, 0, end))
            }
        },
    }
}

/// Reads a source ID.
fn parse_id(id: &[u8]) -> (parsed: Result<SourceId, String>)
    ensures
        reads_as(parsed, identified_source(id@, "PipeWire:Interface:Node".spec_bytes())),
{
    if id.len() == 0 {
        return Err("source ID is not numeric".to_owned());
    }
    let mut value: u64 = 0;
    let mut index: usize = 0;
    assert(id@.take(0) =~= Seq::empty());
    while index < id.len()
        invariant
            index <= id.len(),
            id.len() > 0,
            forall|i: int| 0 <= i < index ==> crate::numeral::is_digit(#[trigger] id@[i]),
            value <= 0x1_0000_0000,
            crate::numeral::value_of(id@.take(index as int)) >= 0,
            value <= u32::MAX ==> value == crate::numeral::value_of(id@.take(index as int)),
            value > u32::MAX ==> crate::numeral::value_of(id@.take(index as int)) > u32::MAX,
        decreases id.len() - index,
    {
        let byte = id[index];
        if byte < 48 || byte > 57 {
            assert(!crate::numeral::is_digit(id@[index as int]));
            return Err("source ID is not numeric".to_owned());
        }
        proof {
            assert(id@.take(index + 1).drop_last() =~= id@.take(index as int));
            assert(id@.take(index + 1).last() == byte);
        }
        if value <= u32::MAX as u64 {
            let next: u64 = value * 10 + (byte - 48) as u64;
            value = if next <= u32::MAX as u64 {
                next
            } else {
                0x1_0000_0000
            };
        }
        index += 1;
    }
    assert(id@.take(index as int) =~= id@);
    if value > u32::MAX as u64 {
        return Err("source ID is out of range".to_owned());
    }
    if value == 0 {
        return Err("source ID must be positive".to_owned());
    }
    Ok(SourceId(value as u32))
}

/// Reads the number of the source that `wpctl inspect` has described.
pub fn parse_source_id(output: &[u8]) -> (parsed: Result<SourceId, String>)
    ensures
        reads_as(parsed, source_in(output@)),
{
    match check_utf8(output) {
        Err(message) => return Err(message),
        Ok(()) => {},
    }
    let line = match parse_line(output) {
        None => return Err("output is empty".to_owned()),
        Some(line) => line,
    };
    let prefix = "id ".as_bytes();
    if !matches_at(line, prefix, 0) {
        return Err("missing source identity header".to_owned());
    }
    let rest = part(line, prefix.len(), line.len());
    assert(rest@ =~= line@.skip(prefix.len() as int));
    let separator = ", type ".as_bytes();
    match find(rest, separator) {
        None => Err("missing source identity header".to_owned()),
        Some(at) => {
            let id = part(rest, 0, at);
            let node_type = part(rest, at + separator.len(), rest.len());
            assert(id@ =~= rest@.take(at as int));
            assert(node_type@ =~= rest@.skip(at + separator.len()));
            if !same(node_type, "PipeWire:Interface:Node".as_bytes()) {
                return Err("default source is not a PipeWire node".to_owned());
            }
            parse_id(id)
        },
    }
}

fn contains_byte(text: &[u8], byte: u8) -> (found: bool)
    ensures
        found == text@.contains(byte),
{
    let mut index: usize = 0;
    while index < text.len()
        invariant
            index <= text.len(),
            forall|i: int| 0 <= i < index ==> #[trigger] text@[i] != byte,
        decreases text.len() - index,
    {
        if text[index] == byte {
            assert(text@[index as int] == byte);
            return true;
        }
        index += 1;
    }
    false
}

/// Reads from the answer to `wpctl get-volume` whether the default source is muted.
pub fn parse_default_mute(output: &[u8]) -> (parsed: Result<bool, String>)
    ensures
        reads_as(parsed, mute_in(output@)),
{
    match check_utf8(output) {
        Err(message) => return Err(message),
        Ok(()) => {},
    }
    let line: &[u8] = if output.len() > 0 && output[output.len() - 1] == 10 {
        part(output, 0, output.len() - 1)
    } else {
        output
    };
    assert(line@ =~= without_final_newline(output@));
    if contains_byte(line, 10) || contains_byte(line, 13) {
        return Err("unexpected trailing output".to_owned());
    }
    let prefix = "Volume: ".as_bytes();
    if !matches_at(line, prefix, 0) {
        return Err("missing volume prefix".to_owned());
    }
    let volume = part(line, prefix.len(), line.len());
    assert(volume@ =~= line@.skip(prefix.len() as int));
    let mark = " [MUTED]".as_bytes();
    let muted = volume.len() >= mark.len() && matches_at(volume, mark, volume.len() - mark.len());
    let number: &[u8] = if muted {
        part(volume, 0, volume.len() - mark.len())
    } else {
        volume
    };
    assert(muted ==> number@ =~= volume@.take(volume.len() - mark.len()));
    match numeral_kind(number) {
        NumeralKind::NotNumeric => Err("volume is not numeric".to_owned()),
        NumeralKind::NotFinite => Err("volume is not finite".to_owned()),
        NumeralKind::Finite => Ok(muted),
    }
}

} // verus!
