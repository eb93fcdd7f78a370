//! What holds of reading the output of `wpctl`, and of the command lines that it is run with.

use vstd::prelude::*;
use vstd::string::*;

use crate::audio::SourceId;
use crate::numeral::NumeralKind;
use crate::wpctl::{AudioTarget, WpctlCommand};

verus! {

/// The bytes of the texts that `wpctl` writes.
proof fn lemma_texts()
    ensures
        "Volume: ".spec_bytes() == seq![86u8, 111, 108, 117, 109, 101, 58, 32],
        " [MUTED]".spec_bytes() == seq![32u8, 91, 77, 85, 84, 69, 68, 93],
        "id ".spec_bytes() == seq![105u8, 100, 32],
        ", type ".spec_bytes() == seq![44u8, 32, 116, 121, 112, 101, 32],
        "PipeWire:Interface:Node".spec_bytes().len() == 23,
        forall|i: int|
            0 <= i < 23 ==> #[trigger] "PipeWire:Interface:Node".spec_bytes()[i] < 128
                && "PipeWire:Interface:Node".spec_bytes()[i] != 10
                && "PipeWire:Interface:Node".spec_bytes()[i] != 13,
{
    reveal_strlit("Volume: ");
    reveal_strlit(" [MUTED]");
    reveal_strlit("id ");
    reveal_strlit(", type ");
    reveal_strlit("PipeWire:Interface:Node");
    is_ascii_spec_bytes("Volume: ");
    is_ascii_spec_bytes(" [MUTED]");
    is_ascii_spec_bytes("id ");
    is_ascii_spec_bytes(", type ");
    is_ascii_spec_bytes("PipeWire:Interface:Node");
    assert("Volume: ".spec_bytes() =~= seq![86u8, 111, 108, 117, 109, 101, 58, 32]);
    assert(" [MUTED]".spec_bytes() =~= seq![32u8, 91, 77, 85, 84, 69, 68, 93]);
    assert("id ".spec_bytes() =~= seq![105u8, 100, 32]);
    assert(", type ".spec_bytes() =~= seq![44u8, 32, 116, 121, 112, 101, 32]);
}

/// Bytes of seven bits are UTF-8.
proof fn lemma_ascii_is_utf8(bytes: Seq<u8>)
    requires
        forall|i: int| 0 <= i < bytes.len() ==> #[trigger] bytes[i] < 128,
    ensures
        vstd::utf8::valid_utf8(bytes),
    decreases bytes.len(),
{
    if bytes.len() > 0 {
        let rest = bytes.subrange(1, bytes.len() as int);
        lemma_ascii_is_utf8(rest);
        let byte = bytes[0];
        assert(byte < 128);
        assert(byte & 0x7f == byte) by (bit_vector)
            requires
                byte < 128,
        ;
        assert(vstd::utf8::is_leading_byte_width_1(byte));
        assert(vstd::utf8::valid_first_scalar(bytes));
        assert(vstd::utf8::pop_first_scalar(bytes) == rest);
    }
}

/// The answer of `wpctl get-volume` for a number, with or without the mark, the line ended or not.
pub open spec fn answer(number: Seq<u8>, marked: bool, ended: bool) -> Seq<u8> {
    let line = if marked {
        "Volume: ".spec_bytes() + number + " [MUTED]".spec_bytes()
    } else {
        "Volume: ".spec_bytes() + number
    };
    if ended {
        line.push(10u8)
    } else {
        line
    }
}

proof fn lemma_plain_volume(number: Seq<u8>)
    requires
        forall|i: int|
            0 <= i < number.len() ==> #[trigger] number[i] < 128 && number[i] != 10 && number[i]
                != 13 && number[i] != 93,
    ensures
        crate::wpctl::mute_of_volume(number) == match crate::numeral::kind_of(number) {
            NumeralKind::NotNumeric => Err("volume is not numeric"@),
            NumeralKind::NotFinite => Err("volume is not finite"@),
            NumeralKind::Finite => Ok(false),
        },
{
    lemma_texts();
    let mark = " [MUTED]".spec_bytes();
    if crate::text::has_suffix(number, mark) {
        assert(number.subrange(number.len() - mark.len(), number.len() as int)[7] == mark[7]);
        assert(number[number.len() - 1] == 93);
    }
}

proof fn lemma_marked_volume(number: Seq<u8>)
    requires
        forall|i: int|
            0 <= i < number.len() ==> #[trigger] number[i] < 128 && number[i] != 10 && number[i]
                != 13 && number[i] != 93,
    ensures
        crate::wpctl::mute_of_volume(number + " [MUTED]".spec_bytes())
            == match crate::numeral::kind_of(number) {
            NumeralKind::NotNumeric => Err("volume is not numeric"@),
            NumeralKind::NotFinite => Err("volume is not finite"@),
            NumeralKind::Finite => Ok(true),
        },
        forall|i: int|
            0 <= i < number.len() + 8 ==> (#[trigger] (number + " [MUTED]".spec_bytes())[i]) < 128
                && (number + " [MUTED]".spec_bytes())[i] != 10 && (number
                + " [MUTED]".spec_bytes())[i] != 13,
        (number + " [MUTED]".spec_bytes()).len() == number.len() + 8,
{
    lemma_texts();
    let mark = " [MUTED]".spec_bytes();
    let volume = number + mark;
    assert forall|i: int| 0 <= i < volume.len() implies #[trigger] volume[i] < 128 && volume[i]
        != 10 && volume[i] != 13 by {
        if i < number.len() {
            assert(volume[i] == number[i]);
        } else {
            assert(volume[i] == mark[i - number.len()]);
        }
    }
    assert(volume.subrange(number.len() as int, volume.len() as int) =~= mark);
    assert(volume.take(volume.len() - mark.len()) =~= number);
}

/// A line of a volume reads as that volume, whether or not it is ended.
proof fn lemma_answer_line(volume: Seq<u8>)
    requires
        forall|i: int|
            0 <= i < volume.len() ==> #[trigger] volume[i] < 128 && volume[i] != 10 && volume[i]
                != 13,
    ensures
        ({
            let line = "Volume: ".spec_bytes() + volume;
            &&& crate::wpctl::mute_in(line) == crate::wpctl::mute_of_volume(volume)
            &&& crate::wpctl::mute_in(line.push(10u8)) == crate::wpctl::mute_of_volume(volume)
        }),
{
    lemma_texts();
    let prefix = "Volume: ".spec_bytes();
    let line = prefix + volume;
    let ended = line.push(10u8);
    assert forall|i: int| 0 <= i < line.len() implies #[trigger] line[i] < 128 && line[i] != 10
        && line[i] != 13 by {
        if i >= prefix.len() {
            assert(line[i] == volume[i - prefix.len()]);
        }
    }
    assert forall|i: int| 0 <= i < ended.len() implies #[trigger] ended[i] < 128 by {
        if i < line.len() {
            assert(ended[i] == line[i]);
        }
    }
    lemma_ascii_is_utf8(line);
    lemma_ascii_is_utf8(ended);
    assert(line[line.len() - 1] != 10);
    assert(ended.drop_last() =~= line);
    assert(line.subrange(0, prefix.len() as int) =~= prefix);
    assert(line.skip(prefix.len() as int) =~= volume);
}

/// An answer to `wpctl get-volume` that shows a finite number reads as muted exactly if the mark
/// follows the number, whatever the number is, and whether or not the line is ended.
pub proof fn law_mark_tells_the_mute_state(
    output: &[u8],
    number: Seq<u8>,
    marked: bool,
    ended: bool,
    parsed: Result<bool, String>,
)
    requires
        call_ensures(crate::wpctl::parse_default_mute, (output,), parsed),
        crate::numeral::kind_of(number) == NumeralKind::Finite,
        output@ == answer(number, marked, ended),
    ensures
        parsed == Ok::<bool, String>(marked),
{
    crate::numeral::law_finite_numerals_are_plain(number);
    if marked {
        let volume = number + " [MUTED]".spec_bytes();
        lemma_marked_volume(number);
        lemma_answer_line(volume);
        assert("Volume: ".spec_bytes() + number + " [MUTED]".spec_bytes()
            =~= "Volume: ".spec_bytes() + volume);
    } else {
        lemma_plain_volume(number);
        lemma_answer_line(number);
    }
}

/// The two answers for one number: with the mark it reads as muted, without it as not muted.
pub proof fn law_mute_states_differ_by_the_mark(
    plain: &[u8],
    marked: &[u8],
    number: Seq<u8>,
    read_plain: Result<bool, String>,
    read_marked: Result<bool, String>,
)
    requires
        call_ensures(crate::wpctl::parse_default_mute, (plain,), read_plain),
        call_ensures(crate::wpctl::parse_default_mute, (marked,), read_marked),
        crate::numeral::kind_of(number) == NumeralKind::Finite,
        plain@ == "Volume: ".spec_bytes() + number,
        marked@ == plain@ + " [MUTED]".spec_bytes(),
    ensures
        read_plain == Ok::<bool, String>(false),
        read_marked == Ok::<bool, String>(true),
{
    law_mark_tells_the_mute_state(plain, number, false, false, read_plain);
    law_mark_tells_the_mute_state(marked, number, true, false, read_marked);
}

/// A volume of digits with at most one point among or around them, of ordinary size, reads as muted
/// exactly if the mark follows it.
pub proof fn law_plain_volumes_tell_the_mute_state(
    output: &[u8],
    whole: Seq<u8>,
    fraction: Seq<u8>,
    marked: bool,
    ended: bool,
    parsed: Result<bool, String>,
)
    requires
        call_ensures(crate::wpctl::parse_default_mute, (output,), parsed),
        forall|i: int| 0 <= i < whole.len() ==> 48 <= #[trigger] whole[i] <= 57,
        forall|i: int| 0 <= i < fraction.len() ==> 48 <= #[trigger] fraction[i] <= 57,
        0 < whole.len() + fraction.len(),
        whole.len() <= 300,
        output@ == answer(whole + (seq![46u8] + fraction), marked, ended),
    ensures
        parsed == Ok::<bool, String>(marked),
{
    crate::numeral::law_plain_decimals_are_finite(whole, fraction, true);
    law_mark_tells_the_mute_state(output, whole + (seq![46u8] + fraction), marked, ended, parsed);
}

/// Only an answer of that form says anything of the mute state.
pub proof fn law_only_volumes_tell_the_mute_state(output: &[u8], parsed: Result<bool, String>)
    requires
        call_ensures(crate::wpctl::parse_default_mute, (output,), parsed),
        parsed is Ok,
    ensures
        exists|number: Seq<u8>, ended: bool|
            {
                &&& crate::numeral::kind_of(number) == NumeralKind::Finite
                &&& output@ == #[trigger] answer(number, parsed->Ok_0, ended)
            },
{
    lemma_texts();
    let prefix = "Volume: ".spec_bytes();
    let mark = " [MUTED]".spec_bytes();
    let line = crate::wpctl::without_final_newline(output@);
    let volume = line.skip(prefix.len() as int);
    let ended = output@.len() > 0 && output@.last() == 10;
    assert(line =~= prefix + volume) by {
        assert(line.subrange(0, prefix.len() as int) =~= line.take(prefix.len() as int));
    }
    assert(ended ==> output@ =~= line.push(10u8));
    if parsed->Ok_0 {
        let number = volume.take(volume.len() - mark.len());
        assert(volume =~= number + mark) by {
            assert(volume.subrange(volume.len() - mark.len(), volume.len() as int) =~= volume.skip(
                volume.len() - mark.len(),
            ));
        }
        assert(prefix + number + mark =~= line);
        assert(output@ == answer(number, true, ended));
    } else {
        assert(output@ == answer(volume, false, ended));
    }
}

/// The first line of a description of a source.
pub open spec fn header(id: Seq<u8>) -> Seq<u8> {
    "id ".spec_bytes() + id + ", type ".spec_bytes() + "PipeWire:Interface:Node".spec_bytes()
}

/// Whether the rest of an output begins a new line, or is empty.
pub open spec fn ends_line(rest: Seq<u8>) -> bool {
    ||| rest.len() == 0
    ||| rest[0] == 10
    ||| rest.len() > 1 && rest[0] == 13 && rest[1] == 10
}

proof fn lemma_header(id: Seq<u8>)
    requires
        forall|i: int| 0 <= i < id.len() ==> 48 <= #[trigger] id[i] <= 57,
    ensures
        crate::wpctl::identity_header(header(id)) == Some(
            (id, "PipeWire:Interface:Node".spec_bytes()),
        ),
        forall|i: int|
            0 <= i < header(id).len() ==> #[trigger] header(id)[i] < 128 && header(id)[i] != 10
                && header(id)[i] != 13,
{
    lemma_texts();
    let line = header(id);
    let prefix = "id ".spec_bytes();
    let separator = ", type ".spec_bytes();
    let node = "PipeWire:Interface:Node".spec_bytes();
    let rest = line.skip(3);
    assert(line.subrange(0, 3) =~= prefix);
    assert(rest =~= id + separator + node);
    let at = id.len() as int;
    assert(rest.subrange(at, at + 7) =~= separator);
    assert forall|i: int| 0 <= i < at implies #[trigger] rest.subrange(i, i + separator.len())
        != separator by {
        assert(rest[i] == id[i]);
        assert(rest.subrange(i, i + separator.len())[0] == id[i]);
        assert(48 <= id[i]);
    }
    crate::text::lemma_position_from(rest, separator, 0, at);
    assert(rest.take(at) =~= id);
    assert(rest.skip(at + 7) =~= node);
    assert forall|i: int| 0 <= i < line.len() implies #[trigger] line[i] < 128 && line[i] != 10
        && line[i] != 13 by {
        if i < 3 {
            assert(line[i] == prefix[i]);
        } else if i < 3 + id.len() {
            assert(line[i] == id[i - 3]);
        } else if i < 10 + id.len() {
            assert(line[i] == separator[i - 3 - id.len()]);
        } else {
            assert(line[i] == node[i - 10 - id.len()]);
        }
    }
}

/// A description that begins with the header of a node names the source of that number, whatever
/// number it is and whatever follows the header.
pub proof fn law_header_names_the_source(
    output: &[u8],
    id: Seq<u8>,
    rest: Seq<u8>,
    parsed: Result<SourceId, String>,
)
    requires
        call_ensures(crate::wpctl::parse_source_id, (output,), parsed),
        id.len() > 0,
        forall|i: int| 0 <= i < id.len() ==> 48 <= #[trigger] id[i] <= 57,
        0 < crate::numeral::value_of(id) <= u32::MAX,
        vstd::utf8::valid_utf8(rest),
        ends_line(rest),
        output@ == header(id) + rest,
    ensures
        parsed matches Ok(source) && source.0 == crate::numeral::value_of(id),
{
    lemma_texts();
    lemma_header(id);
    lemma_ascii_is_utf8(header(id));
    vstd::utf8::valid_utf8_concat(header(id), rest);
    let line = header(id);
    let newline = seq![10u8];
    assert(crate::wpctl::first_line(output@) == Some(line)) by {
        if rest.len() == 0 {
            assert(output@ =~= line);
            assert forall|i: int|
                0 <= i && i + newline.len() <= output@.len() implies #[trigger] output@.subrange(
                i,
                i + newline.len(),
            ) != newline by {
                assert(output@[i] == line[i]);
                assert(output@.subrange(i, i + newline.len())[0] == line[i]);
            }
            crate::text::lemma_no_position_from(output@, newline, 0);
        } else {
            let end = if rest[0] == 10 {
                line.len() as int
            } else {
                line.len() as int + 1
            };
            assert(output@[end] == rest[end - line.len()]);
            assert(output@.subrange(end, end + newline.len()) =~= newline);
            assert forall|i: int| 0 <= i < end implies #[trigger] output@.subrange(
                i,
                i + newline.len(),
            ) != newline by {
                assert(output@.subrange(i, i + newline.len())[0] == output@[i]);
                if i < line.len() {
                    assert(output@[i] == line[i]);
                } else {
                    assert(output@[i] == rest[0]);
                }
            }
            crate::text::lemma_position_from(output@, newline, 0, end);
            assert(output@[line.len() - 1] == line[line.len() - 1]);
            assert(output@.take(line.len() as int) =~= line);
        }
    }
    assert(crate::numeral::all_digits(id));
}

/// Only such a description names a source.
pub proof fn law_only_headers_name_a_source(output: &[u8], parsed: Result<SourceId, String>)
    requires
        call_ensures(crate::wpctl::parse_source_id, (output,), parsed),
        parsed is Ok,
    ensures
        parsed->Ok_0.0 > 0,
        exists|id: Seq<u8>|
            {
                &&& id.len() > 0
                &&& forall|i: int| 0 <= i < id.len() ==> 48 <= #[trigger] id[i] <= 57
                &&& crate::numeral::value_of(id) == parsed->Ok_0.0
                &&& output@.len() >= header(id).len()
                &&& output@.take(header(id).len() as int) == #[trigger] header(id)
                &&& ends_line(output@.skip(header(id).len() as int))
            },
{
    lemma_texts();
    let line = crate::wpctl::first_line(output@)->0;
    let separator = ", type ".spec_bytes();
    let body = line.skip(3);
    crate::text::law_found_patterns_are_there(body, separator, 0);
    crate::text::law_found_patterns_are_there(output@, seq![10u8], 0);
    let at = crate::text::position(body, separator)->0;
    let id = body.take(at);
    let node = body.skip(at + 7);
    assert(line =~= header(id)) by {
        assert(line.subrange(0, 3) =~= line.take(3));
        assert(body.subrange(at, at + 7) =~= separator);
        assert(body =~= id + separator + node);
        assert(line =~= line.take(3) + body);
    }
    let rest = output@.skip(line.len() as int);
    assert(output@.take(line.len() as int) =~= line);
    if let Some(end) = crate::text::position(output@, seq![10u8]) {
        assert(output@.subrange(end, end + 1)[0] == 10);
        assert(rest[end - line.len()] == 10);
    }
    assert forall|i: int| 0 <= i < id.len() implies 48 <= #[trigger] id[i] <= 57 by {
        assert(crate::numeral::is_digit(id[i]));
    }
    crate::numeral::lemma_value_bounds(id);
    assert(output@.take(header(id).len() as int) == header(id));
}

/// The command lines: what is asked about is the default source, and setting the mute state names
/// its target, and `1` exactly to mute.
pub proof fn law_command_lines_say_what_is_done(
    target: AudioTarget,
    muted: bool,
    inspect: Vec<String>,
    query: Vec<String>,
    set: Vec<String>,
)
    requires
        call_ensures(WpctlCommand::arguments, (&WpctlCommand::InspectDefault,), inspect),
        call_ensures(WpctlCommand::arguments, (&WpctlCommand::QueryDefaultVolume,), query),
        call_ensures(WpctlCommand::arguments, (&WpctlCommand::SetMute { target, muted },), set),
    ensures
        inspect@.len() == 2,
        inspect@[0]@ == "inspect"@,
        inspect@[1]@ == "@DEFAULT_AUDIO_SOURCE@"@,
        query@.len() == 2,
        query@[0]@ == "get-volume"@,
        query@[1]@ == "@DEFAULT_AUDIO_SOURCE@"@,
        set@.len() == 3,
        set@[0]@ == "set-mute"@,
        target == AudioTarget::DefaultSource ==> set@[1]@ == "@DEFAULT_AUDIO_SOURCE@"@,
        target matches AudioTarget::Source(source) ==> {
            &&& crate::numeral::value_of(set@[1]@.map_values(|digit: char| digit as u8)) == source.0
            &&& set@[1]@[0] != '0' || source.0 == 0
        },
        muted ==> set@[2]@ == "1"@,
        !muted ==> set@[2]@ == "0"@,
{
    let shown = |argument: String| argument@;
    let commands = (
        WpctlCommand::InspectDefault,
        WpctlCommand::QueryDefaultVolume,
        WpctlCommand::SetMute { target, muted },
    );
    assert(inspect@.map_values(shown) == commands.0.words());
    assert(query@.map_values(shown) == commands.1.words());
    assert(set@.map_values(shown) == commands.2.words());
    assert(inspect@.map_values(shown)[0] == inspect@[0]@);
    assert(inspect@.map_values(shown)[1] == inspect@[1]@);
    assert(query@.map_values(shown)[0] == query@[0]@);
    assert(query@.map_values(shown)[1] == query@[1]@);
    assert(set@.map_values(shown)[0] == set@[0]@);
    assert(set@.map_values(shown)[1] == set@[1]@);
    assert(set@.map_values(shown)[2] == set@[2]@);
    assert(inspect@.len() == 2 && query@.len() == 2 && set@.len() == 3);
    if let AudioTarget::Source(source) = target {
        crate::text::law_decimal_text_reads_back(source.0 as nat);
    }
}

/// An answer that is not UTF-8, of more than one line, or without the word for a volume is refused,
/// for the first of these reasons that holds.
pub proof fn law_other_answers_are_refused(
    output: &[u8],
    line: Seq<u8>,
    ended: bool,
    parsed: Result<bool, String>,
)
    requires
        call_ensures(crate::wpctl::parse_default_mute, (output,), parsed),
        ended ==> output@ == line.push(10u8),
        !ended ==> output@ == line && (line.len() > 0 ==> line[line.len() - 1] != 10),
    ensures
        !vstd::utf8::valid_utf8(output@) ==> parsed is Err && parsed->Err_0@
            == crate::wpctl::utf8_error_text(output@),
        vstd::utf8::valid_utf8(output@) && (line.contains(10u8) || line.contains(13u8))
            ==> parsed is Err && parsed->Err_0@ == "unexpected trailing output"@,
        vstd::utf8::valid_utf8(output@) && !line.contains(10u8) && !line.contains(13u8) && !(
        line.len() >= 8 && line.take(8) == "Volume: ".spec_bytes()) ==> parsed is Err
            && parsed->Err_0@ == "missing volume prefix"@,
{
    lemma_texts();
    if ended {
        assert(output@.drop_last() =~= line);
    }
    assert(crate::wpctl::without_final_newline(output@) == line);
    if line.len() >= 8 {
        assert(line.take(8) =~= line.subrange(0, 8));
    }
}

/// An answer whose volume is no number, or not a finite one, is refused for that reason; a mark
/// behind it does not count as part of the number.
pub proof fn law_improper_volumes_are_refused(
    output: &[u8],
    number: Seq<u8>,
    marked: bool,
    parsed: Result<bool, String>,
)
    requires
        call_ensures(crate::wpctl::parse_default_mute, (output,), parsed),
        forall|i: int|
            0 <= i < number.len() ==> #[trigger] number[i] < 128 && number[i] != 10 && number[i]
                != 13 && number[i] != 93,
        output@ == answer(number, marked, false),
    ensures
        crate::numeral::kind_of(number) == NumeralKind::NotNumeric ==> parsed is Err
            && parsed->Err_0@ == "volume is not numeric"@,
        crate::numeral::kind_of(number) == NumeralKind::NotFinite ==> parsed is Err
            && parsed->Err_0@ == "volume is not finite"@,
{
    if marked {
        let volume = number + " [MUTED]".spec_bytes();
        lemma_marked_volume(number);
        lemma_answer_line(volume);
        assert("Volume: ".spec_bytes() + number + " [MUTED]".spec_bytes()
            =~= "Volume: ".spec_bytes() + volume);
    } else {
        lemma_plain_volume(number);
        lemma_answer_line(number);
    }
}

/// A description without a header, or whose header names something else than a node or no proper
/// number, is refused for that reason.
pub proof fn law_improper_headers_are_refused(
    output: &[u8],
    id: Seq<u8>,
    node_type: Seq<u8>,
    parsed: Result<SourceId, String>,
)
    requires
        call_ensures(crate::wpctl::parse_source_id, (output,), parsed),
        vstd::utf8::valid_utf8(output@),
    ensures
        output@.len() == 0 ==> parsed is Err && parsed->Err_0@ == "output is empty"@,
        output@.len() > 0 && !(output@.len() >= 3 && output@.take(3) == "id ".spec_bytes())
            ==> parsed is Err && parsed->Err_0@ == "missing source identity header"@,
        ({
            let node = "PipeWire:Interface:Node".spec_bytes();
            let plain = forall|i: int|
                0 <= i < output@.len() ==> #[trigger] output@[i] != 10 && output@[i] != 13;
            let digits = forall|i: int| 0 <= i < id.len() ==> 48 <= #[trigger] id[i] <= 57;
            let no_comma = forall|i: int| 0 <= i < id.len() ==> #[trigger] id[i] != 44;
            plain && no_comma && output@ == "id ".spec_bytes() + id + ", type ".spec_bytes()
                + node_type ==> {
                &&& node_type != node ==> parsed is Err && parsed->Err_0@
                    == "default source is not a PipeWire node"@
                &&& node_type == node && (id.len() == 0 || !digits) ==> parsed is Err
                    && parsed->Err_0@ == "source ID is not numeric"@
                &&& node_type == node && id.len() > 0 && digits && crate::numeral::value_of(id)
                    > u32::MAX ==> parsed is Err && parsed->Err_0@ == "source ID is out of range"@
                &&& node_type == node && id.len() > 0 && digits && crate::numeral::value_of(id)
                    == 0 ==> parsed is Err && parsed->Err_0@ == "source ID must be positive"@
            }
        }),
{
    lemma_texts();
    let text = output@;
    let newline = seq![10u8];
    let prefix = "id ".spec_bytes();
    let separator = ", type ".spec_bytes();
    crate::text::law_found_patterns_are_there(text, newline, 0);
    if text.len() > 0 && !(text.len() >= 3 && text.take(3) == prefix) {
        let line = crate::wpctl::first_line(text)->0;
        if crate::text::has_prefix(line, prefix) {
            assert(line.subrange(0, 3)[0] == prefix[0]);
            assert(line.subrange(0, 3)[1] == prefix[1]);
            assert(line.subrange(0, 3)[2] == prefix[2]);
            assert(text.take(3) =~= prefix);
        }
    }
    if (forall|i: int| 0 <= i < text.len() ==> #[trigger] text[i] != 10 && text[i] != 13) && (
    forall|i: int| 0 <= i < id.len() ==> #[trigger] id[i] != 44) && text == prefix + id + separator
        + node_type {
        assert forall|i: int|
            0 <= i && i + newline.len() <= text.len() implies #[trigger] text.subrange(
            i,
            i + newline.len(),
        ) != newline by {
            assert(text.subrange(i, i + newline.len())[0] == text[i]);
        }
        crate::text::lemma_no_position_from(text, newline, 0);
        assert(crate::wpctl::first_line(text) == Some(text));
        assert(text.subrange(0, 3) =~= prefix);
        let rest = text.skip(3);
        let at = id.len() as int;
        assert(rest =~= id + separator + node_type);
        assert(rest.subrange(at, at + 7) =~= separator);
        assert forall|i: int| 0 <= i < at implies #[trigger] rest.subrange(
            i,
            i + separator.len(),
        ) != separator by {
            assert(rest.subrange(i, i + separator.len())[0] == rest[i]);
            assert(rest[i] == id[i]);
        }
        crate::text::lemma_position_from(rest, separator, 0, at);
        assert(rest.take(at) =~= id);
        assert(rest.skip(at + 7) =~= node_type);
        if crate::numeral::all_digits(id) {
            assert forall|i: int| 0 <= i < id.len() implies 48 <= #[trigger] id[i] <= 57 by {
                assert(crate::numeral::is_digit(id[i]));
            }
        }
    }
}

} // verus!
