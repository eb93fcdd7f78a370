//! Where the configuration is found, and what it has to say.

use vstd::prelude::*;
use vstd::string::*;

use crate::fault::IoError;
use crate::input::Key;
use crate::path::{DevicePath, FilePath};

verus! {

/// The command line.
#[derive(Debug)]
pub struct Args {
    /// The path given by `--config`.
    pub config: Option<FilePath>,
}

/// The configuration as it is written.
#[derive(Debug)]
pub struct RawConfig {
    pub input: RawInputConfig,
}

#[derive(Debug)]
pub struct RawInputConfig {
    pub devices: Vec<DevicePath>,
    pub ptt_key: String,
    pub toggle_key: String,
}

/// A configuration that can be used.
#[derive(Debug, PartialEq, Eq)]
pub struct Config {
    pub input: InputConfig,
}

#[derive(Debug, PartialEq, Eq)]
pub struct InputConfig {
    pub devices: Vec<DevicePath>,
    pub ptt_key: Key,
    pub toggle_key: Key,
}

/// Why a configuration cannot be used.
#[derive(Debug, PartialEq, Eq)]
pub enum ConfigError {
    MissingConfigHome,
    Toml(String),
    InvalidKey { field: &'static str, value: String },
    EmptyDevices,
    DuplicateDevice(DevicePath),
    EqualKeys,
}

/// Why a configuration cannot be loaded.
#[derive(Debug)]
pub enum LoadError {
    Read { path: String, source: IoError },
    Parse(ConfigError),
}

impl ConfigError {
    /// The description of the error.
    pub open spec fn text(self) -> Seq<char> {
        match self {
            ConfigError::MissingConfigHome => "neither XDG_CONFIG_HOME nor HOME is set"@,
            ConfigError::Toml(error) => "invalid configuration: "@ + error@,
            ConfigError::InvalidKey { field, value } => "invalid symbolic key name for "@ + field@
                + ": "@ + value@,
            ConfigError::EmptyDevices => "input.devices must not be empty"@,
            ConfigError::DuplicateDevice(path) => "duplicate input device path: "@ + path.text@,
            ConfigError::EqualKeys => "ptt_key and toggle_key must be different"@,
        }
    }

    /// Describes the error.
    pub fn message(&self) -> (message: String)
        ensures
            message@ == self.text(),
    {
        match self {
            ConfigError::MissingConfigHome => "neither XDG_CONFIG_HOME nor HOME is set".to_owned(),
            ConfigError::Toml(error) => "invalid configuration: ".to_owned().concat(
                error.as_str(),
            ),
            ConfigError::InvalidKey { field, value } =>
            "invalid symbolic key name for ".to_owned().concat(field).concat(": ").concat(
                value.as_str(),
            ),
            ConfigError::EmptyDevices => "input.devices must not be empty".to_owned(),
            ConfigError::DuplicateDevice(path) => "duplicate input device path: ".to_owned().concat(
                path.text.as_str(),
            ),
            ConfigError::EqualKeys => "ptt_key and toggle_key must be different".to_owned(),
        }
    }
}

impl LoadError {
    /// The description of the error.
    pub open spec fn text(self) -> Seq<char> {
        match self {
            LoadError::Read { path, source } => "could not read "@ + path@ + ": "@
                + source.message@,
            LoadError::Parse(error) => error.text(),
        }
    }

    /// Describes the error.
    pub fn message(&self) -> (message: String)
        ensures
            message@ == self.text(),
    {
        match self {
            LoadError::Read { path, source } => "could not read ".to_owned().concat(
                path.as_str(),
            ).concat(": ").concat(source.message.as_str()),
            LoadError::Parse(error) => error.message(),
        }
    }
}

/// Where the configuration is found: where the command line says, or else below an absolute
/// configuration home, or else below a home that is not empty.
pub open spec fn selected_path(
    override_path: Option<Seq<u8>>,
    xdg_config_home: Option<Seq<u8>>,
    home: Option<Seq<u8>>,
) -> Option<Seq<u8>> {
    if override_path is Some {
        override_path
    } else if xdg_config_home is Some && crate::path::is_absolute(xdg_config_home->0) {
        Some(crate::path::joined(xdg_config_home->0, "pttd/config.toml".spec_bytes()))
    } else if home is Some && home->0.len() > 0 {
        Some(crate::path::joined(home->0, ".config/pttd/config.toml".spec_bytes()))
    } else {
        None
    }
}

/// The bytes of a byte string, if there is one.
pub open spec fn bytes_of(text: Option<&[u8]>) -> Option<Seq<u8>> {
    match text {
        Some(text) => Some(text@),
        None => None,
    }
}

/// Finds the path of the configuration.
pub fn select_path(
    override_path: Option<&FilePath>,
    xdg_config_home: Option<&[u8]>,
    home: Option<&[u8]>,
) -> (path: Result<FilePath, ConfigError>)
    ensures
        match selected_path(
            match override_path {
                Some(path) => Some(path.bytes@),
                None => None,
            },
            bytes_of(xdg_config_home),
            bytes_of(home),
        ) {
            Some(selected) => path matches Ok(path) && path.bytes@ == selected,
            None => path == Err::<FilePath, ConfigError>(ConfigError::MissingConfigHome),
        },
{
    if let Some(path) = override_path {
        return Ok(FilePath::new(path.bytes.as_slice()));
    }
    if let Some(base) = xdg_config_home {
        if base.len() > 0 && base[0] == 47 {
            return Ok(FilePath::join(base, "pttd/config.toml"));
        }
    }
    if let Some(base) = home {
        if base.len() > 0 {
            return Ok(FilePath::join(base, ".config/pttd/config.toml"));
        }
    }
    Err(ConfigError::MissingConfigHome)
}

impl Args {
    /// Finds the path of the configuration, given the configuration home and the home of the user.
    pub fn config_path(&self, xdg_config_home: Option<&[u8]>, home: Option<&[u8]>) -> (path: Result<
        FilePath,
        ConfigError,
    >)
        ensures
            match selected_path(
                match self.config {
                    Some(config) => Some(config.bytes@),
                    None => None,
                },
                bytes_of(xdg_config_home),
                bytes_of(home),
            ) {
                Some(selected) => path matches Ok(path) && path.bytes@ == selected,
                None => path == Err::<FilePath, ConfigError>(ConfigError::MissingConfigHome),
            },
    {
        match &self.config {
            Some(config) => select_path(Some(config), xdg_config_home, home),
            None => select_path(None, xdg_config_home, home),
        }
    }
}

/// Whether the device of that index is the same path as an earlier one.
pub open spec fn repeats(devices: Seq<DevicePath>, index: int) -> bool {
    exists|earlier: int|
        0 <= earlier < index && (#[trigger] devices[earlier]).parts() == devices[index].parts()
}

/// The index of the first device, from `from` on, that is the same path as an earlier one.
pub open spec fn repetition_from(devices: Seq<DevicePath>, from: int) -> Option<int>
    decreases devices.len() - from,
{
    if from < 0 || from >= devices.len() {
        None
    } else if repeats(devices, from) {
        Some(from)
    } else {
        repetition_from(devices, from + 1)
    }
}

fn is_repeated(devices: &Vec<DevicePath>, index: usize) -> (repeated: bool)
    requires
        index < devices.len(),
    ensures
        repeated == repeats(devices@, index as int),
{
    let mut earlier: usize = 0;
    while earlier < index
        invariant
            earlier <= index,
            index < devices.len(),
            forall|i: int|
                0 <= i < earlier ==> (#[trigger] devices@[i]).parts() != devices@[
                    index as int
                ].parts(),
        decreases index - earlier,
    {
        if devices[earlier] == devices[index] {
            assert(devices@[earlier as int].parts() == devices@[index as int].parts());
            return true;
        }
        earlier += 1;
    }
    false
}

fn find_repetition(devices: &Vec<DevicePath>) -> (found: Option<usize>)
    ensures
        match found {
            Some(index) => repetition_from(devices@, 0) == Some(index as int) && index
                < devices.len(),
            None => repetition_from(devices@, 0) is None,
        },
{
    let mut index: usize = 0;
    while index < devices.len()
        invariant
            index <= devices.len(),
            repetition_from(devices@, 0) == repetition_from(devices@, index as int),
        decreases devices.len() - index,
    {
        if is_repeated(devices, index) {
            return Some(index);
        }
        index += 1;
    }
    None
}

/// What is wrong with a configuration, or else its two keys.
pub open spec fn verdict(
    devices: Seq<DevicePath>,
    ptt_key: Result<Key, ConfigError>,
    toggle_key: Result<Key, ConfigError>,
) -> Result<(Key, Key), ConfigError> {
    if devices.len() == 0 {
        Err(ConfigError::EmptyDevices)
    } else {
        match repetition_from(devices, 0) {
            Some(index) => Err(ConfigError::DuplicateDevice(devices[index])),
            None => match (ptt_key, toggle_key) {
                (Err(error), _) => Err(error),
                (_, Err(error)) => Err(error),
                (Ok(ptt_key), Ok(toggle_key)) => if ptt_key == toggle_key {
                    Err(ConfigError::EqualKeys)
                } else {
                    Ok((ptt_key, toggle_key))
                },
            },
        }
    }
}

/// Whether a result is the verdict on a configuration of those devices.
pub open spec fn follows(
    result: Result<Config, ConfigError>,
    devices: Seq<DevicePath>,
    verdict: Result<(Key, Key), ConfigError>,
) -> bool {
    match verdict {
        Ok((ptt_key, toggle_key)) => {
            &&& result matches Ok(config)
            &&& config.input.devices@ == devices
            &&& config.input.ptt_key == ptt_key
            &&& config.input.toggle_key == toggle_key
        },
        Err(error) => result == Err::<Config, ConfigError>(error),
    }
}

/// Makes a configuration of its devices and of what its key names stand for.
pub fn assemble(
    devices: Vec<DevicePath>,
    ptt_key: Result<Key, ConfigError>,
    toggle_key: Result<Key, ConfigError>,
) -> (result: Result<Config, ConfigError>)
    ensures
        follows(result, devices@, verdict(devices@, ptt_key, toggle_key)),
{
    if devices.len() == 0 {
        return Err(ConfigError::EmptyDevices);
    }
    if let Some(index) = find_repetition(&devices) {
        return Err(ConfigError::DuplicateDevice(devices[index].clone()));
    }
    let ptt_key = match ptt_key {
        Ok(key) => key,
        Err(error) => return Err(error),
    };
    let toggle_key = match toggle_key {
        Ok(key) => key,
        Err(error) => return Err(error),
    };
    if ptt_key == toggle_key {
        return Err(ConfigError::EqualKeys);
    }
    Ok(Config { input: InputConfig { devices, ptt_key, toggle_key } })
}

/// The error of the `evdev` crate for a name that is not a key's.
#[verifier::external_type_specification]
#[verifier::external_body]
pub struct ExEnumParseError(evdev::EnumParseError);

/// The code of the key that the `evdev` crate knows by a symbolic name.
pub uninterp spec fn named_key(name: Seq<char>) -> Option<u16>;

/// Calls the `FromStr` implementation of `evdev::KeyCode`, which looks the name up in a fixed
/// table. What it finds there goes by a name; it fails exactly for the names that are not in it.
#[verifier::external_body]
fn key_code(name: &str) -> (code: Result<u16, evdev::EnumParseError>)
    ensures
        match code {
            Ok(code) => named_key(name@) == Some(code),
            Err(_) => named_key(name@) is None,
        },
{
    name.parse::<evdev::KeyCode>().map(|key| key.code())
}

/// What the name of a key stands for.
pub open spec fn key_of(field: &'static str, value: String) -> Result<Key, ConfigError> {
    match named_key(value@) {
        Some(code) => Ok(Key(code)),
        None => Err(ConfigError::InvalidKey { field, value }),
    }
}

/// Looks up a key by its symbolic name.
pub fn parse_key(field: &'static str, value: String) -> (key: Result<Key, ConfigError>)
    ensures
        key == key_of(field, value),
{
    match key_code(value.as_str()) {
        Ok(code) => Ok(Key(code)),
        Err(_) => Err(ConfigError::InvalidKey { field, value }),
    }
}

/// Makes a configuration of what is written, or of the description of what is wrong with its
/// syntax.
pub fn parse(raw: Result<RawConfig, String>) -> (result: Result<Config, ConfigError>)
    ensures
        match raw {
            Ok(raw) => follows(
                result,
                raw.input.devices@,
                verdict(
                    raw.input.devices@,
                    key_of("ptt_key", raw.input.ptt_key),
                    key_of("toggle_key", raw.input.toggle_key),
                ),
            ),
            Err(error) => result == Err::<Config, ConfigError>(ConfigError::Toml(error)),
        },
{
    match raw {
        Ok(raw) => {
            let ptt_key = parse_key("ptt_key", raw.input.ptt_key);
            let toggle_key = parse_key("toggle_key", raw.input.toggle_key);
            assemble(raw.input.devices, ptt_key, toggle_key)
        },
        Err(error) => Err(ConfigError::Toml(error)),
    }
}

/// Makes a configuration of what the file at a path holds, or of the failure to read it.
pub fn load(path: String, contents: Result<Result<RawConfig, String>, IoError>) -> (result: Result<
    Config,
    LoadError,
>)
    ensures
        match contents {
            Err(source) => result == Err::<Config, LoadError>(LoadError::Read { path, source }),
            Ok(Err(error)) => result == Err::<Config, LoadError>(
                LoadError::Parse(ConfigError::Toml(error)),
            ),
            Ok(Ok(raw)) => match verdict(
                raw.input.devices@,
                key_of("ptt_key", raw.input.ptt_key),
                key_of("toggle_key", raw.input.toggle_key),
            ) {
                Ok((ptt_key, toggle_key)) => {
                    &&& result matches Ok(config)
                    &&& config.input.devices@ == raw.input.devices@
                    &&& config.input.ptt_key == ptt_key
                    &&& config.input.toggle_key == toggle_key
                },
                Err(error) => result == Err::<Config, LoadError>(LoadError::Parse(error)),
            },
        },
{
    match contents {
        Err(source) => Err(LoadError::Read { path, source }),
        Ok(raw) => match parse(raw) {
            Ok(config) => Ok(config),
            Err(error) => Err(LoadError::Parse(error)),
        },
    }
}

proof fn lemma_no_repetition(devices: Seq<DevicePath>, from: int, index: int)
    requires
        0 <= from <= index < devices.len(),
        repetition_from(devices, from) is None,
    ensures
        !repeats(devices, index),
    decreases index - from,
{
    if from < index {
        lemma_no_repetition(devices, from + 1, index);
    }
}

/// A configuration that is accepted names at least one device, no device twice, and two different
/// keys.
pub proof fn law_accepted_configurations_are_proper(
    devices: Seq<DevicePath>,
    ptt_key: Result<Key, ConfigError>,
    toggle_key: Result<Key, ConfigError>,
)
    requires
        verdict(devices, ptt_key, toggle_key) is Ok,
    ensures
        devices.len() > 0,
        forall|i: int, j: int|
            0 <= i < j < devices.len() ==> (#[trigger] devices[i]).parts() != (
            #[trigger] devices[j]).parts(),
        ptt_key is Ok,
        toggle_key is Ok,
        ptt_key != toggle_key,
{
    assert forall|i: int, j: int| 0 <= i < j < devices.len() implies (
    #[trigger] devices[i]).parts() != (#[trigger] devices[j]).parts() by {
        lemma_no_repetition(devices, 0, j);
    }
}

proof fn lemma_all_different(devices: Seq<DevicePath>, from: int)
    requires
        0 <= from,
        forall|i: int, j: int|
            0 <= i < j < devices.len() ==> (#[trigger] devices[i]).parts() != (
            #[trigger] devices[j]).parts(),
    ensures
        repetition_from(devices, from) is None,
    decreases devices.len() - from,
{
    if from < devices.len() {
        lemma_all_different(devices, from + 1);
    }
}

/// A configuration of at least one device, no device twice, and two different keys is accepted with
/// just these devices, the push-to-talk key as push-to-talk key and the toggle key as toggle key,
/// whatever keys they are.
pub proof fn law_proper_configurations_are_accepted(
    devices: Vec<DevicePath>,
    ptt_key: Key,
    toggle_key: Key,
    result: Result<Config, ConfigError>,
)
    requires
        call_ensures(assemble, (devices, Ok(ptt_key), Ok(toggle_key)), result),
        devices@.len() > 0,
        forall|i: int, j: int|
            0 <= i < j < devices@.len() ==> (#[trigger] devices@[i]).parts() != (
            #[trigger] devices@[j]).parts(),
        ptt_key.0 != toggle_key.0,
    ensures
        result is Ok,
        result->Ok_0.input.ptt_key == ptt_key,
        result->Ok_0.input.toggle_key == toggle_key,
        result->Ok_0.input.devices@ == devices@,
{
    lemma_all_different(devices@, 0);
}

/// Exchanging the two keys of a configuration exchanges them in what is accepted, and changes
/// nothing else.
pub proof fn law_exchanged_keys_are_exchanged(
    devices: Vec<DevicePath>,
    one: Key,
    other: Key,
    result: Result<Config, ConfigError>,
    exchanged: Result<Config, ConfigError>,
)
    requires
        call_ensures(assemble, (devices, Ok(one), Ok(other)), result),
        call_ensures(assemble, (devices, Ok(other), Ok(one)), exchanged),
    ensures
        result is Ok <==> exchanged is Ok,
        result matches Ok(config) ==> {
            &&& exchanged->Ok_0.input.ptt_key == config.input.toggle_key
            &&& exchanged->Ok_0.input.toggle_key == config.input.ptt_key
            &&& exchanged->Ok_0.input.devices@ == config.input.devices@
            &&& config.input.ptt_key == one
        },
        result is Err ==> result == exchanged,
{
}

/// A written configuration is accepted with the key that the name of each stands for, in its place.
pub proof fn law_key_names_keep_their_places(
    raw: RawConfig,
    ptt_code: u16,
    toggle_code: u16,
    result: Result<Config, ConfigError>,
)
    requires
        call_ensures(parse, (Ok(raw),), result),
        named_key(raw.input.ptt_key@) == Some(ptt_code),
        named_key(raw.input.toggle_key@) == Some(toggle_code),
        ptt_code != toggle_code,
        raw.input.devices@.len() > 0,
        forall|i: int, j: int|
            0 <= i < j < raw.input.devices@.len() ==> (#[trigger] raw.input.devices@[i]).parts()
                != (#[trigger] raw.input.devices@[j]).parts(),
    ensures
        result is Ok,
        result->Ok_0.input.ptt_key.0 == ptt_code,
        result->Ok_0.input.toggle_key.0 == toggle_code,
        result->Ok_0.input.devices@ == raw.input.devices@,
{
    lemma_all_different(raw.input.devices@, 0);
}

proof fn lemma_first_repetition(devices: Seq<DevicePath>, from: int, index: int)
    requires
        0 <= from <= index < devices.len(),
        exists|earlier: int|
            0 <= earlier < index && (#[trigger] devices[earlier]).parts() == devices[index].parts(),
        forall|i: int, j: int|
            0 <= i < j < index ==> (#[trigger] devices[i]).parts() != (
            #[trigger] devices[j]).parts(),
    ensures
        repetition_from(devices, from) == Some(index),
    decreases index - from,
{
    if from < index {
        lemma_first_repetition(devices, from + 1, index);
    }
}

/// A written configuration is refused for the first thing that is wrong with it: its syntax, no
/// device, the first device that repeats an earlier one, a name that is no key's, or one key for
/// both functions.
pub proof fn law_improper_configurations_are_refused(
    raw: RawConfig,
    result: Result<Config, ConfigError>,
    syntax: String,
    unreadable: Result<Config, ConfigError>,
    index: int,
)
    requires
        call_ensures(parse, (Ok(raw),), result),
        call_ensures(parse, (Err(syntax),), unreadable),
    ensures
        unreadable == Err::<Config, ConfigError>(ConfigError::Toml(syntax)),
        raw.input.devices@.len() == 0 ==> result == Err::<Config, ConfigError>(
            ConfigError::EmptyDevices,
        ),
        ({
            let devices = raw.input.devices@;
            &&& 0 <= index < devices.len()
            &&& exists|earlier: int|
                0 <= earlier < index && (#[trigger] devices[earlier]).parts()
                    == devices[index].parts()
            &&& forall|i: int, j: int|
                0 <= i < j < index ==> (#[trigger] devices[i]).parts() != (
                #[trigger] devices[j]).parts()
        }) ==> result == Err::<Config, ConfigError>(
            ConfigError::DuplicateDevice(raw.input.devices@[index]),
        ),
        ({
            let devices = raw.input.devices@;
            &&& devices.len() > 0
            &&& forall|i: int, j: int|
                0 <= i < j < devices.len() ==> (#[trigger] devices[i]).parts() != (
                #[trigger] devices[j]).parts()
        }) ==> {
            let ptt_key = named_key(raw.input.ptt_key@);
            let toggle_key = named_key(raw.input.toggle_key@);
            &&& ptt_key is None ==> result == Err::<Config, ConfigError>(
                ConfigError::InvalidKey { field: "ptt_key", value: raw.input.ptt_key },
            )
            &&& ptt_key is Some && toggle_key is None ==> result == Err::<Config, ConfigError>(
                ConfigError::InvalidKey { field: "toggle_key", value: raw.input.toggle_key },
            )
            &&& ptt_key is Some && toggle_key == ptt_key ==> result == Err::<Config, ConfigError>(
                ConfigError::EqualKeys,
            )
        },
{
    let devices = raw.input.devices@;
    if 0 <= index < devices.len() && (exists|earlier: int|
        0 <= earlier < index && (#[trigger] devices[earlier]).parts() == devices[index].parts())
        && (forall|i: int, j: int|
        0 <= i < j < index ==> (#[trigger] devices[i]).parts() != (#[trigger] devices[j]).parts()) {
        lemma_first_repetition(devices, 0, index);
    }
    if forall|i: int, j: int|
        0 <= i < j < devices.len() ==> (#[trigger] devices[i]).parts() != (
        #[trigger] devices[j]).parts() {
        lemma_all_different(devices, 0);
    }
}

/// Loading a file that can be read comes to parsing what it holds, and a file that cannot be read
/// is refused with its path and the failure.
pub proof fn law_loading_is_reading_and_parsing(
    path: String,
    raw: Result<RawConfig, String>,
    failure: IoError,
    loaded: Result<Config, LoadError>,
    parsed: Result<Config, ConfigError>,
    missing: Result<Config, LoadError>,
)
    requires
        call_ensures(load, (path, Ok(raw)), loaded),
        call_ensures(parse, (raw,), parsed),
        call_ensures(load, (path, Err(failure)), missing),
    ensures
        match parsed {
            Ok(config) => {
                &&& loaded matches Ok(other)
                &&& other.input.devices@ == config.input.devices@
                &&& other.input.ptt_key == config.input.ptt_key
                &&& other.input.toggle_key == config.input.toggle_key
            },
            Err(error) => loaded == Err::<Config, LoadError>(LoadError::Parse(error)),
        },
        missing == Err::<Config, LoadError>(LoadError::Read { path, source: failure }),
{
}

/// A path on the command line is taken as it is, whatever the environment says.
pub proof fn law_given_path_is_taken(
    given: FilePath,
    xdg_config_home: Option<&[u8]>,
    home: Option<&[u8]>,
    path: Result<FilePath, ConfigError>,
)
    requires
        call_ensures(select_path, (Some(&given), xdg_config_home, home), path),
    ensures
        path is Ok,
        path->Ok_0.bytes@ == given.bytes@,
{
}

/// Without a given path the configuration stands below a configuration home that begins with a
/// slash, or else below a home that is not empty, and otherwise nowhere.
pub proof fn law_homes_are_tried_in_order(
    xdg_config_home: Option<&[u8]>,
    home: Option<&[u8]>,
    path: Result<FilePath, ConfigError>,
)
    requires
        call_ensures(select_path, (None::<&FilePath>, xdg_config_home, home), path),
    ensures
        ({
            let xdg_counts = xdg_config_home is Some && xdg_config_home->0@.len() > 0
                && xdg_config_home->0@[0] == 47;
            let home_counts = home is Some && home->0@.len() > 0;
            let slash = "/".spec_bytes();
            &&& path is Ok <==> xdg_counts || home_counts
            &&& path is Err ==> path == Err::<FilePath, ConfigError>(ConfigError::MissingConfigHome)
            &&& xdg_counts ==> path->Ok_0.bytes@ == if xdg_config_home->0@.last() == 47 {
                xdg_config_home->0@ + "pttd/config.toml".spec_bytes()
            } else {
                xdg_config_home->0@ + slash + "pttd/config.toml".spec_bytes()
            }
            &&& !xdg_counts && home_counts ==> path->Ok_0.bytes@ == if home->0@.last() == 47 {
                home->0@ + ".config/pttd/config.toml".spec_bytes()
            } else {
                home->0@ + slash + ".config/pttd/config.toml".spec_bytes()
            }
        }),
{
    reveal_strlit("/");
    is_ascii_spec_bytes("/");
    assert("/".spec_bytes() =~= seq![47u8]);
}

/// The arguments lead to the path that their own path, if any, and the environment select.
pub proof fn law_arguments_select_the_path(
    args: Args,
    xdg_config_home: Option<&[u8]>,
    home: Option<&[u8]>,
    path: Result<FilePath, ConfigError>,
    selected: Result<FilePath, ConfigError>,
)
    requires
        call_ensures(Args::config_path, (&args, xdg_config_home, home), path),
        call_ensures(
            select_path,
            (
                match args.config {
                    Some(config) => Some(&config),
                    None => None,
                },
                xdg_config_home,
                home,
            ),
            selected,
        ),
    ensures
        path is Ok <==> selected is Ok,
        path matches Ok(path) ==> path.bytes@ == selected->Ok_0.bytes@,
        path is Err ==> path == selected,
{
}

} // verus!
