use std::path::Path;

use evdev::KeyCode;
use pttd::config::{
    assemble, load, parse, parse_key, select_path, Args, Config, ConfigError, InputConfig,
    LoadError, RawConfig, RawInputConfig,
};
use pttd::fault::{IoError, IoErrorKind};
use pttd::input::{Key, ReaderConfig};
use pttd::path::{DevicePath, FilePath};
use pttd::state::DeviceId;

const VALID: &str = r#"
        [input]
        devices = ["/dev/input/pttd-mouse", "/dev/input/pttd-keyboard"]
        ptt_key = "KEY_F9"
        toggle_key = "KEY_F10"
    "#;

fn text(table: &toml::Table, field: &str) -> Result<String, String> {
    match table.get(field).and_then(toml::Value::as_str) {
        Some(value) => Ok(value.to_owned()),
        None => Err(format!("missing field `{field}`")),
    }
}

fn raw(contents: &str) -> Result<RawConfig, String> {
    let table: toml::Table = toml::from_str(contents).map_err(|error| error.to_string())?;
    let input = table
        .get("input")
        .and_then(toml::Value::as_table)
        .ok_or_else(|| "missing field `input`".to_owned())?;
    let devices = input
        .get("devices")
        .and_then(toml::Value::as_array)
        .ok_or_else(|| "missing field `devices`".to_owned())?
        .iter()
        .map(|value| device(value.as_str().unwrap()))
        .collect();
    Ok(RawConfig {
        input: RawInputConfig {
            devices,
            ptt_key: text(input, "ptt_key")?,
            toggle_key: text(input, "toggle_key")?,
        },
    })
}

fn file(path: &str) -> FilePath {
    FilePath::new(path.as_bytes())
}

/// The outcome that selects exactly those bytes.
fn exactly(selected: Result<FilePath, ConfigError>, path: &str) -> bool {
    selected.is_ok_and(|selected| selected.bytes == path.as_bytes())
}

fn device(path: &str) -> DevicePath {
    DevicePath {
        text: path.to_owned(),
    }
}

#[test]
fn override_path_wins_without_environment() {
    assert_eq!(
        select_path(Some(&file("/custom/config.toml")), None, None),
        Ok(file("/custom/config.toml"))
    );
}

#[test]
fn xdg_path_precedes_home_fallback() {
    assert_eq!(
        select_path(None, Some(b"/xdg"), Some(b"/home/user")),
        Ok(file("/xdg/pttd/config.toml"))
    );
}

#[test]
fn home_path_is_used_without_xdg() {
    assert_eq!(
        select_path(None, None, Some(b"/home/user")),
        Ok(file("/home/user/.config/pttd/config.toml"))
    );
}

#[test]
fn empty_xdg_uses_home_fallback() {
    assert_eq!(
        select_path(None, Some(b""), Some(b"/home/user")),
        Ok(file("/home/user/.config/pttd/config.toml"))
    );
}

#[test]
fn relative_xdg_uses_home_fallback() {
    assert_eq!(
        select_path(None, Some(b"relative"), Some(b"/home/user")),
        Ok(file("/home/user/.config/pttd/config.toml"))
    );
}

#[test]
fn empty_home_is_unavailable() {
    assert_eq!(
        select_path(None, Some(b"relative"), Some(b"")),
        Err(ConfigError::MissingConfigHome)
    );
}

#[test]
fn missing_environment_is_reported() {
    assert_eq!(
        select_path(None, None, None),
        Err(ConfigError::MissingConfigHome)
    );
}

#[test]
fn the_path_of_the_command_line_is_taken_as_it_is() {
    let args = Args {
        config: Some(file("/tmp/pttd.toml")),
    };
    assert_eq!(
        args.config_path(Some(b"/xdg"), Some(b"/home/user")),
        Ok(file("/tmp/pttd.toml"))
    );
    let args = Args { config: None };
    assert_eq!(
        args.config_path(Some(b"/xdg/"), Some(b"/home/user")),
        Ok(file("/xdg/pttd/config.toml"))
    );
    assert_eq!(
        args.config_path(None, None),
        Err(ConfigError::MissingConfigHome)
    );
}

#[test]
fn joined_paths_are_those_of_the_standard_library() {
    for base in ["/", "/xdg", "/xdg/", "/xdg//", "//x", "/a b"] {
        let expected = Path::new(base).join("pttd/config.toml");
        assert_eq!(
            select_path(None, Some(base.as_bytes()), None),
            Ok(file(expected.to_str().unwrap()))
        );
    }
    for home in ["home", "home/", ".", "/"] {
        let expected = Path::new(home).join(".config/pttd/config.toml");
        assert_eq!(
            select_path(None, None, Some(home.as_bytes())),
            Ok(file(expected.to_str().unwrap()))
        );
    }
}

#[test]
fn symbolic_keys_are_parsed() {
    let config = parse(raw(VALID)).unwrap();
    assert_eq!(
        config.input.devices,
        [
            device("/dev/input/pttd-mouse"),
            device("/dev/input/pttd-keyboard")
        ]
    );
    assert_eq!(config.input.ptt_key, Key(KeyCode::KEY_F9.code()));
    assert_eq!(config.input.toggle_key, Key(KeyCode::KEY_F10.code()));
}

#[test]
fn invalid_symbolic_key_is_rejected() {
    let invalid = VALID.replace("KEY_F9", "NOT_A_KEY");
    assert_eq!(
        parse(raw(&invalid)),
        Err(ConfigError::InvalidKey {
            field: "ptt_key",
            value: "NOT_A_KEY".into()
        })
    );
}

#[test]
fn equal_keys_are_rejected() {
    let equal = VALID.replace("KEY_F10", "KEY_F9");
    assert_eq!(parse(raw(&equal)), Err(ConfigError::EqualKeys));
}

#[test]
fn empty_device_list_is_rejected() {
    let empty = VALID.replace(
        "[\"/dev/input/pttd-mouse\", \"/dev/input/pttd-keyboard\"]",
        "[]",
    );
    assert_eq!(parse(raw(&empty)), Err(ConfigError::EmptyDevices));
}

#[test]
fn exact_duplicate_device_paths_are_rejected() {
    let duplicate = VALID.replace("\"/dev/input/pttd-keyboard\"", "\"/dev/input/pttd-mouse\"");
    assert_eq!(
        parse(raw(&duplicate)),
        Err(ConfigError::DuplicateDevice(device(
            "/dev/input/pttd-mouse"
        )))
    );
}

#[test]
fn old_single_device_names_are_not_supported() {
    let old = r#"
            [input]
            device_path = "/dev/input/pttd"
            talk_key = "KEY_F9"
            mode_key = "KEY_F10"
        "#;
    assert!(matches!(parse(raw(old)), Err(ConfigError::Toml(_))));
}

#[test]
fn an_invalid_toggle_key_is_named() {
    let invalid = VALID.replace("KEY_F10", "F10");
    assert_eq!(
        parse(raw(&invalid)),
        Err(ConfigError::InvalidKey {
            field: "toggle_key",
            value: "F10".into()
        })
    );
}

#[test]
fn the_first_thing_wrong_is_reported() {
    let devices = |names: &[&str]| -> Vec<DevicePath> {
        names.iter().map(|name| device(name)).collect()
    };
    let bad = |field: &'static str| parse_key(field, "no key".to_owned());
    let good = |code: u16| Ok(Key(code));
    assert_eq!(
        assemble(devices(&[]), bad("ptt_key"), bad("toggle_key")),
        Err(ConfigError::EmptyDevices)
    );
    assert_eq!(
        assemble(devices(&["/a", "/b", "/b", "/a"]), bad("ptt_key"), good(1)),
        Err(ConfigError::DuplicateDevice(device("/b")))
    );
    assert_eq!(
        assemble(devices(&["/a"]), bad("ptt_key"), bad("toggle_key")),
        Err(ConfigError::InvalidKey {
            field: "ptt_key",
            value: "no key".to_owned()
        })
    );
    assert_eq!(
        assemble(devices(&["/a"]), good(1), bad("toggle_key")),
        Err(ConfigError::InvalidKey {
            field: "toggle_key",
            value: "no key".to_owned()
        })
    );
    assert_eq!(
        assemble(devices(&["/a", "/b"]), good(1), good(1)),
        Err(ConfigError::EqualKeys)
    );
    assert_eq!(
        assemble(devices(&["/a", "/b"]), good(1), good(2)),
        Ok(Config {
            input: InputConfig {
                devices: devices(&["/a", "/b"]),
                ptt_key: Key(1),
                toggle_key: Key(2),
            }
        })
    );
}

#[test]
fn keys_are_looked_up_by_their_exact_names() {
    for (name, code) in [
        ("KEY_F9", KeyCode::KEY_F9),
        ("KEY_RESERVED", KeyCode::KEY_RESERVED),
        ("BTN_LEFT", KeyCode::BTN_LEFT),
    ] {
        assert_eq!(parse_key("ptt_key", name.to_owned()), Ok(Key(code.code())));
    }
    for name in ["", "key_f9", "KEY_F9 ", "67"] {
        assert_eq!(
            parse_key("ptt_key", name.to_owned()),
            Err(ConfigError::InvalidKey {
                field: "ptt_key",
                value: name.to_owned()
            })
        );
    }
}

#[test]
fn differently_written_paths_are_told_apart_like_the_standard_library_does() {
    let paths = [
        "", "/", "//", ".", "./", "./.", "..", "../", "a", "a/", "a/.", "a//", "./a", "././a",
        "/a", "//a", "/./a", "/a/", "/a/b", "/a//b", "/a/./b", "/a/b/", "/a/b/.", "/a/../b",
        "a/b", "./a/b", "a/./b", "/.a", "/a.", ".a", "/a/..", "/...", "a/.b",
    ];
    for left in paths {
        for right in paths {
            let result = assemble(
                vec![device(left), device(right)],
                Ok(Key(1)),
                Ok(Key(2)),
            );
            let equal = Path::new(left) == Path::new(right);
            assert_eq!(device(left) == device(right), equal, "{left:?} {right:?}");
            assert_eq!(file(left) == file(right), equal, "{left:?} {right:?}");
            if equal {
                let Err(ConfigError::DuplicateDevice(repeated)) = result else {
                    panic!("{left:?} and {right:?} are taken for two devices");
                };
                assert_eq!(repeated.text, right);
            } else {
                assert!(result.is_ok(), "{left:?} {right:?}");
            }
        }
    }
}

#[test]
fn loading_tells_where_it_failed() {
    let error = load(
        "/etc/pttd.toml".to_owned(),
        Err(IoError::new(IoErrorKind::Other, "no such file")),
    )
    .unwrap_err();
    assert!(matches!(error, LoadError::Read { .. }));
    assert_eq!(
        error.message(),
        "could not read /etc/pttd.toml: no such file"
    );
    let error = load("/etc/pttd.toml".to_owned(), Ok(Err("bad".to_owned()))).unwrap_err();
    assert!(matches!(error, LoadError::Parse(ConfigError::Toml(_))));
    assert_eq!(error.message(), "invalid configuration: bad");
    let equal = VALID.replace("KEY_F10", "KEY_F9");
    let error = load("/etc/pttd.toml".to_owned(), Ok(raw(&equal))).unwrap_err();
    assert_eq!(
        error.message(),
        "ptt_key and toggle_key must be different"
    );
    let config = load("/etc/pttd.toml".to_owned(), Ok(raw(VALID))).unwrap();
    assert_eq!(config.input.devices.len(), 2);
}

#[test]
fn configuration_errors_are_described() {
    for (error, message) in [
        (
            ConfigError::MissingConfigHome,
            "neither XDG_CONFIG_HOME nor HOME is set",
        ),
        (
            ConfigError::Toml("odd".to_owned()),
            "invalid configuration: odd",
        ),
        (
            ConfigError::InvalidKey {
                field: "ptt_key",
                value: "F9".to_owned(),
            },
            "invalid symbolic key name for ptt_key: F9",
        ),
        (ConfigError::EmptyDevices, "input.devices must not be empty"),
        (
            ConfigError::DuplicateDevice(device("/dev/x")),
            "duplicate input device path: /dev/x",
        ),
        (
            ConfigError::EqualKeys,
            "ptt_key and toggle_key must be different",
        ),
    ] {
        assert_eq!(error.message(), message);
    }
}

#[test]
fn equal_configurations_may_be_written_differently() {
    let config = |path: &str| Config {
        input: InputConfig {
            devices: vec![device(path)],
            ptt_key: Key(1),
            toggle_key: Key(2),
        },
    };
    assert_eq!(config("/a//b"), config("/a/./b/"));
    assert_ne!(config("/a/b"), config("/a/c"));
    assert_eq!(
        ConfigError::DuplicateDevice(device("/a//b")),
        ConfigError::DuplicateDevice(device("/a/b"))
    );
    assert_ne!(
        ConfigError::DuplicateDevice(device("/a")),
        ConfigError::DuplicateDevice(device("a"))
    );
    let reader = |path: &str| ReaderConfig {
        device: DeviceId(0),
        path: device(path),
        ptt_key: Key(1),
        toggle_key: Key(2),
    };
    assert_eq!(reader("/a//b"), reader("/a/b").clone());
    assert_ne!(reader("/a/b"), reader("/a"));
    assert_eq!(file("/a//b").clone().bytes, b"/a//b");
    assert_eq!(device("/a//b").clone().text, "/a//b");
}

#[test]
fn a_selected_path_is_kept_letter_for_letter() {
    assert!(exactly(
        select_path(Some(&file("a//b/./c")), Some(b"/xdg"), None),
        "a//b/./c"
    ));
    assert!(exactly(
        select_path(None, Some(b"/xdg//"), None),
        "/xdg//pttd/config.toml"
    ));
    assert!(exactly(
        select_path(None, Some(b"/xdg"), None),
        "/xdg/pttd/config.toml"
    ));
    assert!(exactly(
        select_path(None, None, Some(b"home")),
        "home/.config/pttd/config.toml"
    ));
}
