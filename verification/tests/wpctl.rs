use pttd::audio::{is_fatal, AudioError, SourceId, WorkerError};
use pttd::fault::{IoError, IoErrorKind};
use pttd::wpctl::{parse_default_mute, parse_source_id, AudioTarget, WpctlCommand};

fn io_error(message: &str) -> IoError {
    IoError::new(IoErrorKind::Other, message)
}

#[test]
fn strict_parsers_are_retained() {
    assert_eq!(
        parse_source_id(b"id 57, type PipeWire:Interface:Node\n"),
        Ok(SourceId(57))
    );
    assert!(parse_source_id(b"id 0, type PipeWire:Interface:Node").is_err());
    assert_eq!(parse_default_mute(b"Volume: 0.4 [MUTED]\n"), Ok(true));
    assert_eq!(parse_default_mute(b"Volume: 0.4\n"), Ok(false));
    assert!(parse_default_mute(b"Volume: 0.4\nextra").is_err());
}

#[test]
fn only_the_first_line_names_the_source() {
    assert_eq!(
        parse_source_id(b"id 42, type PipeWire:Interface:Node\r\n  volume = 1\n"),
        Ok(SourceId(42))
    );
    assert_eq!(
        parse_source_id(b"id 4294967295, type PipeWire:Interface:Node"),
        Ok(SourceId(4_294_967_295))
    );
    assert_eq!(
        parse_source_id(b"id 007, type PipeWire:Interface:Node"),
        Ok(SourceId(7))
    );
}

#[test]
fn unreadable_sources_are_told_apart() {
    for (output, message) in [
        (&b""[..], "output is empty"),
        (&b"\n"[..], "missing source identity header"),
        (&b"node 57, type PipeWire:Interface:Node"[..], "missing source identity header"),
        (&b"id 57 type PipeWire:Interface:Node"[..], "missing source identity header"),
        (&b"id 57, type PipeWire:Interface:Port"[..], "default source is not a PipeWire node"),
        (&b"id , type PipeWire:Interface:Node"[..], "source ID is not numeric"),
        (&b"id +7, type PipeWire:Interface:Node"[..], "source ID is not numeric"),
        (&b"id 4294967296, type PipeWire:Interface:Node"[..], "source ID is out of range"),
        (
            &b"id 99999999999999999999999999, type PipeWire:Interface:Node"[..],
            "source ID is out of range",
        ),
        (&b"id 0, type PipeWire:Interface:Node"[..], "source ID must be positive"),
    ] {
        assert_eq!(parse_source_id(output), Err(message.to_owned()));
    }
}

#[test]
fn unreadable_volumes_are_told_apart() {
    for (output, message) in [
        (&b"Volume: 0.4\n\n"[..], "unexpected trailing output"),
        (&b"Volume: 0.4\r\n"[..], "unexpected trailing output"),
        (&b"volume: 0.4\n"[..], "missing volume prefix"),
        (&b""[..], "missing volume prefix"),
        (&b"Volume: loud\n"[..], "volume is not numeric"),
        (&b"Volume: \n"[..], "volume is not numeric"),
        (&b"Volume: 0.4 [muted]\n"[..], "volume is not numeric"),
        (&b"Volume: inf [MUTED]\n"[..], "volume is not finite"),
        (&b"Volume: 1e309\n"[..], "volume is not finite"),
        (&b"Volume: nan\n"[..], "volume is not finite"),
    ] {
        assert_eq!(parse_default_mute(output), Err(message.to_owned()));
    }
    assert_eq!(parse_default_mute(b"Volume: 1.00"), Ok(false));
    assert_eq!(parse_default_mute(b"Volume: 1.00 [MUTED]"), Ok(true));
}

#[test]
fn output_that_is_no_text_is_described() {
    let output = b"Volume: \xff\n";
    let described = std::str::from_utf8(output).unwrap_err().to_string();
    assert_eq!(parse_default_mute(output), Err(described.clone()));
    assert_eq!(parse_source_id(output), Err(described.clone()));
    assert_eq!(
        described,
        "invalid utf-8 sequence of 1 bytes from index 8"
    );
}

#[test]
fn commands_have_their_arguments() {
    assert_eq!(
        WpctlCommand::InspectDefault.arguments(),
        ["inspect", "@DEFAULT_AUDIO_SOURCE@"]
    );
    assert_eq!(
        WpctlCommand::QueryDefaultVolume.arguments(),
        ["get-volume", "@DEFAULT_AUDIO_SOURCE@"]
    );
    assert_eq!(
        WpctlCommand::SetMute {
            target: AudioTarget::Source(SourceId(4_294_967_295)),
            muted: false
        }
        .arguments(),
        ["set-mute", "4294967295", "0"]
    );
    assert_eq!(
        WpctlCommand::SetMute {
            target: AudioTarget::DefaultSource,
            muted: true
        }
        .arguments(),
        ["set-mute", "@DEFAULT_AUDIO_SOURCE@", "1"]
    );
}

#[test]
fn audio_errors_are_described() {
    let operation = "mute default source";
    for (error, message, fatal) in [
        (
            AudioError::Spawn { operation, source: io_error("gone") },
            "failed to start mute default source: gone",
            false,
        ),
        (
            AudioError::Wait { operation, source: io_error("gone") },
            "failed while waiting for mute default source: gone",
            false,
        ),
        (
            AudioError::NonzeroExit { operation, status: Some(-12) },
            "mute default source exited unsuccessfully (Some(-12))",
            false,
        ),
        (
            AudioError::NonzeroExit { operation, status: Some(i32::MIN) },
            "mute default source exited unsuccessfully (Some(-2147483648))",
            false,
        ),
        (
            AudioError::NonzeroExit { operation, status: None },
            "mute default source exited unsuccessfully (None)",
            false,
        ),
        (
            AudioError::Parse { operation, message: "odd".to_owned() },
            "could not parse mute default source output: odd",
            false,
        ),
        (AudioError::Timeout { operation }, "mute default source timed out", false),
        (
            AudioError::Kill { operation, source: io_error("gone") },
            "failed to kill timed-out mute default source: gone",
            false,
        ),
        (
            AudioError::Reap { operation, source: io_error("gone") },
            "failed to reap after incomplete mute default source: gone",
            true,
        ),
        (
            AudioError::Poisoned { operation },
            "refusing mute default source because child cleanup is uncertain",
            true,
        ),
    ] {
        assert_eq!(error.message(), message);
        assert_eq!(is_fatal(&error), fatal);
        assert_eq!(WorkerError::Audio(error).message(), message);
    }
    assert_eq!(
        WorkerError::AcknowledgementChannelClosed.message(),
        "audio acknowledgement channel closed"
    );
}
