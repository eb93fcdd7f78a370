//! What the descriptions of failures say.

use vstd::prelude::*;
use vstd::string::*;

use crate::audio::{AudioError, WorkerError};
use crate::config::{ConfigError, LoadError};
use crate::input::ReaderError;
use crate::state::DeviceId;
use crate::supervision::{AppError, AudioExit, ReaderExit, SignalKind};

verus! {

/// The description of a failed operation names the operation, tells what went wrong with it, and
/// ends with the cause where there is one.
pub proof fn law_failed_operations_are_described(error: AudioError, message: String)
    requires
        call_ensures(AudioError::message, (&error,), message),
    ensures
        match error {
            AudioError::Spawn { operation, source } => message@ == "failed to start "@ + operation@
                + ": "@ + source.message@,
            AudioError::Wait { operation, source } => message@ == "failed while waiting for "@
                + operation@ + ": "@ + source.message@,
            AudioError::NonzeroExit { operation, status: Some(code) } => message@ == operation@
                + " exited unsuccessfully ("@ + ("Some("@ + crate::text::signed_text(code as int)
                + ")"@) + ")"@,
            AudioError::NonzeroExit { operation, status: None } => message@ == operation@
                + " exited unsuccessfully ("@ + "None"@ + ")"@,
            AudioError::Parse { operation, message: reason } => message@ == "could not parse "@
                + operation@ + " output: "@ + reason@,
            AudioError::Timeout { operation } => message@ == operation@ + " timed out"@,
            AudioError::Kill { operation, source } => message@ == "failed to kill timed-out "@
                + operation@ + ": "@ + source.message@,
            AudioError::Reap { operation, source } => message@
                == "failed to reap after incomplete "@ + operation@ + ": "@ + source.message@,
            AudioError::Poisoned { operation } => message@ == "refusing "@ + operation@
                + " because child cleanup is uncertain"@,
        },
{
}

/// The description of a worker's failure is that of the operation, if one failed, and the
/// description of a reader's failure names its device.
pub proof fn law_failed_tasks_are_described(
    error: AudioError,
    described: String,
    by_worker: String,
    unacknowledged: String,
    device: DeviceId,
    no_events: String,
    no_epochs: String,
)
    requires
        call_ensures(AudioError::message, (&error,), described),
        call_ensures(WorkerError::message, (&WorkerError::Audio(error),), by_worker),
        call_ensures(
            WorkerError::message,
            (&WorkerError::AcknowledgementChannelClosed,),
            unacknowledged,
        ),
        call_ensures(
            ReaderError::message,
            (&ReaderError::EventChannelClosed(device),),
            no_events,
        ),
        call_ensures(
            ReaderError::message,
            (&ReaderError::EpochChannelClosed(device),),
            no_epochs,
        ),
    ensures
        by_worker@ == described@,
        unacknowledged@ == "audio acknowledgement channel closed"@,
        no_events@ == "event channel closed for reader "@ + crate::text::decimal_text(
            device.0 as nat,
        ),
        no_epochs@ == "epoch channel closed for reader "@ + crate::text::decimal_text(
            device.0 as nat,
        ),
{
}

/// The description of a reader's end names the device that the reader was started for, and tells
/// what it returned or why its task broke off.
pub proof fn law_ended_readers_are_described(exit: ReaderExit, message: String)
    requires
        call_ensures(ReaderExit::describe, (&exit,), message),
    ensures
        match exit {
            ReaderExit::Returned { expected, result: Ok(returned) } => message@ == "reader "@
                + crate::text::decimal_text(expected.0 as nat) + (
            " terminated unexpectedly (returned identity "@ + crate::text::decimal_text(
                returned.0 as nat,
            ) + ")"@),
            ReaderExit::Returned { expected, result: Err(error) } => message@ == "reader "@
                + crate::text::decimal_text(expected.0 as nat) + (" terminated unexpectedly: "@
                + error.text()),
            ReaderExit::Join { device, reason } => message@ == "reader "@
                + crate::text::decimal_text(device.0 as nat) + (
            " task terminated unexpectedly: "@ + reason@),
        },
{
}

/// The description of the daemon's failure tells its reason, down to the failure that it comes from.
pub proof fn law_daemon_failures_are_described(error: AppError, message: String)
    requires
        call_ensures(AppError::message, (&error,), message),
    ensures
        match error {
            AppError::RevisionOverflow => message@ == "audio revision overflow"@,
            AppError::EpochOverflow => message@ == "transition epoch overflow"@,
            AppError::NoStartupIdle => message@ == "policy did not request startup idle"@,
            AppError::SignalListenerClosed(SignalKind::Interrupt) => message@ == "SIGINT"@
                + " listener closed"@,
            AppError::SignalListenerClosed(SignalKind::Terminate) => message@ == "SIGTERM"@
                + " listener closed"@,
            AppError::InputChannelClosed => message@ == "input event channel closed unexpectedly"@,
            AppError::ReaderIdentityLost => message@ == "reader supervisor lost task identity"@,
            AppError::OpenShutdownWithoutRequest => message@
                == "OPEN shutdown has no published OPEN request"@,
            AppError::OpenCleanupWithoutRequest => message@
                == "OPEN fatal cleanup has no published OPEN request"@,
            AppError::AudioExitedBefore { target, exit: AudioExit::Stopped } => message@
                == "audio worker stopped before "@ + target@,
            AppError::AudioExitedBefore { target, exit: AudioExit::Failed(error) } => message@
                == "audio worker failed before "@ + target@ + ": "@ + error.text(),
            AppError::AudioExitedBefore { target, exit: AudioExit::Broken(reason) } => message@
                == "audio worker task failed before "@ + target@ + ": "@ + reason@,
            AppError::ReaderTerminated(exit) => message@ == exit.text(),
            AppError::AudioWorker(error) => message@ == error.text(),
            AppError::AudioTask(reason) => message@ == reason@,
            AppError::Cleanup(error) => message@ == "audio worker failed during fatal cleanup: "@
                + error.text(),
        },
{
}

/// The description of a configuration's failure tells what is wrong with it, and with what.
pub proof fn law_refused_configurations_are_described(
    error: ConfigError,
    message: String,
    load_error: LoadError,
    load_message: String,
)
    requires
        call_ensures(ConfigError::message, (&error,), message),
        call_ensures(LoadError::message, (&load_error,), load_message),
    ensures
        match error {
            ConfigError::MissingConfigHome => message@ == "neither XDG_CONFIG_HOME nor HOME is set"@,
            ConfigError::Toml(reason) => message@ == "invalid configuration: "@ + reason@,
            ConfigError::InvalidKey { field, value } => message@
                == "invalid symbolic key name for "@ + field@ + ": "@ + value@,
            ConfigError::EmptyDevices => message@ == "input.devices must not be empty"@,
            ConfigError::DuplicateDevice(path) => message@ == "duplicate input device path: "@
                + path.text@,
            ConfigError::EqualKeys => message@ == "ptt_key and toggle_key must be different"@,
        },
        match load_error {
            LoadError::Read { path, source } => load_message@ == "could not read "@ + path@
                + ": "@ + source.message@,
            LoadError::Parse(refused) => refused == error ==> load_message@ == message@,
        },
{
}

} // verus!
