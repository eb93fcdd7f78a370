//! How the tasks of the daemon end, and why the daemon fails.

use vstd::prelude::*;
use vstd::string::*;

use crate::audio::WorkerError;
use crate::input::ReaderError;
use crate::state::DeviceId;
use crate::text::decimal;

verus! {

/// A signal that ends the daemon.
#[derive(Clone, Copy, Debug, PartialEq, Eq, Structural)]
pub enum SignalKind {
    Interrupt,
    Terminate,
}

/// How the audio worker ended.
#[derive(Debug)]
pub enum AudioExit {
    Stopped,
    Failed(WorkerError),
    /// The task did not run to its end, for that reason.
    Broken(String),
}

/// How a reader ended.
#[derive(Debug)]
pub enum ReaderExit {
    Returned { expected: DeviceId, result: Result<DeviceId, ReaderError> },
    /// The task did not run to its end, for that reason.
    Join { device: DeviceId, reason: String },
}

/// Why the daemon fails.
#[derive(Debug)]
pub enum AppError {
    RevisionOverflow,
    EpochOverflow,
    NoStartupIdle,
    SignalListenerClosed(SignalKind),
    InputChannelClosed,
    ReaderIdentityLost,
    OpenShutdownWithoutRequest,
    OpenCleanupWithoutRequest,
    /// The audio worker ended before that.
    AudioExitedBefore { target: &'static str, exit: AudioExit },
    ReaderTerminated(ReaderExit),
    /// The audio worker failed when it was told to stop.
    AudioWorker(WorkerError),
    /// The task of the audio worker did not run to its end, for that reason.
    AudioTask(String),
    /// What went wrong with the audio worker at the end of a cleanup.
    Cleanup(Box<AppError>),
}

impl SignalKind {
    pub open spec fn name(self) -> Seq<char> {
        match self {
            SignalKind::Interrupt => "SIGINT"@,
            SignalKind::Terminate => "SIGTERM"@,
        }
    }
}

impl AudioExit {
    /// The description of an end that came too early.
    pub open spec fn text_before(self, target: &'static str) -> Seq<char> {
        match self {
            AudioExit::Stopped => "audio worker stopped before "@ + target@,
            AudioExit::Failed(error) => "audio worker failed before "@ + target@ + ": "@
                + error.text(),
            AudioExit::Broken(reason) => "audio worker task failed before "@ + target@
                + ": "@ + reason@,
        }
    }

    fn describe_before(&self, target: &'static str) -> (message: String)
        ensures
            message@ == self.text_before(target),
    {
        match self {
            AudioExit::Stopped => "audio worker stopped before ".to_owned().concat(
                target,
            ),
            AudioExit::Failed(error) => "audio worker failed before ".to_owned().concat(
                target,
            ).concat(": ").concat(error.message().as_str()),
            AudioExit::Broken(reason) => "audio worker task failed before ".to_owned().concat(
                target,
            ).concat(": ").concat(reason.as_str()),
        }
    }
}

/// The failure of the daemon when the audio worker ends too early.
pub fn audio_exit_before(target: &'static str, exit: AudioExit) -> (error: AppError)
    ensures
        error == (AppError::AudioExitedBefore { target, exit }),
{
    AppError::AudioExitedBefore { target, exit }
}

/// What comes of an audio worker that was told to stop.
pub open spec fn stopped_result(exit: AudioExit) -> Result<(), AppError> {
    match exit {
        AudioExit::Stopped => Ok(()),
        AudioExit::Failed(error) => Err(AppError::AudioWorker(error)),
        AudioExit::Broken(reason) => Err(AppError::AudioTask(reason)),
    }
}

/// Tells what comes of an audio worker that was told to stop.
pub fn join_audio(exit: AudioExit) -> (result: Result<(), AppError>)
    ensures
        result == stopped_result(exit),
{
    match exit {
        AudioExit::Stopped => Ok(()),
        AudioExit::Failed(error) => Err(AppError::AudioWorker(error)),
        AudioExit::Broken(reason) => Err(AppError::AudioTask(reason)),
    }
}

/// The device of a reader task that has ended: the one that the task was started for, or, if that
/// is not known, one that is never configured.
pub fn ended_device(known: Option<DeviceId>) -> (device: DeviceId)
    ensures
        device == match known {
            Some(known) => known,
            None => DeviceId(usize::MAX),
        },
{
    match known {
        Some(known) => known,
        None => DeviceId(usize::MAX),
    }
}

impl ReaderExit {
    /// The device of the reader.
    pub open spec fn subject(self) -> DeviceId {
        match self {
            ReaderExit::Returned { expected, .. } => expected,
            ReaderExit::Join { device, .. } => device,
        }
    }

    /// The description of an end that was not asked for.
    pub open spec fn text(self) -> Seq<char> {
        match self {
            ReaderExit::Returned { expected, result } => "reader "@ + crate::text::decimal_text(
                expected.0 as nat,
            ) + match result {
                Ok(returned) => " terminated unexpectedly (returned identity "@
                    + crate::text::decimal_text(returned.0 as nat) + ")"@,
                Err(error) => " terminated unexpectedly: "@ + error.text(),
            },
            ReaderExit::Join { device, reason } => "reader "@ + crate::text::decimal_text(
                device.0 as nat,
            ) + (" task terminated unexpectedly: "@ + reason@),
        }
    }

    /// The device of the reader.
    pub fn device(&self) -> (device: DeviceId)
        ensures
            device == self.subject(),
    {
        match self {
            ReaderExit::Returned { expected, .. } => *expected,
            ReaderExit::Join { device, .. } => *device,
        }
    }

    /// Describes an end that was not asked for.
    pub fn describe(&self) -> (message: String)
        ensures
            message@ == self.text(),
    {
        let (device, rest) = match self {
            ReaderExit::Returned { expected, result } => (
                *expected,
                match result {
                    Ok(returned) => " terminated unexpectedly (returned identity ".to_owned().concat(
                        decimal(returned.0 as u64).as_str(),
                    ).concat(")"),
                    Err(error) => " terminated unexpectedly: ".to_owned().concat(
                        error.message().as_str(),
                    ),
                },
            ),
            ReaderExit::Join { device, reason } => (
                *device,
                " task terminated unexpectedly: ".to_owned().concat(reason.as_str()),
            ),
        };
        "reader ".to_owned().concat(decimal(device.0 as u64).as_str()).concat(rest.as_str())
    }
}

impl AppError {
    /// The description of the failure.
    pub open spec fn text(self) -> Seq<char>
        decreases self,
    {
        match self {
            AppError::RevisionOverflow => "audio revision overflow"@,
            AppError::EpochOverflow => "transition epoch overflow"@,
            AppError::NoStartupIdle => "policy did not request startup idle"@,
            AppError::SignalListenerClosed(kind) => kind.name() + " listener closed"@,
            AppError::InputChannelClosed => "input event channel closed unexpectedly"@,
            AppError::ReaderIdentityLost => "reader supervisor lost task identity"@,
            AppError::OpenShutdownWithoutRequest =>
            "OPEN shutdown has no published OPEN request"@,
            AppError::OpenCleanupWithoutRequest =>
            "OPEN fatal cleanup has no published OPEN request"@,
            AppError::AudioExitedBefore { target, exit } => exit.text_before(target),
            AppError::ReaderTerminated(exit) => exit.text(),
            AppError::AudioWorker(error) => error.text(),
            AppError::AudioTask(reason) => reason@,
            AppError::Cleanup(error) => "audio worker failed during fatal cleanup: "@
                + error.text(),
        }
    }

    /// Describes the failure.
    pub fn message(&self) -> (message: String)
        ensures
            message@ == self.text(),
        decreases self,
    {
        match self {
            AppError::RevisionOverflow => "audio revision overflow".to_owned(),
            AppError::EpochOverflow => "transition epoch overflow".to_owned(),
            AppError::NoStartupIdle => "policy did not request startup idle".to_owned(),
            AppError::SignalListenerClosed(kind) => match kind {
                SignalKind::Interrupt => "SIGINT".to_owned().concat(" listener closed"),
                SignalKind::Terminate => "SIGTERM".to_owned().concat(" listener closed"),
            },
            AppError::InputChannelClosed => "input event channel closed unexpectedly".to_owned(),
            AppError::ReaderIdentityLost => "reader supervisor lost task identity".to_owned(),
            AppError::OpenShutdownWithoutRequest =>
            "OPEN shutdown has no published OPEN request".to_owned(),
            AppError::OpenCleanupWithoutRequest =>
            "OPEN fatal cleanup has no published OPEN request".to_owned(),
            AppError::AudioExitedBefore { target, exit } => exit.describe_before(target),
            AppError::ReaderTerminated(exit) => exit.describe(),
            AppError::AudioWorker(error) => error.message(),
            AppError::AudioTask(reason) => reason.clone(),
            AppError::Cleanup(error) => "audio worker failed during fatal cleanup: ".to_owned().concat(
                error.message().as_str(),
            ),
        }
    }
}

} // verus!
