//! Audio requests, their acknowledgements, and what can go wrong with them.

use vstd::prelude::*;
use vstd::string::*;

use crate::fault::IoError;
use crate::state::DesiredAudio;
use crate::text::signed;

verus! {

/// Number of a PipeWire source node.
#[derive(Clone, Copy, Debug, PartialEq, Eq, Structural)]
pub struct SourceId(pub u32);

/// A request for an audio state. A later request has a higher revision.
#[derive(Clone, Copy, Debug, PartialEq, Eq, Structural)]
pub struct DesiredRequest {
    pub revision: u64,
    pub state: DesiredAudio,
}

/// How a request ended.
#[derive(Clone, Copy, Debug, PartialEq, Eq, Structural)]
pub enum AckOutcome {
    Applied,
    HandledFailure,
}

/// Tells that a request has been dealt with.
#[derive(Clone, Copy, Debug, PartialEq, Eq, Structural)]
pub struct AudioAck {
    pub revision: u64,
    pub outcome: AckOutcome,
}

/// Why the audio worker gave up.
#[derive(Debug)]
pub enum WorkerError {
    Audio(AudioError),
    AcknowledgementChannelClosed,
}

/// Why a `wpctl` operation failed.
#[derive(Debug)]
pub enum AudioError {
    Spawn { operation: &'static str, source: IoError },
    Wait { operation: &'static str, source: IoError },
    NonzeroExit { operation: &'static str, status: Option<i32> },
    Parse { operation: &'static str, message: String },
    Timeout { operation: &'static str },
    Kill { operation: &'static str, source: IoError },
    Reap { operation: &'static str, source: IoError },
    Poisoned { operation: &'static str },
}

impl AudioError {
    /// Whether the error leaves it open if a child process still runs.
    pub open spec fn fatal(self) -> bool {
        self is Reap || self is Poisoned
    }

    /// The description of the error.
    pub open spec fn text(self) -> Seq<char> {
        match self {
            AudioError::Spawn { operation, source } => "failed to start "@ + operation@ + ": "@
                + source.message@,
            AudioError::Wait { operation, source } => "failed while waiting for "@ + operation@
                + ": "@ + source.message@,
            AudioError::NonzeroExit { operation, status } => operation@
                + " exited unsuccessfully ("@ + (match status {
                Some(code) => "Some("@ + crate::text::signed_text(code as int) + ")"@,
                None => "None"@,
            }) + ")"@,
            AudioError::Parse { operation, message } => "could not parse "@ + operation@
                + " output: "@ + message@,
            AudioError::Timeout { operation } => operation@ + " timed out"@,
            AudioError::Kill { operation, source } => "failed to kill timed-out "@ + operation@
                + ": "@ + source.message@,
            AudioError::Reap { operation, source } => "failed to reap after incomplete "@
                + operation@ + ": "@ + source.message@,
            AudioError::Poisoned { operation } => "refusing "@ + operation@
                + " because child cleanup is uncertain"@,
        }
    }

    /// Describes the error.
    pub fn message(&self) -> (message: String)
        ensures
            message@ == self.text(),
    {
        match self {
            AudioError::Spawn { operation, source } => "failed to start ".to_owned().concat(
                operation,
            ).concat(": ").concat(source.message.as_str()),
            AudioError::Wait { operation, source } => "failed while waiting for ".to_owned().concat(
                operation,
            ).concat(": ").concat(source.message.as_str()),
            AudioError::NonzeroExit { operation, status } => {
                let shown = match status {
                    Some(code) => "Some(".to_owned().concat(signed(*code).as_str()).concat(")"),
                    None => "None".to_owned(),
                };
                (*operation).to_owned().concat(" exited unsuccessfully (").concat(
                    shown.as_str(),
                ).concat(")")
            },
            AudioError::Parse { operation, message } => "could not parse ".to_owned().concat(
                operation,
            ).concat(" output: ").concat(message.as_str()),
            AudioError::Timeout { operation } => (*operation).to_owned().concat(" timed out"),
            AudioError::Kill { operation, source } => "failed to kill timed-out ".to_owned().concat(
                operation,
            ).concat(": ").concat(source.message.as_str()),
            AudioError::Reap { operation, source } =>
            "failed to reap after incomplete ".to_owned().concat(operation).concat(": ").concat(
                source.message.as_str(),
            ),
            AudioError::Poisoned { operation } => "refusing ".to_owned().concat(operation).concat(
                " because child cleanup is uncertain",
            ),
        }
    }
}

/// Whether the error leaves it open if a child process still runs.
pub fn is_fatal(error: &AudioError) -> (fatal: bool)
    ensures
        fatal == error.fatal(),
{
    match error {
        AudioError::Reap { .. } => true,
        AudioError::Poisoned { .. } => true,
        _ => false,
    }
}

impl WorkerError {
    /// The description of the error.
    pub open spec fn text(self) -> Seq<char> {
        match self {
            WorkerError::Audio(error) => error.text(),
            WorkerError::AcknowledgementChannelClosed => "audio acknowledgement channel closed"@,
        }
    }

    /// Describes the error.
    pub fn message(&self) -> (message: String)
        ensures
            message@ == self.text(),
    {
        match self {
            WorkerError::Audio(error) => error.message(),
            WorkerError::AcknowledgementChannelClosed =>
            "audio acknowledgement channel closed".to_owned(),
        }
    }
}

} // verus!
