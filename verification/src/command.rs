//! Running one `wpctl` child process at a time.
//!
//! The runner tells by its phase what has to be done with the child; whoever does it hands back
//! what came of it.

use vstd::prelude::*;

use crate::audio::{AudioError, DesiredRequest};
use crate::fault::IoError;

verus! {

/// How many seconds a child process may take.
pub const WPCTL_TIMEOUT: u64 = 1;

/// What a child process that ended by itself left behind.
#[derive(Debug)]
pub struct CommandOutput {
    pub success: bool,
    pub status: Option<i32>,
    pub stdout: Vec<u8>,
}

/// How a command ended that did not fail.
#[derive(Debug)]
pub enum Execution {
    Output(Vec<u8>),
    /// A request of a later revision was published meanwhile.
    Superseded(DesiredRequest),
}

/// Why a child process has to be killed.
#[derive(Debug)]
pub enum KillCause {
    Timeout,
    Superseded(DesiredRequest),
    WaitFailed(IoError),
}

/// What has to be done next.
#[derive(Debug)]
pub enum CommandPhase {
    /// Nothing: no command runs.
    Ready,
    /// Start the child process.
    Spawning { operation: &'static str, supersede: Option<u64> },
    /// Wait until the child process ends, its time is up, or, where `supersede` gives a revision
    /// and the desired state can still be watched, another state is desired.
    Waiting { operation: &'static str, supersede: Option<u64> },
    /// Kill the child process.
    Killing { operation: &'static str, cause: KillCause },
    /// Wait for the end of the child process that was to be killed.
    Reaping { operation: &'static str, cause: KillCause, kill_error: Option<IoError> },
    /// Nothing: the command has ended.
    Finished(Result<Execution, AudioError>),
}

/// What came of it.
#[derive(Debug)]
pub enum CommandEvent {
    Spawned(Result<(), IoError>),
    Exited(Result<CommandOutput, IoError>),
    TimeUp,
    DesiredChanged(Option<DesiredRequest>),
    DesiredClosed,
    /// The child process was told to end; the error, if that failed.
    Killed(Option<IoError>),
    Reaped(Result<(), IoError>),
}

/// Whether a published state replaces the request of a revision.
pub open spec fn supersedes(published: Option<DesiredRequest>, revision: u64) -> bool {
    published matches Some(request) && request.revision > revision
}

/// How a command ends whose child process was killed and has ended.
pub open spec fn killed_result(
    operation: &'static str,
    cause: KillCause,
    kill_error: Option<IoError>,
) -> Result<Execution, AudioError> {
    match cause {
        KillCause::Timeout => match kill_error {
            Some(source) => Err(AudioError::Kill { operation, source }),
            None => Err(AudioError::Timeout { operation }),
        },
        KillCause::Superseded(request) => Ok(Execution::Superseded(request)),
        KillCause::WaitFailed(source) => Err(AudioError::Wait { operation, source }),
    }
}

/// Runs `wpctl` commands one after the other. Once it is uncertain whether a child process still
/// runs, the runner is poisoned and starts no other.
#[derive(Debug)]
pub struct CommandRunner {
    pub poisoned: bool,
    pub phase: CommandPhase,
}

impl CommandRunner {
    /// The runner with a command begun. With a revision in `supersede`, a request of a later
    /// revision ends the command early.
    pub open spec fn begun(self, operation: &'static str, supersede: Option<u64>) -> Self {
        CommandRunner {
            phase: if self.poisoned {
                CommandPhase::Finished(Err(AudioError::Poisoned { operation }))
            } else {
                CommandPhase::Spawning { operation, supersede }
            },
            ..self
        }
    }

    pub open spec fn in_phase(self, phase: CommandPhase) -> Self {
        CommandRunner { phase, ..self }
    }

    /// The runner after an event. One that its phase does not wait for changes nothing.
    pub open spec fn after(self, event: CommandEvent) -> Self {
        match (self.phase, event) {
            (
                CommandPhase::Spawning { operation, supersede },
                CommandEvent::Spawned(result),
            ) => match result {
                Ok(_) => self.in_phase(CommandPhase::Waiting { operation, supersede }),
                Err(source) => self.in_phase(
                    CommandPhase::Finished(Err(AudioError::Spawn { operation, source })),
                ),
            },
            (
                CommandPhase::Waiting { operation, supersede },
                CommandEvent::Exited(result),
            ) => match result {
                Ok(output) => self.in_phase(
                    CommandPhase::Finished(
                        if output.success {
                            Ok(Execution::Output(output.stdout))
                        } else {
                            Err(AudioError::NonzeroExit { operation, status: output.status })
                        },
                    ),
                ),
                Err(source) => self.in_phase(
                    CommandPhase::Killing { operation, cause: KillCause::WaitFailed(source) },
                ),
            },
            (
                CommandPhase::Waiting { operation, supersede },
                CommandEvent::TimeUp,
            ) => self.in_phase(CommandPhase::Killing { operation, cause: KillCause::Timeout }),
            (
                CommandPhase::Waiting { operation, supersede: Some(revision) },
                CommandEvent::DesiredChanged(published),
            ) => if supersedes(published, revision) {
                self.in_phase(
                    CommandPhase::Killing {
                        operation,
                        cause: KillCause::Superseded(published->0),
                    },
                )
            } else {
                self
            },
            (
                CommandPhase::Killing { operation, cause },
                CommandEvent::Killed(kill_error),
            ) => self.in_phase(CommandPhase::Reaping { operation, cause, kill_error }),
            (
                CommandPhase::Reaping { operation, cause, kill_error },
                CommandEvent::Reaped(result),
            ) => match result {
                Ok(_) => self.in_phase(
                    CommandPhase::Finished(killed_result(operation, cause, kill_error)),
                ),
                Err(source) => CommandRunner {
                    poisoned: true,
                    phase: CommandPhase::Finished(Err(AudioError::Reap { operation, source })),
                },
            },
            _ => self,
        }
    }

    /// Whether the event tells a waiting command that the desired state cannot be watched any more.
    pub open spec fn loses_desired(self, event: CommandEvent) -> bool {
        self.phase matches CommandPhase::Waiting { supersede: Some(_), .. }
            && event is DesiredClosed
    }

    /// A runner that has not run anything.
    pub fn new() -> (runner: Self)
        ensures
            runner == (CommandRunner { poisoned: false, phase: CommandPhase::Ready }),
    {
        CommandRunner { poisoned: false, phase: CommandPhase::Ready }
    }

    /// Begins a command. With a revision in `supersede`, a request of a later revision ends the
    /// command early; without one the command runs to its end. A poisoned runner refuses.
    pub fn begin(&mut self, operation: &'static str, supersede: Option<u64>)
        requires
            old(self).phase is Ready,
        ensures
            *final(self) == old(self).begun(operation, supersede),
    {
        self.phase = if self.poisoned {
            CommandPhase::Finished(Err(AudioError::Poisoned { operation }))
        } else {
            CommandPhase::Spawning { operation, supersede }
        };
    }

    /// Takes in what came of the present phase.
    pub fn step(&mut self, event: CommandEvent, desired_open: &mut bool)
        ensures
            *final(self) == old(self).after(event),
            *final(desired_open) == (*old(desired_open) && !old(self).loses_desired(event)),
    {
        let mut phase = CommandPhase::Ready;
        std::mem::swap(&mut self.phase, &mut phase);
        self.phase =
        match (phase, event) {
            (CommandPhase::Spawning { operation, supersede }, CommandEvent::Spawned(result)) => {
                match result {
                    Ok(_) => CommandPhase::Waiting { operation, supersede },
                    Err(source) => CommandPhase::Finished(
                        Err(AudioError::Spawn { operation, source }),
                    ),
                }
            },
            (CommandPhase::Waiting { operation, supersede }, event) => {
                self.waited(operation, supersede, event, desired_open)
            },
            (CommandPhase::Killing { operation, cause }, CommandEvent::Killed(kill_error)) => {
                CommandPhase::Reaping { operation, cause, kill_error }
            },
            (
                CommandPhase::Reaping { operation, cause, kill_error },
                CommandEvent::Reaped(result),
            ) => {
                match result {
                    Ok(_) => CommandPhase::Finished(
                        Self::finish_killed(operation, cause, kill_error),
                    ),
                    Err(source) => {
                        self.poisoned = true;
                        CommandPhase::Finished(Err(AudioError::Reap { operation, source }))
                    },
                }
            },
            (phase, _) => phase,
        };
    }

    fn waited(
        &self,
        operation: &'static str,
        supersede: Option<u64>,
        event: CommandEvent,
        desired_open: &mut bool,
    ) -> (phase: CommandPhase)
        ensures
            phase == self.in_phase(CommandPhase::Waiting { operation, supersede }).after(
                event,
            ).phase,
            *final(desired_open) == (*old(desired_open) && !self.in_phase(
                CommandPhase::Waiting { operation, supersede },
            ).loses_desired(event)),
    {
        match event {
            CommandEvent::Exited(Ok(output)) => CommandPhase::Finished(
                if output.success {
                    Ok(Execution::Output(output.stdout))
                } else {
                    Err(AudioError::NonzeroExit { operation, status: output.status })
                },
            ),
            CommandEvent::Exited(Err(source)) => CommandPhase::Killing {
                operation,
                cause: KillCause::WaitFailed(source),
            },
            CommandEvent::TimeUp => CommandPhase::Killing { operation, cause: KillCause::Timeout },
            CommandEvent::DesiredChanged(Some(latest)) => match supersede {
                Some(revision) if latest.revision > revision => CommandPhase::Killing {
                    operation,
                    cause: KillCause::Superseded(latest),
                },
                _ => CommandPhase::Waiting { operation, supersede },
            },
            CommandEvent::DesiredClosed => {
                if supersede.is_some() {
                    *desired_open = false;
                }
                CommandPhase::Waiting { operation, supersede }
            },
            _ => CommandPhase::Waiting { operation, supersede },
        }
    }

    fn finish_killed(
        operation: &'static str,
        cause: KillCause,
        kill_error: Option<IoError>,
    ) -> (result: Result<Execution, AudioError>)
        ensures
            result == killed_result(operation, cause, kill_error),
    {
        match cause {
            KillCause::Timeout => match kill_error {
                Some(source) => Err(AudioError::Kill { operation, source }),
                None => Err(AudioError::Timeout { operation }),
            },
            KillCause::Superseded(request) => Ok(Execution::Superseded(request)),
            KillCause::WaitFailed(source) => Err(AudioError::Wait { operation, source }),
        }
    }

    /// Takes the result of a command that has ended, and makes the runner ready for another.
    pub fn take_result(&mut self) -> (result: Option<Result<Execution, AudioError>>)
        ensures
            match old(self).phase {
                CommandPhase::Finished(finished) => result == Some(finished) && *final(self)
                    == old(self).in_phase(CommandPhase::Ready),
                _ => result is None && *final(self) == *old(self),
            },
    {
        let mut phase = CommandPhase::Ready;
        std::mem::swap(&mut self.phase, &mut phase);
        match phase {
            CommandPhase::Finished(result) => Some(result),
            other => {
                self.phase = other;
                None
            },
        }
    }
}

} // verus!
