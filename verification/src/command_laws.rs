//! What holds of running one command.

use vstd::prelude::*;

use crate::audio::{AudioError, DesiredRequest};
use crate::command::{
    CommandEvent, CommandOutput, CommandPhase, CommandRunner, Execution, KillCause,
};
use crate::fault::IoError;

verus! {

/// A command is begun by starting its child process, unless it is uncertain whether an earlier one
/// still runs: then it fails at once.
pub proof fn law_begun_commands_are_spawned(
    runner: CommandRunner,
    operation: &'static str,
    supersede: Option<u64>,
)
    ensures
        runner.begun(operation, supersede).poisoned == runner.poisoned,
        !runner.poisoned ==> runner.begun(operation, supersede).phase == (CommandPhase::Spawning {
            operation,
            supersede,
        }),
        runner.poisoned ==> runner.begun(operation, supersede).phase == CommandPhase::Finished(
            Err(AudioError::Poisoned { operation }),
        ),
{
}

/// A child process that was started is waited for; one that could not be started fails the command.
pub proof fn law_spawned_children_are_waited_for(
    runner: CommandRunner,
    operation: &'static str,
    supersede: Option<u64>,
    source: IoError,
)
    requires
        runner.phase == (CommandPhase::Spawning { operation, supersede }),
    ensures
        runner.after(CommandEvent::Spawned(Ok(()))) == (CommandRunner {
            poisoned: runner.poisoned,
            phase: CommandPhase::Waiting { operation, supersede },
        }),
        runner.after(CommandEvent::Spawned(Err(source))) == (CommandRunner {
            poisoned: runner.poisoned,
            phase: CommandPhase::Finished(Err(AudioError::Spawn { operation, source })),
        }),
{
}

/// A child process that ends by itself ends the command: with what it wrote, all of it, if it was
/// successful, and otherwise as a failure with its status.
pub proof fn law_ended_children_end_the_command(
    runner: CommandRunner,
    operation: &'static str,
    supersede: Option<u64>,
    output: CommandOutput,
)
    requires
        runner.phase == (CommandPhase::Waiting { operation, supersede }),
    ensures
        ({
            let ended = runner.after(CommandEvent::Exited(Ok(output)));
            &&& ended.poisoned == runner.poisoned
            &&& output.success ==> ended.phase == CommandPhase::Finished(
                Ok(Execution::Output(output.stdout)),
            )
            &&& !output.success ==> ended.phase == CommandPhase::Finished(
                Err(AudioError::NonzeroExit { operation, status: output.status }),
            )
        }),
{
}

/// A child process is killed when its time is up, when it cannot be waited for, and when a later
/// request comes than one that gives way; it is not killed for an earlier request, and no request
/// ends a command that does not give way.
pub proof fn law_children_are_killed_for_a_cause(
    runner: CommandRunner,
    operation: &'static str,
    supersede: Option<u64>,
    source: IoError,
    request: DesiredRequest,
)
    requires
        runner.phase == (CommandPhase::Waiting { operation, supersede }),
    ensures
        runner.after(CommandEvent::TimeUp) == (CommandRunner {
            poisoned: runner.poisoned,
            phase: CommandPhase::Killing { operation, cause: KillCause::Timeout },
        }),
        runner.after(CommandEvent::Exited(Err(source))) == (CommandRunner {
            poisoned: runner.poisoned,
            phase: CommandPhase::Killing { operation, cause: KillCause::WaitFailed(source) },
        }),
        runner.after(CommandEvent::DesiredChanged(Some(request))) == if supersede is Some
            && request.revision > supersede->0 {
            CommandRunner {
                poisoned: runner.poisoned,
                phase: CommandPhase::Killing { operation, cause: KillCause::Superseded(request) },
            }
        } else {
            runner
        },
        runner.after(CommandEvent::DesiredChanged(None)) == runner,
        runner.after(CommandEvent::DesiredClosed) == runner,
        runner.loses_desired(CommandEvent::DesiredClosed) <==> supersede is Some,
{
}

/// A killed child process is waited for, whether or not the killing failed.
pub proof fn law_killed_children_are_reaped(
    runner: CommandRunner,
    operation: &'static str,
    cause: KillCause,
    kill_error: Option<IoError>,
)
    requires
        runner.phase == (CommandPhase::Killing { operation, cause }),
    ensures
        runner.after(CommandEvent::Killed(kill_error)) == (CommandRunner {
            poisoned: runner.poisoned,
            phase: CommandPhase::Reaping { operation, cause, kill_error },
        }),
{
}

/// Once a killed child process has ended, the command ends as the cause says: out of time, or
/// unkillable if the killing failed then, replaced by the later request, or as a failed wait. If it
/// cannot be waited for, the command fails and no other is run.
pub proof fn law_reaped_commands_end_for_their_cause(
    runner: CommandRunner,
    operation: &'static str,
    cause: KillCause,
    kill_error: Option<IoError>,
    source: IoError,
)
    requires
        runner.phase == (CommandPhase::Reaping { operation, cause, kill_error }),
    ensures
        ({
            let reaped = runner.after(CommandEvent::Reaped(Ok(())));
            &&& reaped.poisoned == runner.poisoned
            &&& cause is Timeout && kill_error is None ==> reaped.phase == CommandPhase::Finished(
                Err(AudioError::Timeout { operation }),
            )
            &&& cause is Timeout && kill_error is Some ==> reaped.phase == CommandPhase::Finished(
                Err(AudioError::Kill { operation, source: kill_error->0 }),
            )
            &&& cause matches KillCause::Superseded(request) ==> reaped.phase
                == CommandPhase::Finished(Ok(Execution::Superseded(request)))
            &&& cause matches KillCause::WaitFailed(failure) ==> reaped.phase
                == CommandPhase::Finished(Err(AudioError::Wait { operation, source: failure }))
        }),
        runner.after(CommandEvent::Reaped(Err(source))) == (CommandRunner {
            poisoned: true,
            phase: CommandPhase::Finished(Err(AudioError::Reap { operation, source })),
        }),
{
}

/// Whether a phase waits for an event of that kind.
pub open spec fn is_awaited(phase: CommandPhase, event: CommandEvent) -> bool {
    match event {
        CommandEvent::Spawned(_) => phase is Spawning,
        CommandEvent::Exited(_) => phase is Waiting,
        CommandEvent::TimeUp => phase is Waiting,
        CommandEvent::DesiredChanged(_) => phase is Waiting,
        CommandEvent::DesiredClosed => phase is Waiting,
        CommandEvent::Killed(_) => phase is Killing,
        CommandEvent::Reaped(_) => phase is Reaping,
    }
}

/// Events that are not waited for change nothing, and only the end of a waiting command's watch
/// tells that no request can come any more.
pub proof fn law_unawaited_command_events_are_ignored(runner: CommandRunner, event: CommandEvent)
    ensures
        !is_awaited(runner.phase, event) ==> runner.after(event) == runner,
        runner.loses_desired(event) ==> event is DesiredClosed && runner.phase is Waiting,
{
}

/// An error leaves it open whether a child process still runs exactly if the child could not be
/// waited for, or if the command was refused for that reason.
pub proof fn law_uncertain_errors_are_fatal(error: AudioError, fatal: bool)
    requires
        call_ensures(crate::audio::is_fatal, (&error,), fatal),
    ensures
        fatal <==> error.fatal(),
        fatal <==> (error matches AudioError::Reap { .. }) || (error matches
            AudioError::Poisoned { .. }),
{
}

} // verus!
