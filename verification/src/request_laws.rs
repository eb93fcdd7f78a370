//! What the audio worker does about each request, step by step and from end to end.

use vstd::prelude::*;

use crate::audio::{AckOutcome, AudioAck, AudioError, DesiredRequest, SourceId, WorkerError};
use crate::command::{
    CommandEvent, CommandOutput, CommandPhase, CommandRunner, Execution, KillCause,
};
use crate::fault::IoError;
use crate::state::DesiredAudio;
use crate::worker::{
    AudioWorker, IdleGoal, Poll, Polled, Setback, Task, WorkerEvent, WorkerPhase,
};
use crate::wpctl::{AudioTarget, WpctlCommand};

verus! {

/// Each task runs the command that it is named for: resolving inspects the default source, talking
/// unmutes the resolved source, an open microphone is the unmuted default source, and idling mutes.
pub proof fn law_tasks_run_their_commands(
    request: DesiredRequest,
    source: SourceId,
    goal: IdleGoal,
    succeeded: bool,
    revision: u64,
)
    ensures
        Task::Resolve(request).command() == WpctlCommand::InspectDefault,
        (Task::UnmuteSource { request, source }).command() == (WpctlCommand::SetMute {
            target: AudioTarget::Source(source),
            muted: false,
        }),
        Task::UnmuteDefault(request).command() == (WpctlCommand::SetMute {
            target: AudioTarget::DefaultSource,
            muted: false,
        }),
        (Task::MuteRemembered { goal, source }).command() == (WpctlCommand::SetMute {
            target: AudioTarget::Source(source),
            muted: true,
        }),
        (Task::MuteDefault { goal, succeeded }).command() == (WpctlCommand::SetMute {
            target: AudioTarget::DefaultSource,
            muted: true,
        }),
        (Task::QueryMute { revision }).command() == WpctlCommand::QueryDefaultVolume,
        (Task::ReconcileMute { revision }).command() == (WpctlCommand::SetMute {
            target: AudioTarget::DefaultSource,
            muted: true,
        }),
{
}

/// The command of a task, and its name in messages.
pub proof fn law_tasks_are_told_apart(
    task: Task,
    command: WpctlCommand,
    operation: &'static str,
)
    requires
        call_ensures(Task::wpctl, (&task,), command),
        call_ensures(Task::operation, (&task,), operation),
    ensures
        command == task.command(),
        operation == match task {
            Task::Resolve(_) => "resolve default source",
            Task::UnmuteSource { .. } => "unmute concrete source",
            Task::UnmuteDefault(_) => "unmute default source",
            Task::MuteRemembered { .. } => "mute remembered source",
            Task::MuteDefault { .. } => "mute default source",
            Task::QueryMute { .. } => "query default source mute",
            Task::ReconcileMute { .. } => "reconcile default source mute",
        },
        operation == task.name(),
{
}

/// What serves a request gives way to any later one, looking at an idle source gives way to any
/// request later than the one in force, and muting gives way to none.
pub proof fn law_muting_alone_does_not_give_way(
    request: DesiredRequest,
    source: SourceId,
    goal: IdleGoal,
    succeeded: bool,
    revision: u64,
)
    ensures
        Task::Resolve(request).yields_past() == Some(request.revision),
        (Task::UnmuteSource { request, source }).yields_past() == Some(request.revision),
        Task::UnmuteDefault(request).yields_past() == Some(request.revision),
        (Task::QueryMute { revision }).yields_past() == Some(revision),
        (Task::MuteRemembered { goal, source }).yields_past() is None,
        (Task::MuteDefault { goal, succeeded }).yields_past() is None,
        (Task::ReconcileMute { revision }).yields_past() is None,
{
}

/// A task is begun by starting its command and nothing else; a worker whose runner is poisoned ends.
pub proof fn law_started_tasks_run(worker: AudioWorker, task: Task)
    ensures
        !worker.commands.poisoned ==> worker.started(task) == (AudioWorker {
            commands: CommandRunner {
                poisoned: false,
                phase: CommandPhase::Spawning {
                    operation: task.name(),
                    supersede: task.yields_past(),
                },
            },
            phase: WorkerPhase::Running(task),
            ..worker
        }),
        worker.commands.poisoned ==> worker.started(task) == (AudioWorker {
            phase: WorkerPhase::Stopped(
                Err(WorkerError::Audio(AudioError::Poisoned { operation: task.name() })),
            ),
            ..worker
        }),
{
}

/// A request that is not acknowledged is turned to, whatever was handled before: to talk by
/// resolving the default source, for an open microphone by unmuting the default source, and to idle
/// by muting the remembered source if there is one and otherwise the default one. One that is
/// acknowledged is left alone.
pub proof fn law_requests_are_turned_to(worker: AudioWorker, request: DesiredRequest)
    ensures
        ({
            let acknowledged = worker.last_acknowledged is Some && request.revision
                <= worker.last_acknowledged->0;
            let goal = IdleGoal::Apply(request);
            &&& acknowledged ==> worker.beginning(request) == AudioWorker {
                phase: WorkerPhase::CheckingStop,
                ..worker
            }
            &&& !acknowledged && request.state == DesiredAudio::PttTalking ==> worker.beginning(
                request,
            ) == worker.started(Task::Resolve(request))
            &&& !acknowledged && request.state == DesiredAudio::Open ==> worker.beginning(request)
                == worker.started(Task::UnmuteDefault(request))
            &&& !acknowledged && request.state == DesiredAudio::PttIdle ==> worker.beginning(
                request,
            ) == match worker.remembered {
                Some(source) => worker.started(Task::MuteRemembered { goal, source }),
                None => worker.started(Task::MuteDefault { goal, succeeded: true }),
            }
        }),
{
}

/// A listening worker that is told of a request turns to it, whatever was handled before: one that
/// can run commands resolves the default source to talk, unmutes the default source for an open
/// microphone, and mutes to idle.
pub proof fn law_listening_worker_turns_to_requests(worker: AudioWorker, request: DesiredRequest)
    requires
        worker.phase is Listening,
        !worker.commands.poisoned,
        worker.last_acknowledged is Some ==> worker.last_acknowledged->0 < request.revision,
    ensures
        ({
            let turned = worker.after(WorkerEvent::DesiredChanged(Some(request)));
            &&& request.state == DesiredAudio::PttTalking ==> turned.phase == WorkerPhase::Running(
                Task::Resolve(request),
            ) && turned.commands.phase == (CommandPhase::Spawning {
                operation: "resolve default source",
                supersede: Some(request.revision),
            })
            &&& request.state == DesiredAudio::Open ==> turned.phase == WorkerPhase::Running(
                Task::UnmuteDefault(request),
            ) && turned.commands.phase == (CommandPhase::Spawning {
                operation: "unmute default source",
                supersede: Some(request.revision),
            })
            &&& request.state == DesiredAudio::PttIdle && worker.remembered is Some ==> turned.phase
                == WorkerPhase::Running(
                Task::MuteRemembered {
                    goal: IdleGoal::Apply(request),
                    source: worker.remembered->0,
                },
            ) && turned.commands.phase == (CommandPhase::Spawning {
                operation: "mute remembered source",
                supersede: None,
            })
            &&& request.state == DesiredAudio::PttIdle && worker.remembered is None ==> turned.phase
                == WorkerPhase::Running(
                Task::MuteDefault { goal: IdleGoal::Apply(request), succeeded: true },
            ) && turned.commands.phase == (CommandPhase::Spawning {
                operation: "mute default source",
                supersede: None,
            })
            &&& turned.commands.poisoned == worker.commands.poisoned
            &&& turned == AudioWorker { commands: turned.commands, phase: turned.phase, ..worker }
        }),
{
}

/// A worker turns to a request when it listens and is told of it, when a look shows it and it is
/// later than what the look is for, when it ended a command that gave way, and when it is there at
/// the beginning.
pub proof fn law_requests_are_noticed(
    worker: AudioWorker,
    request: DesiredRequest,
    poll: Poll,
    operation: &'static str,
    kill_error: Option<IoError>,
    task: Task,
)
    ensures
        worker.phase is Listening ==> worker.after(WorkerEvent::DesiredChanged(Some(request)))
            == worker.beginning(request),
        worker.phase == WorkerPhase::Polling(poll) && request.revision > (match poll {
            Poll::Resolved { request, .. } => request.revision,
            Poll::Idled { request, .. } => request.revision,
            Poll::Completed { request, .. } => request.revision,
            Poll::Reconciling { revision } => revision,
            Poll::Reconciled { revision } => revision,
        }) ==> worker.after(WorkerEvent::Polled(Polled::Changed(Some(request))))
            == worker.beginning(request),
        worker.phase == WorkerPhase::Running(task) && worker.commands.phase
            == (CommandPhase::Reaping {
            operation,
            cause: KillCause::Superseded(request),
            kill_error,
        }) && (task is Resolve || task is UnmuteSource || task is UnmuteDefault
            || task is QueryMute) ==> worker.after(
            WorkerEvent::Command(CommandEvent::Reaped(Ok(()))),
        ) == (AudioWorker {
            commands: CommandRunner {
                poisoned: worker.commands.poisoned,
                phase: CommandPhase::Ready,
            },
            ..worker
        }).beginning(request),
        AudioWorker::initial(Some(request)) == AudioWorker::initial(None).beginning(request),
{
}

/// A worker starts with nothing remembered, acknowledged or handled, and sees first whether it is
/// told to stop unless a request is there.
pub proof fn law_worker_starts_blank(worker: AudioWorker)
    requires
        call_ensures(AudioWorker::new, (None::<DesiredRequest>,), worker),
    ensures
        worker == AudioWorker::initial(None),
        worker.commands == (CommandRunner { poisoned: false, phase: CommandPhase::Ready }),
        worker.desired_open,
        worker.remembered is None,
        worker.last_acknowledged is None,
        worker.handled is None,
        !worker.idle_retry_pending,
        worker.phase is CheckingStop,
{
}

/// What comes of a task's command decides how the worker goes on, once the command has ended; until
/// then the worker waits for it.
pub proof fn law_commands_are_waited_for(worker: AudioWorker, task: Task, event: CommandEvent)
    requires
        worker.phase == WorkerPhase::Running(task),
    ensures
        ({
            let commands = worker.commands.after(event);
            let next = worker.after(WorkerEvent::Command(event));
            let open = worker.desired_open && !(event is DesiredClosed && (
            worker.commands.phase matches CommandPhase::Waiting { supersede: Some(_), .. }));
            &&& !(commands.phase is Finished) ==> next == AudioWorker {
                commands,
                desired_open: open,
                ..worker
            }
            &&& commands.phase matches CommandPhase::Finished(result) ==> next == (AudioWorker {
                commands: CommandRunner {
                    poisoned: commands.poisoned,
                    phase: CommandPhase::Ready,
                },
                desired_open: open,
                ..worker
            }).resumed(task, result)
        }),
{
}

/// A source that was resolved is remembered and, unless a later request is found, unmuted; a
/// description that names none fails the request, as does a command that fails.
pub proof fn law_resolved_source_is_remembered(
    worker: AudioWorker,
    request: DesiredRequest,
    output: Vec<u8>,
    error: AudioError,
)
    requires
        !(error is Reap),
        !(error is Poisoned),
    ensures
        ({
            let failed = AudioWorker {
                phase: WorkerPhase::Polling(
                    Poll::Completed { request, outcome: AckOutcome::HandledFailure },
                ),
                ..worker
            };
            &&& crate::wpctl::source_in(output@) matches Ok(source) ==> worker.resumed(
                Task::Resolve(request),
                Ok(Execution::Output(output)),
            ) == AudioWorker {
                remembered: Some(source),
                phase: WorkerPhase::Polling(Poll::Resolved { request, source }),
                ..worker
            }
            &&& crate::wpctl::source_in(output@) is Err ==> worker.resumed(
                Task::Resolve(request),
                Ok(Execution::Output(output)),
            ) == failed
            &&& worker.resumed(Task::Resolve(request), Err(error)) == failed
        }),
{
}

/// A source that was unmuted completes the request as applied, whatever the command wrote, and a
/// command that failed completes it as a failure.
pub proof fn law_unmuted_source_completes_the_request(
    worker: AudioWorker,
    request: DesiredRequest,
    source: SourceId,
    output: Vec<u8>,
    error: AudioError,
    newer: DesiredRequest,
)
    requires
        !(error is Reap),
        !(error is Poisoned),
    ensures
        ({
            let done = AudioWorker {
                phase: WorkerPhase::Polling(
                    Poll::Completed { request, outcome: AckOutcome::Applied },
                ),
                ..worker
            };
            let failed = AudioWorker {
                phase: WorkerPhase::Polling(
                    Poll::Completed { request, outcome: AckOutcome::HandledFailure },
                ),
                ..worker
            };
            let talk = Task::UnmuteSource { request, source };
            let open = Task::UnmuteDefault(request);
            &&& worker.resumed(talk, Ok(Execution::Output(output))) == done
            &&& worker.resumed(open, Ok(Execution::Output(output))) == done
            &&& worker.resumed(talk, Err(error)) == failed
            &&& worker.resumed(open, Err(error)) == failed
            &&& worker.resumed(talk, Ok(Execution::Superseded(newer))) == worker.beginning(newer)
            &&& worker.resumed(open, Ok(Execution::Superseded(newer))) == worker.beginning(newer)
            &&& worker.resumed(Task::Resolve(request), Ok(Execution::Superseded(newer)))
                == worker.beginning(newer)
        }),
{
}

/// After the remembered source the default one is muted too, whether or not the first went well;
/// then it is on record whether either failed.
pub proof fn law_both_sources_are_muted(
    worker: AudioWorker,
    goal: IdleGoal,
    source: SourceId,
    succeeded: bool,
    result: Result<Execution, AudioError>,
)
    requires
        result matches Err(error) ==> !(error is Reap) && !(error is Poisoned),
    ensures
        worker.resumed(Task::MuteRemembered { goal, source }, result) == worker.started(
            Task::MuteDefault { goal, succeeded: result is Ok },
        ),
        worker.resumed(Task::MuteDefault { goal, succeeded }, result) == (AudioWorker {
            idle_retry_pending: !succeeded || result is Err,
            phase: WorkerPhase::Polling(
                match goal {
                    IdleGoal::Apply(request) => Poll::Idled {
                        request,
                        succeeded: succeeded && result is Ok,
                    },
                    IdleGoal::Retry { revision } => Poll::Reconciled { revision },
                },
            ),
            ..worker
        }),
{
}

/// An idle source that is found unmuted is to be muted again; one that is found muted, or of which
/// nothing can be told, is left alone, and so is one that was muted again.
pub proof fn law_unmuted_idle_source_is_muted_again(
    worker: AudioWorker,
    revision: u64,
    output: Vec<u8>,
    error: AudioError,
    newer: DesiredRequest,
)
    requires
        !(error is Reap),
        !(error is Poisoned),
    ensures
        ({
            let query = Task::QueryMute { revision };
            let left = AudioWorker {
                phase: WorkerPhase::Polling(Poll::Reconciled { revision }),
                ..worker
            };
            &&& crate::wpctl::mute_in(output@) matches Ok(muted) ==> !muted ==> worker.resumed(
                query,
                Ok(Execution::Output(output)),
            ) == AudioWorker {
                phase: WorkerPhase::Polling(Poll::Reconciling { revision }),
                ..worker
            }
            &&& crate::wpctl::mute_in(output@) matches Ok(muted) ==> muted ==> worker.resumed(
                query,
                Ok(Execution::Output(output)),
            ) == left
            &&& crate::wpctl::mute_in(output@) is Err ==> worker.resumed(
                query,
                Ok(Execution::Output(output)),
            ) == left
            &&& worker.resumed(query, Err(error)) == left
            &&& worker.resumed(query, Ok(Execution::Superseded(newer))) == worker.beginning(newer)
            &&& worker.resumed(
                Task::ReconcileMute { revision },
                Ok(Execution::Output(output)),
            ) == left
            &&& worker.resumed(Task::ReconcileMute { revision }, Err(error)) == left
        }),
{
}

/// A command that leaves it open whether a child process still runs ends the worker, whatever task
/// it was for.
pub proof fn law_uncertain_commands_end_the_worker(
    worker: AudioWorker,
    task: Task,
    error: AudioError,
)
    requires
        error is Reap || error is Poisoned,
    ensures
        worker.resumed(task, Err(error)) == (AudioWorker {
            phase: WorkerPhase::Stopped(Err(WorkerError::Audio(error))),
            ..worker
        }),
{
}

/// A look that shows nothing new lets the worker go on with what the look was for: unmute the
/// resolved source, complete an idle request as its muting went, acknowledge a completed request,
/// mute a source again, or see whether it is told to stop. A look that shows no later request
/// changes nothing.
pub proof fn law_looks_lead_on(worker: AudioWorker, poll: Poll, request: DesiredRequest)
    requires
        worker.phase == WorkerPhase::Polling(poll),
    ensures
        ({
            let next = worker.after(WorkerEvent::Polled(Polled::Unchanged));
            let closed = worker.after(WorkerEvent::Polled(Polled::Closed));
            let revision = match poll {
                Poll::Resolved { request, .. } => request.revision,
                Poll::Idled { request, .. } => request.revision,
                Poll::Completed { request, .. } => request.revision,
                Poll::Reconciling { revision } => revision,
                Poll::Reconciled { revision } => revision,
            };
            &&& closed == AudioWorker { desired_open: false, ..next }
            &&& poll matches Poll::Resolved { request, source } ==> next == worker.started(
                Task::UnmuteSource { request, source },
            )
            &&& poll matches Poll::Idled { request, succeeded } ==> next == AudioWorker {
                phase: WorkerPhase::Polling(
                    Poll::Completed {
                        request,
                        outcome: if succeeded {
                            AckOutcome::Applied
                        } else {
                            AckOutcome::HandledFailure
                        },
                    },
                ),
                ..worker
            }
            &&& poll matches Poll::Completed { request, outcome } ==> next
                == if worker.last_acknowledged is Some && request.revision
                <= worker.last_acknowledged->0 {
                AudioWorker {
                    handled: Some(request),
                    phase: WorkerPhase::CheckingStop,
                    ..worker
                }
            } else {
                AudioWorker { phase: WorkerPhase::Acknowledging { request, outcome }, ..worker }
            }
            &&& poll matches Poll::Reconciling { revision } ==> next == worker.started(
                Task::ReconcileMute { revision },
            )
            &&& poll is Reconciled ==> next == AudioWorker {
                phase: WorkerPhase::CheckingStop,
                ..worker
            }
            &&& worker.after(WorkerEvent::Polled(Polled::Changed(None))) == worker
            &&& request.revision <= revision ==> worker.after(
                WorkerEvent::Polled(Polled::Changed(Some(request))),
            ) == worker
        }),
{
}

/// An acknowledgement names the revision and the outcome of the request, and once it is sent the
/// request is the one that was handled last; if it cannot be sent, the worker ends.
pub proof fn law_acknowledged_requests_are_handled(
    worker: AudioWorker,
    request: DesiredRequest,
    outcome: AckOutcome,
    due: Option<AudioAck>,
)
    requires
        worker.phase == (WorkerPhase::Acknowledging { request, outcome }),
        call_ensures(AudioWorker::acknowledgement, (&worker,), due),
    ensures
        due == Some(AudioAck { revision: request.revision, outcome }),
        worker.after(WorkerEvent::Acknowledged(true)) == (AudioWorker {
            last_acknowledged: Some(request.revision),
            handled: Some(request),
            phase: WorkerPhase::CheckingStop,
            ..worker
        }),
        worker.after(WorkerEvent::Acknowledged(false)) == (AudioWorker {
            phase: WorkerPhase::Stopped(Err(WorkerError::AcknowledgementChannelClosed)),
            ..worker
        }),
{
}

/// No acknowledgement is due in any other phase, and the passing of time matters exactly while the
/// request that was handled last is for idle.
pub proof fn law_only_idle_workers_watch_the_time(
    worker: AudioWorker,
    due: Option<AudioAck>,
    idle: bool,
)
    requires
        call_ensures(AudioWorker::acknowledgement, (&worker,), due),
        call_ensures(AudioWorker::is_idle, (&worker,), idle),
    ensures
        due is Some <==> worker.phase is Acknowledging,
        idle <==> worker.handled is Some && worker.handled->0.state == DesiredAudio::PttIdle,
{
}

/// Between requests the worker sees whether it is told to stop, and listens if it is not; told to
/// stop, it ends well. The end of all requests only ends the watch for them.
pub proof fn law_worker_listens_until_told_to_stop(worker: AudioWorker)
    ensures
        worker.phase is CheckingStop ==> {
            &&& worker.after(WorkerEvent::StopFlag(true)) == AudioWorker {
                phase: WorkerPhase::Stopped(Ok(())),
                ..worker
            }
            &&& worker.after(WorkerEvent::StopFlag(false)) == AudioWorker {
                phase: WorkerPhase::Listening,
                ..worker
            }
        },
        worker.phase is Listening ==> {
            &&& worker.after(WorkerEvent::StopChanged(true)) == AudioWorker {
                phase: WorkerPhase::Stopped(Ok(())),
                ..worker
            }
            &&& worker.after(WorkerEvent::StopChanged(false)) == AudioWorker {
                phase: WorkerPhase::CheckingStop,
                ..worker
            }
            &&& worker.after(WorkerEvent::DesiredChanged(None)) == AudioWorker {
                phase: WorkerPhase::CheckingStop,
                ..worker
            }
            &&& worker.after(WorkerEvent::DesiredClosed) == AudioWorker {
                desired_open: false,
                phase: WorkerPhase::CheckingStop,
                ..worker
            }
        },
{
}

/// While idle is in force, the passing of time looks whether the default source is muted, or mutes
/// again every source that is to be muted if that failed; otherwise it does nothing.
pub proof fn law_time_keeps_an_idle_source_muted(worker: AudioWorker)
    requires
        worker.phase is Listening,
    ensures
        ({
            let next = worker.after(WorkerEvent::Tick);
            let idle = worker.handled is Some && worker.handled->0.state == DesiredAudio::PttIdle;
            let revision = worker.handled->0.revision;
            let goal = IdleGoal::Retry { revision };
            &&& !idle ==> next == worker
            &&& idle && !worker.idle_retry_pending ==> next == worker.started(
                Task::QueryMute { revision },
            )
            &&& idle && worker.idle_retry_pending && worker.remembered is Some ==> next
                == worker.started(Task::MuteRemembered { goal, source: worker.remembered->0 })
            &&& idle && worker.idle_retry_pending && worker.remembered is None ==> next
                == worker.started(Task::MuteDefault { goal, succeeded: true })
        }),
{
}

/// Whether a phase waits for an event of that kind.
pub open spec fn is_awaited(phase: WorkerPhase, event: WorkerEvent) -> bool {
    match event {
        WorkerEvent::Command(_) => phase is Running,
        WorkerEvent::Polled(_) => phase is Polling,
        WorkerEvent::Acknowledged(_) => phase is Acknowledging,
        WorkerEvent::StopFlag(_) => phase is CheckingStop,
        WorkerEvent::StopChanged(_) => phase is Listening,
        WorkerEvent::DesiredChanged(_) => phase is Listening,
        WorkerEvent::DesiredClosed => phase is Listening,
        WorkerEvent::Tick => phase is Listening,
    }
}

/// Events that are not waited for change nothing.
pub proof fn law_unawaited_worker_events_are_ignored(worker: AudioWorker, event: WorkerEvent)
    requires
        !is_awaited(worker.phase, event),
    ensures
        worker.after(event) == worker,
{
}

/// What is told to have gone wrong is the failure of the command that has just ended, or that its
/// output could not be read, and nothing else.
pub proof fn law_setbacks_tell_of_the_command(
    worker: AudioWorker,
    task: Task,
    event: CommandEvent,
    other: WorkerEvent,
)
    requires
        worker.phase == WorkerPhase::Running(task),
    ensures
        !(other is Command) ==> worker.setback(other) is Nothing,
        match worker.commands.after(event).phase {
            CommandPhase::Finished(Err(error)) => if error is Reap || error is Poisoned {
                worker.setback(WorkerEvent::Command(event)) is Nothing
            } else {
                worker.setback(WorkerEvent::Command(event)) == Setback::Failed(error)
            },
            CommandPhase::Finished(Ok(Execution::Output(output))) => {
                let setback = worker.setback(WorkerEvent::Command(event));
                if task is Resolve && crate::wpctl::source_in(output@) is Err {
                    setback == Setback::Unreadable {
                        operation: "resolve default source",
                        reason: crate::wpctl::source_in(output@)->Err_0,
                    }
                } else if task is QueryMute && crate::wpctl::mute_in(output@) is Err {
                    setback == Setback::Unreadable {
                        operation: "query default source mute",
                        reason: crate::wpctl::mute_in(output@)->Err_0,
                    }
                } else {
                    setback is Nothing
                }
            },
            _ => worker.setback(WorkerEvent::Command(event)) is Nothing,
        },
{
}

/// What an error tells of is a setback with just that content.
pub proof fn law_noted_errors_tell_of_setbacks(
    error: AudioError,
    operation: &'static str,
    reason: Seq<char>,
)
    ensures
        crate::worker::tells_of(None, Setback::Nothing),
        !crate::worker::tells_of(Some(error), Setback::Nothing),
        !crate::worker::tells_of(None, Setback::Failed(error)),
        crate::worker::tells_of(Some(error), Setback::Failed(error)),
        crate::worker::tells_of(Some(error), Setback::Unreadable { operation, reason }) <==> (
        error matches AudioError::Parse { operation: name, message } && name == operation
            && message@ == reason),
        !crate::worker::tells_of(None, Setback::Unreadable { operation, reason }),
{
}

/// The event that the child process of a command was started.
pub open spec fn spawned() -> WorkerEvent {
    WorkerEvent::Command(CommandEvent::Spawned(Ok(())))
}

/// The event that a child process ended well, having written that.
pub open spec fn wrote(stdout: Vec<u8>) -> WorkerEvent {
    WorkerEvent::Command(
        CommandEvent::Exited(Ok(CommandOutput { success: true, status: Some(0), stdout })),
    )
}

/// From end to end, a request to talk that nothing comes in between of unmutes the source that is
/// the default one then, remembers it, and is acknowledged as applied.
pub proof fn law_talking_unmutes_the_default_source(
    worker: AudioWorker,
    request: DesiredRequest,
    description: Vec<u8>,
    silence: Vec<u8>,
    source: SourceId,
)
    requires
        worker.phase is Listening,
        worker.commands.phase is Ready,
        !worker.commands.poisoned,
        request.state == DesiredAudio::PttTalking,
        worker.last_acknowledged is Some ==> worker.last_acknowledged->0 < request.revision,
        crate::wpctl::source_in(description@) == Ok::<SourceId, Seq<char>>(source),
    ensures
        ({
            let resolving = worker.after(WorkerEvent::DesiredChanged(Some(request)));
            let resolved = resolving.after(spawned()).after(wrote(description));
            let unmuting = resolved.after(WorkerEvent::Polled(Polled::Unchanged));
            let unmuted = unmuting.after(spawned()).after(wrote(silence));
            let acknowledging = unmuted.after(WorkerEvent::Polled(Polled::Unchanged));
            let done = acknowledging.after(WorkerEvent::Acknowledged(true));
            &&& resolving.phase == WorkerPhase::Running(Task::Resolve(request))
            &&& unmuting.phase == WorkerPhase::Running(Task::UnmuteSource { request, source })
            &&& acknowledging.phase == (WorkerPhase::Acknowledging {
                request,
                outcome: AckOutcome::Applied,
            })
            &&& done == AudioWorker {
                remembered: Some(source),
                last_acknowledged: Some(request.revision),
                handled: Some(request),
                phase: WorkerPhase::CheckingStop,
                ..worker
            }
        }),
{
}

/// From end to end, a request for an open microphone that nothing comes in between of unmutes the
/// default source, and is acknowledged as applied.
pub proof fn law_opening_unmutes_the_default_source(
    worker: AudioWorker,
    request: DesiredRequest,
    silence: Vec<u8>,
)
    requires
        worker.phase is Listening,
        worker.commands.phase is Ready,
        !worker.commands.poisoned,
        request.state == DesiredAudio::Open,
        worker.last_acknowledged is Some ==> worker.last_acknowledged->0 < request.revision,
    ensures
        ({
            let unmuting = worker.after(WorkerEvent::DesiredChanged(Some(request)));
            let unmuted = unmuting.after(spawned()).after(wrote(silence));
            let acknowledging = unmuted.after(WorkerEvent::Polled(Polled::Unchanged));
            let done = acknowledging.after(WorkerEvent::Acknowledged(true));
            &&& unmuting.phase == WorkerPhase::Running(Task::UnmuteDefault(request))
            &&& acknowledging.phase == (WorkerPhase::Acknowledging {
                request,
                outcome: AckOutcome::Applied,
            })
            &&& done == AudioWorker {
                last_acknowledged: Some(request.revision),
                handled: Some(request),
                phase: WorkerPhase::CheckingStop,
                ..worker
            }
        }),
{
}

/// From end to end, a request to idle that nothing comes in between of mutes the remembered source
/// and the default one, and is acknowledged as applied, with no failure on record.
pub proof fn law_idling_mutes_and_is_acknowledged(
    worker: AudioWorker,
    request: DesiredRequest,
    silence: Vec<u8>,
    source: SourceId,
)
    requires
        worker.phase is Listening,
        worker.commands.phase is Ready,
        !worker.commands.poisoned,
        worker.remembered == Some(source),
        request.state == DesiredAudio::PttIdle,
        worker.last_acknowledged is Some ==> worker.last_acknowledged->0 < request.revision,
    ensures
        ({
            let goal = IdleGoal::Apply(request);
            let first = worker.after(WorkerEvent::DesiredChanged(Some(request)));
            let second = first.after(spawned()).after(wrote(silence));
            let muted = second.after(spawned()).after(wrote(silence));
            let completed = muted.after(WorkerEvent::Polled(Polled::Unchanged));
            let acknowledging = completed.after(WorkerEvent::Polled(Polled::Unchanged));
            let done = acknowledging.after(WorkerEvent::Acknowledged(true));
            &&& first.phase == WorkerPhase::Running(Task::MuteRemembered { goal, source })
            &&& second.phase == WorkerPhase::Running(Task::MuteDefault { goal, succeeded: true })
            &&& acknowledging.phase == (WorkerPhase::Acknowledging {
                request,
                outcome: AckOutcome::Applied,
            })
            &&& done == AudioWorker {
                last_acknowledged: Some(request.revision),
                handled: Some(request),
                idle_retry_pending: false,
                phase: WorkerPhase::CheckingStop,
                ..worker
            }
        }),
{
}

/// A worker that finds a request at the beginning turns to it at once.
pub proof fn law_first_request_is_turned_to(request: DesiredRequest, worker: AudioWorker)
    requires
        call_ensures(AudioWorker::new, (Some(request),), worker),
    ensures
        request.state == DesiredAudio::PttTalking ==> worker.phase == WorkerPhase::Running(
            Task::Resolve(request),
        ),
        request.state == DesiredAudio::Open ==> worker.phase == WorkerPhase::Running(
            Task::UnmuteDefault(request),
        ),
        request.state == DesiredAudio::PttIdle ==> worker.phase == WorkerPhase::Running(
            Task::MuteDefault { goal: IdleGoal::Apply(request), succeeded: true },
        ),
        worker.handled is None,
        worker.last_acknowledged is None,
        worker.remembered is None,
        !worker.commands.poisoned,
        worker.commands.phase is Spawning,
{
}

/// A worker can take a step exactly if a command is under way while it runs a task, and none is
/// otherwise.
pub proof fn law_steps_need_a_command_in_step(worker: AudioWorker)
    ensures
        worker.in_step() <==> if worker.phase is Running {
            worker.commands.phase is Spawning || worker.commands.phase is Waiting
                || worker.commands.phase is Killing || worker.commands.phase is Reaping
        } else {
            worker.commands.phase is Ready
        },
{
}

} // verus!
