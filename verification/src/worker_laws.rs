//! What holds of the audio worker over any run of events.

use vstd::prelude::*;

use crate::audio::{AckOutcome, AudioError, DesiredRequest, WorkerError};
use crate::command::{CommandEvent, CommandPhase, Execution, KillCause};
use crate::fault::IoError;
use crate::state::DesiredAudio;
use crate::worker::{AudioWorker, IdleGoal, Poll, Polled, Task, WorkerEvent, WorkerPhase};
use crate::wpctl::WpctlCommand;

verus! {

impl Task {
    /// Whether the command unmutes a source.
    pub open spec fn unmutes(self) -> bool {
        self.command() matches WpctlCommand::SetMute { muted: false, .. }
    }

    /// Whether the command mutes a source.
    pub open spec fn mutes(self) -> bool {
        self.command() matches WpctlCommand::SetMute { muted: true, .. }
    }
}

impl AudioWorker {
    /// The worker after a run of events, in order.
    pub open spec fn after_all(self, events: Seq<WorkerEvent>) -> Self
        decreases events.len(),
    {
        if events.len() == 0 {
            self
        } else {
            self.after_all(events.drop_last()).after(events.last())
        }
    }

    /// Whether a child process may be running.
    pub open spec fn has_child(self) -> bool {
        self.commands.phase is Waiting || self.commands.phase is Killing
            || self.commands.phase is Reaping
    }

    /// Whether the event is the sending of an acknowledgement.
    pub open spec fn acknowledges(self, event: WorkerEvent) -> bool {
        self.phase is Acknowledging && event == WorkerEvent::Acknowledged(true)
    }

    /// The revisions that are acknowledged in a run of events, in order.
    pub open spec fn acknowledged(self, events: Seq<WorkerEvent>) -> Seq<u64>
        decreases events.len(),
    {
        if events.len() == 0 {
            Seq::empty()
        } else {
            let earlier = self.acknowledged(events.drop_last());
            let worker = self.after_all(events.drop_last());
            if worker.acknowledges(events.last()) {
                earlier.push(worker.phase->Acknowledging_request.revision)
            } else {
                earlier
            }
        }
    }

    /// Whether the request calls for the state and is not acknowledged yet.
    pub open spec fn pursues(self, request: DesiredRequest, state: DesiredAudio) -> bool {
        request.state == state && !self.has_acknowledged(request.revision)
    }

    /// Whether push-to-talk idle, of that revision, is in force.
    pub open spec fn idles_at(self, revision: u64) -> bool {
        self.handled == Some(DesiredRequest { revision, state: DesiredAudio::PttIdle })
    }

    /// Whether the request is later than the one that was handled last.
    pub open spec fn is_after_handled(self, request: DesiredRequest) -> bool {
        self.handled matches Some(handled) ==> request.revision > handled.revision
    }

    /// Whether the worker has to do with the request.
    pub open spec fn concerns(self, request: DesiredRequest) -> bool {
        ||| self.handled == Some(request)
        ||| self.commands.phase matches CommandPhase::Killing {
            cause: KillCause::Superseded(newer),
            ..
        } && newer == request
        ||| self.commands.phase matches CommandPhase::Reaping {
            cause: KillCause::Superseded(newer),
            ..
        } && newer == request
        ||| match self.phase {
            WorkerPhase::Running(Task::Resolve(served)) => served == request,
            WorkerPhase::Running(Task::UnmuteSource { request: served, .. }) => served == request,
            WorkerPhase::Running(Task::UnmuteDefault(served)) => served == request,
            WorkerPhase::Running(Task::MuteRemembered { goal, .. }) => goal == IdleGoal::Apply(
                request,
            ),
            WorkerPhase::Running(Task::MuteDefault { goal, .. }) => goal == IdleGoal::Apply(
                request,
            ),
            WorkerPhase::Polling(Poll::Resolved { request: served, .. }) => served == request,
            WorkerPhase::Polling(Poll::Idled { request: served, .. }) => served == request,
            WorkerPhase::Polling(Poll::Completed { request: served, .. }) => served == request,
            WorkerPhase::Acknowledging { request: served, .. } => served == request,
            _ => false,
        }
    }

    pub open spec fn goal_stands(self, goal: IdleGoal) -> bool {
        match goal {
            IdleGoal::Apply(request) => self.pursues(request, DesiredAudio::PttIdle),
            IdleGoal::Retry { revision } => self.idles_at(revision),
        }
    }

    /// Whether the task serves a request that is to be applied, or keeps an idle source muted.
    pub open spec fn task_stands(self, task: Task) -> bool {
        match task {
            Task::Resolve(request) => self.pursues(request, DesiredAudio::PttTalking),
            Task::UnmuteSource { request, source } => {
                &&& self.pursues(request, DesiredAudio::PttTalking)
                &&& self.remembered == Some(source)
            },
            Task::UnmuteDefault(request) => self.pursues(request, DesiredAudio::Open),
            Task::MuteRemembered { goal, source } => {
                &&& self.goal_stands(goal)
                &&& self.remembered == Some(source)
            },
            Task::MuteDefault { goal, .. } => self.goal_stands(goal),
            Task::QueryMute { revision } => self.idles_at(revision),
            Task::ReconcileMute { revision } => self.idles_at(revision),
        }
    }

    pub open spec fn poll_stands(self, poll: Poll) -> bool {
        match poll {
            Poll::Resolved { request, source } => {
                &&& self.pursues(request, DesiredAudio::PttTalking)
                &&& self.remembered == Some(source)
            },
            Poll::Idled { request, succeeded } => {
                &&& self.pursues(request, DesiredAudio::PttIdle)
                &&& self.idle_retry_pending == !succeeded
            },
            Poll::Completed { request, outcome } => self.completes(request, outcome),
            Poll::Reconciling { revision } => self.idles_at(revision),
            Poll::Reconciled { revision } => self.idles_at(revision),
        }
    }

    /// Whether the request is not acknowledged yet, and, if it is for idle, a mute that failed is
    /// on record exactly when the outcome tells of a failure.
    pub open spec fn completes(self, request: DesiredRequest, outcome: AckOutcome) -> bool {
        &&& !self.has_acknowledged(request.revision)
        &&& request.state == DesiredAudio::PttIdle ==> self.idle_retry_pending == (outcome
            == AckOutcome::HandledFailure)
    }

    /// Whether the runner is busy with the command of the task.
    pub open spec fn runs(self, task: Task) -> bool {
        match self.commands.phase {
            CommandPhase::Spawning { operation, supersede } => operation == task.name()
                && supersede == task.yields_past(),
            CommandPhase::Waiting { operation, supersede } => operation == task.name() && supersede
                == task.yields_past(),
            CommandPhase::Killing { operation, cause } => operation == task.name()
                && cause_stands(task, cause),
            CommandPhase::Reaping { operation, cause, .. } => operation == task.name()
                && cause_stands(task, cause),
            _ => false,
        }
    }

    /// What holds of a worker at all times.
    pub open spec fn sound(self) -> bool {
        &&& self.in_step()
        &&& self.handled matches Some(request) ==> self.last_acknowledged == Some(request.revision)
        &&& self.handled is None ==> self.last_acknowledged is None
        &&& self.commands.poisoned ==> (self.phase matches WorkerPhase::Stopped(
            Err(WorkerError::Audio(AudioError::Reap { .. })),
        ))
        &&& match self.phase {
            WorkerPhase::Running(task) => self.task_stands(task) && self.runs(task),
            WorkerPhase::Polling(poll) => self.poll_stands(poll),
            WorkerPhase::Acknowledging { request, outcome } => self.completes(request, outcome),
            _ => true,
        }
    }
}

/// Whether a child process of the task may be killed for that cause: a later request only ends
/// what it may end.
pub open spec fn cause_stands(task: Task, cause: KillCause) -> bool {
    cause matches KillCause::Superseded(newer) ==> (task.yields_past() matches Some(revision)
        && newer.revision > revision)
}

proof fn lemma_beginning_is_sound(worker: AudioWorker, request: DesiredRequest)
    requires
        worker.commands.phase is Ready,
        !worker.commands.poisoned,
        worker.handled matches Some(handled) ==> worker.last_acknowledged == Some(handled.revision),
        worker.handled is None ==> worker.last_acknowledged is None,
    ensures
        worker.beginning(request).sound(),
{
}

proof fn lemma_step_is_sound(worker: AudioWorker, event: WorkerEvent)
    requires
        worker.sound(),
    ensures
        worker.after(event).sound(),
{
    match (worker.phase, event) {
        (WorkerPhase::Running(task), WorkerEvent::Command(inner)) => {
            let commands = worker.commands.after(inner);
            let next = AudioWorker {
                commands: commands.in_phase(CommandPhase::Ready),
                desired_open: worker.desired_open && !worker.commands.loses_desired(inner),
                ..worker
            };
            if let CommandPhase::Finished(Ok(Execution::Superseded(newer))) = commands.phase {
                lemma_beginning_is_sound(next, newer);
            }
        },
        (WorkerPhase::Polling(poll), WorkerEvent::Polled(Polled::Changed(Some(newer)))) => {
            lemma_beginning_is_sound(worker, newer);
        },
        (WorkerPhase::Listening, WorkerEvent::DesiredChanged(Some(newer))) => {
            lemma_beginning_is_sound(worker, newer);
        },
        _ => {},
    }
}

/// Whatever happens, a worker is in step with its runner, every command serves a request that is
/// to be applied or keeps an idle source muted, and a runner that is poisoned has ended the worker.
pub proof fn law_worker_stays_sound(desired: Option<DesiredRequest>, events: Seq<WorkerEvent>)
    ensures
        AudioWorker::initial(desired).after_all(events).sound(),
    decreases events.len(),
{
    if events.len() == 0 {
        if let Some(request) = desired {
            lemma_beginning_is_sound(
                AudioWorker { phase: WorkerPhase::CheckingStop, ..AudioWorker::initial(None) },
                request,
            );
        }
    } else {
        law_worker_stays_sound(desired, events.drop_last());
        lemma_step_is_sound(
            AudioWorker::initial(desired).after_all(events.drop_last()),
            events.last(),
        );
    }
}

/// The request that an event brings.
pub open spec fn brings(event: WorkerEvent) -> Option<DesiredRequest> {
    match event {
        WorkerEvent::DesiredChanged(published) => published,
        WorkerEvent::Polled(Polled::Changed(published)) => published,
        WorkerEvent::Command(CommandEvent::DesiredChanged(published)) => published,
        _ => None,
    }
}

/// Whether the request is the one that the worker started with, or is brought by an event.
pub open spec fn was_published(
    desired: Option<DesiredRequest>,
    events: Seq<WorkerEvent>,
    request: DesiredRequest,
) -> bool {
    desired == Some(request) || exists|i: int|
        0 <= i < events.len() && brings(#[trigger] events[i]) == Some(request)
}

/// The worker never has to do with a request that was not published, so that it neither unmutes
/// nor acknowledges anything of its own accord.
pub proof fn law_worker_serves_published_requests(
    desired: Option<DesiredRequest>,
    events: Seq<WorkerEvent>,
    request: DesiredRequest,
)
    requires
        AudioWorker::initial(desired).after_all(events).concerns(request),
    ensures
        was_published(desired, events, request),
    decreases events.len(),
{
    if events.len() > 0 {
        let earlier = AudioWorker::initial(desired).after_all(events.drop_last());
        law_worker_stays_sound(desired, events.drop_last());
        lemma_step_concerns(earlier, events.last(), request);
        if earlier.concerns(request) {
            law_worker_serves_published_requests(desired, events.drop_last(), request);
            if desired != Some(request) {
                let i = choose|i: int|
                    0 <= i < events.drop_last().len() && brings(
                        #[trigger] events.drop_last()[i],
                    ) == Some(request);
                assert(brings(events[i]) == Some(request));
            }
        } else {
            assert(brings(events[events.len() - 1]) == Some(request));
        }
    }
}

proof fn lemma_beginning_concerns(
    worker: AudioWorker,
    newer: DesiredRequest,
    request: DesiredRequest,
)
    requires
        worker.commands.phase is Ready,
        worker.beginning(newer).concerns(request),
    ensures
        request == newer || worker.handled == Some(request),
{
}

proof fn lemma_step_concerns(worker: AudioWorker, event: WorkerEvent, request: DesiredRequest)
    requires
        worker.sound(),
        worker.after(event).concerns(request),
    ensures
        worker.concerns(request) || brings(event) == Some(request),
{
    match (worker.phase, event) {
        (WorkerPhase::Running(task), WorkerEvent::Command(inner)) => {
            let commands = worker.commands.after(inner);
            let next = AudioWorker {
                commands: commands.in_phase(CommandPhase::Ready),
                desired_open: worker.desired_open && !worker.commands.loses_desired(inner),
                ..worker
            };
            if let CommandPhase::Finished(Ok(Execution::Superseded(newer))) = commands.phase {
                if task.yields_past() is Some {
                    lemma_beginning_concerns(next, newer, request);
                }
            }
        },
        (WorkerPhase::Polling(poll), WorkerEvent::Polled(Polled::Changed(Some(newer)))) => {
            if newer.revision > poll.revision() {
                lemma_beginning_concerns(worker, newer, request);
            }
        },
        (WorkerPhase::Listening, WorkerEvent::DesiredChanged(Some(newer))) => {
            lemma_beginning_concerns(worker, newer, request);
        },
        _ => {},
    }
}

/// Acknowledgements go out in strictly increasing order of their revisions, so none goes out twice.
pub proof fn law_acknowledgements_increase(
    desired: Option<DesiredRequest>,
    events: Seq<WorkerEvent>,
)
    ensures
        ({
            let sent = AudioWorker::initial(desired).acknowledged(events);
            &&& forall|i: int, j: int| 0 <= i < j < sent.len() ==> sent[i] < sent[j]
            &&& AudioWorker::initial(desired).after_all(events).last_acknowledged == if sent.len()
                == 0 {
                None
            } else {
                Some(sent.last())
            }
        }),
    decreases events.len(),
{
    if events.len() > 0 {
        law_acknowledgements_increase(desired, events.drop_last());
        law_worker_stays_sound(desired, events.drop_last());
    }
}

/// A request is acknowledged only right after a look that showed no later one, and a look that
/// shows a later one turns to it, unless that one has been acknowledged.
pub proof fn law_newest_request_wins(
    worker: AudioWorker,
    event: WorkerEvent,
    poll: Poll,
    newer: DesiredRequest,
)
    ensures
        worker.phase !is Acknowledging && worker.after(event).phase is Acknowledging ==> {
            &&& worker.phase matches WorkerPhase::Polling(Poll::Completed { request, outcome })
            &&& worker.after(event).phase == (WorkerPhase::Acknowledging { request, outcome })
            &&& event == WorkerEvent::Polled(Polled::Unchanged) || event == WorkerEvent::Polled(
                Polled::Closed,
            )
        },
        worker.phase == WorkerPhase::Polling(poll) && newer.revision > poll.revision()
            ==> worker.after(WorkerEvent::Polled(Polled::Changed(Some(newer)))) == worker.beginning(
            newer,
        ),
{
}

/// At most one child process is there at a time: one is started only while none is there, and
/// while one is there it goes only by its own end or by being reaped.
pub proof fn law_one_child_at_a_time(worker: AudioWorker, event: WorkerEvent)
    requires
        worker.sound(),
    ensures
        worker.after(event).has_child() && !worker.has_child() ==> {
            &&& worker.commands.phase is Spawning
            &&& event matches WorkerEvent::Command(CommandEvent::Spawned(Ok(_)))
        },
        worker.has_child() && !worker.after(event).has_child() ==> {
            ||| event matches WorkerEvent::Command(CommandEvent::Exited(Ok(_)))
            ||| event matches WorkerEvent::Command(CommandEvent::Reaped(Ok(_)))
            ||| worker.after(event).phase matches WorkerPhase::Stopped(
                Err(WorkerError::Audio(AudioError::Reap { .. })),
            )
        },
{
}

/// When a killed child process cannot be waited for, the worker ends with that error, and, as
/// ever, a worker that has ended does nothing more.
pub proof fn law_uncertain_cleanup_ends_the_worker(
    worker: AudioWorker,
    source: IoError,
    later: Seq<WorkerEvent>,
)
    requires
        worker.sound(),
        worker.commands.phase is Reaping,
    ensures
        ({
            let ended = worker.after(WorkerEvent::Command(CommandEvent::Reaped(Err(source))));
            &&& ended.commands.poisoned
            &&& ended.phase == WorkerPhase::Stopped(
                Err(
                    WorkerError::Audio(
                        AudioError::Reap {
                            operation: worker.commands.phase->Reaping_operation,
                            source,
                        },
                    ),
                ),
            )
            &&& ended.after_all(later) == ended
        }),
{
    law_ended_worker_rests(
        worker.after(WorkerEvent::Command(CommandEvent::Reaped(Err(source)))),
        later,
    );
}

/// A worker that has ended does nothing more.
pub proof fn law_ended_worker_rests(worker: AudioWorker, later: Seq<WorkerEvent>)
    requires
        worker.phase is Stopped,
    ensures
        worker.after_all(later) == worker,
    decreases later.len(),
{
    if later.len() > 0 {
        law_ended_worker_rests(worker, later.drop_last());
    }
}

/// A command that mutes is not ended by a later request.
pub proof fn law_muting_is_not_superseded(
    worker: AudioWorker,
    task: Task,
    published: Option<DesiredRequest>,
)
    requires
        worker.sound(),
        worker.phase == WorkerPhase::Running(task),
        task.mutes(),
    ensures
        worker.after(WorkerEvent::Command(CommandEvent::DesiredChanged(published))) == worker,
{
}

/// Any other command is ended by the first later request that is seen while it runs, and the
/// worker turns to that request once the child process is gone.
pub proof fn law_later_request_supersedes(
    worker: AudioWorker,
    task: Task,
    newer: DesiredRequest,
    kill_error: Option<IoError>,
)
    requires
        worker.sound(),
        worker.phase == WorkerPhase::Running(task),
        worker.commands.phase is Waiting,
        task.yields_past() matches Some(revision) && newer.revision > revision,
    ensures
        ({
            let killing = worker.after(
                WorkerEvent::Command(CommandEvent::DesiredChanged(Some(newer))),
            );
            let reaping = killing.after(WorkerEvent::Command(CommandEvent::Killed(kill_error)));
            let gone = reaping.after(WorkerEvent::Command(CommandEvent::Reaped(Ok(()))));
            &&& killing.commands.phase is Killing
            &&& reaping.commands.phase is Reaping
            &&& gone == AudioWorker {
                commands: worker.commands.in_phase(CommandPhase::Ready),
                ..worker
            }.beginning(newer)
        }),
{
}

/// A source is unmuted only for a request to talk or for an open microphone that is later than the
/// request that was handled last, and the source that is unmuted for talking is remembered, so
/// that idling mutes it.
pub proof fn law_unmuting_serves_a_request(worker: AudioWorker, task: Task)
    requires
        worker.sound(),
        worker.phase == WorkerPhase::Running(task),
        task.unmutes(),
    ensures
        match task {
            Task::UnmuteSource { request, source } => {
                &&& request.state == DesiredAudio::PttTalking
                &&& worker.is_after_handled(request)
                &&& worker.remembered == Some(source)
            },
            Task::UnmuteDefault(request) => {
                &&& request.state == DesiredAudio::Open
                &&& worker.is_after_handled(request)
            },
            _ => false,
        },
{
}

impl IdleGoal {
    /// What muting leads to.
    pub open spec fn poll(self, succeeded: bool) -> Poll {
        match self {
            IdleGoal::Apply(request) => Poll::Idled { request, succeeded },
            IdleGoal::Retry { revision } => Poll::Reconciled { revision },
        }
    }
}

/// A request for idle that is not acknowledged is turned to by muting.
pub proof fn law_idle_requests_mute(worker: AudioWorker, request: DesiredRequest)
    requires
        worker.pursues(request, DesiredAudio::PttIdle),
    ensures
        worker.beginning(request) == worker.muting(IdleGoal::Apply(request)),
{
}

/// Muting mutes the remembered source, if there is one, and then, whether or not that went well,
/// the default one; it is found to have succeeded exactly if nothing failed, and otherwise is to be
/// tried again.
pub proof fn law_idling_mutes_every_target(
    worker: AudioWorker,
    goal: IdleGoal,
    first: Result<Execution, AudioError>,
    second: Result<Execution, AudioError>,
)
    requires
        worker.sound(),
        worker.commands.phase is Ready,
        !worker.commands.poisoned,
        first matches Err(error) ==> !error.fatal(),
        second matches Err(error) ==> !error.fatal(),
    ensures
        ({
            let begun = worker.muting(goal);
            let default_begun = match worker.remembered {
                Some(_) => AudioWorker { commands: worker.commands, ..begun }.resumed(
                    begun.phase->Running_0,
                    first,
                ),
                None => begun,
            };
            let succeeded = worker.remembered is Some ==> first is Ok;
            let muted = AudioWorker { commands: worker.commands, ..default_begun }.resumed(
                default_begun.phase->Running_0,
                second,
            );
            &&& worker.remembered matches Some(source) ==> begun.phase == WorkerPhase::Running(
                Task::MuteRemembered { goal, source },
            )
            &&& default_begun.phase == WorkerPhase::Running(Task::MuteDefault { goal, succeeded })
            &&& muted.phase == WorkerPhase::Polling(goal.poll(succeeded && second is Ok))
            &&& muted.idle_retry_pending == !(succeeded && second is Ok)
        }),
{
}

/// While idle is in force, a passing second mutes again if muting failed, and looks whether the
/// default source is muted if it did not.
pub proof fn law_idle_source_is_kept_muted(worker: AudioWorker)
    requires
        worker.sound(),
        worker.phase is Listening,
        worker.idles(),
    ensures
        ({
            let revision = worker.handled->0.revision;
            worker.after(WorkerEvent::Tick).phase == WorkerPhase::Running(
                if !worker.idle_retry_pending {
                    Task::QueryMute { revision }
                } else if worker.remembered is Some {
                    Task::MuteRemembered {
                        goal: IdleGoal::Retry { revision },
                        source: worker.remembered->0,
                    }
                } else {
                    Task::MuteDefault { goal: IdleGoal::Retry { revision }, succeeded: true }
                },
            )
        }),
{
}

/// The order to stop ends a worker only between requests: whatever is being done is done first.
pub proof fn law_stopping_waits_for_work(worker: AudioWorker, stop: bool)
    requires
        worker.phase is Running || worker.phase is Polling || worker.phase is Acknowledging,
    ensures
        worker.after(WorkerEvent::StopFlag(stop)) == worker,
        worker.after(WorkerEvent::StopChanged(stop)) == worker,
{
}

/// A request to talk or for an open microphone that failed is acknowledged and not tried again:
/// once it is handled the passing of time starts nothing.
pub proof fn law_failed_unmute_is_not_retried(worker: AudioWorker)
    requires
        worker.phase is Listening,
        worker.handled matches Some(request) ==> request.state != DesiredAudio::PttIdle,
    ensures
        worker.after(WorkerEvent::Tick) == worker,
{
}

} // verus!
