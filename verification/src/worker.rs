//! Bringing the audio source into the state that was last desired.
//!
//! The worker tells by its phase what has to be done; whoever does it hands back what came of it.

use vstd::prelude::*;

use crate::audio::{
    is_fatal, AckOutcome, AudioAck, AudioError, DesiredRequest, SourceId, WorkerError,
};
use crate::command::{CommandEvent, CommandPhase, CommandRunner, Execution};
use crate::state::DesiredAudio;
use crate::wpctl::{parse_default_mute, parse_source_id, AudioTarget, WpctlCommand};

verus! {

/// How many seconds pass between looks at an idle source.
pub const RECONCILE_INTERVAL: u64 = 1;

/// What muting for push-to-talk idle is done for.
#[derive(Clone, Copy, Debug, PartialEq, Eq, Structural)]
pub enum IdleGoal {
    /// To apply a request.
    Apply(DesiredRequest),
    /// To make good for an earlier failure, while the request of that revision is in force.
    Retry { revision: u64 },
}

/// A command of the worker and what it is for.
#[derive(Clone, Copy, Debug, PartialEq, Eq, Structural)]
pub enum Task {
    Resolve(DesiredRequest),
    UnmuteSource { request: DesiredRequest, source: SourceId },
    UnmuteDefault(DesiredRequest),
    MuteRemembered { goal: IdleGoal, source: SourceId },
    MuteDefault { goal: IdleGoal, succeeded: bool },
    QueryMute { revision: u64 },
    ReconcileMute { revision: u64 },
}

/// A look at the desired state, and what it is for if there is nothing newer.
#[derive(Clone, Copy, Debug, PartialEq, Eq, Structural)]
pub enum Poll {
    /// Unmute the resolved source.
    Resolved { request: DesiredRequest, source: SourceId },
    /// Report an idle request as completed.
    Idled { request: DesiredRequest, succeeded: bool },
    /// Acknowledge the request.
    Completed { request: DesiredRequest, outcome: AckOutcome },
    /// Mute a source that was found unmuted.
    Reconciling { revision: u64 },
    /// Go on listening.
    Reconciled { revision: u64 },
}

/// What has to be done next.
#[derive(Debug)]
pub enum WorkerPhase {
    /// Run the command of the task, as the phase of `commands` says.
    Running(Task),
    /// See whether another state is desired than when last seen.
    Polling(Poll),
    /// Send the acknowledgement of the request.
    Acknowledging { request: DesiredRequest, outcome: AckOutcome },
    /// See whether the worker is told to stop.
    CheckingStop,
    /// Wait until the worker is told to stop, or, as long as that can be watched, another state is
    /// desired, or, if the worker is idle, the reconcile interval is over.
    Listening,
    /// Nothing: the worker has ended.
    Stopped(Result<(), WorkerError>),
}

/// What a look at the desired state shows.
#[derive(Clone, Copy, Debug, PartialEq, Eq, Structural)]
pub enum Polled {
    Unchanged,
    Changed(Option<DesiredRequest>),
    Closed,
}

/// What came of it.
#[derive(Debug)]
pub enum WorkerEvent {
    Command(CommandEvent),
    Polled(Polled),
    /// Whether the acknowledgement could be sent.
    Acknowledged(bool),
    /// Whether the worker is told to stop.
    StopFlag(bool),
    /// The order to stop has changed, to this; an order that can never come counts as one.
    StopChanged(bool),
    DesiredChanged(Option<DesiredRequest>),
    DesiredClosed,
    Tick,
}

impl Task {
    /// The command line of the task.
    pub open spec fn command(self) -> WpctlCommand {
        match self {
            Task::Resolve(_) => WpctlCommand::InspectDefault,
            Task::UnmuteSource { source, .. } => WpctlCommand::SetMute {
                target: AudioTarget::Source(source),
                muted: false,
            },
            Task::UnmuteDefault(_) => WpctlCommand::SetMute {
                target: AudioTarget::DefaultSource,
                muted: false,
            },
            Task::MuteRemembered { source, .. } => WpctlCommand::SetMute {
                target: AudioTarget::Source(source),
                muted: true,
            },
            Task::MuteDefault { .. } => WpctlCommand::SetMute {
                target: AudioTarget::DefaultSource,
                muted: true,
            },
            Task::QueryMute { .. } => WpctlCommand::QueryDefaultVolume,
            Task::ReconcileMute { .. } => WpctlCommand::SetMute {
                target: AudioTarget::DefaultSource,
                muted: true,
            },
        }
    }

    /// What the operation is called.
    pub open spec fn name(self) -> &'static str {
        match self {
            Task::Resolve(_) => "resolve default source",
            Task::UnmuteSource { .. } => "unmute concrete source",
            Task::UnmuteDefault(_) => "unmute default source",
            Task::MuteRemembered { .. } => "mute remembered source",
            Task::MuteDefault { .. } => "mute default source",
            Task::QueryMute { .. } => "query default source mute",
            Task::ReconcileMute { .. } => "reconcile default source mute",
        }
    }

    /// The revision past which a request ends the task early; muting is never cut short.
    pub open spec fn yields_past(self) -> Option<u64> {
        match self {
            Task::Resolve(request) => Some(request.revision),
            Task::UnmuteSource { request, .. } => Some(request.revision),
            Task::UnmuteDefault(request) => Some(request.revision),
            Task::QueryMute { revision } => Some(revision),
            _ => None,
        }
    }

    /// The command line to run.
    pub fn wpctl(&self) -> (command: WpctlCommand)
        ensures
            command == self.command(),
    {
        match *self {
            Task::Resolve(_) => WpctlCommand::InspectDefault,
            Task::UnmuteSource { source, .. } => WpctlCommand::SetMute {
                target: AudioTarget::Source(source),
                muted: false,
            },
            Task::UnmuteDefault(_) => WpctlCommand::SetMute {
                target: AudioTarget::DefaultSource,
                muted: false,
            },
            Task::MuteRemembered { source, .. } => WpctlCommand::SetMute {
                target: AudioTarget::Source(source),
                muted: true,
            },
            Task::MuteDefault { .. } => WpctlCommand::SetMute {
                target: AudioTarget::DefaultSource,
                muted: true,
            },
            Task::QueryMute { .. } => WpctlCommand::QueryDefaultVolume,
            Task::ReconcileMute { .. } => WpctlCommand::SetMute {
                target: AudioTarget::DefaultSource,
                muted: true,
            },
        }
    }

    /// What the operation is called.
    pub fn operation(&self) -> (operation: &'static str)
        ensures
            operation == self.name(),
    {
        match *self {
            Task::Resolve(_) => "resolve default source",
            Task::UnmuteSource { .. } => "unmute concrete source",
            Task::UnmuteDefault(_) => "unmute default source",
            Task::MuteRemembered { .. } => "mute remembered source",
            Task::MuteDefault { .. } => "mute default source",
            Task::QueryMute { .. } => "query default source mute",
            Task::ReconcileMute { .. } => "reconcile default source mute",
        }
    }

    fn supersede(&self) -> (revision: Option<u64>)
        ensures
            revision == self.yields_past(),
    {
        match *self {
            Task::Resolve(request) => Some(request.revision),
            Task::UnmuteSource { request, .. } => Some(request.revision),
            Task::UnmuteDefault(request) => Some(request.revision),
            Task::QueryMute { revision } => Some(revision),
            _ => None,
        }
    }
}

impl Poll {
    /// The revision of the request that is in force.
    pub open spec fn revision(self) -> u64 {
        match self {
            Poll::Resolved { request, .. } => request.revision,
            Poll::Idled { request, .. } => request.revision,
            Poll::Completed { request, .. } => request.revision,
            Poll::Reconciling { revision } => revision,
            Poll::Reconciled { revision } => revision,
        }
    }
}

/// Whether a command did not fail.
pub open spec fn went_well(result: Result<Execution, AudioError>) -> bool {
    result is Ok
}

/// How a muting request ended, given whether every target was muted.
pub open spec fn outcome_of(succeeded: bool) -> AckOutcome {
    if succeeded {
        AckOutcome::Applied
    } else {
        AckOutcome::HandledFailure
    }
}

/// What went wrong without ending the worker.
pub enum Setback {
    Nothing,
    /// A command failed.
    Failed(AudioError),
    /// The output of an operation could not be read, for that reason.
    Unreadable { operation: &'static str, reason: Seq<char> },
}

/// Whether an error tells of the setback.
pub open spec fn tells_of(noted: Option<AudioError>, setback: Setback) -> bool {
    match setback {
        Setback::Nothing => noted is None,
        Setback::Failed(error) => noted == Some(error),
        Setback::Unreadable { operation, reason } => {
            noted matches Some(AudioError::Parse { operation: name, message }) && name == operation
                && message@ == reason
        },
    }
}

/// What went wrong, given how the command of a task ended.
pub open spec fn setback_of(task: Task, result: Result<Execution, AudioError>) -> Setback {
    match result {
        Err(error) => if error.fatal() {
            Setback::Nothing
        } else {
            Setback::Failed(error)
        },
        Ok(Execution::Output(output)) => match task {
            Task::Resolve(_) => match crate::wpctl::source_in(output@) {
                Ok(_) => Setback::Nothing,
                Err(reason) => Setback::Unreadable { operation: task.name(), reason },
            },
            Task::QueryMute { .. } => match crate::wpctl::mute_in(output@) {
                Ok(_) => Setback::Nothing,
                Err(reason) => Setback::Unreadable { operation: task.name(), reason },
            },
            _ => Setback::Nothing,
        },
        Ok(Execution::Superseded(_)) => Setback::Nothing,
    }
}

/// Applies the requests for audio states, the latest one first, and keeps an idle source muted.
#[derive(Debug)]
pub struct AudioWorker {
    pub commands: CommandRunner,
    /// Whether the desired state can still change.
    pub desired_open: bool,
    /// The source that was last unmuted, or was to be.
    pub remembered: Option<SourceId>,
    pub last_acknowledged: Option<u64>,
    /// The request that was last acknowledged.
    pub handled: Option<DesiredRequest>,
    /// Whether the latest attempt to mute failed.
    pub idle_retry_pending: bool,
    pub phase: WorkerPhase,
}

impl AudioWorker {
    pub open spec fn in_phase(self, phase: WorkerPhase) -> Self {
        AudioWorker { phase, ..self }
    }

    /// Whether a revision has been acknowledged.
    pub open spec fn has_acknowledged(self, revision: u64) -> bool {
        self.last_acknowledged matches Some(last) && revision <= last
    }

    /// Whether push-to-talk idle is in force.
    pub open spec fn idles(self) -> bool {
        self.handled matches Some(request) && request.state == DesiredAudio::PttIdle
    }

    /// The worker with a task begun.
    pub open spec fn started(self, task: Task) -> Self {
        if self.commands.poisoned {
            self.in_phase(
                WorkerPhase::Stopped(
                    Err(WorkerError::Audio(AudioError::Poisoned { operation: task.name() })),
                ),
            )
        } else {
            AudioWorker {
                commands: self.commands.begun(task.name(), task.yields_past()),
                phase: WorkerPhase::Running(task),
                ..self
            }
        }
    }

    /// The worker as it begins to mute: first the remembered source, then the default one.
    pub open spec fn muting(self, goal: IdleGoal) -> Self {
        match self.remembered {
            Some(source) => self.started(Task::MuteRemembered { goal, source }),
            None => self.started(Task::MuteDefault { goal, succeeded: true }),
        }
    }

    /// The worker as it turns to a request; one that has been acknowledged is left alone.
    pub open spec fn beginning(self, request: DesiredRequest) -> Self {
        if self.has_acknowledged(request.revision) {
            self.in_phase(WorkerPhase::CheckingStop)
        } else {
            match request.state {
                DesiredAudio::PttTalking => self.started(Task::Resolve(request)),
                DesiredAudio::Open => self.started(Task::UnmuteDefault(request)),
                DesiredAudio::PttIdle => self.muting(IdleGoal::Apply(request)),
            }
        }
    }

    /// The worker as it looks for newer requests before it reports how a request ended.
    pub open spec fn completing(self, request: DesiredRequest, outcome: AckOutcome) -> Self {
        self.in_phase(WorkerPhase::Polling(Poll::Completed { request, outcome }))
    }

    /// The worker after the command of a task has ended.
    pub open spec fn resumed(self, task: Task, result: Result<Execution, AudioError>) -> Self {
        if result matches Err(error) && error.fatal() {
            self.in_phase(WorkerPhase::Stopped(Err(WorkerError::Audio(result->Err_0))))
        } else {
            match task {
                Task::Resolve(request) => match result {
                    Ok(Execution::Output(output)) => match crate::wpctl::source_in(output@) {
                        Ok(source) => AudioWorker {
                            remembered: Some(source),
                            phase: WorkerPhase::Polling(Poll::Resolved { request, source }),
                            ..self
                        },
                        Err(_) => self.completing(request, AckOutcome::HandledFailure),
                    },
                    Ok(Execution::Superseded(newer)) => self.beginning(newer),
                    Err(_) => self.completing(request, AckOutcome::HandledFailure),
                },
                Task::UnmuteSource { request, .. } => self.unmuted(request, result),
                Task::UnmuteDefault(request) => self.unmuted(request, result),
                Task::MuteRemembered { goal, .. } => self.started(
                    Task::MuteDefault { goal, succeeded: went_well(result) },
                ),
                Task::MuteDefault { goal, succeeded } => {
                    let all = succeeded && went_well(result);
                    AudioWorker {
                        idle_retry_pending: !all,
                        phase: WorkerPhase::Polling(
                            match goal {
                                IdleGoal::Apply(request) => Poll::Idled { request, succeeded: all },
                                IdleGoal::Retry { revision } => Poll::Reconciled { revision },
                            },
                        ),
                        ..self
                    }
                },
                Task::QueryMute { revision } => match result {
                    Ok(Execution::Output(output)) => self.in_phase(
                        WorkerPhase::Polling(
                            if crate::wpctl::mute_in(output@) == Ok::<bool, Seq<char>>(false) {
                                Poll::Reconciling { revision }
                            } else {
                                Poll::Reconciled { revision }
                            },
                        ),
                    ),
                    Ok(Execution::Superseded(newer)) => self.beginning(newer),
                    Err(_) => self.in_phase(WorkerPhase::Polling(Poll::Reconciled { revision })),
                },
                Task::ReconcileMute { revision } => self.in_phase(
                    WorkerPhase::Polling(Poll::Reconciled { revision }),
                ),
            }
        }
    }

    /// The worker after an attempt to unmute that was not fatal.
    pub open spec fn unmuted(
        self,
        request: DesiredRequest,
        result: Result<Execution, AudioError>,
    ) -> Self {
        match result {
            Ok(Execution::Output(_)) => self.completing(request, AckOutcome::Applied),
            Ok(Execution::Superseded(newer)) => self.beginning(newer),
            Err(_) => self.completing(request, AckOutcome::HandledFailure),
        }
    }

    /// The worker after a look that showed nothing newer.
    pub open spec fn unchallenged(self, poll: Poll) -> Self {
        match poll {
            Poll::Resolved { request, source } => self.started(
                Task::UnmuteSource { request, source },
            ),
            Poll::Idled { request, succeeded } => self.completing(request, outcome_of(succeeded)),
            Poll::Completed { request, outcome } => if self.has_acknowledged(request.revision) {
                AudioWorker {
                    handled: Some(request),
                    phase: WorkerPhase::CheckingStop,
                    ..self
                }
            } else {
                self.in_phase(WorkerPhase::Acknowledging { request, outcome })
            },
            Poll::Reconciling { revision } => self.started(Task::ReconcileMute { revision }),
            Poll::Reconciled { .. } => self.in_phase(WorkerPhase::CheckingStop),
        }
    }

    /// The worker after a look at the desired state.
    pub open spec fn looked(self, poll: Poll, polled: Polled) -> Self {
        match polled {
            Polled::Changed(Some(request)) => if request.revision > poll.revision() {
                self.beginning(request)
            } else {
                self
            },
            Polled::Changed(None) => self,
            Polled::Unchanged => self.unchallenged(poll),
            Polled::Closed => AudioWorker { desired_open: false, ..self }.unchallenged(poll),
        }
    }

    /// The worker after an event. One that its phase does not wait for changes nothing.
    pub open spec fn after(self, event: WorkerEvent) -> Self {
        match (self.phase, event) {
            (WorkerPhase::Running(task), WorkerEvent::Command(event)) => {
                let commands = self.commands.after(event);
                let next = AudioWorker {
                    commands,
                    desired_open: self.desired_open && !self.commands.loses_desired(event),
                    ..self
                };
                match commands.phase {
                    CommandPhase::Finished(result) => AudioWorker {
                        commands: commands.in_phase(CommandPhase::Ready),
                        ..next
                    }.resumed(task, result),
                    _ => next,
                }
            },
            (WorkerPhase::Polling(poll), WorkerEvent::Polled(polled)) => self.looked(poll, polled),
            (
                WorkerPhase::Acknowledging { request, .. },
                WorkerEvent::Acknowledged(sent),
            ) => if sent {
                AudioWorker {
                    last_acknowledged: Some(request.revision),
                    handled: Some(request),
                    phase: WorkerPhase::CheckingStop,
                    ..self
                }
            } else {
                self.in_phase(WorkerPhase::Stopped(Err(WorkerError::AcknowledgementChannelClosed)))
            },
            (WorkerPhase::CheckingStop, WorkerEvent::StopFlag(stop)) => if stop {
                self.in_phase(WorkerPhase::Stopped(Ok(())))
            } else {
                self.in_phase(WorkerPhase::Listening)
            },
            (WorkerPhase::Listening, WorkerEvent::StopChanged(stop)) => if stop {
                self.in_phase(WorkerPhase::Stopped(Ok(())))
            } else {
                self.in_phase(WorkerPhase::CheckingStop)
            },
            (WorkerPhase::Listening, WorkerEvent::DesiredChanged(published)) => match published {
                Some(request) => self.beginning(request),
                None => self.in_phase(WorkerPhase::CheckingStop),
            },
            (WorkerPhase::Listening, WorkerEvent::DesiredClosed) => AudioWorker {
                desired_open: false,
                phase: WorkerPhase::CheckingStop,
                ..self
            },
            (WorkerPhase::Listening, WorkerEvent::Tick) => match self.handled {
                Some(request) => if request.state == DesiredAudio::PttIdle {
                    self.reconciling(request.revision)
                } else {
                    self
                },
                None => self,
            },
            _ => self,
        }
    }

    /// What the event shows to have gone wrong without ending the worker.
    pub open spec fn setback(self, event: WorkerEvent) -> Setback {
        match (self.phase, event) {
            (WorkerPhase::Running(task), WorkerEvent::Command(event)) => match self.commands.after(
                event,
            ).phase {
                CommandPhase::Finished(result) => setback_of(task, result),
                _ => Setback::Nothing,
            },
            _ => Setback::Nothing,
        }
    }

    /// The worker as it makes sure that an idle source is muted.
    pub open spec fn reconciling(self, revision: u64) -> Self {
        if self.idle_retry_pending {
            self.muting(IdleGoal::Retry { revision })
        } else {
            self.started(Task::QueryMute { revision })
        }
    }

    /// The worker before its first event, given the state that is desired at that moment.
    pub open spec fn initial(desired: Option<DesiredRequest>) -> Self {
        let worker = AudioWorker {
            commands: CommandRunner { poisoned: false, phase: CommandPhase::Ready },
            desired_open: true,
            remembered: None,
            last_acknowledged: None,
            handled: None,
            idle_retry_pending: false,
            phase: WorkerPhase::CheckingStop,
        };
        match desired {
            Some(request) => worker.beginning(request),
            None => worker,
        }
    }

    /// What has to hold between the worker and its runner: a command is under way exactly while
    /// the worker is running a task.
    pub open spec fn in_step(self) -> bool {
        match self.phase {
            WorkerPhase::Running(_) => !(self.commands.phase is Ready)
                && !(self.commands.phase is Finished),
            _ => self.commands.phase is Ready,
        }
    }

    /// A worker that starts with the state that is desired now.
    pub fn new(desired: Option<DesiredRequest>) -> (worker: Self)
        ensures
            worker == Self::initial(desired),
            worker.in_step(),
    {
        let mut worker = AudioWorker {
            commands: CommandRunner::new(),
            desired_open: true,
            remembered: None,
            last_acknowledged: None,
            handled: None,
            idle_retry_pending: false,
            phase: WorkerPhase::CheckingStop,
        };
        if let Some(request) = desired {
            worker.apply(request);
        }
        worker
    }

    /// Takes in what came of the present phase. Returns an operation's failure that the worker
    /// carries on after.
    pub fn step(&mut self, event: WorkerEvent) -> (noted: Option<AudioError>)
        requires
            old(self).in_step(),
        ensures
            *final(self) == old(self).after(event),
            final(self).in_step(),
            tells_of(noted, old(self).setback(event)),
    {
        let mut phase = WorkerPhase::CheckingStop;
        std::mem::swap(&mut self.phase, &mut phase);
        match (phase, event) {
            (WorkerPhase::Running(task), WorkerEvent::Command(event)) => {
                self.commands.step(event, &mut self.desired_open);
                match self.commands.take_result() {
                    Some(result) => return self.resume(task, result),
                    None => {
                        self.phase = WorkerPhase::Running(task);
                    },
                }
            },
            (WorkerPhase::Polling(poll), WorkerEvent::Polled(polled)) => {
                self.take_newer(poll, polled)
            },
            (
                WorkerPhase::Acknowledging { request, .. },
                WorkerEvent::Acknowledged(sent),
            ) => {
                if sent {
                    self.last_acknowledged = Some(request.revision);
                    self.handled = Some(request);
                } else {
                    self.phase =
                    WorkerPhase::Stopped(Err(WorkerError::AcknowledgementChannelClosed));
                }
            },
            (WorkerPhase::CheckingStop, WorkerEvent::StopFlag(stop)) => {
                self.phase = if stop {
                    WorkerPhase::Stopped(Ok(()))
                } else {
                    WorkerPhase::Listening
                };
            },
            (WorkerPhase::Listening, WorkerEvent::StopChanged(stop)) => {
                if stop {
                    self.phase = WorkerPhase::Stopped(Ok(()));
                }
            },
            (WorkerPhase::Listening, WorkerEvent::DesiredChanged(published)) => {
                if let Some(request) = published {
                    self.apply(request);
                }
            },
            (WorkerPhase::Listening, WorkerEvent::DesiredClosed) => {
                self.desired_open = false;
            },
            (WorkerPhase::Listening, WorkerEvent::Tick) => {
                self.phase = WorkerPhase::Listening;
                if let Some(request) = self.handled {
                    if request.state == DesiredAudio::PttIdle {
                        self.reconcile_idle(request.revision);
                    }
                }
            },
            (phase, _) => {
                self.phase = phase;
            },
        }
        None
    }

    /// The acknowledgement to send while one is due.
    pub fn acknowledgement(&self) -> (due: Option<AudioAck>)
        ensures
            due == match self.phase {
                WorkerPhase::Acknowledging { request, outcome } => Some(
                    AudioAck { revision: request.revision, outcome },
                ),
                _ => None,
            },
    {
        match &self.phase {
            WorkerPhase::Acknowledging { request, outcome } => Some(
                AudioAck { revision: request.revision, outcome: *outcome },
            ),
            _ => None,
        }
    }

    /// Whether push-to-talk idle is in force, so that the passing of time matters.
    pub fn is_idle(&self) -> (idle: bool)
        ensures
            idle == self.idles(),
    {
        match self.handled {
            Some(request) => request.state == DesiredAudio::PttIdle,
            None => false,
        }
    }

    fn is_acknowledged(&self, revision: u64) -> (acknowledged: bool)
        ensures
            acknowledged == self.has_acknowledged(revision),
    {
        match self.last_acknowledged {
            Some(last) => revision <= last,
            None => false,
        }
    }

    fn start(&mut self, task: Task)
        requires
            old(self).commands.phase is Ready,
        ensures
            *final(self) == old(self).started(task),
            final(self).in_step(),
    {
        if self.commands.poisoned {
            self.phase =
            WorkerPhase::Stopped(
                Err(WorkerError::Audio(AudioError::Poisoned { operation: task.operation() })),
            );
        } else {
            self.commands.begin(task.operation(), task.supersede());
            self.phase = WorkerPhase::Running(task);
        }
    }

    fn mute_idle_targets(&mut self, goal: IdleGoal)
        requires
            old(self).commands.phase is Ready,
        ensures
            *final(self) == old(self).muting(goal),
            final(self).in_step(),
    {
        match self.remembered {
            Some(source) => self.start(Task::MuteRemembered { goal, source }),
            None => self.start(Task::MuteDefault { goal, succeeded: true }),
        }
    }

    fn apply(&mut self, request: DesiredRequest)
        requires
            old(self).commands.phase is Ready,
        ensures
            *final(self) == old(self).beginning(request),
            final(self).in_step(),
    {
        if self.is_acknowledged(request.revision) {
            self.phase = WorkerPhase::CheckingStop;
            return ;
        }
        match request.state {
            DesiredAudio::PttTalking => self.start(Task::Resolve(request)),
            DesiredAudio::Open => self.start(Task::UnmuteDefault(request)),
            DesiredAudio::PttIdle => self.mute_idle_targets(IdleGoal::Apply(request)),
        }
    }

    fn reconcile_idle(&mut self, revision: u64)
        requires
            old(self).commands.phase is Ready,
        ensures
            *final(self) == old(self).reconciling(revision),
            final(self).in_step(),
    {
        if self.idle_retry_pending {
            self.mute_idle_targets(IdleGoal::Retry { revision });
        } else {
            self.start(Task::QueryMute { revision });
        }
    }

    fn complete(&mut self, request: DesiredRequest, outcome: AckOutcome)
        requires
            old(self).commands.phase is Ready,
        ensures
            *final(self) == old(self).completing(request, outcome),
            final(self).in_step(),
    {
        self.phase = WorkerPhase::Polling(Poll::Completed { request, outcome });
    }

    fn apply_unmuted(
        &mut self,
        request: DesiredRequest,
        result: Result<Execution, AudioError>,
    ) -> (noted: Option<AudioError>)
        requires
            old(self).commands.phase is Ready,
        ensures
            *final(self) == old(self).unmuted(request, result),
            final(self).in_step(),
            noted == match result {
                Ok(_) => None,
                Err(error) => Some(error),
            },
    {
        match result {
            Ok(Execution::Output(_)) => {
                self.complete(request, AckOutcome::Applied);
                None
            },
            Ok(Execution::Superseded(newer)) => {
                self.apply(newer);
                None
            },
            Err(error) => {
                self.complete(request, AckOutcome::HandledFailure);
                Some(error)
            },
        }
    }

    fn resolved(
        &mut self,
        request: DesiredRequest,
        result: Result<Execution, AudioError>,
    ) -> (noted: Option<AudioError>)
        requires
            old(self).commands.phase is Ready,
            result matches Err(error) ==> !error.fatal(),
        ensures
            *final(self) == old(self).resumed(Task::Resolve(request), result),
            final(self).in_step(),
            tells_of(noted, setback_of(Task::Resolve(request), result)),
    {
        match result {
            Ok(Execution::Output(output)) => match parse_source_id(output.as_slice()) {
                Ok(source) => {
                    self.remembered = Some(source);
                    self.phase = WorkerPhase::Polling(Poll::Resolved { request, source });
                    None
                },
                Err(message) => {
                    self.complete(request, AckOutcome::HandledFailure);
                    Some(AudioError::Parse { operation: "resolve default source", message })
                },
            },
            Ok(Execution::Superseded(newer)) => {
                self.apply(newer);
                None
            },
            Err(error) => {
                self.complete(request, AckOutcome::HandledFailure);
                Some(error)
            },
        }
    }

    fn queried(
        &mut self,
        revision: u64,
        result: Result<Execution, AudioError>,
    ) -> (noted: Option<AudioError>)
        requires
            old(self).commands.phase is Ready,
            result matches Err(error) ==> !error.fatal(),
        ensures
            *final(self) == old(self).resumed(Task::QueryMute { revision }, result),
            final(self).in_step(),
            tells_of(noted, setback_of(Task::QueryMute { revision }, result)),
    {
        match result {
            Ok(Execution::Output(output)) => match parse_default_mute(output.as_slice()) {
                Ok(muted) => {
                    self.phase =
                    WorkerPhase::Polling(
                        if muted {
                            Poll::Reconciled { revision }
                        } else {
                            Poll::Reconciling { revision }
                        },
                    );
                    None
                },
                Err(message) => {
                    self.phase = WorkerPhase::Polling(Poll::Reconciled { revision });
                    Some(AudioError::Parse { operation: "query default source mute", message })
                },
            },
            Ok(Execution::Superseded(newer)) => {
                self.apply(newer);
                None
            },
            Err(error) => {
                self.phase = WorkerPhase::Polling(Poll::Reconciled { revision });
                Some(error)
            },
        }
    }

    fn resume(
        &mut self,
        task: Task,
        result: Result<Execution, AudioError>,
    ) -> (noted: Option<AudioError>)
        requires
            old(self).commands.phase is Ready,
        ensures
            *final(self) == old(self).resumed(task, result),
            final(self).in_step(),
            tells_of(noted, setback_of(task, result)),
    {
        let result = match result {
            Err(error) => {
                if is_fatal(&error) {
                    self.phase = WorkerPhase::Stopped(Err(WorkerError::Audio(error)));
                    return None;
                }
                Err(error)
            },
            Ok(execution) => Ok(execution),
        };
        match task {
            Task::Resolve(request) => self.resolved(request, result),
            Task::UnmuteSource { request, .. } => self.apply_unmuted(request, result),
            Task::UnmuteDefault(request) => self.apply_unmuted(request, result),
            Task::MuteRemembered { goal, .. } => {
                self.start(Task::MuteDefault { goal, succeeded: result.is_ok() });
                result.err()
            },
            Task::MuteDefault { goal, succeeded } => {
                let all = succeeded && result.is_ok();
                self.idle_retry_pending = !all;
                self.phase =
                WorkerPhase::Polling(
                    match goal {
                        IdleGoal::Apply(request) => Poll::Idled { request, succeeded: all },
                        IdleGoal::Retry { revision } => Poll::Reconciled { revision },
                    },
                );
                result.err()
            },
            Task::QueryMute { revision } => self.queried(revision, result),
            Task::ReconcileMute { revision } => {
                self.phase = WorkerPhase::Polling(Poll::Reconciled { revision });
                result.err()
            },
        }
    }

    fn proceed(&mut self, poll: Poll)
        requires
            old(self).commands.phase is Ready,
        ensures
            *final(self) == old(self).unchallenged(poll),
            final(self).in_step(),
    {
        match poll {
            Poll::Resolved { request, source } => {
                self.start(Task::UnmuteSource { request, source })
            },
            Poll::Idled { request, succeeded } => {
                let outcome = if succeeded {
                    AckOutcome::Applied
                } else {
                    AckOutcome::HandledFailure
                };
                self.complete(request, outcome);
            },
            Poll::Completed { request, outcome } => {
                if self.is_acknowledged(request.revision) {
                    self.handled = Some(request);
                    self.phase = WorkerPhase::CheckingStop;
                } else {
                    self.phase = WorkerPhase::Acknowledging { request, outcome };
                }
            },
            Poll::Reconciling { revision } => self.start(Task::ReconcileMute { revision }),
            Poll::Reconciled { .. } => {
                self.phase = WorkerPhase::CheckingStop;
            },
        }
    }

    fn take_newer(&mut self, poll: Poll, polled: Polled)
        requires
            old(self).commands.phase is Ready,
        ensures
            *final(self) == old(self).in_phase(WorkerPhase::Polling(poll)).looked(poll, polled),
            final(self).in_step(),
    {
        let revision: u64 = match poll {
            Poll::Resolved { request, .. } => request.revision,
            Poll::Idled { request, .. } => request.revision,
            Poll::Completed { request, .. } => request.revision,
            Poll::Reconciling { revision } => revision,
            Poll::Reconciled { revision } => revision,
        };
        self.phase = WorkerPhase::Polling(poll);
        match polled {
            Polled::Changed(Some(request)) => {
                if request.revision > revision {
                    self.apply(request);
                }
            },
            Polled::Changed(None) => {},
            Polled::Unchanged => self.proceed(poll),
            Polled::Closed => {
                self.desired_open = false;
                self.proceed(poll);
            },
        }
    }
}

} // verus!
