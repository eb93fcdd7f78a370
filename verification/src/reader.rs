//! Reading one configured input device, through losses and recoveries.
//!
//! The reader tells by its phase what has to be done; whoever does it hands back what came of it.

use vstd::prelude::*;

use crate::fault::{Fault, IoError};
use crate::input::{
    decide, decide_synchronizing, disconnect_plan, raw_drain_step, recovered_event,
    snapshot_decision, snapshot_event, synchronization_lost_event, timestamp_from_timespec,
    Decision, DisconnectStep, HeldKeys, InputEvent, NodeIdentity, RawDrainStep, ReaderConfig,
    ReaderError, SnapshotDecision,
};
use crate::state::{ControlEvent, DeviceId, EventTimestamp, TransitionEpoch};

verus! {

/// What the keys of the device are queried for.
#[derive(Clone, Copy, Debug, PartialEq, Eq, Structural)]
pub enum Query {
    /// To know them when reading begins.
    Opening,
    /// To report them for a mode transition.
    Snapshot { epoch: TransitionEpoch, cutoff: EventTimestamp },
    /// To know them after events were lost.
    Recovery,
}

/// What follows once an event is sent.
#[derive(Clone, Copy, Debug, PartialEq, Eq, Structural)]
pub enum AfterSend {
    /// Report the keys for the mode transition, if there was one.
    Snapshot { held: HeldKeys, cutoff: EventTimestamp },
    Listen { cutoff: EventTimestamp },
    Discard,
    Reconnect,
}

/// What follows once the device is closed.
#[derive(Clone, Copy, Debug, PartialEq, Eq)]
pub enum AfterClose {
    Reconnect,
    ReportLoss,
    Finish(Result<DeviceId, ReaderError>),
}

/// What has to be done next.
#[derive(Clone, Copy, Debug, PartialEq, Eq)]
pub enum ReaderPhase {
    /// See whether the reader is told to end.
    CheckingShutdown,
    /// See whether mode transitions can still be announced.
    CheckingEpochs,
    /// Open the device.
    Opening,
    /// Make the device take the times of its events from the monotonic clock.
    SelectingClock,
    /// Find out which node was opened.
    Identifying,
    /// Claim the node.
    Claiming(NodeIdentity),
    /// Make reading not wait for events.
    SettingNonblocking,
    /// Read a batch of events, to throw it away.
    Draining,
    /// Find out which keys are down.
    Querying(Query),
    /// Read the monotonic clock; `resuming` after events were lost.
    ReadingClock { held: HeldKeys, resuming: bool },
    /// Start waiting for events.
    StartingStream { held: HeldKeys, cutoff: EventTimestamp },
    /// Send an event to the controller, unless told to end.
    Sending { event: ControlEvent, then: AfterSend },
    /// Wait until the reader is told to end, a mode transition is announced, or an event comes.
    Listening { cutoff: EventTimestamp },
    /// Wait until the reader is told to end or an event comes.
    Discarding,
    /// Close the device, and give up the claim, if there is one.
    Closing(AfterClose),
    /// See whether the reader is told to end, before waiting to try again.
    CheckingRetry,
    /// Wait until the reader is told to end, a mode transition is announced, or the reconnect
    /// delay, counted from the beginning of this phase, is over.
    Reconnecting,
    /// Nothing: the reader has ended.
    Finished(Result<DeviceId, ReaderError>),
}

/// What became of an event that was to be sent.
#[derive(Clone, Copy, Debug, PartialEq, Eq, Structural)]
pub enum SendOutcome {
    Sent,
    ShuttingDown,
    ChannelClosed,
}

/// What came of it.
#[derive(Debug)]
pub enum ReaderEvent {
    /// Whether the reader is told to end.
    ShutdownFlag(bool),
    /// Whether mode transitions can still be announced.
    EpochsOpen(bool),
    Opened(Result<(), IoError>),
    ClockSelected(Result<(), IoError>),
    Identified(Result<NodeIdentity, IoError>),
    /// Whether the node could be claimed.
    Claimed(bool),
    MadeNonblocking(Result<(), IoError>),
    /// How many events the batch held.
    Drained(Result<usize, IoError>),
    Queried(Result<HeldKeys, IoError>),
    /// Seconds and nanoseconds.
    ClockRead(Result<(i64, i64), IoError>),
    StreamStarted(Result<(), IoError>),
    SendEnded(SendOutcome),
    ShutdownChanged,
    EpochChanged(Option<TransitionEpoch>),
    EpochsClosed,
    Input(Result<InputEvent, IoError>),
    Closed,
    DelayOver,
}

impl ReaderEvent {
    /// Whether the event, if it is an input event, bears a proper time.
    pub open spec fn valid(self) -> bool {
        self matches ReaderEvent::Input(Ok(event)) ==> event.time.valid()
    }
}

/// Reads one device.
#[derive(Debug)]
pub struct Reader {
    pub config: ReaderConfig,
    /// The mode transition that was last announced.
    pub latest_epoch: Option<TransitionEpoch>,
    pub phase: ReaderPhase,
}

/// The phase after the sending of an event ended.
pub open spec fn after_send(
    device: DeviceId,
    latest_epoch: Option<TransitionEpoch>,
    then: AfterSend,
    outcome: SendOutcome,
) -> ReaderPhase {
    match outcome {
        SendOutcome::Sent => match then {
            AfterSend::Snapshot { held, cutoff } => match latest_epoch {
                Some(epoch) => ReaderPhase::Sending {
                    event: ControlEvent::KeySnapshot {
                        device,
                        epoch,
                        ptt_held: held.ptt,
                        toggle_held: held.toggle,
                    },
                    then: AfterSend::Listen { cutoff },
                },
                None => ReaderPhase::Listening { cutoff },
            },
            AfterSend::Listen { cutoff } => ReaderPhase::Listening { cutoff },
            AfterSend::Discard => ReaderPhase::Discarding,
            AfterSend::Reconnect => ReaderPhase::CheckingRetry,
        },
        SendOutcome::ShuttingDown => ending(then, Ok(device)),
        SendOutcome::ChannelClosed => ending(then, Err(ReaderError::EventChannelClosed(device))),
    }
}

/// The phase of a reader that ends while it sends: a lost device is closed already.
pub open spec fn ending(then: AfterSend, result: Result<DeviceId, ReaderError>) -> ReaderPhase {
    match then {
        AfterSend::Reconnect => ReaderPhase::Finished(result),
        _ => ReaderPhase::Closing(AfterClose::Finish(result)),
    }
}

/// The phase after an input event.
pub open spec fn after_input(
    config: ReaderConfig,
    cutoff: EventTimestamp,
    event: InputEvent,
) -> ReaderPhase {
    match config.decision(event, cutoff) {
        Err(_) => ReaderPhase::Closing(AfterClose::ReportLoss),
        Ok(Decision::Emit(event)) => ReaderPhase::Sending {
            event,
            then: AfterSend::Listen { cutoff },
        },
        Ok(Decision::BeginSynchronization) => ReaderPhase::Sending {
            event: ControlEvent::SynchronizationLost(config.device),
            then: AfterSend::Discard,
        },
        Ok(_) => ReaderPhase::Listening { cutoff },
    }
}

/// The phase after the keys were queried, if they could be.
pub open spec fn after_query(device: DeviceId, query: Query, held: HeldKeys) -> ReaderPhase {
    match query {
        Query::Opening => ReaderPhase::ReadingClock { held, resuming: false },
        Query::Snapshot { epoch, cutoff } => ReaderPhase::Sending {
            event: ControlEvent::KeySnapshot {
                device,
                epoch,
                ptt_held: held.ptt,
                toggle_held: held.toggle,
            },
            then: AfterSend::Listen { cutoff },
        },
        Query::Recovery => ReaderPhase::ReadingClock { held, resuming: true },
    }
}

/// What has to be done about a failure: a device of which the controller knows is reported lost.
pub open spec fn after_failure(known: bool) -> ReaderPhase {
    if known {
        ReaderPhase::Closing(AfterClose::ReportLoss)
    } else {
        ReaderPhase::Closing(AfterClose::Reconnect)
    }
}

impl Reader {
    pub open spec fn in_phase(self, phase: ReaderPhase) -> Self {
        Reader { phase, ..self }
    }

    /// The event that tells of the device's keys once it can be read.
    pub open spec fn recovery(self, held: HeldKeys) -> ControlEvent {
        ControlEvent::DeviceRecovered {
            device: self.config.device,
            ptt_held: held.ptt,
            toggle_held: held.toggle,
        }
    }

    /// The reader after an event. One that its phase does not wait for changes nothing.
    pub open spec fn after(self, event: ReaderEvent) -> Self {
        let device = self.config.device;
        match (self.phase, event) {
            (ReaderPhase::CheckingShutdown, ReaderEvent::ShutdownFlag(stop)) => self.in_phase(
                if stop {
                    ReaderPhase::Finished(Ok(device))
                } else {
                    ReaderPhase::CheckingEpochs
                },
            ),
            (ReaderPhase::CheckingEpochs, ReaderEvent::EpochsOpen(open)) => self.in_phase(
                if open {
                    ReaderPhase::Opening
                } else {
                    ReaderPhase::Finished(Err(ReaderError::EpochChannelClosed(device)))
                },
            ),
            (ReaderPhase::Opening, ReaderEvent::Opened(result)) => self.in_phase(
                match result {
                    Ok(_) => ReaderPhase::SelectingClock,
                    Err(_) => ReaderPhase::CheckingRetry,
                },
            ),
            (ReaderPhase::SelectingClock, ReaderEvent::ClockSelected(result)) => self.in_phase(
                match result {
                    Ok(_) => ReaderPhase::Identifying,
                    Err(_) => after_failure(false),
                },
            ),
            (ReaderPhase::Identifying, ReaderEvent::Identified(result)) => self.in_phase(
                match result {
                    Ok(identity) => ReaderPhase::Claiming(identity),
                    Err(_) => after_failure(false),
                },
            ),
            (ReaderPhase::Claiming(_), ReaderEvent::Claimed(claimed)) => self.in_phase(
                if claimed {
                    ReaderPhase::SettingNonblocking
                } else {
                    after_failure(false)
                },
            ),
            (
                ReaderPhase::SettingNonblocking,
                ReaderEvent::MadeNonblocking(result),
            ) => self.in_phase(
                match result {
                    Ok(_) => ReaderPhase::Draining,
                    Err(_) => after_failure(false),
                },
            ),
            (ReaderPhase::Draining, ReaderEvent::Drained(result)) => self.in_phase(
                match crate::input::drain_result(crate::input::by_content(result)) {
                    Ok(true) => ReaderPhase::Querying(Query::Opening),
                    Ok(false) => ReaderPhase::Draining,
                    Err(_) => after_failure(false),
                },
            ),
            (ReaderPhase::Querying(query), ReaderEvent::Queried(result)) => self.in_phase(
                match result {
                    Ok(held) => after_query(device, query, held),
                    Err(_) => after_failure(query != Query::Opening),
                },
            ),
            (
                ReaderPhase::ReadingClock { held, resuming },
                ReaderEvent::ClockRead(result),
            ) => self.in_phase(
                match moment_of(result) {
                    Ok(cutoff) => if resuming {
                        ReaderPhase::Sending {
                            event: self.recovery(held),
                            then: AfterSend::Listen { cutoff },
                        }
                    } else {
                        ReaderPhase::StartingStream { held, cutoff }
                    },
                    Err(_) => after_failure(resuming),
                },
            ),
            (
                ReaderPhase::StartingStream { held, cutoff },
                ReaderEvent::StreamStarted(result),
            ) => self.in_phase(
                match result {
                    Ok(_) => ReaderPhase::Sending {
                        event: self.recovery(held),
                        then: AfterSend::Snapshot { held, cutoff },
                    },
                    Err(_) => after_failure(false),
                },
            ),
            (
                ReaderPhase::Sending { then, .. },
                ReaderEvent::SendEnded(outcome),
            ) => self.in_phase(after_send(device, self.latest_epoch, then, outcome)),
            (ReaderPhase::Listening { .. }, ReaderEvent::ShutdownChanged) => self.in_phase(
                ReaderPhase::Closing(AfterClose::Finish(Ok(device))),
            ),
            (ReaderPhase::Listening { .. }, ReaderEvent::EpochsClosed) => self.in_phase(
                ReaderPhase::Closing(
                    AfterClose::Finish(Err(ReaderError::EpochChannelClosed(device))),
                ),
            ),
            (ReaderPhase::Listening { cutoff }, ReaderEvent::EpochChanged(latest)) => Reader {
                latest_epoch: latest,
                phase: match latest {
                    Some(epoch) => ReaderPhase::Querying(Query::Snapshot { epoch, cutoff }),
                    None => ReaderPhase::Listening { cutoff },
                },
                ..self
            },
            (ReaderPhase::Listening { cutoff }, ReaderEvent::Input(result)) => self.in_phase(
                match result {
                    Ok(event) => after_input(self.config, cutoff, event),
                    Err(_) => after_failure(true),
                },
            ),
            (ReaderPhase::Discarding, ReaderEvent::ShutdownChanged) => self.in_phase(
                ReaderPhase::Closing(AfterClose::Finish(Ok(device))),
            ),
            (ReaderPhase::Discarding, ReaderEvent::Input(result)) => self.in_phase(
                match result {
                    Ok(event) => if crate::input::synchronizing_decision(event)
                        == Decision::CompleteSynchronization {
                        ReaderPhase::Querying(Query::Recovery)
                    } else {
                        ReaderPhase::Discarding
                    },
                    Err(_) => after_failure(true),
                },
            ),
            (ReaderPhase::Closing(then), ReaderEvent::Closed) => self.in_phase(
                match then {
                    AfterClose::Reconnect => ReaderPhase::CheckingRetry,
                    AfterClose::ReportLoss => ReaderPhase::Sending {
                        event: ControlEvent::DeviceLost(device),
                        then: AfterSend::Reconnect,
                    },
                    AfterClose::Finish(result) => ReaderPhase::Finished(result),
                },
            ),
            (ReaderPhase::CheckingRetry, ReaderEvent::ShutdownFlag(stop)) => self.in_phase(
                if stop {
                    ReaderPhase::Finished(Ok(device))
                } else {
                    ReaderPhase::Reconnecting
                },
            ),
            (ReaderPhase::Reconnecting, ReaderEvent::ShutdownChanged) => self.in_phase(
                ReaderPhase::Finished(Ok(device)),
            ),
            (ReaderPhase::Reconnecting, ReaderEvent::EpochChanged(latest)) => Reader {
                latest_epoch: latest,
                ..self
            },
            (ReaderPhase::Reconnecting, ReaderEvent::EpochsClosed) => self.in_phase(
                ReaderPhase::Finished(Err(ReaderError::EpochChannelClosed(device))),
            ),
            (ReaderPhase::Reconnecting, ReaderEvent::DelayOver) => self.in_phase(
                ReaderPhase::CheckingShutdown,
            ),
            _ => self,
        }
    }

    /// The failure that the event tells of, if the phase waits for the event.
    pub open spec fn fault(self, event: ReaderEvent) -> Option<Fault> {
        match (self.phase, event) {
            (ReaderPhase::Opening, ReaderEvent::Opened(Err(error))) => Some(error@),
            (ReaderPhase::SelectingClock, ReaderEvent::ClockSelected(Err(error))) => Some(error@),
            (ReaderPhase::Identifying, ReaderEvent::Identified(Err(error))) => Some(error@),
            (ReaderPhase::SettingNonblocking, ReaderEvent::MadeNonblocking(Err(error))) => Some(
                error@,
            ),
            (ReaderPhase::Draining, ReaderEvent::Drained(result)) => crate::input::drain_result(
                crate::input::by_content(result),
            ).err(),
            (ReaderPhase::Querying(_), ReaderEvent::Queried(Err(error))) => Some(error@),
            (ReaderPhase::ReadingClock { .. }, ReaderEvent::ClockRead(result)) => moment_of(
                result,
            ).err(),
            (ReaderPhase::StartingStream { .. }, ReaderEvent::StreamStarted(Err(error))) => Some(
                error@,
            ),
            (ReaderPhase::Listening { .. }, ReaderEvent::Input(Err(error))) => Some(error@),
            (
                ReaderPhase::Listening { cutoff },
                ReaderEvent::Input(Ok(event)),
            ) => self.config.decision(event, cutoff).err(),
            (ReaderPhase::Discarding, ReaderEvent::Input(Err(error))) => Some(error@),
            _ => None,
        }
    }
}

/// The moment that a reading of the clock gives, if the clock could be read.
pub open spec fn moment_of(result: Result<(i64, i64), IoError>) -> Result<EventTimestamp, Fault> {
    match result {
        Ok((seconds, nanoseconds)) => crate::input::clock_moment(seconds, nanoseconds),
        Err(error) => Err(error@),
    }
}

/// Whether the error, if any, is the failure, if any.
pub open spec fn reports(noted: Option<IoError>, fault: Option<Fault>) -> bool {
    match (noted, fault) {
        (Some(error), Some(fault)) => error@ == fault,
        (None, None) => true,
        _ => false,
    }
}

fn failed(known: bool) -> (phase: ReaderPhase)
    ensures
        phase == after_failure(known),
{
    if known {
        ReaderPhase::Closing(AfterClose::ReportLoss)
    } else {
        ReaderPhase::Closing(AfterClose::Reconnect)
    }
}

/// The phase after a preparing step: the next one, or closing the device.
fn prepared(result: Result<(), IoError>, next: ReaderPhase) -> (ended: (
    ReaderPhase,
    Option<IoError>,
))
    ensures
        ended.0 == match result {
            Ok(_) => next,
            Err(_) => after_failure(false),
        },
        ended.1 == match result {
            Ok(_) => None,
            Err(error) => Some(error),
        },
{
    match result {
        Ok(()) => (next, None),
        Err(error) => (failed(false), Some(error)),
    }
}

impl Reader {
    /// A reader that has not done anything, given the mode transition that was last announced.
    pub fn new(config: ReaderConfig, latest_epoch: Option<TransitionEpoch>) -> (reader: Self)
        ensures
            reader == (Reader { config, latest_epoch, phase: ReaderPhase::CheckingShutdown }),
    {
        Reader { config, latest_epoch, phase: ReaderPhase::CheckingShutdown }
    }

    /// Takes in what came of the present phase. Returns the failure that it tells of.
    pub fn step(&mut self, event: ReaderEvent) -> (noted: Option<IoError>)
        requires
            event.valid(),
        ensures
            *final(self) == old(self).after(event),
            reports(noted, old(self).fault(event)),
    {
        let (phase, noted) = match self.phase {
            ReaderPhase::CheckingShutdown => match event {
                ReaderEvent::ShutdownFlag(stop) => (
                    if stop {
                        ReaderPhase::Finished(Ok(self.config.device))
                    } else {
                        ReaderPhase::CheckingEpochs
                    },
                    None,
                ),
                _ => (self.phase, None),
            },
            ReaderPhase::CheckingEpochs => match event {
                ReaderEvent::EpochsOpen(open) => (
                    if open {
                        ReaderPhase::Opening
                    } else {
                        ReaderPhase::Finished(
                            Err(ReaderError::EpochChannelClosed(self.config.device)),
                        )
                    },
                    None,
                ),
                _ => (self.phase, None),
            },
            ReaderPhase::Listening { cutoff } => self.active_stream(cutoff, event),
            ReaderPhase::Sending { then, .. } => match event {
                ReaderEvent::SendEnded(outcome) => (self.send_ended(then, outcome), None),
                _ => (self.phase, None),
            },
            ReaderPhase::Closing(then) => match event {
                ReaderEvent::Closed => (self.closed(then), None),
                _ => (self.phase, None),
            },
            ReaderPhase::CheckingRetry => match event {
                ReaderEvent::ShutdownFlag(stop) => (
                    if stop {
                        ReaderPhase::Finished(Ok(self.config.device))
                    } else {
                        ReaderPhase::Reconnecting
                    },
                    None,
                ),
                _ => (self.phase, None),
            },
            ReaderPhase::Reconnecting => (self.wait_to_reconnect(event), None),
            ReaderPhase::Querying(_) => self.synchronize(event),
            ReaderPhase::ReadingClock { .. } => self.synchronize(event),
            ReaderPhase::Discarding => self.synchronize(event),
            ReaderPhase::Finished(_) => (self.phase, None),
            _ => self.prepare(event),
        };
        self.phase = phase;
        noted
    }

    fn prepare(&self, event: ReaderEvent) -> (ended: (ReaderPhase, Option<IoError>))
        requires
            self.phase is Opening || self.phase is SelectingClock || self.phase is Identifying
                || self.phase is Claiming || self.phase is SettingNonblocking
                || self.phase is Draining || self.phase is StartingStream,
        ensures
            self.in_phase(ended.0) == self.after(event),
            reports(ended.1, self.fault(event)),
    {
        match (self.phase, event) {
            (ReaderPhase::Opening, ReaderEvent::Opened(result)) => match result {
                Ok(()) => (ReaderPhase::SelectingClock, None),
                Err(error) => (ReaderPhase::CheckingRetry, Some(error)),
            },
            (ReaderPhase::SelectingClock, ReaderEvent::ClockSelected(result)) => prepared(
                result,
                ReaderPhase::Identifying,
            ),
            (ReaderPhase::Identifying, ReaderEvent::Identified(result)) => match result {
                Ok(identity) => (ReaderPhase::Claiming(identity), None),
                Err(error) => (failed(false), Some(error)),
            },
            (ReaderPhase::Claiming(_), ReaderEvent::Claimed(claimed)) => (
                if claimed {
                    ReaderPhase::SettingNonblocking
                } else {
                    failed(false)
                },
                None,
            ),
            (ReaderPhase::SettingNonblocking, ReaderEvent::MadeNonblocking(result)) => prepared(
                result,
                ReaderPhase::Draining,
            ),
            (ReaderPhase::Draining, ReaderEvent::Drained(result)) => {
                match raw_drain_step(result) {
                    RawDrainStep::Continue => (ReaderPhase::Draining, None),
                    RawDrainStep::Complete => (ReaderPhase::Querying(Query::Opening), None),
                    RawDrainStep::Error(error) => (failed(false), Some(error)),
                }
            },
            (
                ReaderPhase::StartingStream { held, cutoff },
                ReaderEvent::StreamStarted(result),
            ) => prepared(
                result,
                ReaderPhase::Sending {
                    event: recovered_event(self.config.device, held),
                    then: AfterSend::Snapshot { held, cutoff },
                },
            ),
            (phase, _) => (phase, None),
        }
    }

    fn active_stream(&mut self, cutoff: EventTimestamp, event: ReaderEvent) -> (ended: (
        ReaderPhase,
        Option<IoError>,
    ))
        requires
            event.valid(),
            old(self).phase == (ReaderPhase::Listening { cutoff }),
        ensures
            final(self).in_phase(ended.0) == old(self).after(event),
            reports(ended.1, old(self).fault(event)),
    {
        let device = self.config.device;
        match event {
            ReaderEvent::ShutdownChanged => (
                ReaderPhase::Closing(AfterClose::Finish(Ok(device))),
                None,
            ),
            ReaderEvent::EpochsClosed => (
                ReaderPhase::Closing(
                    AfterClose::Finish(Err(ReaderError::EpochChannelClosed(device))),
                ),
                None,
            ),
            ReaderEvent::EpochChanged(latest) => {
                self.latest_epoch = latest;
                match latest {
                    Some(epoch) => (
                        ReaderPhase::Querying(Query::Snapshot { epoch, cutoff }),
                        None,
                    ),
                    None => (ReaderPhase::Listening { cutoff }, None),
                }
            },
            ReaderEvent::Input(Err(error)) => (failed(true), Some(error)),
            ReaderEvent::Input(Ok(event)) => match decide(event, &self.config, false, cutoff) {
                Err(error) => (failed(true), Some(error)),
                Ok(Decision::Emit(event)) => (
                    ReaderPhase::Sending { event, then: AfterSend::Listen { cutoff } },
                    None,
                ),
                Ok(Decision::BeginSynchronization) => (
                    ReaderPhase::Sending {
                        event: synchronization_lost_event(device),
                        then: AfterSend::Discard,
                    },
                    None,
                ),
                Ok(_) => (ReaderPhase::Listening { cutoff }, None),
            },
            _ => (ReaderPhase::Listening { cutoff }, None),
        }
    }

    fn synchronize(&self, event: ReaderEvent) -> (ended: (ReaderPhase, Option<IoError>))
        requires
            self.phase is Querying || self.phase is ReadingClock || self.phase is Discarding,
        ensures
            self.in_phase(ended.0) == self.after(event),
            reports(ended.1, self.fault(event)),
    {
        let device = self.config.device;
        match (self.phase, event) {
            (ReaderPhase::Discarding, ReaderEvent::ShutdownChanged) => (
                ReaderPhase::Closing(AfterClose::Finish(Ok(device))),
                None,
            ),
            (ReaderPhase::Discarding, ReaderEvent::Input(Ok(event))) => {
                if decide_synchronizing(event) == Decision::CompleteSynchronization {
                    (ReaderPhase::Querying(Query::Recovery), None)
                } else {
                    (ReaderPhase::Discarding, None)
                }
            },
            (ReaderPhase::Discarding, ReaderEvent::Input(Err(error))) => (
                failed(true),
                Some(error),
            ),
            (ReaderPhase::Querying(query), ReaderEvent::Queried(result)) => {
                self.queried(query, result)
            },
            (ReaderPhase::ReadingClock { held, resuming }, ReaderEvent::ClockRead(result)) => {
                let reading = match result {
                    Ok((seconds, nanoseconds)) => timestamp_from_timespec(seconds, nanoseconds),
                    Err(error) => Err(error),
                };
                match reading {
                    Ok(cutoff) => (
                        if resuming {
                            ReaderPhase::Sending {
                                event: recovered_event(device, held),
                                then: AfterSend::Listen { cutoff },
                            }
                        } else {
                            ReaderPhase::StartingStream { held, cutoff }
                        },
                        None,
                    ),
                    Err(error) => (failed(resuming), Some(error)),
                }
            },
            (phase, _) => (phase, None),
        }
    }

    fn queried(&self, query: Query, result: Result<HeldKeys, IoError>) -> (ended: (
        ReaderPhase,
        Option<IoError>,
    ))
        ensures
            ended.0 == match result {
                Ok(held) => after_query(self.config.device, query, held),
                Err(_) => after_failure(query != Query::Opening),
            },
            ended.1 == match result {
                Ok(_) => None,
                Err(error) => Some(error),
            },
    {
        let (held, noted) = match result {
            Ok(held) => (Ok(held), None),
            Err(error) => (Err(()), Some(error)),
        };
        let phase = match query {
            Query::Opening => match held {
                Ok(held) => ReaderPhase::ReadingClock { held, resuming: false },
                Err(()) => failed(false),
            },
            Query::Recovery => match held {
                Ok(held) => ReaderPhase::ReadingClock { held, resuming: true },
                Err(()) => failed(true),
            },
            Query::Snapshot { epoch, cutoff } => match snapshot_decision(
                &self.config,
                epoch,
                held,
            ) {
                SnapshotDecision::Emit(event) => ReaderPhase::Sending {
                    event,
                    then: AfterSend::Listen { cutoff },
                },
                SnapshotDecision::Disconnect => failed(true),
            },
        };
        (phase, noted)
    }

    fn send_ended(&self, then: AfterSend, outcome: SendOutcome) -> (phase: ReaderPhase)
        ensures
            phase == after_send(self.config.device, self.latest_epoch, then, outcome),
    {
        let device = self.config.device;
        let result = match outcome {
            SendOutcome::Sent => {
                return match then {
                    AfterSend::Snapshot { held, cutoff } => match self.latest_epoch {
                        Some(epoch) => ReaderPhase::Sending {
                            event: snapshot_event(device, epoch, held),
                            then: AfterSend::Listen { cutoff },
                        },
                        None => ReaderPhase::Listening { cutoff },
                    },
                    AfterSend::Listen { cutoff } => ReaderPhase::Listening { cutoff },
                    AfterSend::Discard => ReaderPhase::Discarding,
                    AfterSend::Reconnect => ReaderPhase::CheckingRetry,
                };
            },
            SendOutcome::ShuttingDown => Ok(device),
            SendOutcome::ChannelClosed => Err(ReaderError::EventChannelClosed(device)),
        };
        match then {
            AfterSend::Reconnect => ReaderPhase::Finished(result),
            _ => ReaderPhase::Closing(AfterClose::Finish(result)),
        }
    }

    fn closed(&self, then: AfterClose) -> (phase: ReaderPhase)
        ensures
            self.in_phase(phase) == self.in_phase(ReaderPhase::Closing(then)).after(
                ReaderEvent::Closed,
            ),
    {
        match then {
            AfterClose::Reconnect => ReaderPhase::CheckingRetry,
            AfterClose::ReportLoss => match disconnect_plan(self.config.device)[0] {
                DisconnectStep::EmitLoss(event) => ReaderPhase::Sending {
                    event,
                    then: AfterSend::Reconnect,
                },
                DisconnectStep::Retry => ReaderPhase::CheckingRetry,
            },
            AfterClose::Finish(result) => ReaderPhase::Finished(result),
        }
    }

    fn wait_to_reconnect(&mut self, event: ReaderEvent) -> (phase: ReaderPhase)
        requires
            old(self).phase is Reconnecting,
        ensures
            final(self).in_phase(phase) == old(self).after(event),
            old(self).fault(event) is None,
    {
        match event {
            ReaderEvent::ShutdownChanged => ReaderPhase::Finished(Ok(self.config.device)),
            ReaderEvent::EpochChanged(latest) => {
                self.latest_epoch = latest;
                ReaderPhase::Reconnecting
            },
            ReaderEvent::EpochsClosed => ReaderPhase::Finished(
                Err(ReaderError::EpochChannelClosed(self.config.device)),
            ),
            ReaderEvent::DelayOver => ReaderPhase::CheckingShutdown,
            _ => ReaderPhase::Reconnecting,
        }
    }
}

} // verus!
