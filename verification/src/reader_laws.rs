//! What holds of a reader over any run of events, and of the claims of nodes.

use vstd::prelude::*;

use crate::input::{Decision, InputEvent, NodeIdentity, ReaderConfig};
use crate::reader::{
    AfterClose, AfterSend, Query, Reader, ReaderEvent, ReaderPhase, SendOutcome,
};
use crate::state::{ControlEvent, DeviceId, EventTimestamp, TransitionEpoch};

verus! {

/// Whether the event reports a press or a release of a key.
pub open spec fn is_key_event(event: ControlEvent) -> bool {
    event is PttDown || event is PttUp || event is ToggleDown || event is ToggleUp
}

/// The moment of a key event.
pub open spec fn moment(event: ControlEvent) -> EventTimestamp {
    match event {
        ControlEvent::PttDown { timestamp, .. } => timestamp,
        ControlEvent::PttUp { timestamp, .. } => timestamp,
        ControlEvent::ToggleDown { timestamp, .. } => timestamp,
        ControlEvent::ToggleUp { timestamp, .. } => timestamp,
        _ => arbitrary(),
    }
}

impl ReaderPhase {
    /// Whether the device is open.
    pub open spec fn has_device(self) -> bool {
        match self {
            ReaderPhase::SelectingClock => true,
            ReaderPhase::Identifying => true,
            ReaderPhase::Claiming(_) => true,
            _ => self.has_claim(),
        }
    }

    /// Whether the reader holds a claim for sure.
    pub open spec fn has_claim(self) -> bool {
        match self {
            ReaderPhase::SettingNonblocking => true,
            ReaderPhase::Draining => true,
            ReaderPhase::Querying(_) => true,
            ReaderPhase::ReadingClock { .. } => true,
            ReaderPhase::StartingStream { .. } => true,
            ReaderPhase::Sending { then, .. } => then != AfterSend::Reconnect,
            ReaderPhase::Listening { .. } => true,
            ReaderPhase::Discarding => true,
            _ => false,
        }
    }

    /// The moment up to which key events are represented already.
    pub open spec fn cutoff(self) -> Option<EventTimestamp> {
        match self {
            ReaderPhase::Querying(Query::Snapshot { cutoff, .. }) => Some(cutoff),
            ReaderPhase::StartingStream { cutoff, .. } => Some(cutoff),
            ReaderPhase::Sending { then: AfterSend::Snapshot { cutoff, .. }, .. } => Some(cutoff),
            ReaderPhase::Sending { then: AfterSend::Listen { cutoff }, .. } => Some(cutoff),
            ReaderPhase::Listening { cutoff } => Some(cutoff),
            _ => None,
        }
    }

    /// Whether the device is being closed.
    pub open spec fn closes(self) -> bool {
        self is Closing
    }
}

impl Reader {
    /// The reader after a run of events, in order.
    pub open spec fn after_all(self, events: Seq<ReaderEvent>) -> Self
        decreases events.len(),
    {
        if events.len() == 0 {
            self
        } else {
            self.after_all(events.drop_last()).after(events.last())
        }
    }

    /// The event that goes out to the controller when that happens.
    pub open spec fn sends(self, event: ReaderEvent) -> Option<ControlEvent> {
        match (self.phase, event) {
            (
                ReaderPhase::Sending { event, .. },
                ReaderEvent::SendEnded(SendOutcome::Sent),
            ) => Some(event),
            _ => None,
        }
    }

    /// The events that go out to the controller in a run of events, in order.
    pub open spec fn sent(self, events: Seq<ReaderEvent>) -> Seq<ControlEvent>
        decreases events.len(),
    {
        if events.len() == 0 {
            Seq::empty()
        } else {
            let earlier = self.sent(events.drop_last());
            match self.after_all(events.drop_last()).sends(events.last()) {
                Some(event) => earlier.push(event),
                None => earlier,
            }
        }
    }

    /// The latest reading of the clock in a run of events.
    pub open spec fn last_reading(self, events: Seq<ReaderEvent>) -> Option<EventTimestamp>
        decreases events.len(),
    {
        if events.len() == 0 {
            None
        } else {
            match (self.after_all(events.drop_last()).phase, events.last()) {
                (
                    ReaderPhase::ReadingClock { .. },
                    ReaderEvent::ClockRead(result),
                ) => crate::reader::moment_of(result).ok(),
                _ => self.last_reading(events.drop_last()),
            }
        }
    }

    /// Whether the phase fits what the controller was told of the device last.
    pub open spec fn sound(self, recovered: bool) -> bool {
        match self.phase {
            ReaderPhase::Sending { event, then } => {
                &&& crate::policy_laws::subject(event) == Some(self.config.device)
                &&& match then {
                    AfterSend::Snapshot { held, .. } => !recovered && event == self.recovery(held),
                    AfterSend::Listen { cutoff } => if event is DeviceRecovered {
                        !recovered
                    } else {
                        &&& recovered
                        &&& event is KeySnapshot || is_key_event(event) && cutoff.before(
                            moment(event),
                        )
                    },
                    AfterSend::Discard => recovered && event == ControlEvent::SynchronizationLost(
                        self.config.device,
                    ),
                    AfterSend::Reconnect => event == ControlEvent::DeviceLost(self.config.device),
                }
            },
            ReaderPhase::Listening { .. } => recovered,
            ReaderPhase::Querying(Query::Snapshot { .. }) => recovered,
            ReaderPhase::Closing(AfterClose::ReportLoss) => true,
            ReaderPhase::Closing(AfterClose::Finish(result)) => self.names_device(result),
            ReaderPhase::Finished(result) => self.names_device(result),
            _ => !recovered,
        }
    }

    /// Whether the result of the reader names its device.
    pub open spec fn names_device(
        self,
        result: Result<DeviceId, crate::input::ReaderError>,
    ) -> bool {
        match result {
            Ok(device) => device == self.config.device,
            Err(error) => error.subject() == self.config.device,
        }
    }
}

/// Whether the last of the events that tells of a recovery or a loss tells of a recovery.
pub open spec fn told_recovered(sent: Seq<ControlEvent>) -> bool
    decreases sent.len(),
{
    if sent.len() == 0 {
        false
    } else {
        match sent.last() {
            ControlEvent::DeviceRecovered { .. } => true,
            ControlEvent::DeviceLost(_) => false,
            ControlEvent::SynchronizationLost(_) => false,
            _ => told_recovered(sent.drop_last()),
        }
    }
}

proof fn lemma_step_is_sound(reader: Reader, event: ReaderEvent, sent: Seq<ControlEvent>)
    requires
        reader.sound(told_recovered(sent)),
    ensures
        reader.after(event).sound(
            told_recovered(
                match reader.sends(event) {
                    Some(event) => sent.push(event),
                    None => sent,
                },
            ),
        ),
{
    if let Some(out) = reader.sends(event) {
        assert(sent.push(out).drop_last() =~= sent);
        assert(sent.push(out).last() == out);
    }
}

/// Whatever happens, the phase of a reader fits what the controller was told last: key events and
/// snapshots go out only for a device that is told to have recovered, a recovery only for one that
/// is not, nothing is told of a device while it is being opened anew, and every event and the
/// result name the device of the reader.
pub proof fn law_reader_stays_sound(
    config: ReaderConfig,
    latest_epoch: Option<TransitionEpoch>,
    events: Seq<ReaderEvent>,
)
    ensures
        ({
            let start = Reader { config, latest_epoch, phase: ReaderPhase::CheckingShutdown };
            start.after_all(events).sound(told_recovered(start.sent(events)))
                && start.after_all(events).config == config
        }),
    decreases events.len(),
{
    if events.len() > 0 {
        let start = Reader { config, latest_epoch, phase: ReaderPhase::CheckingShutdown };
        law_reader_stays_sound(config, latest_epoch, events.drop_last());
        lemma_step_is_sound(
            start.after_all(events.drop_last()),
            events.last(),
            start.sent(events.drop_last()),
        );
    }
}

/// After a device is lost, nothing is done about it before its loss has gone out; then the device
/// is tried again, unless the reader is to end.
pub proof fn law_loss_goes_out_before_a_retry(
    reader: Reader,
    event: ReaderEvent,
    outcome: SendOutcome,
)
    requires
        reader.phase == ReaderPhase::Closing(AfterClose::ReportLoss),
    ensures
        reader.after(event) == reader || reader.after(event).phase == (ReaderPhase::Sending {
            event: ControlEvent::DeviceLost(reader.config.device),
            then: AfterSend::Reconnect,
        }),
        ({
            let told = reader.after(ReaderEvent::Closed).after(ReaderEvent::SendEnded(outcome));
            if outcome == SendOutcome::Sent {
                told.phase is CheckingRetry
            } else {
                told.phase is Finished
            }
        }),
{
}

/// A reader that was told of a recovered device reports the loss of that device before it opens
/// the device again.
pub proof fn law_no_retry_of_a_recovered_device(
    config: ReaderConfig,
    latest_epoch: Option<TransitionEpoch>,
    events: Seq<ReaderEvent>,
)
    ensures
        ({
            let start = Reader { config, latest_epoch, phase: ReaderPhase::CheckingShutdown };
            let phase = start.after_all(events).phase;
            phase is Reconnecting || phase is CheckingRetry || phase is Opening
                ==> !told_recovered(start.sent(events))
        }),
{
    law_reader_stays_sound(config, latest_epoch, events);
}

/// The device is tried again only once it is closed and the claim is given up: the claim is taken
/// only by claiming, and goes only when the device is closed.
pub proof fn law_claim_lasts_until_closing(reader: Reader, event: ReaderEvent)
    ensures
        reader.after(event).phase.has_claim() && !reader.phase.has_claim() ==> {
            &&& reader.phase is Claiming
            &&& event == ReaderEvent::Claimed(true)
        },
        reader.phase.has_claim() && !reader.after(event).phase.has_claim()
            ==> reader.after(event).phase.closes(),
        reader.phase.has_device() && !reader.after(event).phase.has_device()
            ==> reader.after(event).phase.closes(),
        reader.phase.closes() ==> reader.after(event) == reader || event is Closed,
{
}

proof fn lemma_cutoff_is_last_reading(start: Reader, events: Seq<ReaderEvent>)
    requires
        start.phase is CheckingShutdown,
    ensures
        start.after_all(events).phase.cutoff() matches Some(cutoff) ==> start.last_reading(events)
            == Some(cutoff),
    decreases events.len(),
{
    if events.len() > 0 {
        lemma_cutoff_is_last_reading(start, events.drop_last());
    }
}

/// Every key event that goes out happened after the latest reading of the clock, which follows the
/// latest query of the keys for a recovery: what the recovery told is not told again.
pub proof fn law_old_key_events_stay_in(
    config: ReaderConfig,
    latest_epoch: Option<TransitionEpoch>,
    events: Seq<ReaderEvent>,
    out: ControlEvent,
)
    requires
        is_key_event(out),
        ({
            let start = Reader { config, latest_epoch, phase: ReaderPhase::CheckingShutdown };
            start.after_all(events).sends(ReaderEvent::SendEnded(SendOutcome::Sent)) == Some(out)
        }),
    ensures
        ({
            let start = Reader { config, latest_epoch, phase: ReaderPhase::CheckingShutdown };
            start.last_reading(events) matches Some(reading) && reading.before(moment(out))
        }),
{
    let start = Reader { config, latest_epoch, phase: ReaderPhase::CheckingShutdown };
    law_reader_stays_sound(config, latest_epoch, events);
    lemma_cutoff_is_last_reading(start, events);
}

/// Only presses and releases of the configured keys become key events, and they keep the device
/// and the moment.
pub proof fn law_only_configured_keys_count(
    config: ReaderConfig,
    event: InputEvent,
    cutoff: EventTimestamp,
    emitted: ControlEvent,
)
    requires
        config.decision(event, cutoff) == Ok::<Decision, crate::fault::Fault>(
            Decision::Emit(emitted),
        ),
    ensures
        is_key_event(emitted),
        crate::policy_laws::subject(emitted) == Some(config.device),
        crate::input::event_moment(event.time) == Ok::<EventTimestamp, crate::fault::Fault>(
            moment(emitted),
        ),
        event.event_type == crate::input::EV_KEY,
        emitted is PttDown || emitted is PttUp <==> event.code == config.ptt_key.0,
        emitted is ToggleDown || emitted is ToggleUp ==> event.code == config.toggle_key.0,
        emitted is PttDown || emitted is ToggleDown <==> event.value == 1,
        emitted is PttUp || emitted is ToggleUp <==> event.value == 0,
{
}

/// Once a reader has ended it does nothing more.
pub proof fn law_ended_reader_rests(reader: Reader, later: Seq<ReaderEvent>)
    requires
        reader.phase is Finished,
    ensures
        reader.after_all(later) == reader,
    decreases later.len(),
{
    if later.len() > 0 {
        law_ended_reader_rests(reader, later.drop_last());
    }
}

/// A claimed node is refused, and no other, until the claim is given up; then it can be had again.
pub proof fn law_claims_are_exclusive(claimed: Set<u64>, node: NodeIdentity, other: NodeIdentity)
    ensures
        claimed.insert(node.0).contains(node.0),
        other != node ==> claimed.insert(node.0).contains(other.0) == claimed.contains(other.0),
        other != node ==> claimed.insert(node.0).remove(other.0).contains(node.0),
        !claimed.contains(node.0) ==> claimed.insert(node.0).remove(node.0) == claimed,
{
    if !claimed.contains(node.0) {
        assert(claimed.insert(node.0).remove(node.0) =~= claimed);
    }
}

} // verus!
