//! What holds of the meaning of input events.

use vstd::prelude::*;

use crate::fault::{IoError, IoErrorKind};
use crate::input::{
    Decision, DisconnectStep, EventTime, HeldKeys, InputEvent, Key, RawDrainStep, ReaderConfig,
    SnapshotDecision,
};
use crate::state::{ControlEvent, DeviceId, EventTimestamp, TransitionEpoch};

verus! {

/// A moment lies before another exactly if it is fewer nanoseconds past the beginning of the clock.
pub proof fn law_moments_are_ordered_by_time(one: EventTimestamp, other: EventTimestamp)
    requires
        one.nanoseconds < 1_000_000_000,
        other.nanoseconds < 1_000_000_000,
    ensures
        one.before(other) <==> one.seconds * 1_000_000_000 + one.nanoseconds < other.seconds
            * 1_000_000_000 + other.nanoseconds,
{
}

/// Of two moments one lies before the other unless they are the same, and a moment before a second
/// one lies before everything that is after that.
pub proof fn law_moments_are_in_a_row(
    one: EventTimestamp,
    other: EventTimestamp,
    third: EventTimestamp,
)
    ensures
        one != other ==> (one.before(other) <==> !other.before(one)),
        !one.before(one),
        one.before(other) && other.before(third) ==> one.before(third),
        one.seconds < other.seconds ==> one.before(other),
        one.seconds == other.seconds && one.nanoseconds < other.nanoseconds ==> one.before(other),
{
}

/// Every press and every release of the push-to-talk key after the recovery cutoff goes out as
/// such, with the device and the time of the event, whatever else is configured.
pub proof fn law_talk_key_goes_out(
    event: InputEvent,
    config: ReaderConfig,
    cutoff: EventTimestamp,
    seconds: u64,
    nanoseconds: u32,
    decision: Result<Decision, IoError>,
)
    requires
        call_ensures(crate::input::decide, (event, &config, false, cutoff), decision),
        event.event_type == 1,
        event.code == config.ptt_key.0,
        event.value == 0 || event.value == 1,
        event.time == (EventTime::SinceEpoch { seconds, nanoseconds }),
        seconds <= i64::MAX,
        cutoff.seconds < seconds || cutoff.seconds == seconds && cutoff.nanoseconds < nanoseconds,
    ensures
        ({
            let timestamp = EventTimestamp { seconds: seconds as i64, nanoseconds };
            decision == Ok::<Decision, IoError>(
                Decision::Emit(
                    if event.value == 1 {
                        ControlEvent::PttDown { device: config.device, timestamp }
                    } else {
                        ControlEvent::PttUp { device: config.device, timestamp }
                    },
                ),
            )
        }),
{
}

/// Every press and every release of a toggle key of its own after the recovery cutoff goes out as
/// such, with the device and the time of the event.
pub proof fn law_toggle_key_goes_out(
    event: InputEvent,
    config: ReaderConfig,
    cutoff: EventTimestamp,
    seconds: u64,
    nanoseconds: u32,
    decision: Result<Decision, IoError>,
)
    requires
        call_ensures(crate::input::decide, (event, &config, false, cutoff), decision),
        event.event_type == 1,
        event.code == config.toggle_key.0,
        config.toggle_key.0 != config.ptt_key.0,
        event.value == 0 || event.value == 1,
        event.time == (EventTime::SinceEpoch { seconds, nanoseconds }),
        seconds <= i64::MAX,
        cutoff.seconds < seconds || cutoff.seconds == seconds && cutoff.nanoseconds < nanoseconds,
    ensures
        ({
            let timestamp = EventTimestamp { seconds: seconds as i64, nanoseconds };
            decision == Ok::<Decision, IoError>(
                Decision::Emit(
                    if event.value == 1 {
                        ControlEvent::ToggleDown { device: config.device, timestamp }
                    } else {
                        ControlEvent::ToggleUp { device: config.device, timestamp }
                    },
                ),
            )
        }),
{
}

/// Key events up to the recovery cutoff, repetitions of a held key, other keys and other kinds of
/// events are ignored.
pub proof fn law_other_events_are_ignored(
    event: InputEvent,
    config: ReaderConfig,
    cutoff: EventTimestamp,
    decision: Result<Decision, IoError>,
)
    requires
        call_ensures(crate::input::decide, (event, &config, false, cutoff), decision),
        ({
            ||| event.event_type > 1
            ||| event.event_type == 0 && event.code != 3
            ||| event.event_type == 1 && event.code != config.ptt_key.0 && event.code
                != config.toggle_key.0
            ||| event.event_type == 1 && event.value != 0 && event.value != 1
            ||| event.event_type == 1 && (event.time matches EventTime::SinceEpoch {
                seconds,
                nanoseconds,
            } && seconds <= i64::MAX && (seconds < cutoff.seconds || seconds == cutoff.seconds
                && nanoseconds <= cutoff.nanoseconds))
        }),
    ensures
        decision == Ok::<Decision, IoError>(Decision::Ignore),
{
}

/// A press or release of a configured key without a proper time is invalid data.
pub proof fn law_improper_times_are_refused(
    event: InputEvent,
    config: ReaderConfig,
    cutoff: EventTimestamp,
    decision: Result<Decision, IoError>,
)
    requires
        call_ensures(crate::input::decide, (event, &config, false, cutoff), decision),
        event.event_type == 1,
        event.code == config.ptt_key.0 || event.code == config.toggle_key.0,
        event.value == 0 || event.value == 1,
        event.time is BeforeEpoch || event.time->SinceEpoch_seconds > i64::MAX,
    ensures
        decision is Err,
        decision->Err_0.kind == IoErrorKind::InvalidData,
        event.time is BeforeEpoch ==> decision->Err_0.message@ == "negative input event timestamp"@,
        event.time is SinceEpoch ==> decision->Err_0.message@ == "input timestamp overflow"@,
{
}

/// That events were lost begins a synchronization, which ends with the next report and with nothing
/// else; meanwhile no key event counts.
pub proof fn law_lost_events_are_waited_out(
    event: InputEvent,
    config: ReaderConfig,
    cutoff: EventTimestamp,
    in_step: Result<Decision, IoError>,
    synchronizing: Result<Decision, IoError>,
    alone: Decision,
)
    requires
        call_ensures(crate::input::decide, (event, &config, false, cutoff), in_step),
        call_ensures(crate::input::decide, (event, &config, true, cutoff), synchronizing),
        call_ensures(crate::input::decide_synchronizing, (event,), alone),
    ensures
        in_step == Ok::<Decision, IoError>(Decision::BeginSynchronization) <==> event.event_type
            == 0 && event.code == 3,
        in_step != Ok::<Decision, IoError>(Decision::CompleteSynchronization),
        synchronizing == Ok::<Decision, IoError>(alone),
        alone == if event.event_type == 0 && event.code == 0 {
            Decision::CompleteSynchronization
        } else {
            Decision::Ignore
        },
{
}

/// What a press or a release means by itself, for keys that differ: it goes out exactly if it is
/// after the cutoff.
pub proof fn law_presses_and_releases_keep_their_meaning(
    key: Key,
    value: i32,
    timestamp: EventTimestamp,
    config: ReaderConfig,
    cutoff: EventTimestamp,
    decision: Result<Decision, IoError>,
)
    requires
        call_ensures(
            crate::input::normalize_key,
            (key, value, timestamp, &config, cutoff),
            decision,
        ),
    ensures
        ({
            let device = config.device;
            let after = cutoff.seconds < timestamp.seconds || cutoff.seconds == timestamp.seconds
                && cutoff.nanoseconds < timestamp.nanoseconds;
            let talk = key.0 == config.ptt_key.0;
            let toggle = key.0 == config.toggle_key.0 && !talk;
            &&& decision is Ok
            &&& decision->Ok_0 == Decision::Emit(ControlEvent::PttDown { device, timestamp })
                <==> after && talk && value == 1
            &&& decision->Ok_0 == Decision::Emit(ControlEvent::PttUp { device, timestamp })
                <==> after && talk && value == 0
            &&& decision->Ok_0 == Decision::Emit(ControlEvent::ToggleDown { device, timestamp })
                <==> after && toggle && value == 1
            &&& decision->Ok_0 == Decision::Emit(ControlEvent::ToggleUp { device, timestamp })
                <==> after && toggle && value == 0
            &&& decision->Ok_0 == Decision::Ignore <==> !after || !talk && !toggle || value != 0
                && value != 1
        }),
{
}

/// The keys that are found down are those of the set, each in its place.
pub proof fn law_held_keys_are_those_of_the_set(
    keys: &evdev::AttributeSetRef<evdev::KeyCode>,
    config: ReaderConfig,
    held: HeldKeys,
)
    requires
        call_ensures(crate::input::held_keys, (keys, &config), held),
    ensures
        held.ptt <==> crate::input::codes_in(keys).contains(config.ptt_key.0),
        held.toggle <==> crate::input::codes_in(keys).contains(config.toggle_key.0),
{
}

/// Stale events are read until reading would block: a batch of some leads to another one, an empty
/// one is an unexpected end, and any other failure is passed on.
pub proof fn law_stale_events_are_read_to_the_end(
    result: Result<usize, IoError>,
    step: RawDrainStep,
)
    requires
        call_ensures(crate::input::raw_drain_step, (result,), step),
    ensures
        step is Continue <==> (result matches Ok(count) && count > 0),
        step is Complete <==> (result matches Err(error) && error.kind == IoErrorKind::WouldBlock),
        result == Ok::<usize, IoError>(0) ==> step is Error && step->Error_0.kind
            == IoErrorKind::UnexpectedEof,
        result matches Err(error) ==> error.kind != IoErrorKind::WouldBlock ==> step is Error
            && step->Error_0.kind == error.kind && step->Error_0.message@ == error.message@,
{
}

/// A reading of the clock is a moment exactly if its nanoseconds make less than a second, and the
/// moment has just those seconds and nanoseconds.
pub proof fn law_clock_readings_are_moments(
    seconds: i64,
    nanoseconds: i64,
    timestamp: Result<EventTimestamp, IoError>,
)
    requires
        call_ensures(crate::input::timestamp_from_timespec, (seconds, nanoseconds), timestamp),
    ensures
        timestamp is Ok <==> 0 <= nanoseconds < 1_000_000_000,
        timestamp matches Ok(moment) ==> moment.seconds == seconds && moment.nanoseconds
            == nanoseconds,
        timestamp matches Err(error) ==> error.kind == IoErrorKind::InvalidData,
{
}

/// The time of an event is a moment exactly if it is not before the epoch and its seconds fit, and
/// the moment has just those seconds and nanoseconds.
pub proof fn law_event_times_are_moments(
    event: InputEvent,
    timestamp: Result<EventTimestamp, IoError>,
    direct: Result<EventTimestamp, IoError>,
)
    requires
        call_ensures(crate::input::event_timestamp, (&event,), timestamp),
        call_ensures(crate::input::timestamp_from_system_time, (event.time,), direct),
    ensures
        timestamp is Ok <==> (event.time matches EventTime::SinceEpoch { seconds, .. } && seconds
            <= i64::MAX),
        timestamp matches Ok(moment) ==> {
            &&& moment.seconds == event.time->SinceEpoch_seconds
            &&& moment.nanoseconds == event.time->SinceEpoch_nanoseconds
            &&& direct == Ok::<EventTimestamp, IoError>(moment)
        },
        timestamp matches Err(error) ==> error.kind == IoErrorKind::InvalidData && direct is Err,
{
}

/// What is told of a device names the device, the epoch and the keys that are down.
pub proof fn law_reports_name_device_and_keys(
    config: ReaderConfig,
    epoch: TransitionEpoch,
    held: HeldKeys,
    recovered: ControlEvent,
    snapshot: ControlEvent,
    answered: SnapshotDecision,
    unanswered: SnapshotDecision,
)
    requires
        call_ensures(crate::input::recovered_event, (config.device, held), recovered),
        call_ensures(crate::input::snapshot_event, (config.device, epoch, held), snapshot),
        call_ensures(crate::input::snapshot_decision, (&config, epoch, Ok(held)), answered),
        call_ensures(crate::input::snapshot_decision, (&config, epoch, Err(())), unanswered),
    ensures
        recovered matches ControlEvent::DeviceRecovered { device, ptt_held, toggle_held } && device
            == config.device && ptt_held == held.ptt && toggle_held == held.toggle,
        snapshot matches ControlEvent::KeySnapshot { device, epoch: told, ptt_held, toggle_held }
            && device == config.device && told == epoch && ptt_held == held.ptt && toggle_held
            == held.toggle,
        answered == SnapshotDecision::Emit(snapshot),
        unanswered == SnapshotDecision::Disconnect,
{
}

/// What is told of a loss names the device, and the loss of a device is told before it is tried
/// again.
pub proof fn law_losses_name_the_device(
    device: DeviceId,
    lost: ControlEvent,
    out_of_step: ControlEvent,
    plan: [DisconnectStep; 2],
)
    requires
        call_ensures(crate::input::lost_event, (device,), lost),
        call_ensures(crate::input::synchronization_lost_event, (device,), out_of_step),
        call_ensures(crate::input::disconnect_plan, (device,), plan),
    ensures
        lost == ControlEvent::DeviceLost(device),
        out_of_step == ControlEvent::SynchronizationLost(device),
        plan@.len() == 2,
        plan@[0] == DisconnectStep::EmitLoss(lost),
        plan@[1] == DisconnectStep::Retry,
{
}

/// Moments compare by their seconds and, within a second, by their nanoseconds.
pub proof fn law_moments_compare_by_time(
    one: EventTimestamp,
    other: EventTimestamp,
    ordering: Option<std::cmp::Ordering>,
)
    requires
        call_ensures(EventTimestamp::partial_cmp, (&one, &other), ordering),
    ensures
        ordering is Some,
        ordering == Some(std::cmp::Ordering::Less) <==> one.seconds < other.seconds || one.seconds
            == other.seconds && one.nanoseconds < other.nanoseconds,
        ordering == Some(std::cmp::Ordering::Equal) <==> one == other,
{
}

/// The time of an event is proper unless its nanoseconds make a second or more, and an event without
/// an input event in it is always proper.
pub proof fn law_proper_times_are_below_a_second(
    seconds: u64,
    nanoseconds: u32,
    event: crate::reader::ReaderEvent,
)
    ensures
        EventTime::BeforeEpoch.valid(),
        (EventTime::SinceEpoch { seconds, nanoseconds }).valid() <==> nanoseconds < 1_000_000_000,
        (event matches crate::reader::ReaderEvent::Input(Ok(input)) ==> input.time.valid())
            <==> event.valid(),
{
}

} // verus!
