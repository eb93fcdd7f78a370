//! Input events: which of them matter, and what they mean for the policy.

use std::collections::HashSet;

use vstd::prelude::*;
use vstd::string::*;

use crate::fault::{Fault, IoError, IoErrorKind};
use crate::path::DevicePath;
use crate::state::{ControlEvent, DeviceId, EventTimestamp, TransitionEpoch};
use crate::text::decimal;

verus! {

broadcast use vstd::std_specs::hash::group_hash_axioms;

/// Type of the input events that delimit and qualify others.
pub const EV_SYN: u16 = 0;

/// Type of the input events of keys.
pub const EV_KEY: u16 = 1;

/// Code of the synchronization event that ends a group of events.
pub const SYN_REPORT: u16 = 0;

/// Code of the synchronization event that tells of lost events.
pub const SYN_DROPPED: u16 = 3;

/// How many seconds to wait before a device is opened again.
pub const RECONNECT_DELAY: u64 = 1;

/// Code of a key.
#[derive(Clone, Copy, Debug, PartialEq, Eq, Structural)]
pub struct Key(pub u16);

/// What one reader is to read.
#[derive(Debug, PartialEq, Eq)]
pub struct ReaderConfig {
    pub device: DeviceId,
    pub path: DevicePath,
    pub ptt_key: Key,
    pub toggle_key: Key,
}

/// When an input event happened, as far as its clock is taken to count from its epoch.
#[derive(Clone, Copy, Debug, PartialEq, Eq, Structural)]
pub enum EventTime {
    BeforeEpoch,
    SinceEpoch { seconds: u64, nanoseconds: u32 },
}

/// An input event of a device.
#[derive(Clone, Copy, Debug, PartialEq, Eq, Structural)]
pub struct InputEvent {
    pub event_type: u16,
    pub code: u16,
    pub value: i32,
    pub time: EventTime,
}

/// Which of the configured keys are down.
#[derive(Clone, Copy, Debug, PartialEq, Eq, Structural)]
pub struct HeldKeys {
    pub ptt: bool,
    pub toggle: bool,
}

/// What an input event calls for.
#[derive(Clone, Copy, Debug, PartialEq, Eq, Structural)]
pub enum Decision {
    Emit(ControlEvent),
    BeginSynchronization,
    CompleteSynchronization,
    Ignore,
}

/// What a snapshot query calls for.
#[derive(Clone, Copy, Debug, PartialEq, Eq, Structural)]
pub enum SnapshotDecision {
    Emit(ControlEvent),
    Disconnect,
}

/// What has to be done about a device that went away.
#[derive(Clone, Copy, Debug, PartialEq, Eq, Structural)]
pub enum DisconnectStep {
    EmitLoss(ControlEvent),
    Retry,
}

/// What has to be done after a batch of events was thrown away.
#[derive(Debug)]
pub enum RawDrainStep {
    Continue,
    Complete,
    Error(IoError),
}

/// The device number of an input node.
#[derive(Clone, Copy, Debug, Hash, PartialEq, Eq, Structural)]
pub struct NodeIdentity(pub u64);

/// The input nodes that readers have taken for themselves.
#[derive(Debug)]
pub struct NodeClaims {
    pub claimed: HashSet<u64>,
}

/// Why a reader gave up.
#[derive(Clone, Copy, Debug, PartialEq, Eq, Structural)]
pub enum ReaderError {
    EventChannelClosed(DeviceId),
    EpochChannelClosed(DeviceId),
}

impl Clone for ReaderConfig {
    fn clone(&self) -> (copy: Self)
        ensures
            copy == *self,
    {
        ReaderConfig {
            device: self.device,
            path: self.path.clone(),
            ptt_key: self.ptt_key,
            toggle_key: self.toggle_key,
        }
    }
}

impl EventTime {
    /// Whether the nanoseconds make less than a second.
    pub open spec fn valid(self) -> bool {
        self matches EventTime::SinceEpoch { nanoseconds, .. } ==> nanoseconds < 1_000_000_000
    }
}

impl InputEvent {
    /// Whether the event is a synchronization event of that code.
    pub open spec fn synchronizes(self, code: u16) -> bool {
        self.event_type == EV_SYN && self.code == code
    }
}

impl NodeClaims {
    /// Nothing is claimed.
    pub fn new() -> (claims: Self)
        ensures
            claims.claimed@ == Set::<u64>::empty(),
    {
        NodeClaims { claimed: HashSet::new() }
    }

    /// Claims a node, unless it is claimed already. Says whether it is the caller's now.
    #[must_use]
    pub fn try_acquire(&mut self, identity: NodeIdentity) -> (acquired: bool)
        ensures
            final(self).claimed@ == old(self).claimed@.insert(identity.0),
            acquired <==> !old(self).claimed@.contains(identity.0),
    {
        self.claimed.insert(identity.0)
    }

    /// Gives up the claim of a node.
    pub fn release(&mut self, identity: NodeIdentity)
        ensures
            final(self).claimed@ == old(self).claimed@.remove(identity.0),
    {
        self.claimed.remove(&identity.0);
    }
}

impl Default for NodeClaims {
    fn default() -> (claims: Self)
        ensures
            claims.claimed@ == Set::<u64>::empty(),
    {
        NodeClaims::new()
    }
}

impl ReaderError {
    /// The device of the reader.
    pub open spec fn subject(self) -> DeviceId {
        match self {
            ReaderError::EventChannelClosed(device) => device,
            ReaderError::EpochChannelClosed(device) => device,
        }
    }

    /// The description of the error.
    pub open spec fn text(self) -> Seq<char> {
        match self {
            ReaderError::EventChannelClosed(device) => "event channel closed for reader "@
                + crate::text::decimal_text(device.0 as nat),
            ReaderError::EpochChannelClosed(device) => "epoch channel closed for reader "@
                + crate::text::decimal_text(device.0 as nat),
        }
    }

    /// The device of the reader.
    pub fn device(&self) -> (device: DeviceId)
        ensures
            device == self.subject(),
    {
        match self {
            ReaderError::EventChannelClosed(device) => *device,
            ReaderError::EpochChannelClosed(device) => *device,
        }
    }

    /// Describes the error.
    pub fn message(&self) -> (message: String)
        ensures
            message@ == self.text(),
    {
        match self {
            ReaderError::EventChannelClosed(device) =>
            "event channel closed for reader ".to_owned().concat(
                decimal(device.0 as u64).as_str(),
            ),
            ReaderError::EpochChannelClosed(device) =>
            "epoch channel closed for reader ".to_owned().concat(
                decimal(device.0 as u64).as_str(),
            ),
        }
    }
}

/// A set of keys as the kernel reports it.
#[verifier::external_type_specification]
#[verifier::external_body]
#[verifier::reject_recursive_types(T)]
pub struct ExAttributeSetRef<T>(evdev::AttributeSetRef<T>);

/// A key code of the `evdev` crate.
#[verifier::external_type_specification]
#[verifier::external_body]
pub struct ExKeyCode(evdev::KeyCode);

/// The codes of the keys in a set.
pub uninterp spec fn codes_in(keys: &evdev::AttributeSetRef<evdev::KeyCode>) -> Set<u16>;

/// Calls `AttributeSetRef::contains`, which tells whether a key is in the set.
#[verifier::external_body]
fn contains_code(keys: &evdev::AttributeSetRef<evdev::KeyCode>, code: u16) -> (contained: bool)
    ensures
        contained == codes_in(keys).contains(code),
{
    keys.contains(evdev::KeyCode::new(code))
}

/// Tells which of the configured keys are among those that are down.
pub fn held_keys(
    keys: &evdev::AttributeSetRef<evdev::KeyCode>,
    config: &ReaderConfig,
) -> (held: HeldKeys)
    ensures
        held == (HeldKeys {
            ptt: codes_in(keys).contains(config.ptt_key.0),
            toggle: codes_in(keys).contains(config.toggle_key.0),
        }),
{
    HeldKeys {
        ptt: contains_code(keys, config.ptt_key.0),
        toggle: contains_code(keys, config.toggle_key.0),
    }
}

/// Whether the stale events are all gone after an attempt to read a batch of them.
pub open spec fn drain_result(result: Result<usize, Fault>) -> Result<bool, Fault> {
    match result {
        Ok(count) => if count == 0 {
            Err(
                Fault {
                    kind: IoErrorKind::UnexpectedEof,
                    text: "input device returned an empty event batch"@,
                },
            )
        } else {
            Ok(false)
        },
        Err(fault) => if fault.kind == IoErrorKind::WouldBlock {
            Ok(true)
        } else {
            Err(fault)
        },
    }
}

/// A result with its failure taken by content.
pub open spec fn by_content<T>(result: Result<T, IoError>) -> Result<T, Fault> {
    match result {
        Ok(value) => Ok(value),
        Err(error) => Err(error@),
    }
}

/// Tells how to go on after an attempt to read a batch of stale events: they are all gone only once
/// reading would block.
pub fn raw_drain_step(result: Result<usize, IoError>) -> (step: RawDrainStep)
    ensures
        match drain_result(by_content(result)) {
            Ok(false) => step is Continue,
            Ok(true) => step is Complete,
            Err(fault) => step matches RawDrainStep::Error(error) && error@ == fault,
        },
{
    match result {
        Ok(0) => RawDrainStep::Error(
            IoError::new(
                IoErrorKind::UnexpectedEof,
                "input device returned an empty event batch",
            ),
        ),
        Ok(_) => RawDrainStep::Continue,
        Err(error) => if error.kind == IoErrorKind::WouldBlock {
            RawDrainStep::Complete
        } else {
            RawDrainStep::Error(error)
        },
    }
}

/// The moment that a reading of the monotonic clock gives.
pub open spec fn clock_moment(seconds: i64, nanoseconds: i64) -> Result<EventTimestamp, Fault> {
    if 0 <= nanoseconds < 1_000_000_000 {
        Ok(EventTimestamp { seconds, nanoseconds: nanoseconds as u32 })
    } else {
        Err(Fault { kind: IoErrorKind::InvalidData, text: "invalid nanosecond value"@ })
    }
}

/// The moment at which an event happened.
pub open spec fn event_moment(time: EventTime) -> Result<EventTimestamp, Fault> {
    match time {
        EventTime::BeforeEpoch => Err(
            Fault { kind: IoErrorKind::InvalidData, text: "negative input event timestamp"@ },
        ),
        EventTime::SinceEpoch { seconds, nanoseconds } => if seconds <= i64::MAX {
            Ok(EventTimestamp { seconds: seconds as i64, nanoseconds })
        } else {
            Err(Fault { kind: IoErrorKind::InvalidData, text: "input timestamp overflow"@ })
        },
    }
}

/// Reads a moment off the clock's seconds and nanoseconds.
pub fn timestamp_from_timespec(seconds: i64, nanoseconds: i64) -> (timestamp: Result<
    EventTimestamp,
    IoError,
>)
    ensures
        crate::fault::ends_as(timestamp, clock_moment(seconds, nanoseconds)),
{
    if nanoseconds < 0 || nanoseconds >= 1_000_000_000 {
        return Err(IoError::new(IoErrorKind::InvalidData, "invalid nanosecond value"));
    }
    Ok(EventTimestamp::new(seconds, nanoseconds as u32))
}

/// Reads a moment off the time of an event.
pub fn timestamp_from_system_time(time: EventTime) -> (timestamp: Result<EventTimestamp, IoError>)
    requires
        time.valid(),
    ensures
        crate::fault::ends_as(timestamp, event_moment(time)),
{
    match time {
        EventTime::BeforeEpoch => Err(
            IoError::new(IoErrorKind::InvalidData, "negative input event timestamp"),
        ),
        EventTime::SinceEpoch { seconds, nanoseconds } => {
            if seconds > i64::MAX as u64 {
                return Err(IoError::new(IoErrorKind::InvalidData, "input timestamp overflow"));
            }
            Ok(EventTimestamp::new(seconds as i64, nanoseconds))
        },
    }
}

/// Reads the moment of an event.
pub fn event_timestamp(event: &InputEvent) -> (timestamp: Result<EventTimestamp, IoError>)
    requires
        event.time.valid(),
    ensures
        crate::fault::ends_as(timestamp, event_moment(event.time)),
{
    timestamp_from_system_time(event.time)
}

/// The event that tells of a readable device and its keys.
pub fn recovered_event(device: DeviceId, held: HeldKeys) -> (event: ControlEvent)
    ensures
        event == (ControlEvent::DeviceRecovered {
            device,
            ptt_held: held.ptt,
            toggle_held: held.toggle,
        }),
{
    ControlEvent::DeviceRecovered { device, ptt_held: held.ptt, toggle_held: held.toggle }
}

/// The event that tells of lost events.
pub fn synchronization_lost_event(device: DeviceId) -> (event: ControlEvent)
    ensures
        event == ControlEvent::SynchronizationLost(device),
{
    ControlEvent::SynchronizationLost(device)
}

/// The event that tells of a lost device.
pub fn lost_event(device: DeviceId) -> (event: ControlEvent)
    ensures
        event == ControlEvent::DeviceLost(device),
{
    ControlEvent::DeviceLost(device)
}

/// The event that tells of the keys of a device during a mode transition.
pub fn snapshot_event(device: DeviceId, epoch: TransitionEpoch, held: HeldKeys) -> (event:
    ControlEvent)
    ensures
        event == (ControlEvent::KeySnapshot {
            device,
            epoch,
            ptt_held: held.ptt,
            toggle_held: held.toggle,
        }),
{
    ControlEvent::KeySnapshot { device, epoch, ptt_held: held.ptt, toggle_held: held.toggle }
}

/// What to do about a device that went away: tell of the loss, then try to open it again.
pub fn disconnect_plan(device: DeviceId) -> (plan: [DisconnectStep; 2])
    ensures
        plan@ == seq![
            DisconnectStep::EmitLoss(ControlEvent::DeviceLost(device)),
            DisconnectStep::Retry,
        ],
{
    let plan = [DisconnectStep::EmitLoss(lost_event(device)), DisconnectStep::Retry];
    assert(plan@ =~= seq![
        DisconnectStep::EmitLoss(ControlEvent::DeviceLost(device)),
        DisconnectStep::Retry,
    ]);
    plan
}

/// What to do about a snapshot query: a device whose keys cannot be queried is taken for lost.
pub fn snapshot_decision(
    config: &ReaderConfig,
    epoch: TransitionEpoch,
    held: Result<HeldKeys, ()>,
) -> (decision: SnapshotDecision)
    ensures
        decision == match held {
            Ok(held) => SnapshotDecision::Emit(
                ControlEvent::KeySnapshot {
                    device: config.device,
                    epoch,
                    ptt_held: held.ptt,
                    toggle_held: held.toggle,
                },
            ),
            Err(_) => SnapshotDecision::Disconnect,
        },
{
    match held {
        Ok(held) => SnapshotDecision::Emit(snapshot_event(config.device, epoch, held)),
        Err(()) => SnapshotDecision::Disconnect,
    }
}

impl ReaderConfig {
    pub open spec fn watches(self, key: Key) -> bool {
        key == self.ptt_key || key == self.toggle_key
    }

    /// What the press or release of a key means; where both functions are on one key, it talks.
    pub open spec fn meaning(self, key: Key, value: i32, timestamp: EventTimestamp) -> Decision {
        let device = self.device;
        if key == self.ptt_key && value == 1 {
            Decision::Emit(ControlEvent::PttDown { device, timestamp })
        } else if key == self.ptt_key && value == 0 {
            Decision::Emit(ControlEvent::PttUp { device, timestamp })
        } else if key == self.toggle_key && value == 1 {
            Decision::Emit(ControlEvent::ToggleDown { device, timestamp })
        } else if key == self.toggle_key && value == 0 {
            Decision::Emit(ControlEvent::ToggleUp { device, timestamp })
        } else {
            Decision::Ignore
        }
    }

    /// What a key event means, unless the recovery cutoff represents it already.
    pub open spec fn normalized(
        self,
        key: Key,
        value: i32,
        timestamp: EventTimestamp,
        recovery_cutoff: EventTimestamp,
    ) -> Decision {
        if recovery_cutoff.before(timestamp) {
            self.meaning(key, value, timestamp)
        } else {
            Decision::Ignore
        }
    }

    /// What an event calls for while the device is in step.
    pub open spec fn decision(
        self,
        event: InputEvent,
        recovery_cutoff: EventTimestamp,
    ) -> Result<Decision, Fault> {
        let key = Key(event.code);
        if event.synchronizes(SYN_DROPPED) {
            Ok(Decision::BeginSynchronization)
        } else if event.event_type == EV_KEY && self.watches(key) && (event.value == 0
            || event.value == 1) {
            match event_moment(event.time) {
                Ok(timestamp) => Ok(self.normalized(key, event.value, timestamp, recovery_cutoff)),
                Err(fault) => Err(fault),
            }
        } else {
            Ok(Decision::Ignore)
        }
    }
}

/// What an event calls for while lost events are waited out.
pub open spec fn synchronizing_decision(event: InputEvent) -> Decision {
    if event.synchronizes(SYN_REPORT) {
        Decision::CompleteSynchronization
    } else {
        Decision::Ignore
    }
}

/// Decides what an input event calls for.
pub fn decide(
    event: InputEvent,
    config: &ReaderConfig,
    synchronizing: bool,
    recovery_cutoff: EventTimestamp,
) -> (decision: Result<Decision, IoError>)
    requires
        event.time.valid(),
    ensures
        crate::fault::ends_as(
            decision,
            if synchronizing {
                Ok(synchronizing_decision(event))
            } else {
                config.decision(event, recovery_cutoff)
            },
        ),
{
    if synchronizing {
        return Ok(decide_synchronizing(event));
    }
    if event.event_type == EV_SYN && event.code == SYN_DROPPED {
        return Ok(Decision::BeginSynchronization);
    }
    if event.event_type != EV_KEY {
        return Ok(Decision::Ignore);
    }
    let key = Key(event.code);
    if key != config.ptt_key && key != config.toggle_key || event.value != 0 && event.value != 1 {
        return Ok(Decision::Ignore);
    }
    match event_timestamp(&event) {
        Ok(timestamp) => normalize_key(key, event.value, timestamp, config, recovery_cutoff),
        Err(error) => Err(error),
    }
}

/// Decides what a key event means. Event times are whole microseconds, so an event of the very
/// microsecond of the recovery cutoff is taken to be represented by it.
pub fn normalize_key(
    key: Key,
    value: i32,
    timestamp: EventTimestamp,
    config: &ReaderConfig,
    recovery_cutoff: EventTimestamp,
) -> (decision: Result<Decision, IoError>)
    ensures
        decision == Ok::<Decision, IoError>(
            config.normalized(key, value, timestamp, recovery_cutoff),
        ),
{
    if timestamp <= recovery_cutoff {
        return Ok(Decision::Ignore);
    }
    let device = config.device;
    let event = match (key == config.ptt_key, key == config.toggle_key, value) {
        (true, _, 1) => ControlEvent::PttDown { device, timestamp },
        (true, _, 0) => ControlEvent::PttUp { device, timestamp },
        (_, true, 1) => ControlEvent::ToggleDown { device, timestamp },
        (_, true, 0) => ControlEvent::ToggleUp { device, timestamp },
        _ => return Ok(Decision::Ignore),
    };
    Ok(Decision::Emit(event))
}

/// Decides whether an input event ends the waiting for lost events.
pub fn decide_synchronizing(event: InputEvent) -> (decision: Decision)
    ensures
        decision == synchronizing_decision(event),
{
    if event.event_type == EV_SYN && event.code == SYN_REPORT {
        Decision::CompleteSynchronization
    } else {
        Decision::Ignore
    }
}

} // verus!
