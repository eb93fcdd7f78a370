//! The push-to-talk policy: which audio state the observed key events call for.

use vstd::prelude::*;

verus! {

/// How the microphone is operated.
#[derive(Clone, Copy, Debug, PartialEq, Eq, Structural)]
pub enum Mode {
    Ptt,
    Open,
}

/// Position of an input device in the configuration.
#[derive(Clone, Copy, Debug, PartialEq, Eq, Structural)]
pub struct DeviceId(pub usize);

/// Number of a mode transition.
#[derive(Clone, Copy, Debug, PartialEq, Eq, Structural)]
pub struct TransitionEpoch(pub u64);

/// A moment on the monotonic clock.
#[derive(Clone, Copy, Debug, PartialEq, Eq, Ord, Structural)]
pub struct EventTimestamp {
    pub seconds: i64,
    pub nanoseconds: u32,
}

impl EventTimestamp {
    /// A moment, given by whole seconds and the nanoseconds past them.
    pub fn new(seconds: i64, nanoseconds: u32) -> (timestamp: Self)
        requires
            nanoseconds < 1_000_000_000,
        ensures
            timestamp == (EventTimestamp { seconds, nanoseconds }),
    {
        EventTimestamp { seconds, nanoseconds }
    }

    /// Whether this moment lies strictly before the other.
    pub open spec fn before(self, other: Self) -> bool {
        ||| self.seconds < other.seconds
        ||| self.seconds == other.seconds && self.nanoseconds < other.nanoseconds
    }
}

impl PartialOrd for EventTimestamp {
    fn partial_cmp(&self, other: &Self) -> (ordering: Option<std::cmp::Ordering>) {
        if self.seconds < other.seconds {
            Some(std::cmp::Ordering::Less)
        } else if self.seconds > other.seconds {
            Some(std::cmp::Ordering::Greater)
        } else if self.nanoseconds < other.nanoseconds {
            Some(std::cmp::Ordering::Less)
        } else if self.nanoseconds > other.nanoseconds {
            Some(std::cmp::Ordering::Greater)
        } else {
            Some(std::cmp::Ordering::Equal)
        }
    }
}

impl vstd::std_specs::cmp::PartialOrdSpecImpl for EventTimestamp {
    open spec fn obeys_partial_cmp_spec() -> bool {
        true
    }

    open spec fn partial_cmp_spec(&self, other: &Self) -> Option<std::cmp::Ordering> {
        if self.before(*other) {
            Some(std::cmp::Ordering::Less)
        } else if other.before(*self) {
            Some(std::cmp::Ordering::Greater)
        } else {
            Some(std::cmp::Ordering::Equal)
        }
    }
}

/// What the policy is told.
#[derive(Clone, Copy, Debug, PartialEq, Eq, Structural)]
pub enum ControlEvent {
    Startup,
    /// A device can be read again; the flags tell which of its keys are down at that moment.
    DeviceRecovered { device: DeviceId, ptt_held: bool, toggle_held: bool },
    DeviceLost(DeviceId),
    SynchronizationLost(DeviceId),
    PttDown { device: DeviceId, timestamp: EventTimestamp },
    PttUp { device: DeviceId, timestamp: EventTimestamp },
    ToggleDown { device: DeviceId, timestamp: EventTimestamp },
    ToggleUp { device: DeviceId, timestamp: EventTimestamp },
    BeginBarrier(TransitionEpoch),
    /// Which keys of a device were down when it learned of a mode transition.
    KeySnapshot { device: DeviceId, epoch: TransitionEpoch, ptt_held: bool, toggle_held: bool },
    CompleteBarrier(TransitionEpoch),
    Shutdown,
}

/// An audio state that the policy can call for.
#[derive(Clone, Copy, Debug, PartialEq, Eq, Structural)]
pub enum DesiredAudio {
    PttIdle,
    PttTalking,
    Open,
}

/// What else a policy outcome sets off.
#[derive(Clone, Copy, Debug, PartialEq, Eq, Structural)]
pub enum TransitionAction {
    StartTransitionBarrier,
}

/// What the policy answers to an event.
#[derive(Clone, Copy, Debug, PartialEq, Eq, Structural)]
pub struct PolicyOutcome {
    pub desired_audio: Option<DesiredAudio>,
    pub transition: Option<TransitionAction>,
}

impl PolicyOutcome {
    pub open spec fn nothing() -> Self {
        PolicyOutcome { desired_audio: None, transition: None }
    }

    pub open spec fn only_audio(desired_audio: DesiredAudio) -> Self {
        PolicyOutcome { desired_audio: Some(desired_audio), transition: None }
    }

    pub open spec fn with_barrier(desired_audio: DesiredAudio) -> Self {
        PolicyOutcome {
            desired_audio: Some(desired_audio),
            transition: Some(TransitionAction::StartTransitionBarrier),
        }
    }

    /// Calls for an audio state and nothing else.
    pub fn audio(desired_audio: DesiredAudio) -> (outcome: Self)
        ensures
            outcome == Self::only_audio(desired_audio),
    {
        PolicyOutcome { desired_audio: Some(desired_audio), transition: None }
    }

    /// Calls for an audio state and for a transition barrier.
    pub fn transition(desired_audio: DesiredAudio) -> (outcome: Self)
        ensures
            outcome == Self::with_barrier(desired_audio),
    {
        PolicyOutcome {
            desired_audio: Some(desired_audio),
            transition: Some(TransitionAction::StartTransitionBarrier),
        }
    }
}

impl Default for PolicyOutcome {
    fn default() -> (outcome: Self)
        ensures
            outcome == PolicyOutcome::nothing(),
    {
        PolicyOutcome { desired_audio: None, transition: None }
    }
}

/// What is known of one device. A release gate bars the key from acting until it is released.
#[derive(Clone, Copy, Debug, PartialEq, Eq, Structural)]
pub struct DeviceState {
    pub recovered: bool,
    pub ptt_held: bool,
    pub toggle_held: bool,
    pub ptt_release_gate: bool,
    pub toggle_release_gate: bool,
}

impl DeviceState {
    /// The state of a device of which nothing is known.
    pub open spec fn unknown() -> Self {
        DeviceState {
            recovered: false,
            ptt_held: false,
            toggle_held: false,
            ptt_release_gate: false,
            toggle_release_gate: false,
        }
    }

    /// Whether this device asks for the microphone.
    pub open spec fn valid_hold(self) -> bool {
        self.recovered && self.ptt_held && !self.ptt_release_gate
    }

    /// The state once its keys are observed all at once: what is down then has to be released
    /// before it counts.
    pub open spec fn observed(self, ptt_held: bool, toggle_held: bool) -> Self {
        DeviceState {
            ptt_held,
            toggle_held,
            ptt_release_gate: ptt_held,
            toggle_release_gate: toggle_held,
            ..self
        }
    }

    /// The state with a held push-to-talk key barred until its release.
    pub open spec fn gated(self) -> Self {
        DeviceState { ptt_release_gate: self.ptt_release_gate || self.ptt_held, ..self }
    }
}

impl Default for DeviceState {
    fn default() -> (state: Self)
        ensures
            state == DeviceState::unknown(),
    {
        DeviceState {
            recovered: false,
            ptt_held: false,
            toggle_held: false,
            ptt_release_gate: false,
            toggle_release_gate: false,
        }
    }
}

/// The mathematical state of a policy.
#[verifier::ext_equal]
pub struct PolicyView {
    pub mode: Mode,
    pub devices: Seq<DeviceState>,
    pub pending_epoch: Option<TransitionEpoch>,
    pub mode_cutoff: Option<EventTimestamp>,
    pub startup_handled: bool,
}

impl PolicyView {
    /// The state before any event.
    pub open spec fn initial(device_count: nat) -> Self {
        PolicyView {
            mode: Mode::Ptt,
            devices: Seq::new(device_count, |i: int| DeviceState::unknown()),
            pending_epoch: None,
            mode_cutoff: None,
            startup_handled: false,
        }
    }

    /// Whether the device is one of those that were configured.
    pub open spec fn knows(self, device: DeviceId) -> bool {
        device.0 < self.devices.len()
    }

    /// What is known of a configured device.
    pub open spec fn device(self, device: DeviceId) -> DeviceState {
        self.devices[device.0 as int]
    }

    /// Whether some device asks for the microphone.
    pub open spec fn has_hold(self) -> bool {
        exists|i: int| 0 <= i < self.devices.len() && (#[trigger] self.devices[i]).valid_hold()
    }

    /// The audio state that mode and keys call for.
    pub open spec fn level(self) -> DesiredAudio {
        match self.mode {
            Mode::Open => DesiredAudio::Open,
            Mode::Ptt => if self.has_hold() {
                DesiredAudio::PttTalking
            } else {
                DesiredAudio::PttIdle
            },
        }
    }

    /// Whether an event of that moment belongs to the time before the latest mode change.
    pub open spec fn pretransition(self, timestamp: EventTimestamp) -> bool {
        self.mode_cutoff matches Some(cutoff) && !cutoff.before(timestamp)
    }

    /// The state with one configured device replaced; an unknown device changes nothing.
    pub open spec fn with_device(self, device: DeviceId, state: DeviceState) -> Self {
        if self.knows(device) {
            PolicyView { devices: self.devices.update(device.0 as int, state), ..self }
        } else {
            self
        }
    }

    /// The state with every held push-to-talk key barred until its release.
    pub open spec fn gated(self) -> Self {
        PolicyView {
            devices: Seq::new(self.devices.len(), |i: int| self.devices[i].gated()),
            ..self
        }
    }

    pub open spec fn other_mode(self) -> Mode {
        match self.mode {
            Mode::Ptt => Mode::Open,
            Mode::Open => Mode::Ptt,
        }
    }

    /// Whether a push-to-talk press of that moment is a new one of a readable device.
    pub open spec fn fresh_ptt(self, device: DeviceId, timestamp: EventTimestamp) -> bool {
        &&& !self.pretransition(timestamp)
        &&& self.knows(device)
        &&& self.device(device).recovered
        &&& !self.device(device).ptt_held
    }

    /// Whether a toggle press of that moment is a new one of a readable device.
    pub open spec fn fresh_toggle(self, device: DeviceId, timestamp: EventTimestamp) -> bool {
        &&& !self.pretransition(timestamp)
        &&& self.knows(device)
        &&& self.device(device).recovered
        &&& !self.device(device).toggle_held
    }

    /// Whether a toggle press changes the mode.
    pub open spec fn toggles(self, device: DeviceId, timestamp: EventTimestamp) -> bool {
        self.fresh_toggle(device, timestamp) && !self.device(device).toggle_release_gate
    }

    /// The state after an event.
    pub open spec fn after(self, event: ControlEvent) -> Self {
        match event {
            ControlEvent::Startup => PolicyView { startup_handled: true, ..self },
            ControlEvent::DeviceRecovered { device, ptt_held, toggle_held } => self.with_device(
                device,
                DeviceState { recovered: true, ..self.device(device) }.observed(
                    ptt_held,
                    toggle_held,
                ),
            ),
            ControlEvent::DeviceLost(device) => self.with_device(device, DeviceState::unknown()),
            ControlEvent::SynchronizationLost(device) => self.with_device(
                device,
                DeviceState::unknown(),
            ),
            ControlEvent::PttDown { device, timestamp } => if self.pretransition(timestamp) {
                self.with_device(
                    device,
                    DeviceState { ptt_held: true, ptt_release_gate: true, ..self.device(device) },
                )
            } else if self.fresh_ptt(device, timestamp) {
                self.with_device(
                    device,
                    DeviceState {
                        ptt_held: true,
                        ptt_release_gate: self.device(device).ptt_release_gate
                            || self.pending_epoch is Some,
                        ..self.device(device)
                    },
                )
            } else {
                self
            },
            ControlEvent::PttUp { device, .. } => self.with_device(
                device,
                DeviceState { ptt_held: false, ptt_release_gate: false, ..self.device(device) },
            ),
            ControlEvent::ToggleDown { device, timestamp } => if self.pretransition(timestamp) {
                self.with_device(
                    device,
                    DeviceState {
                        toggle_held: true,
                        toggle_release_gate: true,
                        ..self.device(device)
                    },
                )
            } else if self.fresh_toggle(device, timestamp) {
                let pressed = self.with_device(
                    device,
                    DeviceState { toggle_held: true, ..self.device(device) },
                );
                if self.toggles(device, timestamp) {
                    PolicyView {
                        mode: self.other_mode(),
                        mode_cutoff: Some(timestamp),
                        ..pressed.gated()
                    }
                } else {
                    pressed
                }
            } else {
                self
            },
            ControlEvent::ToggleUp { device, .. } => self.with_device(
                device,
                DeviceState {
                    toggle_held: false,
                    toggle_release_gate: false,
                    ..self.device(device)
                },
            ),
            ControlEvent::BeginBarrier(epoch) => PolicyView {
                pending_epoch: Some(epoch),
                ..self.gated()
            },
            ControlEvent::KeySnapshot { device, epoch, ptt_held, toggle_held } => if
                self.pending_epoch == Some(epoch) {
                self.with_device(device, self.device(device).observed(ptt_held, toggle_held))
            } else {
                self
            },
            ControlEvent::CompleteBarrier(epoch) => if self.pending_epoch == Some(epoch) {
                PolicyView { pending_epoch: None, ..self.gated() }
            } else {
                self
            },
            ControlEvent::Shutdown => self,
        }
    }

    /// The outcome of an event that can only take a hold away.
    pub open spec fn idle_when_released(self, event: ControlEvent) -> PolicyOutcome {
        if self.mode == Mode::Ptt && self.has_hold() && !self.after(event).has_hold() {
            PolicyOutcome::only_audio(DesiredAudio::PttIdle)
        } else {
            PolicyOutcome::nothing()
        }
    }

    /// What the policy answers to an event.
    pub open spec fn outcome(self, event: ControlEvent) -> PolicyOutcome {
        match event {
            ControlEvent::Startup => if self.startup_handled {
                PolicyOutcome::nothing()
            } else {
                PolicyOutcome::only_audio(DesiredAudio::PttIdle)
            },
            ControlEvent::DeviceRecovered { .. } => self.idle_when_released(event),
            ControlEvent::DeviceLost(_) => self.idle_when_released(event),
            ControlEvent::SynchronizationLost(_) => self.idle_when_released(event),
            ControlEvent::PttDown { device, timestamp } => if {
                &&& self.fresh_ptt(device, timestamp)
                &&& self.mode == Mode::Ptt
                &&& self.pending_epoch is None
                &&& !self.device(device).ptt_release_gate
                &&& !self.has_hold()
            } {
                PolicyOutcome::only_audio(DesiredAudio::PttTalking)
            } else {
                PolicyOutcome::nothing()
            },
            ControlEvent::PttUp { timestamp, .. } => if self.pretransition(timestamp) {
                PolicyOutcome::nothing()
            } else {
                self.idle_when_released(event)
            },
            ControlEvent::ToggleDown { device, timestamp } => if self.toggles(device, timestamp) {
                PolicyOutcome::with_barrier(
                    match self.other_mode() {
                        Mode::Ptt => DesiredAudio::PttIdle,
                        Mode::Open => DesiredAudio::Open,
                    },
                )
            } else {
                PolicyOutcome::nothing()
            },
            ControlEvent::Shutdown => if self.mode == Mode::Ptt {
                PolicyOutcome::only_audio(DesiredAudio::PttIdle)
            } else {
                PolicyOutcome::nothing()
            },
            ControlEvent::ToggleUp { .. } => PolicyOutcome::nothing(),
            ControlEvent::BeginBarrier(_) => PolicyOutcome::nothing(),
            ControlEvent::KeySnapshot { .. } => PolicyOutcome::nothing(),
            ControlEvent::CompleteBarrier(_) => PolicyOutcome::nothing(),
        }
    }
}

/// Tracks modes and keys, and tells which audio state they call for.
#[derive(Debug, PartialEq, Eq)]
pub struct Policy {
    pub mode: Mode,
    pub devices: Vec<DeviceState>,
    pub pending_epoch: Option<TransitionEpoch>,
    pub mode_cutoff: Option<EventTimestamp>,
    pub startup_handled: bool,
}

impl View for Policy {
    type V = PolicyView;

    open spec fn view(&self) -> PolicyView {
        PolicyView {
            mode: self.mode,
            devices: self.devices@,
            pending_epoch: self.pending_epoch,
            mode_cutoff: self.mode_cutoff,
            startup_handled: self.startup_handled,
        }
    }
}

impl Policy {
    /// A policy in push-to-talk mode that knows nothing of its devices.
    pub fn new(device_count: usize) -> (policy: Self)
        ensures
            policy@ == PolicyView::initial(device_count as nat),
    {
        let mut devices: Vec<DeviceState> = Vec::new();
        while devices.len() < device_count
            invariant
                devices.len() <= device_count,
                forall|i: int| 0 <= i < devices.len() ==> devices[i] == DeviceState::unknown(),
            decreases device_count - devices.len(),
        {
            devices.push(DeviceState::default());
        }
        let policy = Policy {
            mode: Mode::Ptt,
            devices,
            pending_epoch: None,
            mode_cutoff: None,
            startup_handled: false,
        };
        assert(policy@ =~= PolicyView::initial(device_count as nat));
        policy
    }

    /// Takes in one event and tells what it calls for.
    pub fn handle(&mut self, event: ControlEvent) -> (outcome: PolicyOutcome)
        ensures
            final(self)@ == old(self)@.after(event),
            outcome == old(self)@.outcome(event),
    {
        match event {
            ControlEvent::Startup => {
                if self.startup_handled {
                    PolicyOutcome::default()
                } else {
                    self.startup_handled = true;
                    PolicyOutcome::audio(DesiredAudio::PttIdle)
                }
            },
            ControlEvent::DeviceRecovered { device, ptt_held, toggle_held } => self.recover(
                device,
                ptt_held,
                toggle_held,
            ),
            ControlEvent::DeviceLost(device) => self.lose(device),
            ControlEvent::SynchronizationLost(device) => self.lose(device),
            ControlEvent::PttDown { device, timestamp } => self.ptt_down(device, timestamp),
            ControlEvent::PttUp { device, timestamp } => self.ptt_up(device, timestamp),
            ControlEvent::ToggleDown { device, timestamp } => self.toggle_down(device, timestamp),
            ControlEvent::ToggleUp { device, timestamp } => self.toggle_up(device, timestamp),
            ControlEvent::BeginBarrier(epoch) => {
                self.pending_epoch = Some(epoch);
                self.gate_held_ptt();
                PolicyOutcome::default()
            },
            ControlEvent::KeySnapshot { device, epoch, ptt_held, toggle_held } => self.snapshot(
                device,
                epoch,
                ptt_held,
                toggle_held,
            ),
            ControlEvent::CompleteBarrier(epoch) => {
                if self.is_pending(epoch) {
                    self.gate_held_ptt();
                    self.pending_epoch = None;
                }
                PolicyOutcome::default()
            },
            ControlEvent::Shutdown => {
                if self.mode == Mode::Ptt {
                    PolicyOutcome::audio(DesiredAudio::PttIdle)
                } else {
                    PolicyOutcome::default()
                }
            },
        }
    }

    /// A device can be read, with those keys down.
    pub fn recover(&mut self, device: DeviceId, ptt_held: bool, toggle_held: bool) -> (outcome:
        PolicyOutcome)
        ensures
            final(self)@ == old(self)@.after(
                ControlEvent::DeviceRecovered { device, ptt_held, toggle_held },
            ),
            outcome == old(self)@.outcome(
                ControlEvent::DeviceRecovered { device, ptt_held, toggle_held },
            ),
    {
        let had_valid_hold = self.has_valid_hold();
        match self.device(device) {
            None => PolicyOutcome::default(),
            Some(_) => {
                self.devices[device.0] = DeviceState {
                    recovered: true,
                    ptt_held,
                    toggle_held,
                    ptt_release_gate: ptt_held,
                    toggle_release_gate: toggle_held,
                };
                self.idle_if_final_hold_removed(had_valid_hold)
            },
        }
    }

    /// A device, or its synchronization, is lost.
    pub fn lose(&mut self, device: DeviceId) -> (outcome: PolicyOutcome)
        ensures
            final(self)@ == old(self)@.after(ControlEvent::DeviceLost(device)),
            outcome == old(self)@.outcome(ControlEvent::DeviceLost(device)),
    {
        let had_valid_hold = self.has_valid_hold();
        match self.device(device) {
            None => PolicyOutcome::default(),
            Some(_) => {
                self.devices[device.0] = DeviceState::default();
                self.idle_if_final_hold_removed(had_valid_hold)
            },
        }
    }

    /// The push-to-talk key is pressed.
    pub fn ptt_down(&mut self, device: DeviceId, timestamp: EventTimestamp) -> (outcome: PolicyOutcome)
        ensures
            final(self)@ == old(self)@.after(ControlEvent::PttDown { device, timestamp }),
            outcome == old(self)@.outcome(ControlEvent::PttDown { device, timestamp }),
    {
        if self.is_pretransition(timestamp) {
            return self.apply_old_edge(device, true, true);
        }
        let had_valid_hold = self.has_valid_hold();
        let barrier_pending = self.pending_epoch.is_some();
        match self.device(device) {
            None => PolicyOutcome::default(),
            Some(state) => {
                if !state.recovered || state.ptt_held {
                    return PolicyOutcome::default();
                }
                if barrier_pending {
                    self.devices[device.0] = DeviceState {
                        ptt_held: true,
                        ptt_release_gate: true,
                        ..state
                    };
                    return PolicyOutcome::default();
                }
                self.devices[device.0] = DeviceState { ptt_held: true, ..state };
                if self.mode == Mode::Ptt && !state.ptt_release_gate && !had_valid_hold {
                    PolicyOutcome::audio(DesiredAudio::PttTalking)
                } else {
                    PolicyOutcome::default()
                }
            },
        }
    }

    /// The push-to-talk key is released.
    pub fn ptt_up(&mut self, device: DeviceId, timestamp: EventTimestamp) -> (outcome: PolicyOutcome)
        ensures
            final(self)@ == old(self)@.after(ControlEvent::PttUp { device, timestamp }),
            outcome == old(self)@.outcome(ControlEvent::PttUp { device, timestamp }),
    {
        if self.is_pretransition(timestamp) {
            return self.apply_old_edge(device, true, false);
        }
        let had_valid_hold = self.has_valid_hold();
        match self.device(device) {
            None => PolicyOutcome::default(),
            Some(state) => {
                self.devices[device.0] = DeviceState {
                    ptt_held: false,
                    ptt_release_gate: false,
                    ..state
                };
                self.idle_if_final_hold_removed(had_valid_hold)
            },
        }
    }

    /// The toggle key is pressed.
    pub fn toggle_down(&mut self, device: DeviceId, timestamp: EventTimestamp) -> (outcome:
        PolicyOutcome)
        ensures
            final(self)@ == old(self)@.after(ControlEvent::ToggleDown { device, timestamp }),
            outcome == old(self)@.outcome(ControlEvent::ToggleDown { device, timestamp }),
    {
        if self.is_pretransition(timestamp) {
            return self.apply_old_edge(device, false, true);
        }
        match self.device(device) {
            None => PolicyOutcome::default(),
            Some(state) => {
                if !state.recovered || state.toggle_held {
                    return PolicyOutcome::default();
                }
                self.devices[device.0] = DeviceState { toggle_held: true, ..state };
                if state.toggle_release_gate {
                    return PolicyOutcome::default();
                }
                self.mode =
                match self.mode {
                    Mode::Ptt => Mode::Open,
                    Mode::Open => Mode::Ptt,
                };
                self.mode_cutoff = Some(timestamp);
                self.gate_held_ptt();
                let desired = match self.mode {
                    Mode::Ptt => DesiredAudio::PttIdle,
                    Mode::Open => DesiredAudio::Open,
                };
                PolicyOutcome::transition(desired)
            },
        }
    }

    /// The toggle key is released.
    pub fn toggle_up(&mut self, device: DeviceId, timestamp: EventTimestamp) -> (outcome: PolicyOutcome)
        ensures
            final(self)@ == old(self)@.after(ControlEvent::ToggleUp { device, timestamp }),
            outcome == old(self)@.outcome(ControlEvent::ToggleUp { device, timestamp }),
    {
        if self.is_pretransition(timestamp) {
            return self.apply_old_edge(device, false, false);
        }
        match self.device(device) {
            None => {},
            Some(state) => {
                self.devices[device.0] = DeviceState {
                    toggle_held: false,
                    toggle_release_gate: false,
                    ..state
                };
            },
        }
        PolicyOutcome::default()
    }

    /// A device tells which keys are down during a mode transition.
    pub fn snapshot(
        &mut self,
        device: DeviceId,
        epoch: TransitionEpoch,
        ptt_held: bool,
        toggle_held: bool,
    ) -> (outcome: PolicyOutcome)
        ensures
            final(self)@ == old(self)@.after(
                ControlEvent::KeySnapshot { device, epoch, ptt_held, toggle_held },
            ),
            outcome == PolicyOutcome::nothing(),
    {
        if !self.is_pending(epoch) {
            return PolicyOutcome::default();
        }
        match self.device(device) {
            None => {},
            Some(state) => {
                self.devices[device.0] = DeviceState {
                    recovered: state.recovered,
                    ptt_held,
                    toggle_held,
                    ptt_release_gate: ptt_held,
                    toggle_release_gate: toggle_held,
                };
            },
        }
        PolicyOutcome::default()
    }

    /// Records a key edge that belongs to the time before the latest mode change.
    fn apply_old_edge(&mut self, device: DeviceId, ptt: bool, down: bool) -> (outcome:
        PolicyOutcome)
        ensures
            final(self)@ == old(self)@.with_device(
                device,
                if ptt {
                    DeviceState {
                        ptt_held: down,
                        ptt_release_gate: down,
                        ..old(self)@.device(device)
                    }
                } else {
                    DeviceState {
                        toggle_held: down,
                        toggle_release_gate: down,
                        ..old(self)@.device(device)
                    }
                },
            ),
            outcome == PolicyOutcome::nothing(),
    {
        match self.device(device) {
            None => {},
            Some(state) => {
                self.devices[device.0] = match (ptt, down) {
                    (true, true) => DeviceState { ptt_held: true, ptt_release_gate: true, ..state },
                    (true, false) => DeviceState {
                        ptt_held: false,
                        ptt_release_gate: false,
                        ..state
                    },
                    (false, true) => DeviceState {
                        toggle_held: true,
                        toggle_release_gate: true,
                        ..state
                    },
                    (false, false) => DeviceState {
                        toggle_held: false,
                        toggle_release_gate: false,
                        ..state
                    },
                };
            },
        }
        PolicyOutcome::default()
    }

    fn is_pretransition(&self, timestamp: EventTimestamp) -> (pretransition: bool)
        ensures
            pretransition == self@.pretransition(timestamp),
    {
        match self.mode_cutoff {
            Some(cutoff) => timestamp <= cutoff,
            None => false,
        }
    }

    fn is_pending(&self, epoch: TransitionEpoch) -> (pending: bool)
        ensures
            pending == (self.pending_epoch == Some(epoch)),
    {
        match self.pending_epoch {
            Some(pending) => pending == epoch,
            None => false,
        }
    }

    fn idle_if_final_hold_removed(&self, had_valid_hold: bool) -> (outcome: PolicyOutcome)
        ensures
            outcome == if self.mode == Mode::Ptt && had_valid_hold && !self@.has_hold() {
                PolicyOutcome::only_audio(DesiredAudio::PttIdle)
            } else {
                PolicyOutcome::nothing()
            },
    {
        if self.mode == Mode::Ptt && had_valid_hold && !self.has_valid_hold() {
            PolicyOutcome::audio(DesiredAudio::PttIdle)
        } else {
            PolicyOutcome::default()
        }
    }

    fn has_valid_hold(&self) -> (held: bool)
        ensures
            held == self@.has_hold(),
    {
        let mut index: usize = 0;
        while index < self.devices.len()
            invariant
                index <= self.devices.len(),
                forall|i: int| 0 <= i < index ==> !(#[trigger] self.devices[i]).valid_hold(),
            decreases self.devices.len() - index,
        {
            let device = self.devices[index];
            if device.recovered && device.ptt_held && !device.ptt_release_gate {
                assert(self@.devices[index as int].valid_hold());
                return true;
            }
            index += 1;
        }
        false
    }

    /// Bars every held push-to-talk key until it is released.
    fn gate_held_ptt(&mut self)
        ensures
            final(self)@ == old(self)@.gated(),
    {
        let mut index: usize = 0;
        while index < self.devices.len()
            invariant
                index <= self.devices.len(),
                self.devices.len() == old(self).devices.len(),
                self.mode == old(self).mode,
                self.pending_epoch == old(self).pending_epoch,
                self.mode_cutoff == old(self).mode_cutoff,
                self.startup_handled == old(self).startup_handled,
                forall|i: int| 0 <= i < index ==> self.devices[i] == old(self).devices[i].gated(),
                forall|i: int|
                    index <= i < self.devices.len() ==> self.devices[i] == old(self).devices[i],
            decreases self.devices.len() - index,
        {
            let device = self.devices[index];
            if device.ptt_held {
                self.devices[index] = DeviceState { ptt_release_gate: true, ..device };
            }
            index += 1;
        }
        assert(self@ =~= old(self)@.gated());
    }

    fn device(&self, device: DeviceId) -> (state: Option<DeviceState>)
        ensures
            state == if self@.knows(device) {
                Some(self@.device(device))
            } else {
                None
            },
    {
        if device.0 < self.devices.len() {
            Some(self.devices[device.0])
        } else {
            None
        }
    }
}

} // verus!
