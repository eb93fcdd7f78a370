//! What holds of the push-to-talk policy over any run of events.

use vstd::prelude::*;

use crate::state::{
    ControlEvent, DesiredAudio, DeviceId, DeviceState, EventTimestamp, Mode, PolicyOutcome,
    PolicyView, TransitionAction, TransitionEpoch,
};

verus! {

impl PolicyView {
    /// No hold counts while a transition barrier is pending.
    pub open spec fn settled(self) -> bool {
        self.pending_epoch is Some ==> !self.has_hold()
    }

    /// The state after a run of events, in order.
    pub open spec fn after_all(self, events: Seq<ControlEvent>) -> Self
        decreases events.len(),
    {
        if events.len() == 0 {
            self
        } else {
            self.after_all(events.drop_last()).after(events.last())
        }
    }

    /// The audio state last asked for in a run of events that began with `asked`.
    pub open spec fn last_asked(
        self,
        asked: DesiredAudio,
        events: Seq<ControlEvent>,
    ) -> DesiredAudio
        decreases events.len(),
    {
        if events.len() == 0 {
            asked
        } else {
            match self.after_all(events.drop_last()).outcome(events.last()).desired_audio {
                Some(audio) => audio,
                None => self.last_asked(asked, events.drop_last()),
            }
        }
    }

    /// Whether the event leaves the audio state to mode and keys: neither a first startup nor a
    /// shutdown in push-to-talk mode, and no barrier or edge from before the latest mode change
    /// that takes the last hold away.
    pub open spec fn regular(self, event: ControlEvent) -> bool {
        match event {
            ControlEvent::Startup => self.startup_handled,
            ControlEvent::Shutdown => self.mode == Mode::Open,
            ControlEvent::BeginBarrier(_) => self.level() != DesiredAudio::PttTalking,
            ControlEvent::PttDown { timestamp, .. } => self.keeps_hold(event, timestamp),
            ControlEvent::PttUp { timestamp, .. } => self.keeps_hold(event, timestamp),
            _ => true,
        }
    }

    /// Whether the event keeps the audio state last asked for the one that mode and keys call for:
    /// a regular one does, and so does a startup or shutdown while idle is called for.
    pub open spec fn keeps_current(self, event: ControlEvent) -> bool {
        ||| self.regular(event)
        ||| (event is Startup || event is Shutdown) && self.level() == DesiredAudio::PttIdle
    }

    /// Whether only keys that are down are barred.
    pub open spec fn bars_held_keys(self) -> bool {
        forall|i: int|
            0 <= i < self.devices.len() ==> {
                let device = #[trigger] self.devices[i];
                &&& device.ptt_release_gate ==> device.ptt_held
                &&& device.toggle_release_gate ==> device.toggle_held
            }
    }

    pub open spec fn keeps_hold(self, event: ControlEvent, timestamp: EventTimestamp) -> bool {
        self.pretransition(timestamp) && self.level() == DesiredAudio::PttTalking ==> self.after(
            event,
        ).has_hold()
    }

    /// Whether the push-to-talk key of a device is down and barred until its release.
    pub open spec fn barred(self, device: DeviceId) -> bool {
        &&& self.knows(device)
        &&& self.device(device).ptt_held
        &&& self.device(device).ptt_release_gate
    }
}

/// Whether the event reports a push-to-talk release of the device, or observes the device anew.
pub open spec fn unbars(event: ControlEvent, device: DeviceId) -> bool {
    match event {
        ControlEvent::PttUp { device: d, .. } => d == device,
        ControlEvent::DeviceRecovered { device: d, .. } => d == device,
        ControlEvent::DeviceLost(d) => d == device,
        ControlEvent::SynchronizationLost(d) => d == device,
        ControlEvent::KeySnapshot { device: d, .. } => d == device,
        _ => false,
    }
}

/// The device that an event is about.
pub open spec fn subject(event: ControlEvent) -> Option<DeviceId> {
    match event {
        ControlEvent::DeviceRecovered { device, .. } => Some(device),
        ControlEvent::DeviceLost(device) => Some(device),
        ControlEvent::SynchronizationLost(device) => Some(device),
        ControlEvent::PttDown { device, .. } => Some(device),
        ControlEvent::PttUp { device, .. } => Some(device),
        ControlEvent::ToggleDown { device, .. } => Some(device),
        ControlEvent::ToggleUp { device, .. } => Some(device),
        ControlEvent::KeySnapshot { device, .. } => Some(device),
        _ => None,
    }
}

/// A state in which only `device` may differ has a hold if that device holds or another one did.
proof fn lemma_hold_after_update(policy: PolicyView, device: DeviceId, state: DeviceState)
    requires
        policy.knows(device),
    ensures
        state.valid_hold() ==> policy.with_device(device, state).has_hold(),
        !state.valid_hold() && !policy.has_hold() ==> !policy.with_device(device, state).has_hold(),
        !policy.device(device).valid_hold() && policy.has_hold() ==> policy.with_device(
            device,
            state,
        ).has_hold(),
        state.valid_hold() == policy.device(device).valid_hold() ==> policy.with_device(
            device,
            state,
        ).has_hold() == policy.has_hold(),
{
    let next = policy.with_device(device, state);
    let index = device.0 as int;
    if state.valid_hold() {
        assert(next.devices[index].valid_hold());
    }
    if policy.has_hold() {
        let i = choose|i: int|
            0 <= i < policy.devices.len() && (#[trigger] policy.devices[i]).valid_hold();
        if i != index {
            assert(next.devices[i].valid_hold());
        }
    }
    if next.has_hold() {
        let i = choose|i: int|
            0 <= i < next.devices.len() && (#[trigger] next.devices[i]).valid_hold();
        if i != index {
            assert(policy.devices[i].valid_hold());
        } else if policy.device(device).valid_hold() {
            assert(policy.devices[index].valid_hold());
        }
    }
}

proof fn lemma_gated_has_no_hold(policy: PolicyView)
    ensures
        !policy.gated().has_hold(),
{
    let next = policy.gated();
    if next.has_hold() {
        let i = choose|i: int|
            0 <= i < next.devices.len() && (#[trigger] next.devices[i]).valid_hold();
        assert(next.devices[i] == policy.devices[i].gated());
    }
}

/// How one event bears on the holds.
proof fn lemma_hold_step(policy: PolicyView, event: ControlEvent)
    requires
        policy.settled(),
    ensures
        policy.after(event).settled(),
        event is ToggleDown && policy.toggles(event->ToggleDown_device, event->ToggleDown_timestamp)
            ==> !policy.after(event).has_hold(),
        event is PttDown && policy.outcome(event).desired_audio is Some ==> policy.after(
            event,
        ).has_hold(),
        !policy.has_hold() && policy.after(event).has_hold() ==> event is PttDown,
{
    match event {
        ControlEvent::DeviceRecovered { device, ptt_held, toggle_held } => {
            if policy.knows(device) {
                lemma_hold_after_update(
                    policy,
                    device,
                    DeviceState { recovered: true, ..policy.device(device) }.observed(
                        ptt_held,
                        toggle_held,
                    ),
                );
            }
        },
        ControlEvent::DeviceLost(device) => {
            if policy.knows(device) {
                lemma_hold_after_update(policy, device, DeviceState::unknown());
            }
        },
        ControlEvent::SynchronizationLost(device) => {
            if policy.knows(device) {
                lemma_hold_after_update(policy, device, DeviceState::unknown());
            }
        },
        ControlEvent::PttDown { device, timestamp } => {
            if policy.knows(device) {
                lemma_hold_after_update(policy, device, policy.after(event).device(device));
            }
        },
        ControlEvent::PttUp { device, .. } => {
            if policy.knows(device) {
                lemma_hold_after_update(
                    policy,
                    device,
                    DeviceState {
                        ptt_held: false,
                        ptt_release_gate: false,
                        ..policy.device(device)
                    },
                );
            }
        },
        ControlEvent::ToggleDown { device, timestamp } => {
            if policy.knows(device) {
                let pressed = if policy.pretransition(timestamp) {
                    DeviceState {
                        toggle_held: true,
                        toggle_release_gate: true,
                        ..policy.device(device)
                    }
                } else {
                    DeviceState { toggle_held: true, ..policy.device(device) }
                };
                lemma_hold_after_update(policy, device, pressed);
                lemma_gated_has_no_hold(policy.with_device(device, pressed));
                let gated = policy.with_device(device, pressed).gated();
                if policy.toggles(device, timestamp) {
                    assert(policy.after(event).devices == gated.devices);
                    assert(policy.after(event).has_hold() == gated.has_hold());
                }
            }
        },
        ControlEvent::ToggleUp { device, .. } => {
            if policy.knows(device) {
                lemma_hold_after_update(
                    policy,
                    device,
                    DeviceState {
                        toggle_held: false,
                        toggle_release_gate: false,
                        ..policy.device(device)
                    },
                );
            }
        },
        ControlEvent::BeginBarrier(_) => {
            lemma_gated_has_no_hold(policy);
            assert(policy.after(event).has_hold() == policy.gated().has_hold());
        },
        ControlEvent::KeySnapshot { device, ptt_held, toggle_held, .. } => {
            if policy.knows(device) {
                lemma_hold_after_update(
                    policy,
                    device,
                    policy.device(device).observed(ptt_held, toggle_held),
                );
            }
        },
        ControlEvent::CompleteBarrier(_) => {
            lemma_gated_has_no_hold(policy);
            assert(policy.after(event).has_hold() ==> policy.gated().has_hold()
                || policy.after(event) == policy);
        },
        ControlEvent::Startup => {
            assert(policy.after(event).devices == policy.devices);
            assert(forall|i: int| #[trigger]
                policy.after(event).devices[i].valid_hold() == policy.devices[i].valid_hold());
            assert(policy.after(event).has_hold() == policy.has_hold());
        },
        ControlEvent::Shutdown => {},
    }
}

/// Beginning or completing a barrier takes every hold away, or, where another epoch than the
/// pending one is completed, changes nothing.
pub proof fn law_barriers_take_holds_away(policy: PolicyView, epoch: TransitionEpoch)
    ensures
        !policy.after(ControlEvent::BeginBarrier(epoch)).has_hold(),
        policy.after(ControlEvent::CompleteBarrier(epoch)) == policy || !policy.after(
            ControlEvent::CompleteBarrier(epoch),
        ).has_hold(),
{
    lemma_gated_has_no_hold(policy);
    let begun = policy.after(ControlEvent::BeginBarrier(epoch));
    assert(begun.has_hold() == policy.gated().has_hold());
    let complete = policy.after(ControlEvent::CompleteBarrier(epoch));
    if policy.pending_epoch == Some(epoch) {
        assert(complete.has_hold() == policy.gated().has_hold());
    }
}

/// Every event keeps it so that no hold counts while a transition barrier is pending.
pub proof fn law_events_keep_it_settled(policy: PolicyView, event: ControlEvent)
    requires
        policy.settled(),
    ensures
        policy.after(event).settled(),
{
    lemma_hold_step(policy, event);
}

/// No hold counts while a transition barrier is pending, whatever happened before.
pub proof fn law_no_hold_during_a_barrier(device_count: nat, events: Seq<ControlEvent>)
    ensures
        PolicyView::initial(device_count).after_all(events).settled(),
    decreases events.len(),
{
    if events.len() > 0 {
        law_no_hold_during_a_barrier(device_count, events.drop_last());
        lemma_hold_step(
            PolicyView::initial(device_count).after_all(events.drop_last()),
            events.last(),
        );
    }
}

/// An event asks for an audio state exactly when it changes what mode and keys call for, and then
/// for that state.
pub proof fn law_audio_follows_the_keys(policy: PolicyView, event: ControlEvent)
    requires
        policy.settled(),
        policy.regular(event),
    ensures
        policy.outcome(event).desired_audio == if policy.after(event).level() != policy.level() {
            Some(policy.after(event).level())
        } else {
            None
        },
{
    lemma_hold_step(policy, event);
    match event {
        ControlEvent::PttDown { device, timestamp } => {
            if policy.knows(device) {
                lemma_hold_after_update(policy, device, policy.after(event).device(device));
            }
        },
        ControlEvent::ToggleDown { device, timestamp } => {
            if policy.knows(device) && !policy.toggles(device, timestamp) {
                lemma_hold_after_update(policy, device, policy.after(event).device(device));
                assert(policy.after(event) =~= policy.with_device(
                    device,
                    policy.after(event).device(device),
                ));
            }
        },
        ControlEvent::ToggleUp { device, .. } => {
            if policy.knows(device) {
                lemma_hold_after_update(policy, device, policy.after(event).device(device));
            }
        },
        ControlEvent::KeySnapshot { device, epoch, ptt_held, toggle_held } => {},
        ControlEvent::CompleteBarrier(_) => {},
        _ => {},
    }
}

/// The events that keep the audio state last asked for current are exactly those that either ask
/// for what mode and keys call for after them, or ask for nothing while nothing else is called for.
pub proof fn law_requests_stay_current(policy: PolicyView, event: ControlEvent)
    requires
        policy.settled(),
    ensures
        policy.keeps_current(event) <==> match policy.outcome(event).desired_audio {
            Some(audio) => audio == policy.after(event).level(),
            None => policy.after(event).level() == policy.level(),
        },
{
    lemma_hold_step(policy, event);
    if policy.regular(event) {
        law_audio_follows_the_keys(policy, event);
    } else if event is BeginBarrier {
        law_barriers_take_holds_away(policy, event->BeginBarrier_0);
    } else if event is Startup || event is Shutdown {
        assert(policy.after(event).devices == policy.devices);
        assert(forall|i: int|
            #[trigger] policy.after(event).devices[i].valid_hold()
                == policy.devices[i].valid_hold());
        assert(policy.after(event).has_hold() == policy.has_hold());
    }
}

/// Along a run of events that keep it current, the audio state last asked for is at every point the
/// one that mode and keys call for.
pub proof fn law_last_request_is_current(
    policy: PolicyView,
    asked: DesiredAudio,
    events: Seq<ControlEvent>,
)
    requires
        policy.settled(),
        asked == policy.level(),
        forall|i: int|
            #![trigger events[i]]
            0 <= i < events.len() ==> policy.after_all(events.take(i)).keeps_current(events[i]),
    ensures
        policy.after_all(events).settled(),
        policy.last_asked(asked, events) == policy.after_all(events).level(),
    decreases events.len(),
{
    if events.len() > 0 {
        let earlier = events.drop_last();
        assert forall|i: int| #![trigger earlier[i]] 0 <= i < earlier.len() implies policy.after_all(
            earlier.take(i),
        ).keeps_current(earlier[i]) by {
            assert(earlier.take(i) =~= events.take(i));
            assert(events[i] == earlier[i]);
        }
        law_last_request_is_current(policy, asked, earlier);
        assert(events.take(events.len() - 1) =~= earlier);
        assert(events[events.len() - 1] == events.last());
        lemma_hold_step(policy.after_all(earlier), events.last());
        law_requests_stay_current(policy.after_all(earlier), events.last());
    }
}

/// Only a fresh press of an unbarred push-to-talk key on a readable device, after the latest mode
/// change, outside a barrier and with no other hold, opens the microphone in push-to-talk mode.
pub proof fn law_only_a_fresh_press_talks(policy: PolicyView, event: ControlEvent)
    requires
        policy.outcome(event).desired_audio == Some(DesiredAudio::PttTalking),
    ensures
        event matches ControlEvent::PttDown { device, timestamp } && {
            &&& policy.mode == Mode::Ptt
            &&& policy.knows(device)
            &&& policy.device(device).recovered
            &&& !policy.device(device).ptt_held
            &&& !policy.device(device).ptt_release_gate
            &&& policy.pending_epoch is None
            &&& !policy.pretransition(timestamp)
            &&& !policy.has_hold()
            &&& policy.after(event).device(device).valid_hold()
        },
{
}

/// The release or the loss of the last hold mutes.
pub proof fn law_losing_the_last_hold_idles(
    policy: PolicyView,
    device: DeviceId,
    event: ControlEvent,
)
    requires
        policy.mode == Mode::Ptt,
        policy.knows(device),
        policy.device(device).valid_hold(),
        forall|i: int|
            0 <= i < policy.devices.len() && i != device.0
                ==> !(#[trigger] policy.devices[i]).valid_hold(),
        event == ControlEvent::DeviceLost(device) || event == ControlEvent::SynchronizationLost(
            device,
        ) || (event matches ControlEvent::PttUp { device: released, timestamp } && released
            == device && !policy.pretransition(timestamp)),
    ensures
        policy.outcome(event) == PolicyOutcome::only_audio(DesiredAudio::PttIdle),
        policy.after(event).level() == DesiredAudio::PttIdle,
{
    assert(policy.devices[device.0 as int].valid_hold());
    let next = policy.after(event);
    if next.has_hold() {
        let i = choose|i: int|
            0 <= i < next.devices.len() && (#[trigger] next.devices[i]).valid_hold();
        assert(i != device.0);
        assert(next.devices[i] == policy.devices[i]);
    }
}

/// A push-to-talk key that is down and barred stays so, and asks for nothing, until the device
/// reports its release or is observed anew.
pub proof fn law_barred_key_needs_release(
    policy: PolicyView,
    device: DeviceId,
    events: Seq<ControlEvent>,
)
    requires
        policy.barred(device),
        forall|i: int| 0 <= i < events.len() ==> !unbars(#[trigger] events[i], device),
    ensures
        policy.after_all(events).barred(device),
        forall|timestamp: EventTimestamp|
            #[trigger] policy.after_all(events).outcome(
                ControlEvent::PttDown { device, timestamp },
            ) == PolicyOutcome::nothing(),
    decreases events.len(),
{
    if events.len() > 0 {
        let earlier = events.drop_last();
        assert forall|i: int| 0 <= i < earlier.len() implies !unbars(
            #[trigger] earlier[i],
            device,
        ) by {
            assert(earlier[i] == events[i]);
        }
        law_barred_key_needs_release(policy, device, earlier);
        assert(events[events.len() - 1] == events.last());
    }
}

/// A device that recovers with its push-to-talk key down has that key barred, and so has every
/// device whose key is down when a barrier begins or the mode changes.
pub proof fn law_keys_found_down_are_barred(policy: PolicyView, device: DeviceId)
    requires
        policy.knows(device),
    ensures
        forall|toggle_held: bool|
            (#[trigger] policy.after(
                ControlEvent::DeviceRecovered { device, ptt_held: true, toggle_held },
            )).barred(device),
        policy.device(device).ptt_held ==> forall|epoch: TransitionEpoch|
            (#[trigger] policy.after(ControlEvent::BeginBarrier(epoch))).barred(device),
        policy.device(device).ptt_held ==> forall|by: DeviceId, timestamp: EventTimestamp|
            policy.toggles(by, timestamp) ==> (#[trigger] policy.after(
                ControlEvent::ToggleDown { device: by, timestamp },
            )).barred(device),
{
}

/// A device that is not configured changes nothing and asks for nothing.
pub proof fn law_unknown_devices_are_ignored(policy: PolicyView, event: ControlEvent)
    requires
        subject(event) matches Some(device) && !policy.knows(device),
    ensures
        policy.after(event) == policy,
        policy.outcome(event) == PolicyOutcome::nothing(),
{
}

/// Key edges of the time up to the latest mode change neither ask for anything nor change the mode.
pub proof fn law_old_edges_are_inert(
    policy: PolicyView,
    device: DeviceId,
    timestamp: EventTimestamp,
)
    requires
        policy.pretransition(timestamp),
    ensures
        forall|event: ControlEvent|
            #![trigger policy.after(event)]
            event == (ControlEvent::PttDown { device, timestamp })
                || event == (ControlEvent::PttUp { device, timestamp })
                || event == (ControlEvent::ToggleDown { device, timestamp })
                || event == (ControlEvent::ToggleUp { device, timestamp }) ==> {
                &&& policy.outcome(event) == PolicyOutcome::nothing()
                &&& policy.after(event).mode == policy.mode
                &&& policy.after(event).mode_cutoff == policy.mode_cutoff
            },
{
}

/// The mode changes only by a toggle press that is answered by a barrier, and the answer names the
/// audio state of the new mode.
pub proof fn law_only_a_toggle_changes_the_mode(policy: PolicyView, event: ControlEvent)
    ensures
        policy.after(event).mode != policy.mode <==> policy.outcome(event).transition is Some,
        policy.outcome(event).transition is Some ==> {
            &&& event is ToggleDown
            &&& policy.after(event).mode == policy.other_mode()
            &&& policy.outcome(event).desired_audio == Some(policy.after(event).level())
            &&& !policy.after(event).has_hold()
            &&& policy.after(event).mode_cutoff == Some(event->ToggleDown_timestamp)
        },
{
    if let ControlEvent::ToggleDown { device, timestamp } = event {
        if policy.toggles(device, timestamp) {
            let pressed = policy.with_device(
                device,
                DeviceState { toggle_held: true, ..policy.device(device) },
            );
            lemma_gated_has_no_hold(pressed);
            assert(policy.after(event).has_hold() == pressed.gated().has_hold());
        }
    }
}

/// In open mode nothing but a toggle, or the first startup, asks for an audio state; a shutdown
/// leaves the microphone open.
pub proof fn law_open_mode_is_quiet(policy: PolicyView, event: ControlEvent)
    requires
        policy.mode == Mode::Open,
        policy.outcome(event).desired_audio is Some,
    ensures
        event is Startup || policy.outcome(event) == PolicyOutcome::with_barrier(
            DesiredAudio::PttIdle,
        ),
{
}

/// The first startup asks for a muted microphone, and no later one asks for anything.
pub proof fn law_startup_idles_once(device_count: nat, events: Seq<ControlEvent>)
    ensures
        PolicyView::initial(device_count).outcome(ControlEvent::Startup)
            == PolicyOutcome::only_audio(DesiredAudio::PttIdle),
        events.contains(ControlEvent::Startup) ==> PolicyView::initial(device_count).after_all(
            events,
        ).outcome(ControlEvent::Startup) == PolicyOutcome::nothing(),
    decreases events.len(),
{
    if events.contains(ControlEvent::Startup) {
        let i = choose|i: int| 0 <= i < events.len() && events[i] == ControlEvent::Startup;
        if i < events.len() - 1 {
            assert(events.drop_last()[i] == ControlEvent::Startup);
            law_startup_idles_once(device_count, events.drop_last());
        } else {
            assert(events.last() == ControlEvent::Startup);
        }
    }
}

/// Snapshots and completions of another epoch than the pending one change nothing, and a snapshot
/// or completion of the pending one asks for nothing.
pub proof fn law_barrier_events_never_ask(
    policy: PolicyView,
    device: DeviceId,
    epoch: TransitionEpoch,
    ptt_held: bool,
    toggle_held: bool,
)
    ensures
        policy.outcome(ControlEvent::KeySnapshot { device, epoch, ptt_held, toggle_held })
            == PolicyOutcome::nothing(),
        policy.outcome(ControlEvent::CompleteBarrier(epoch)) == PolicyOutcome::nothing(),
        policy.pending_epoch != Some(epoch) ==> {
            &&& policy.after(ControlEvent::KeySnapshot { device, epoch, ptt_held, toggle_held })
                == policy
            &&& policy.after(ControlEvent::CompleteBarrier(epoch)) == policy
        },
        policy.pending_epoch == Some(epoch) ==> policy.after(
            ControlEvent::CompleteBarrier(epoch),
        ).pending_epoch is None,
{
}

/// A push-to-talk press of a key that is down already, after the latest mode change, changes nothing
/// and asks for nothing.
pub proof fn law_press_of_a_held_key_is_inert(
    policy: PolicyView,
    device: DeviceId,
    timestamp: EventTimestamp,
)
    requires
        policy.device(device).ptt_held,
        !policy.pretransition(timestamp),
    ensures
        policy.after(ControlEvent::PttDown { device, timestamp }) == policy,
        policy.outcome(ControlEvent::PttDown { device, timestamp }) == PolicyOutcome::nothing(),
{
}

/// A push-to-talk press that is reported again changes nothing and asks for nothing, unless the
/// repetition alone is of the time up to the latest mode change.
pub proof fn law_repeated_press_is_inert(
    policy: PolicyView,
    device: DeviceId,
    pressed_at: EventTimestamp,
    repeated_at: EventTimestamp,
)
    requires
        policy.pretransition(repeated_at) ==> policy.pretransition(pressed_at),
    ensures
        ({
            let pressed = policy.after(ControlEvent::PttDown { device, timestamp: pressed_at });
            let again = ControlEvent::PttDown { device, timestamp: repeated_at };
            &&& pressed.after(again) == pressed
            &&& pressed.outcome(again) == PolicyOutcome::nothing()
        }),
{
    let pressed = policy.after(ControlEvent::PttDown { device, timestamp: pressed_at });
    let again = ControlEvent::PttDown { device, timestamp: repeated_at };
    assert(pressed.after(again) =~= pressed);
}

/// Whatever happens, only keys that are down are barred.
pub proof fn law_only_held_keys_are_barred(device_count: nat, events: Seq<ControlEvent>)
    ensures
        PolicyView::initial(device_count).after_all(events).bars_held_keys(),
    decreases events.len(),
{
    if events.len() > 0 {
        law_only_held_keys_are_barred(device_count, events.drop_last());
        lemma_step_bars_held_keys(
            PolicyView::initial(device_count).after_all(events.drop_last()),
            events.last(),
        );
    }
}

proof fn lemma_step_bars_held_keys(policy: PolicyView, event: ControlEvent)
    requires
        policy.bars_held_keys(),
    ensures
        policy.after(event).bars_held_keys(),
{
    let next = policy.after(event);
    assert forall|i: int| 0 <= i < next.devices.len() implies {
        let device = #[trigger] next.devices[i];
        &&& device.ptt_release_gate ==> device.ptt_held
        &&& device.toggle_release_gate ==> device.toggle_held
    } by {
        let before = policy.devices[i];
    }
}

/// On a readable device whose push-to-talk key is neither down nor barred, and after the latest
/// mode change, a release undoes a press: the state is as before, and the release mutes exactly if
/// the press has unmuted, which it does in push-to-talk mode, outside a barrier and with no other
/// hold.
pub proof fn law_release_undoes_a_press(
    policy: PolicyView,
    device: DeviceId,
    pressed_at: EventTimestamp,
    released_at: EventTimestamp,
)
    requires
        policy.knows(device),
        policy.device(device).recovered,
        !policy.device(device).ptt_held,
        !policy.device(device).ptt_release_gate,
        !policy.pretransition(pressed_at),
        !policy.pretransition(released_at),
    ensures
        ({
            let press = ControlEvent::PttDown { device, timestamp: pressed_at };
            let release = ControlEvent::PttUp { device, timestamp: released_at };
            let talks = policy.mode == Mode::Ptt && policy.pending_epoch is None
                && !policy.has_hold();
            &&& policy.after(press).after(release) == policy
            &&& policy.outcome(press) == if talks {
                PolicyOutcome::only_audio(DesiredAudio::PttTalking)
            } else {
                PolicyOutcome::nothing()
            }
            &&& policy.after(press).outcome(release) == if talks {
                PolicyOutcome::only_audio(DesiredAudio::PttIdle)
            } else {
                PolicyOutcome::nothing()
            }
        }),
{
    let press = ControlEvent::PttDown { device, timestamp: pressed_at };
    let release = ControlEvent::PttUp { device, timestamp: released_at };
    let pressed = policy.after(press);
    assert(pressed.after(release) =~= policy);
    lemma_hold_after_update(policy, device, pressed.device(device));
    assert(pressed == policy.with_device(device, pressed.device(device)));
}

/// Along any run of events, on a readable device whose push-to-talk key is not down, and after the
/// latest mode change, a release undoes a press, and every unmute is matched by a mute.
pub proof fn law_unmutes_are_matched_by_mutes(
    device_count: nat,
    events: Seq<ControlEvent>,
    device: DeviceId,
    pressed_at: EventTimestamp,
    released_at: EventTimestamp,
)
    requires
        ({
            let policy = PolicyView::initial(device_count).after_all(events);
            &&& policy.knows(device)
            &&& policy.device(device).recovered
            &&& !policy.device(device).ptt_held
            &&& !policy.pretransition(pressed_at)
            &&& !policy.pretransition(released_at)
        }),
    ensures
        ({
            let policy = PolicyView::initial(device_count).after_all(events);
            let press = ControlEvent::PttDown { device, timestamp: pressed_at };
            let release = ControlEvent::PttUp { device, timestamp: released_at };
            let talks = policy.mode == Mode::Ptt && policy.pending_epoch is None
                && !policy.has_hold();
            &&& policy.after(press).after(release) == policy
            &&& policy.outcome(press) == if talks {
                PolicyOutcome::only_audio(DesiredAudio::PttTalking)
            } else {
                PolicyOutcome::nothing()
            }
            &&& policy.after(press).outcome(release) == if talks {
                PolicyOutcome::only_audio(DesiredAudio::PttIdle)
            } else {
                PolicyOutcome::nothing()
            }
        }),
{
    let policy = PolicyView::initial(device_count).after_all(events);
    law_only_held_keys_are_barred(device_count, events);
    assert(!policy.devices[device.0 as int].ptt_release_gate);
    law_release_undoes_a_press(policy, device, pressed_at, released_at);
}

/// A configured device that is lost is as if nothing had ever been known of it, nothing else
/// changes, and the loss mutes exactly if it takes the last hold in push-to-talk mode.
pub proof fn law_loss_forgets_the_device(policy: PolicyView, device: DeviceId)
    requires
        policy.knows(device),
    ensures
        ({
            let lost = policy.after(ControlEvent::DeviceLost(device));
            &&& lost.device(device) == DeviceState::unknown()
            &&& lost == PolicyView {
                devices: policy.devices.update(device.0 as int, DeviceState::unknown()),
                ..policy
            }
            &&& policy.outcome(ControlEvent::DeviceLost(device)) == if policy.mode == Mode::Ptt
                && policy.has_hold() && !lost.has_hold() {
                PolicyOutcome::only_audio(DesiredAudio::PttIdle)
            } else {
                PolicyOutcome::nothing()
            }
        }),
{
}

/// A second loss of a device changes nothing and asks for nothing, whichever kind either loss is
/// of.
pub proof fn law_second_loss_is_inert(
    policy: PolicyView,
    device: DeviceId,
    first: ControlEvent,
    second: ControlEvent,
)
    requires
        first == ControlEvent::DeviceLost(device) || first == ControlEvent::SynchronizationLost(
            device,
        ),
        second == ControlEvent::DeviceLost(device) || second == ControlEvent::SynchronizationLost(
            device,
        ),
    ensures
        policy.after(first).after(second) == policy.after(first),
        policy.after(first).outcome(second) == PolicyOutcome::nothing(),
{
    assert(policy.after(first).after(second) =~= policy.after(first));
}

/// The loss of a device and the loss of its synchronization act alike.
pub proof fn law_losses_act_alike(policy: PolicyView, device: DeviceId)
    ensures
        policy.after(ControlEvent::DeviceLost(device)) == policy.after(
            ControlEvent::SynchronizationLost(device),
        ),
        policy.outcome(ControlEvent::DeviceLost(device)) == policy.outcome(
            ControlEvent::SynchronizationLost(device),
        ),
{
}

/// A moment belongs to the time up to the latest mode change exactly if there was one and the moment
/// is not later.
pub proof fn law_old_moments_are_not_later(policy: PolicyView, timestamp: EventTimestamp)
    ensures
        policy.pretransition(timestamp) <==> (policy.mode_cutoff matches Some(cutoff) && (
        timestamp.seconds < cutoff.seconds || timestamp.seconds == cutoff.seconds
            && timestamp.nanoseconds <= cutoff.nanoseconds)),
{
}

/// Any configured device can hold the microphone: whichever is readable with its push-to-talk key
/// down and not barred makes the policy call for talking in push-to-talk mode.
pub proof fn law_any_device_can_talk(policy: PolicyView, device: int)
    requires
        0 <= device < policy.devices.len(),
        policy.devices[device].recovered,
        policy.devices[device].ptt_held,
        !policy.devices[device].ptt_release_gate,
    ensures
        policy.has_hold(),
        policy.mode == Mode::Ptt ==> policy.level() == DesiredAudio::PttTalking,
{
    assert(policy.devices[device].valid_hold());
}

/// Without such a device the policy calls for a muted microphone in push-to-talk mode, and in open
/// mode for an open one whatever the keys are.
pub proof fn law_nobody_talks_without_a_hold(policy: PolicyView)
    ensures
        policy.mode == Mode::Open ==> policy.level() == DesiredAudio::Open,
        (forall|i: int|
            0 <= i < policy.devices.len() ==> !((#[trigger] policy.devices[i]).recovered
                && policy.devices[i].ptt_held && !policy.devices[i].ptt_release_gate)) ==> {
            &&& !policy.has_hold()
            &&& policy.mode == Mode::Ptt ==> policy.level() == DesiredAudio::PttIdle
        },
{
}

/// A toggle press after the latest mode change, on a readable device whose toggle key is neither
/// down nor barred, always changes the mode to the other one, whatever modes came before. It is
/// answered by the audio state of the new mode and a barrier, marks the moment, and bars every
/// push-to-talk key that is down; nothing else changes.
pub proof fn law_fresh_toggle_changes_the_mode(
    policy: PolicyView,
    device: DeviceId,
    timestamp: EventTimestamp,
)
    requires
        device.0 < policy.devices.len(),
        policy.devices[device.0 as int].recovered,
        !policy.devices[device.0 as int].toggle_held,
        !policy.devices[device.0 as int].toggle_release_gate,
        policy.mode_cutoff matches Some(cutoff) ==> cutoff.seconds < timestamp.seconds
            || cutoff.seconds == timestamp.seconds && cutoff.nanoseconds < timestamp.nanoseconds,
    ensures
        ({
            let press = ControlEvent::ToggleDown { device, timestamp };
            let next = policy.after(press);
            &&& policy.mode == Mode::Ptt ==> next.mode == Mode::Open
            &&& policy.mode == Mode::Open ==> next.mode == Mode::Ptt
            &&& policy.outcome(press).desired_audio == Some(
                if policy.mode == Mode::Ptt {
                    DesiredAudio::Open
                } else {
                    DesiredAudio::PttIdle
                },
            )
            &&& policy.outcome(press).transition == Some(TransitionAction::StartTransitionBarrier)
            &&& next.mode_cutoff == Some(timestamp)
            &&& next.pending_epoch == policy.pending_epoch
            &&& next.startup_handled == policy.startup_handled
            &&& next.devices.len() == policy.devices.len()
            &&& forall|i: int|
                0 <= i < policy.devices.len() ==> {
                    let before = policy.devices[i];
                    let now = #[trigger] next.devices[i];
                    &&& now.recovered == before.recovered
                    &&& now.ptt_held == before.ptt_held
                    &&& now.ptt_release_gate == (before.ptt_release_gate || before.ptt_held)
                    &&& now.toggle_held == (before.toggle_held || i == device.0)
                    &&& now.toggle_release_gate == before.toggle_release_gate
                }
        }),
{
}

/// Any other toggle press leaves the mode and asks for nothing: of a device that is not configured
/// or not readable, of a key that is down already or barred, or of the time up to the latest mode
/// change. The last bars the key, and one of a barred key puts it down.
pub proof fn law_other_toggle_presses_change_no_mode(
    policy: PolicyView,
    device: DeviceId,
    timestamp: EventTimestamp,
)
    ensures
        ({
            let press = ControlEvent::ToggleDown { device, timestamp };
            let next = policy.after(press);
            let known = device.0 < policy.devices.len();
            let state = policy.devices[device.0 as int];
            let old = policy.mode_cutoff matches Some(cutoff) && (timestamp.seconds
                < cutoff.seconds || timestamp.seconds == cutoff.seconds && timestamp.nanoseconds
                <= cutoff.nanoseconds);
            !known || old || !state.recovered || state.toggle_held || state.toggle_release_gate
                ==> {
                &&& policy.outcome(press).desired_audio is None
                &&& policy.outcome(press).transition is None
                &&& next == PolicyView { devices: next.devices, ..policy }
                &&& next.devices == if !known {
                    policy.devices
                } else if old {
                    policy.devices.update(
                        device.0 as int,
                        DeviceState { toggle_held: true, toggle_release_gate: true, ..state },
                    )
                } else if state.recovered && !state.toggle_held {
                    policy.devices.update(
                        device.0 as int,
                        DeviceState { toggle_held: true, ..state },
                    )
                } else {
                    policy.devices
                }
            }
        }),
{
}

/// A toggle press, a release and a press again lead back to the mode at the beginning, as long as
/// the presses follow each other in time.
pub proof fn law_second_toggle_undoes_the_first(
    policy: PolicyView,
    device: DeviceId,
    timestamp: EventTimestamp,
    released_at: EventTimestamp,
    pressed_again_at: EventTimestamp,
)
    requires
        device.0 < policy.devices.len(),
        policy.devices[device.0 as int].recovered,
        !policy.devices[device.0 as int].toggle_held,
        !policy.devices[device.0 as int].toggle_release_gate,
        policy.mode_cutoff matches Some(cutoff) ==> cutoff.seconds < timestamp.seconds
            || cutoff.seconds == timestamp.seconds && cutoff.nanoseconds < timestamp.nanoseconds,
        timestamp.seconds < pressed_again_at.seconds || timestamp.seconds == pressed_again_at.seconds
            && timestamp.nanoseconds < pressed_again_at.nanoseconds,
    ensures
        ({
            let first = policy.after(ControlEvent::ToggleDown { device, timestamp });
            let between = first.after(ControlEvent::ToggleUp { device, timestamp: released_at });
            let press = ControlEvent::ToggleDown { device, timestamp: pressed_again_at };
            let second = between.after(press);
            &&& first.mode != policy.mode
            &&& between.mode == first.mode
            &&& second.mode == policy.mode
            &&& between.outcome(press).transition is Some
            &&& !second.has_hold()
            &&& between.outcome(press).desired_audio == Some(second.level())
        }),
{
    let first = policy.after(ControlEvent::ToggleDown { device, timestamp });
    let between = first.after(ControlEvent::ToggleUp { device, timestamp: released_at });
    law_fresh_toggle_changes_the_mode(policy, device, timestamp);
    assert(between.devices[device.0 as int].recovered);
    assert(!between.devices[device.0 as int].toggle_held);
    law_fresh_toggle_changes_the_mode(between, device, pressed_again_at);
    law_only_a_toggle_changes_the_mode(
        between,
        ControlEvent::ToggleDown { device, timestamp: pressed_again_at },
    );
}

impl PolicyView {
    /// How many events of a run are answered by a mode transition.
    pub open spec fn transitions(self, events: Seq<ControlEvent>) -> nat
        decreases events.len(),
    {
        if events.len() == 0 {
            0
        } else {
            let earlier = self.transitions(events.drop_last());
            if self.after_all(events.drop_last()).outcome(events.last()).transition is Some {
                earlier + 1
            } else {
                earlier
            }
        }
    }
}

/// After any run of events the policy is in open mode exactly if an odd number of them was answered
/// by a mode transition.
pub proof fn law_transitions_alternate(device_count: nat, events: Seq<ControlEvent>)
    ensures
        ({
            let start = PolicyView::initial(device_count);
            start.after_all(events).mode == Mode::Open <==> start.transitions(events) % 2 == 1
        }),
    decreases events.len(),
{
    if events.len() > 0 {
        let start = PolicyView::initial(device_count);
        law_transitions_alternate(device_count, events.drop_last());
        law_only_a_toggle_changes_the_mode(start.after_all(events.drop_last()), events.last());
    }
}

/// A push-to-talk press after the latest mode change, of a readable device whose key is not down,
/// puts that key down, barred if it was or if a barrier is pending, and changes nothing else. It
/// asks for talking exactly if it counts, outside a barrier and in push-to-talk mode, and no other
/// device talks already.
pub proof fn law_fresh_press_puts_the_key_down(
    policy: PolicyView,
    device: DeviceId,
    timestamp: EventTimestamp,
)
    requires
        device.0 < policy.devices.len(),
        policy.devices[device.0 as int].recovered,
        !policy.devices[device.0 as int].ptt_held,
        policy.mode_cutoff matches Some(cutoff) ==> cutoff.seconds < timestamp.seconds
            || cutoff.seconds == timestamp.seconds && cutoff.nanoseconds < timestamp.nanoseconds,
    ensures
        ({
            let press = ControlEvent::PttDown { device, timestamp };
            let state = policy.devices[device.0 as int];
            let talks = policy.mode == Mode::Ptt && policy.pending_epoch is None
                && !state.ptt_release_gate && forall|i: int|
                0 <= i < policy.devices.len() ==> !((#[trigger] policy.devices[i]).recovered
                    && policy.devices[i].ptt_held && !policy.devices[i].ptt_release_gate);
            &&& policy.after(press) == PolicyView {
                devices: policy.devices.update(
                    device.0 as int,
                    DeviceState {
                        ptt_held: true,
                        ptt_release_gate: state.ptt_release_gate || policy.pending_epoch is Some,
                        ..state
                    },
                ),
                ..policy
            }
            &&& policy.outcome(press).transition is None
            &&& policy.outcome(press).desired_audio == if talks {
                Some(DesiredAudio::PttTalking)
            } else {
                None
            }
        }),
{
    if policy.has_hold() {
        let i = choose|i: int|
            0 <= i < policy.devices.len() && (#[trigger] policy.devices[i]).valid_hold();
        assert(policy.devices[i].recovered);
    } else {
        assert forall|i: int| 0 <= i < policy.devices.len() implies !((
        #[trigger] policy.devices[i]).recovered && policy.devices[i].ptt_held
            && !policy.devices[i].ptt_release_gate) by {
            assert(!policy.devices[i].valid_hold());
        }
    }
}

/// A push-to-talk press of the time up to the latest mode change puts the key of a configured
/// device down and bars it; one of a device that is not readable, or of a key that is down already,
/// changes nothing. Neither asks for anything.
pub proof fn law_other_presses_ask_for_nothing(
    policy: PolicyView,
    device: DeviceId,
    timestamp: EventTimestamp,
)
    requires
        device.0 < policy.devices.len(),
    ensures
        ({
            let press = ControlEvent::PttDown { device, timestamp };
            let state = policy.devices[device.0 as int];
            let old = policy.mode_cutoff matches Some(cutoff) && (timestamp.seconds
                < cutoff.seconds || timestamp.seconds == cutoff.seconds && timestamp.nanoseconds
                <= cutoff.nanoseconds);
            &&& old || !state.recovered || state.ptt_held ==> {
                &&& policy.outcome(press).desired_audio is None
                &&& policy.outcome(press).transition is None
            }
            &&& old ==> policy.after(press) == PolicyView {
                devices: policy.devices.update(
                    device.0 as int,
                    DeviceState { ptt_held: true, ptt_release_gate: true, ..state },
                ),
                ..policy
            }
            &&& !old && (!state.recovered || state.ptt_held) ==> policy.after(press) == policy
        }),
{
}

/// Whether the device is the only one that talks.
pub open spec fn talks_alone(policy: PolicyView, device: DeviceId) -> bool {
    &&& policy.devices[device.0 as int].recovered
    &&& policy.devices[device.0 as int].ptt_held
    &&& !policy.devices[device.0 as int].ptt_release_gate
    &&& forall|i: int|
        0 <= i < policy.devices.len() && i != device.0 ==> !((#[trigger] policy.devices[i]).recovered
            && policy.devices[i].ptt_held && !policy.devices[i].ptt_release_gate)
}

proof fn lemma_hold_taken(policy: PolicyView, device: DeviceId, state: DeviceState)
    requires
        device.0 < policy.devices.len(),
        !(state.recovered && state.ptt_held && !state.ptt_release_gate),
    ensures
        policy.has_hold() && !(PolicyView {
            devices: policy.devices.update(device.0 as int, state),
            ..policy
        }).has_hold() <==> talks_alone(policy, device),
{
    let next = PolicyView { devices: policy.devices.update(device.0 as int, state), ..policy };
    if talks_alone(policy, device) {
        assert(policy.devices[device.0 as int].valid_hold());
        assert forall|i: int| 0 <= i < next.devices.len() implies !(
        #[trigger] next.devices[i]).valid_hold() by {
            if i != device.0 {
                assert(next.devices[i] == policy.devices[i]);
            }
        }
    } else if policy.has_hold() {
        let i = choose|i: int|
            0 <= i < policy.devices.len() && (#[trigger] policy.devices[i]).valid_hold();
        if i != device.0 {
            assert(next.devices[i].valid_hold());
        } else {
            let j = choose|j: int|
                0 <= j < policy.devices.len() && j != device.0 && (
                #[trigger] policy.devices[j]).recovered && policy.devices[j].ptt_held
                    && !policy.devices[j].ptt_release_gate;
            assert(next.devices[j].valid_hold());
        }
    }
}

/// A push-to-talk release lets the key of a configured device go and takes its bar away, and
/// nothing else changes. It mutes exactly if, in push-to-talk mode and after the latest mode
/// change, the device was the only one that talked.
pub proof fn law_release_lets_the_key_go(
    policy: PolicyView,
    device: DeviceId,
    timestamp: EventTimestamp,
)
    requires
        device.0 < policy.devices.len(),
    ensures
        ({
            let release = ControlEvent::PttUp { device, timestamp };
            let old = policy.mode_cutoff matches Some(cutoff) && (timestamp.seconds
                < cutoff.seconds || timestamp.seconds == cutoff.seconds && timestamp.nanoseconds
                <= cutoff.nanoseconds);
            &&& policy.after(release) == PolicyView {
                devices: policy.devices.update(
                    device.0 as int,
                    DeviceState {
                        ptt_held: false,
                        ptt_release_gate: false,
                        ..policy.devices[device.0 as int]
                    },
                ),
                ..policy
            }
            &&& policy.outcome(release).transition is None
            &&& policy.outcome(release).desired_audio == if policy.mode == Mode::Ptt && !old
                && talks_alone(policy, device) {
                Some(DesiredAudio::PttIdle)
            } else {
                None
            }
        }),
{
    lemma_hold_taken(
        policy,
        device,
        DeviceState {
            ptt_held: false,
            ptt_release_gate: false,
            ..policy.devices[device.0 as int]
        },
    );
}

/// A toggle release lets the key of a configured device go and takes its bar away; nothing else
/// changes, and nothing is asked for.
pub proof fn law_toggle_release_lets_the_key_go(
    policy: PolicyView,
    device: DeviceId,
    timestamp: EventTimestamp,
)
    requires
        device.0 < policy.devices.len(),
    ensures
        ({
            let release = ControlEvent::ToggleUp { device, timestamp };
            &&& policy.after(release) == PolicyView {
                devices: policy.devices.update(
                    device.0 as int,
                    DeviceState {
                        toggle_held: false,
                        toggle_release_gate: false,
                        ..policy.devices[device.0 as int]
                    },
                ),
                ..policy
            }
            &&& policy.outcome(release).desired_audio is None
            &&& policy.outcome(release).transition is None
        }),
{
}

/// A recovery makes a configured device readable with just the keys down that it tells of, each of
/// them barred, and changes nothing else. It mutes exactly if, in push-to-talk mode, the device was
/// the only one that talked.
pub proof fn law_recovery_makes_a_device_readable(
    policy: PolicyView,
    device: DeviceId,
    ptt_held: bool,
    toggle_held: bool,
)
    requires
        device.0 < policy.devices.len(),
    ensures
        ({
            let recovery = ControlEvent::DeviceRecovered { device, ptt_held, toggle_held };
            &&& policy.after(recovery) == PolicyView {
                devices: policy.devices.update(
                    device.0 as int,
                    DeviceState {
                        recovered: true,
                        ptt_held,
                        toggle_held,
                        ptt_release_gate: ptt_held,
                        toggle_release_gate: toggle_held,
                    },
                ),
                ..policy
            }
            &&& policy.outcome(recovery).transition is None
            &&& policy.outcome(recovery).desired_audio == if policy.mode == Mode::Ptt
                && talks_alone(policy, device) {
                Some(DesiredAudio::PttIdle)
            } else {
                None
            }
        }),
{
    lemma_hold_taken(
        policy,
        device,
        DeviceState {
            recovered: true,
            ptt_held,
            toggle_held,
            ptt_release_gate: ptt_held,
            toggle_release_gate: toggle_held,
        },
    );
}

/// The loss of a configured device makes it unreadable with no key down or barred, and changes
/// nothing else. It mutes exactly if, in push-to-talk mode, the device was the only one that
/// talked.
pub proof fn law_loss_takes_the_keys_away(policy: PolicyView, device: DeviceId)
    requires
        device.0 < policy.devices.len(),
    ensures
        ({
            let loss = ControlEvent::DeviceLost(device);
            let gone = DeviceState {
                recovered: false,
                ptt_held: false,
                toggle_held: false,
                ptt_release_gate: false,
                toggle_release_gate: false,
            };
            &&& policy.after(loss) == PolicyView {
                devices: policy.devices.update(device.0 as int, gone),
                ..policy
            }
            &&& policy.outcome(loss).transition is None
            &&& policy.outcome(loss).desired_audio == if policy.mode == Mode::Ptt && talks_alone(
                policy,
                device,
            ) {
                Some(DesiredAudio::PttIdle)
            } else {
                None
            }
        }),
{
    lemma_hold_taken(
        policy,
        device,
        DeviceState {
            recovered: false,
            ptt_held: false,
            toggle_held: false,
            ptt_release_gate: false,
            toggle_release_gate: false,
        },
    );
}

/// A snapshot of the pending epoch tells which keys of a configured device are down, and bars them;
/// nothing else changes.
pub proof fn law_snapshot_tells_the_keys(
    policy: PolicyView,
    device: DeviceId,
    epoch: TransitionEpoch,
    ptt_held: bool,
    toggle_held: bool,
)
    requires
        device.0 < policy.devices.len(),
        policy.pending_epoch == Some(epoch),
    ensures
        policy.after(ControlEvent::KeySnapshot { device, epoch, ptt_held, toggle_held })
            == (PolicyView {
            devices: policy.devices.update(
                device.0 as int,
                DeviceState {
                    recovered: policy.devices[device.0 as int].recovered,
                    ptt_held,
                    toggle_held,
                    ptt_release_gate: ptt_held,
                    toggle_release_gate: toggle_held,
                },
            ),
            ..policy
        }),
{
}

/// Beginning a barrier, and completing the pending one, bars every push-to-talk key that is down
/// and changes nothing else but the pending epoch; neither asks for anything.
pub proof fn law_barriers_bar_held_keys(policy: PolicyView, epoch: TransitionEpoch)
    ensures
        ({
            let begun = policy.after(ControlEvent::BeginBarrier(epoch));
            &&& begun.pending_epoch == Some(epoch)
            &&& begun == PolicyView {
                devices: begun.devices,
                pending_epoch: begun.pending_epoch,
                ..policy
            }
            &&& begun.devices.len() == policy.devices.len()
            &&& forall|i: int|
                0 <= i < policy.devices.len() ==> #[trigger] begun.devices[i] == (DeviceState {
                    ptt_release_gate: policy.devices[i].ptt_release_gate
                        || policy.devices[i].ptt_held,
                    ..policy.devices[i]
                })
            &&& policy.outcome(ControlEvent::BeginBarrier(epoch)).desired_audio is None
            &&& policy.outcome(ControlEvent::BeginBarrier(epoch)).transition is None
        }),
        policy.pending_epoch == Some(epoch) ==> {
            let complete = policy.after(ControlEvent::CompleteBarrier(epoch));
            &&& complete.pending_epoch is None
            &&& complete == PolicyView {
                devices: complete.devices,
                pending_epoch: complete.pending_epoch,
                ..policy
            }
            &&& complete.devices.len() == policy.devices.len()
            &&& forall|i: int|
                0 <= i < policy.devices.len() ==> #[trigger] complete.devices[i] == (DeviceState {
                    ptt_release_gate: policy.devices[i].ptt_release_gate
                        || policy.devices[i].ptt_held,
                    ..policy.devices[i]
                })
        },
{
}

/// A startup only marks that there was one, and asks for a muted microphone the first time; a
/// shutdown changes nothing, and asks for a muted microphone exactly in push-to-talk mode.
pub proof fn law_startup_and_shutdown_mute(policy: PolicyView)
    ensures
        policy.after(ControlEvent::Startup) == (PolicyView { startup_handled: true, ..policy }),
        policy.outcome(ControlEvent::Startup).transition is None,
        policy.outcome(ControlEvent::Startup).desired_audio == if policy.startup_handled {
            None
        } else {
            Some(DesiredAudio::PttIdle)
        },
        policy.after(ControlEvent::Shutdown) == policy,
        policy.outcome(ControlEvent::Shutdown).transition is None,
        policy.outcome(ControlEvent::Shutdown).desired_audio == if policy.mode == Mode::Ptt {
            Some(DesiredAudio::PttIdle)
        } else {
            None
        },
{
}

/// At first the policy is in push-to-talk mode, knows nothing of any of its devices, and has seen
/// neither a barrier, a mode change nor a startup.
pub proof fn law_policy_starts_blank(device_count: usize, policy: crate::state::Policy)
    requires
        call_ensures(crate::state::Policy::new, (device_count,), policy),
    ensures
        policy.mode == Mode::Ptt,
        policy.devices@.len() == device_count,
        forall|i: int|
            0 <= i < device_count ==> {
                let device = #[trigger] policy.devices@[i];
                &&& !device.recovered
                &&& !device.ptt_held
                &&& !device.toggle_held
                &&& !device.ptt_release_gate
                &&& !device.toggle_release_gate
            },
        policy.pending_epoch is None,
        policy.mode_cutoff is None,
        !policy.startup_handled,
{
    assert(policy@.devices == policy.devices@);
}

/// Outcomes say just what they are made of.
pub proof fn law_outcomes_say_what_they_are_made_of(audio: DesiredAudio)
    ensures
        PolicyOutcome::nothing().desired_audio is None,
        PolicyOutcome::nothing().transition is None,
        PolicyOutcome::only_audio(audio).desired_audio == Some(audio),
        PolicyOutcome::only_audio(audio).transition is None,
        PolicyOutcome::with_barrier(audio).desired_audio == Some(audio),
        PolicyOutcome::with_barrier(audio).transition == Some(
            TransitionAction::StartTransitionBarrier,
        ),
{
}

} // verus!
