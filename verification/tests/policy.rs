use pttd::state::{
    ControlEvent, DesiredAudio, DeviceId, EventTimestamp, Mode, Policy, PolicyOutcome,
    TransitionEpoch,
};

const FIRST: DeviceId = DeviceId(0);
const SECOND: DeviceId = DeviceId(1);
const EPOCH_1: TransitionEpoch = TransitionEpoch(1);
const EPOCH_2: TransitionEpoch = TransitionEpoch(2);

fn timestamp(value: i64) -> EventTimestamp {
    EventTimestamp::new(value, 0)
}

fn ptt_down(device: DeviceId) -> ControlEvent {
    ControlEvent::PttDown {
        device,
        timestamp: timestamp(30),
    }
}

fn ptt_up(device: DeviceId) -> ControlEvent {
    ControlEvent::PttUp {
        device,
        timestamp: timestamp(40),
    }
}

fn toggle_down_at(device: DeviceId, time: i64) -> ControlEvent {
    ControlEvent::ToggleDown {
        device,
        timestamp: timestamp(time),
    }
}

fn toggle_down(device: DeviceId) -> ControlEvent {
    toggle_down_at(device, 10)
}

fn toggle_up(device: DeviceId) -> ControlEvent {
    ControlEvent::ToggleUp {
        device,
        timestamp: timestamp(20),
    }
}

fn audio(desired: DesiredAudio) -> PolicyOutcome {
    PolicyOutcome::audio(desired)
}

fn transition(desired: DesiredAudio) -> PolicyOutcome {
    PolicyOutcome::transition(desired)
}

fn recover(policy: &mut Policy, device: DeviceId, ptt_held: bool, toggle_held: bool) {
    assert_eq!(
        policy.handle(ControlEvent::DeviceRecovered {
            device,
            ptt_held,
            toggle_held,
        }),
        PolicyOutcome::default()
    );
}

fn fresh(policy: &mut Policy, device: DeviceId) {
    recover(policy, device, false, false);
}

#[test]
fn startup_emits_idle_once_and_invalid_devices_are_ignored() {
    let mut policy = Policy::new(1);
    assert_eq!(
        policy.handle(ControlEvent::Startup),
        audio(DesiredAudio::PttIdle)
    );
    assert_eq!(
        policy.handle(ControlEvent::Startup),
        PolicyOutcome::default()
    );
    assert_eq!(
        policy.handle(ptt_down(DeviceId(99))),
        PolicyOutcome::default()
    );
}

#[test]
fn overlapping_holds_talk_once_and_only_final_release_idles() {
    let mut policy = Policy::new(2);
    fresh(&mut policy, FIRST);
    fresh(&mut policy, SECOND);
    assert_eq!(
        policy.handle(ptt_down(FIRST)),
        audio(DesiredAudio::PttTalking)
    );
    assert_eq!(policy.handle(ptt_down(SECOND)), PolicyOutcome::default());
    assert_eq!(policy.handle(ptt_up(FIRST)), PolicyOutcome::default());
    assert_eq!(policy.handle(ptt_up(SECOND)), audio(DesiredAudio::PttIdle));
}

#[test]
fn only_final_loss_or_synchronization_loss_idles() {
    for final_loss in [
        ControlEvent::DeviceLost(SECOND),
        ControlEvent::SynchronizationLost(SECOND),
    ] {
        let mut policy = Policy::new(2);
        fresh(&mut policy, FIRST);
        fresh(&mut policy, SECOND);
        policy.handle(ptt_down(FIRST));
        policy.handle(ptt_down(SECOND));
        assert_eq!(
            policy.handle(ControlEvent::DeviceLost(FIRST)),
            PolicyOutcome::default()
        );
        assert_eq!(policy.handle(final_loss), audio(DesiredAudio::PttIdle));
    }
}

#[test]
fn recovery_held_keys_require_release() {
    let mut policy = Policy::new(1);
    recover(&mut policy, FIRST, true, true);
    assert_eq!(policy.handle(ptt_down(FIRST)), PolicyOutcome::default());
    assert_eq!(policy.handle(toggle_down(FIRST)), PolicyOutcome::default());
    policy.handle(ptt_up(FIRST));
    policy.handle(toggle_up(FIRST));
    assert_eq!(
        policy.handle(ptt_down(FIRST)),
        audio(DesiredAudio::PttTalking)
    );
    assert_eq!(
        policy.handle(toggle_down_at(FIRST, 50)),
        transition(DesiredAudio::Open)
    );
}

#[test]
fn held_recovery_post_cutoff_release_then_fresh_down_talks() {
    let mut policy = Policy::new(1);
    recover(&mut policy, FIRST, true, false);
    assert_eq!(
        policy.handle(ControlEvent::PttUp {
            device: FIRST,
            timestamp: timestamp(11),
        }),
        PolicyOutcome::default()
    );
    assert_eq!(
        policy.handle(ControlEvent::PttDown {
            device: FIRST,
            timestamp: timestamp(12),
        }),
        audio(DesiredAudio::PttTalking)
    );
}

#[test]
fn delayed_ptt_down_during_barrier_cannot_talk() {
    let mut policy = Policy::new(2);
    fresh(&mut policy, FIRST);
    fresh(&mut policy, SECOND);
    assert_eq!(
        policy.handle(toggle_down(FIRST)),
        transition(DesiredAudio::Open)
    );
    policy.handle(ControlEvent::BeginBarrier(EPOCH_1));
    policy.handle(toggle_up(FIRST));
    assert_eq!(
        policy.handle(toggle_down_at(FIRST, 30)),
        transition(DesiredAudio::PttIdle)
    );
    assert_eq!(policy.handle(ptt_down(SECOND)), PolicyOutcome::default());
}

#[test]
fn matching_completion_retains_gate_until_release_and_fresh_down() {
    let mut policy = Policy::new(1);
    fresh(&mut policy, FIRST);
    policy.handle(ControlEvent::BeginBarrier(EPOCH_1));
    policy.handle(ptt_down(FIRST));
    policy.handle(ControlEvent::CompleteBarrier(EPOCH_1));
    assert_eq!(policy.handle(ptt_down(FIRST)), PolicyOutcome::default());
    assert_eq!(policy.handle(ptt_up(FIRST)), PolicyOutcome::default());
    assert_eq!(
        policy.handle(ptt_down(FIRST)),
        audio(DesiredAudio::PttTalking)
    );
}

#[test]
fn stale_snapshots_and_completion_do_not_change_current_barrier() {
    let mut policy = Policy::new(1);
    fresh(&mut policy, FIRST);
    policy.handle(ControlEvent::BeginBarrier(EPOCH_2));
    policy.handle(ControlEvent::KeySnapshot {
        device: FIRST,
        epoch: EPOCH_1,
        ptt_held: true,
        toggle_held: false,
    });
    policy.handle(ControlEvent::CompleteBarrier(EPOCH_1));
    assert_eq!(policy.pending_epoch, Some(EPOCH_2));
    assert!(!policy.devices[0].ptt_held);
}

#[test]
fn current_snapshot_never_grants_talk() {
    let mut policy = Policy::new(1);
    fresh(&mut policy, FIRST);
    policy.handle(ControlEvent::BeginBarrier(EPOCH_1));
    policy.handle(ControlEvent::KeySnapshot {
        device: FIRST,
        epoch: EPOCH_1,
        ptt_held: true,
        toggle_held: false,
    });
    policy.handle(ControlEvent::CompleteBarrier(EPOCH_1));
    assert_eq!(policy.handle(ptt_down(FIRST)), PolicyOutcome::default());
    policy.handle(ptt_up(FIRST));
    assert_eq!(
        policy.handle(ptt_down(FIRST)),
        audio(DesiredAudio::PttTalking)
    );
}

#[test]
fn pre_or_equal_cutoff_ptt_cannot_talk_and_post_cutoff_down_can() {
    let mut policy = Policy::new(1);
    fresh(&mut policy, FIRST);
    policy.handle(toggle_down_at(FIRST, 10));
    policy.handle(ControlEvent::ToggleUp {
        device: FIRST,
        timestamp: timestamp(11),
    });
    policy.handle(toggle_down_at(FIRST, 20));
    policy.handle(ControlEvent::BeginBarrier(EPOCH_1));
    policy.handle(ControlEvent::CompleteBarrier(EPOCH_1));
    assert_eq!(
        policy.handle(ControlEvent::PttDown {
            device: FIRST,
            timestamp: timestamp(19),
        }),
        PolicyOutcome::default()
    );
    assert_eq!(
        policy.handle(ControlEvent::PttDown {
            device: FIRST,
            timestamp: timestamp(20),
        }),
        PolicyOutcome::default()
    );
    policy.handle(ControlEvent::PttUp {
        device: FIRST,
        timestamp: timestamp(20),
    });
    assert_eq!(
        policy.handle(ControlEvent::PttDown {
            device: FIRST,
            timestamp: timestamp(21),
        }),
        audio(DesiredAudio::PttTalking)
    );
}

#[test]
fn pre_or_equal_cutoff_toggle_cannot_retoggle() {
    let mut policy = Policy::new(1);
    fresh(&mut policy, FIRST);
    policy.handle(toggle_down_at(FIRST, 10));
    policy.handle(ControlEvent::ToggleUp {
        device: FIRST,
        timestamp: timestamp(11),
    });
    policy.handle(ControlEvent::BeginBarrier(EPOCH_1));
    policy.handle(ControlEvent::CompleteBarrier(EPOCH_1));
    assert_eq!(
        policy.handle(ControlEvent::ToggleDown {
            device: FIRST,
            timestamp: timestamp(10),
        }),
        PolicyOutcome::default()
    );
    assert_eq!(policy.mode, Mode::Open);
    assert!(policy.devices[0].toggle_held);
    assert!(policy.devices[0].toggle_release_gate);
}

#[test]
fn second_toggle_replaces_epoch_and_stale_completion_cannot_clear_it() {
    let mut policy = Policy::new(1);
    fresh(&mut policy, FIRST);
    assert_eq!(
        policy.handle(toggle_down(FIRST)),
        transition(DesiredAudio::Open)
    );
    policy.handle(ControlEvent::BeginBarrier(EPOCH_1));
    policy.handle(toggle_up(FIRST));
    assert_eq!(
        policy.handle(toggle_down_at(FIRST, 30)),
        transition(DesiredAudio::PttIdle)
    );
    policy.handle(ControlEvent::BeginBarrier(EPOCH_2));
    policy.handle(ControlEvent::CompleteBarrier(EPOCH_1));
    assert_eq!(policy.pending_epoch, Some(EPOCH_2));
    policy.handle(ControlEvent::CompleteBarrier(EPOCH_2));
    assert_eq!(policy.pending_epoch, None);
}

#[test]
fn open_tracks_ptt_without_audio_and_shutdown_respects_mode() {
    let mut policy = Policy::new(1);
    fresh(&mut policy, FIRST);
    policy.handle(toggle_down(FIRST));
    assert_eq!(policy.handle(ptt_down(FIRST)), PolicyOutcome::default());
    assert!(policy.devices[0].ptt_held);
    assert_eq!(
        policy.handle(ControlEvent::Shutdown),
        PolicyOutcome::default()
    );

    policy.handle(toggle_up(FIRST));
    policy.handle(toggle_down_at(FIRST, 30));
    assert_eq!(
        policy.handle(ControlEvent::Shutdown),
        audio(DesiredAudio::PttIdle)
    );
}

#[test]
fn releases_of_the_time_before_a_mode_change_ask_for_nothing() {
    let mut policy = Policy::new(1);
    fresh(&mut policy, FIRST);
    policy.handle(toggle_down_at(FIRST, 10));
    policy.handle(toggle_up(FIRST));
    policy.handle(toggle_down_at(FIRST, 25));
    assert_eq!(
        policy.handle(ptt_down(FIRST)),
        audio(DesiredAudio::PttTalking)
    );
    assert_eq!(
        policy.handle(ControlEvent::PttUp {
            device: FIRST,
            timestamp: timestamp(25),
        }),
        PolicyOutcome::default()
    );
    assert!(!policy.devices[0].ptt_held);
}

#[test]
fn a_toggle_takes_the_hold_of_every_device_away() {
    let mut policy = Policy::new(2);
    fresh(&mut policy, FIRST);
    fresh(&mut policy, SECOND);
    policy.handle(ptt_down(SECOND));
    assert_eq!(
        policy.handle(toggle_down_at(FIRST, 50)),
        transition(DesiredAudio::Open)
    );
    assert!(policy.devices[1].ptt_release_gate);
    assert_eq!(policy.mode_cutoff, Some(timestamp(50)));
    assert_eq!(
        policy.handle(ControlEvent::PttUp {
            device: SECOND,
            timestamp: timestamp(51),
        }),
        PolicyOutcome::default()
    );
}

#[test]
fn a_recovery_that_replaces_the_last_hold_idles() {
    let mut policy = Policy::new(1);
    fresh(&mut policy, FIRST);
    policy.handle(ptt_down(FIRST));
    assert_eq!(
        policy.handle(ControlEvent::DeviceRecovered {
            device: FIRST,
            ptt_held: true,
            toggle_held: false,
        }),
        audio(DesiredAudio::PttIdle)
    );
}

#[test]
fn a_lost_device_is_ignored_until_it_recovers() {
    let mut policy = Policy::new(1);
    fresh(&mut policy, FIRST);
    policy.handle(ControlEvent::DeviceLost(FIRST));
    assert_eq!(policy.handle(ptt_down(FIRST)), PolicyOutcome::default());
    assert_eq!(policy.handle(toggle_down(FIRST)), PolicyOutcome::default());
    fresh(&mut policy, FIRST);
    assert_eq!(
        policy.handle(ptt_down(FIRST)),
        audio(DesiredAudio::PttTalking)
    );
}

#[test]
fn moments_are_ordered_by_seconds_and_then_nanoseconds() {
    let earlier = EventTimestamp::new(-1, 999_999_999);
    let later = EventTimestamp::new(0, 0);
    assert!(earlier < later);
    assert!(EventTimestamp::new(0, 1) > later);
    assert!(later <= EventTimestamp::new(0, 0));
    assert_eq!(earlier.max(later), later);
}

#[test]
fn a_repeated_press_changes_nothing() {
    for (ptt_held, barrier) in [(false, false), (true, false), (false, true)] {
        let mut policy = Policy::new(1);
        recover(&mut policy, FIRST, ptt_held, false);
        if barrier {
            policy.handle(ControlEvent::BeginBarrier(EPOCH_1));
        }
        policy.handle(ptt_down(FIRST));
        let gate = policy.devices[0].ptt_release_gate;
        for time in [30, 35] {
            let again = ControlEvent::PttDown {
                device: FIRST,
                timestamp: timestamp(time),
            };
            assert_eq!(policy.handle(again), PolicyOutcome::default());
        }
        assert!(policy.devices[0].ptt_held);
        assert_eq!(policy.devices[0].ptt_release_gate, gate);
        assert_eq!(gate, ptt_held || barrier);
    }
}

#[test]
fn a_release_undoes_a_press() {
    let prepared = |second_holds: bool, barrier: bool| {
        let mut policy = Policy::new(2);
        fresh(&mut policy, FIRST);
        fresh(&mut policy, SECOND);
        if second_holds {
            policy.handle(ptt_down(SECOND));
        }
        if barrier {
            policy.handle(ControlEvent::BeginBarrier(EPOCH_1));
        }
        policy
    };
    for (second_holds, barrier) in [(false, false), (true, false), (false, true)] {
        let mut policy = prepared(second_holds, barrier);
        let press = policy.handle(ptt_down(FIRST));
        let release = policy.handle(ptt_up(FIRST));
        assert_eq!(policy, prepared(second_holds, barrier));
        if second_holds || barrier {
            assert_eq!(press, PolicyOutcome::default());
            assert_eq!(release, PolicyOutcome::default());
        } else {
            assert_eq!(press, audio(DesiredAudio::PttTalking));
            assert_eq!(release, audio(DesiredAudio::PttIdle));
        }
    }
}

#[test]
fn both_kinds_of_loss_act_alike_and_a_second_one_is_inert() {
    let kinds = [
        ControlEvent::DeviceLost(FIRST),
        ControlEvent::SynchronizationLost(FIRST),
    ];
    for first in kinds {
        for second in kinds {
            let mut policy = Policy::new(1);
            fresh(&mut policy, FIRST);
            policy.handle(ptt_down(FIRST));
            assert_eq!(policy.handle(first), audio(DesiredAudio::PttIdle));
            assert_eq!(policy, Policy::new(1));
            assert_eq!(policy.handle(second), PolicyOutcome::default());
            assert_eq!(policy, Policy::new(1));
        }
    }
}

#[test]
fn single_steps_act_as_their_events() {
    let mut stepped = Policy::new(1);
    let mut handled = Policy::new(1);
    assert_eq!(
        stepped.recover(FIRST, false, false),
        PolicyOutcome::default()
    );
    fresh(&mut handled, FIRST);
    assert_eq!(stepped, handled);
    assert_eq!(
        stepped.ptt_down(FIRST, timestamp(30)),
        audio(DesiredAudio::PttTalking)
    );
    handled.handle(ptt_down(FIRST));
    assert_eq!(stepped, handled);
    assert_eq!(
        stepped.ptt_up(FIRST, timestamp(40)),
        audio(DesiredAudio::PttIdle)
    );
    handled.handle(ptt_up(FIRST));
    assert_eq!(stepped, handled);
    stepped.ptt_down(FIRST, timestamp(50));
    assert_eq!(stepped.lose(FIRST), audio(DesiredAudio::PttIdle));
    assert_eq!(stepped.lose(FIRST), PolicyOutcome::default());
    assert_eq!(stepped, Policy::new(1));
}
