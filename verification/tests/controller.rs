use pttd::audio::{AckOutcome, AudioAck, DesiredRequest};
use pttd::controller::{Controller, ControllerMode, EventEffect};
use pttd::state::{
    ControlEvent, DesiredAudio, DeviceId, EventTimestamp, Mode, TransitionEpoch,
};
use pttd::supervision::AppError;
use tokio::sync::watch;

fn timestamp(value: i64) -> EventTimestamp {
    EventTimestamp::new(value, 0)
}

fn recover(controller: &mut Controller, device: DeviceId) {
    controller
        .handle(ControlEvent::DeviceRecovered {
            device,
            ptt_held: false,
            toggle_held: false,
        })
        .unwrap();
}

fn acknowledged(revision: u64) -> AudioAck {
    AudioAck {
        revision,
        outcome: AckOutcome::Applied,
    }
}

#[test]
fn barrier_excludes_unavailable_ignores_stale_and_replaces_without_blocking() {
    let mut controller = Controller::new(2);
    recover(&mut controller, DeviceId(0));
    let first = controller
        .handle(ControlEvent::ToggleDown {
            device: DeviceId(0),
            timestamp: timestamp(10),
        })
        .unwrap();
    assert_eq!(first.published, Some(1));
    assert_eq!(controller.latest.unwrap().state, DesiredAudio::Open);
    assert_eq!(first.began_epoch, Some(TransitionEpoch(1)));
    assert_eq!(controller.epochs[0], Some(TransitionEpoch(1)));
    assert_eq!(controller.epochs[1], None);
    assert_eq!(controller.pending.as_ref().unwrap().awaiting.len(), 1);

    controller
        .handle(ControlEvent::KeySnapshot {
            device: DeviceId(0),
            epoch: TransitionEpoch(0),
            ptt_held: false,
            toggle_held: false,
        })
        .unwrap();
    assert_eq!(
        controller.pending.as_ref().unwrap().epoch,
        TransitionEpoch(1)
    );

    controller
        .handle(ControlEvent::ToggleUp {
            device: DeviceId(0),
            timestamp: timestamp(11),
        })
        .unwrap();
    let second = controller
        .handle(ControlEvent::ToggleDown {
            device: DeviceId(0),
            timestamp: timestamp(20),
        })
        .unwrap();
    assert_eq!(second.published, Some(2));
    assert_eq!(second.began_epoch, Some(TransitionEpoch(2)));
    assert_eq!(controller.epochs[0], Some(TransitionEpoch(2)));
    assert_eq!(
        controller.pending.as_ref().unwrap().epoch,
        TransitionEpoch(2)
    );
    controller
        .handle(ControlEvent::KeySnapshot {
            device: DeviceId(0),
            epoch: TransitionEpoch(1),
            ptt_held: true,
            toggle_held: false,
        })
        .unwrap();
    assert!(controller.pending.is_some());
    let completion = controller
        .handle(ControlEvent::KeySnapshot {
            device: DeviceId(0),
            epoch: TransitionEpoch(2),
            ptt_held: false,
            toggle_held: false,
        })
        .unwrap();
    assert_eq!(completion.completed_epoch, Some(TransitionEpoch(2)));
}

#[test]
fn timestamped_event_is_forwarded_unchanged_to_policy() {
    let mut controller = Controller::new(1);
    recover(&mut controller, DeviceId(0));
    let event = ControlEvent::PttDown {
        device: DeviceId(0),
        timestamp: timestamp(37),
    };
    assert_eq!(controller.handle(event).unwrap().published, Some(1));
    assert_eq!(controller.latest.unwrap().state, DesiredAudio::PttTalking);
}

#[test]
fn final_hold_loss_publishes_idle_before_fatal_cleanup() {
    let mut controller = Controller::new(1);
    recover(&mut controller, DeviceId(0));
    controller
        .handle(ControlEvent::PttDown {
            device: DeviceId(0),
            timestamp: timestamp(1),
        })
        .unwrap();
    let effect = controller
        .handle(ControlEvent::DeviceLost(DeviceId(0)))
        .unwrap();
    assert_eq!(effect.published, Some(2));
    let published = DesiredRequest {
        revision: 2,
        state: DesiredAudio::PttIdle,
    };
    assert_eq!(controller.latest, Some(published));
    assert_eq!(
        controller.fatal_cleanup_target(effect.published).unwrap(),
        (ControllerMode::Ptt, 2)
    );
    assert_eq!(controller.latest, Some(published));
}

#[test]
fn open_reader_and_generic_fatal_targets_do_not_supersede_open() {
    let mut open_controller = Controller::new(1);
    let open = open_controller.publish(DesiredAudio::Open).unwrap();
    let loss_revision = open_controller
        .handle(ControlEvent::DeviceLost(DeviceId(0)))
        .unwrap()
        .published;
    assert_eq!(
        open_controller.fatal_cleanup_target(loss_revision).unwrap(),
        (ControllerMode::Open, open)
    );
    assert_eq!(
        open_controller.fatal_cleanup_target(None).unwrap(),
        (ControllerMode::Open, open)
    );
    assert_eq!(open_controller.latest.unwrap().revision, open);
}

#[test]
fn ptt_generic_fatal_target_publishes_idle() {
    let mut ptt_controller = Controller::new(1);
    let talking = ptt_controller.publish(DesiredAudio::PttTalking).unwrap();
    assert_eq!(
        ptt_controller.fatal_cleanup_target(None).unwrap(),
        (ControllerMode::Ptt, talking + 1)
    );
    assert_eq!(ptt_controller.latest.unwrap().state, DesiredAudio::PttIdle);
}

#[test]
fn acknowledgement_tracking_proves_open_without_mute_and_rejects_stale_ack() {
    let mut controller = Controller::new(1);
    let open = controller.publish(DesiredAudio::Open).unwrap();
    controller.record_ack(acknowledged(open));
    controller.record_ack(acknowledged(open - 1));
    assert!(controller.target_complete(open));
    assert_eq!(controller.mode(), ControllerMode::Open);
    assert_eq!(controller.latest.unwrap().state, DesiredAudio::Open);
}

#[test]
fn ptt_idle_ack_precedes_reader_stop_and_pending_open_ack_precedes_audio_stop() {
    let mut controller = Controller::new(1);
    let idle = controller.publish(DesiredAudio::PttIdle).unwrap();
    let (reader_stop_tx, reader_stop_rx) = watch::channel(false);
    assert!(!*reader_stop_rx.borrow());
    assert!(!controller.target_complete(idle));
    controller.record_ack(acknowledged(idle));
    assert!(controller.target_complete(idle));
    reader_stop_tx.send_replace(true);
    assert!(reader_stop_rx.has_changed().unwrap());

    let open = controller.publish(DesiredAudio::Open).unwrap();
    let (audio_stop_tx, audio_stop_rx) = watch::channel(false);
    assert!(!controller.target_complete(open));
    assert!(!*audio_stop_rx.borrow());
    controller.record_ack(AudioAck {
        revision: open,
        outcome: AckOutcome::HandledFailure,
    });
    assert!(controller.target_complete(open));
    audio_stop_tx.send_replace(true);
    assert!(audio_stop_rx.has_changed().unwrap());
    assert_eq!(controller.latest.unwrap().state, DesiredAudio::Open);
}

#[test]
fn a_barrier_without_readable_devices_completes_at_once() {
    let mut controller = Controller::new(1);
    let epoch = controller.begin_barrier().unwrap();
    assert_eq!(epoch, TransitionEpoch(1));
    assert!(controller.pending.is_none());
    assert_eq!(controller.policy.pending_epoch, None);
    assert_eq!(controller.epochs, [None]);
}

#[test]
fn a_lost_device_does_not_block_a_barrier() {
    let mut controller = Controller::new(3);
    recover(&mut controller, DeviceId(0));
    recover(&mut controller, DeviceId(2));
    controller
        .handle(ControlEvent::ToggleDown {
            device: DeviceId(2),
            timestamp: timestamp(5),
        })
        .unwrap();
    assert_eq!(
        controller.epochs,
        [Some(TransitionEpoch(1)), None, Some(TransitionEpoch(1))]
    );
    let partial = controller
        .handle(ControlEvent::SynchronizationLost(DeviceId(0)))
        .unwrap();
    assert_eq!(partial, EventEffect::default());
    let last = controller
        .handle(ControlEvent::DeviceLost(DeviceId(2)))
        .unwrap();
    assert_eq!(last.completed_epoch, Some(TransitionEpoch(1)));
    assert_eq!(controller.policy.pending_epoch, None);
}

#[test]
fn the_latest_request_follows_the_keys() {
    let mut controller = Controller::new(2);
    let started = controller.handle(ControlEvent::Startup).unwrap();
    assert_eq!(started.published, Some(1));
    recover(&mut controller, DeviceId(0));
    recover(&mut controller, DeviceId(1));
    let mut states = vec![controller.latest.unwrap().state];
    for event in [
        ControlEvent::PttDown {
            device: DeviceId(0),
            timestamp: timestamp(1),
        },
        ControlEvent::PttDown {
            device: DeviceId(1),
            timestamp: timestamp(2),
        },
        ControlEvent::PttUp {
            device: DeviceId(0),
            timestamp: timestamp(3),
        },
        ControlEvent::ToggleDown {
            device: DeviceId(0),
            timestamp: timestamp(4),
        },
        ControlEvent::PttUp {
            device: DeviceId(1),
            timestamp: timestamp(5),
        },
    ] {
        controller.handle(event).unwrap();
        states.push(controller.latest.unwrap().state);
    }
    assert_eq!(
        states,
        [
            DesiredAudio::PttIdle,
            DesiredAudio::PttTalking,
            DesiredAudio::PttTalking,
            DesiredAudio::PttTalking,
            DesiredAudio::Open,
            DesiredAudio::Open,
        ]
    );
    assert_eq!(controller.latest.unwrap().revision, 3);
    assert_eq!(controller.policy.mode, Mode::Open);
    assert_eq!(controller.mode(), ControllerMode::Open);
}

#[test]
fn a_frozen_controller_observes_and_publishes_nothing() {
    let mut controller = Controller::new(1);
    recover(&mut controller, DeviceId(0));
    controller.observe_frozen(ControlEvent::PttDown {
        device: DeviceId(0),
        timestamp: timestamp(1),
    });
    assert_eq!(controller.latest, None);
    assert!(controller.policy.devices[0].ptt_held);
    controller.begin_barrier().unwrap();
    controller.observe_frozen(ControlEvent::DeviceLost(DeviceId(0)));
    assert!(controller.pending.as_ref().unwrap().awaiting.is_empty());
    assert!(controller.recovered.is_empty());
}

#[test]
fn numbers_that_run_out_are_reported() {
    let mut controller = Controller::new(1);
    recover(&mut controller, DeviceId(0));
    controller.next_revision = u64::MAX;
    let error = controller.publish(DesiredAudio::Open).unwrap_err();
    assert!(matches!(error, AppError::RevisionOverflow));
    assert_eq!(error.message(), "audio revision overflow");
    assert!(matches!(
        controller.fatal_cleanup_target(None),
        Err(AppError::RevisionOverflow)
    ));
    assert!(matches!(
        controller.handle(ControlEvent::Startup),
        Err(AppError::RevisionOverflow)
    ));
    assert_eq!(controller.latest, None);

    let mut controller = Controller::new(1);
    recover(&mut controller, DeviceId(0));
    controller.epoch = u64::MAX;
    let error = controller
        .handle(ControlEvent::ToggleDown {
            device: DeviceId(0),
            timestamp: timestamp(1),
        })
        .unwrap_err();
    assert!(matches!(error, AppError::EpochOverflow));
    assert_eq!(error.message(), "transition epoch overflow");
    assert_eq!(controller.latest.unwrap().state, DesiredAudio::Open);
    assert!(controller.pending.is_none());
}

#[test]
fn a_shutdown_while_nothing_is_held_asks_for_idle_again() {
    let mut controller = Controller::new(1);
    controller.handle(ControlEvent::Startup).unwrap();
    let effect = controller.handle(ControlEvent::Shutdown).unwrap();
    assert_eq!(effect.published, Some(2));
    assert_eq!(controller.latest.unwrap().state, DesiredAudio::PttIdle);
}
