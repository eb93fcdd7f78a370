use std::collections::HashSet;
use std::time::{Duration, SystemTime, UNIX_EPOCH};

use evdev::{AttributeSet, EventType, KeyCode, SynchronizationCode};
use pttd::fault::{IoError, IoErrorKind};
use pttd::path::DevicePath;
use pttd::input::{
    decide, disconnect_plan, event_timestamp, held_keys, normalize_key, raw_drain_step,
    recovered_event, snapshot_decision, snapshot_event, synchronization_lost_event,
    timestamp_from_system_time, timestamp_from_timespec, Decision, DisconnectStep, EventTime,
    HeldKeys, InputEvent, Key, NodeClaims, NodeIdentity, RawDrainStep, ReaderConfig, ReaderError,
    SnapshotDecision, EV_KEY, EV_SYN, SYN_DROPPED, SYN_REPORT,
};
use pttd::state::{ControlEvent, DeviceId, EventTimestamp, TransitionEpoch};

const F9: Key = Key(KeyCode::KEY_F9.0);
const F10: Key = Key(KeyCode::KEY_F10.0);

fn config(device: usize) -> ReaderConfig {
    ReaderConfig {
        device: DeviceId(device),
        path: DevicePath {
            text: "/unused".to_owned(),
        },
        ptt_key: F9,
        toggle_key: F10,
    }
}

fn time_of(timestamp: SystemTime) -> EventTime {
    match timestamp.duration_since(UNIX_EPOCH) {
        Ok(duration) => EventTime::SinceEpoch {
            seconds: duration.as_secs(),
            nanoseconds: duration.subsec_nanos(),
        },
        Err(_) => EventTime::BeforeEpoch,
    }
}

fn converted(event: evdev::InputEvent) -> InputEvent {
    InputEvent {
        event_type: event.event_type().0,
        code: event.code(),
        value: event.value(),
        time: time_of(event.timestamp()),
    }
}

fn event(event_type: EventType, code: u16, value: i32) -> InputEvent {
    converted(evdev::InputEvent::new(event_type.0, code, value))
}

#[test]
fn normalizes_tagged_keys_and_filters_repeats_and_movement() {
    let config = config(3);
    let cutoff = EventTimestamp::new(10, 0);
    let timestamp = EventTimestamp::new(11, 0);
    assert_eq!(
        normalize_key(F9, 1, timestamp, &config, cutoff).unwrap(),
        Decision::Emit(ControlEvent::PttDown {
            device: DeviceId(3),
            timestamp,
        })
    );
    assert_eq!(
        normalize_key(F10, 0, timestamp, &config, cutoff).unwrap(),
        Decision::Emit(ControlEvent::ToggleUp {
            device: DeviceId(3),
            timestamp,
        })
    );
    assert_eq!(
        decide(
            event(EventType::KEY, KeyCode::KEY_F9.code(), 2),
            &config,
            false,
            cutoff,
        )
        .unwrap(),
        Decision::Ignore
    );
    assert_eq!(
        decide(event(EventType::RELATIVE, 0, 4), &config, false, cutoff).unwrap(),
        Decision::Ignore
    );
}

#[test]
fn recovery_cutoff_discards_down_and_up_at_or_before_it() {
    let config = config(0);
    let cutoff = EventTimestamp::new(10, 500);
    for (value, timestamp) in [(1, EventTimestamp::new(9, 999_999_999)), (0, cutoff)] {
        assert_eq!(
            normalize_key(F9, value, timestamp, &config, cutoff).unwrap(),
            Decision::Ignore
        );
    }
    assert!(matches!(
        normalize_key(F9, 1, EventTimestamp::new(10, 501), &config, cutoff).unwrap(),
        Decision::Emit(ControlEvent::PttDown { .. })
    ));
}

#[test]
fn conservative_same_microsecond_recovery_tie_is_discarded_until_next_microsecond() {
    let config = config(0);
    let cutoff = EventTimestamp::new(10, 123_456_789);
    assert_eq!(
        normalize_key(F9, 1, EventTimestamp::new(10, 123_456_000), &config, cutoff).unwrap(),
        Decision::Ignore
    );
    assert_eq!(
        normalize_key(F9, 1, EventTimestamp::new(10, 123_457_000), &config, cutoff).unwrap(),
        Decision::Emit(ControlEvent::PttDown {
            device: DeviceId(0),
            timestamp: EventTimestamp::new(10, 123_457_000),
        })
    );
}

#[test]
fn synchronization_boundary_discards_through_report() {
    let config = config(0);
    assert_eq!(
        decide(
            event(
                EventType::SYNCHRONIZATION,
                SynchronizationCode::SYN_DROPPED.0,
                0,
            ),
            &config,
            false,
            EventTimestamp::new(10, 0),
        )
        .unwrap(),
        Decision::BeginSynchronization
    );
    assert_eq!(
        decide(
            event(EventType::KEY, KeyCode::KEY_F9.code(), 1),
            &config,
            true,
            EventTimestamp::new(10, 0),
        )
        .unwrap(),
        Decision::Ignore
    );
    assert_eq!(
        decide(
            event(
                EventType::SYNCHRONIZATION,
                SynchronizationCode::SYN_REPORT.0,
                0,
            ),
            &config,
            true,
            EventTimestamp::new(10, 0),
        )
        .unwrap(),
        Decision::CompleteSynchronization
    );
    assert_eq!(
        [
            synchronization_lost_event(DeviceId(0)),
            recovered_event(
                DeviceId(0),
                HeldKeys {
                    ptt: true,
                    toggle: false,
                },
            ),
            snapshot_event(
                DeviceId(0),
                TransitionEpoch(4),
                HeldKeys {
                    ptt: true,
                    toggle: false,
                },
            ),
        ],
        [
            ControlEvent::SynchronizationLost(DeviceId(0)),
            ControlEvent::DeviceRecovered {
                device: DeviceId(0),
                ptt_held: true,
                toggle_held: false,
            },
            ControlEvent::KeySnapshot {
                device: DeviceId(0),
                epoch: TransitionEpoch(4),
                ptt_held: true,
                toggle_held: false,
            },
        ]
    );
}

#[test]
fn same_rdev_claim_is_exclusive() {
    let mut claims = NodeClaims::new();
    let identity = NodeIdentity(123);
    let first = claims.try_acquire(identity);
    assert!(first);
    assert!(!claims.try_acquire(identity));
    assert!(claims.try_acquire(NodeIdentity(124)));
}

#[test]
fn lease_release_allows_reacquisition() {
    let mut claims = NodeClaims::new();
    let identity = NodeIdentity(123);
    assert!(claims.try_acquire(identity));
    claims.release(identity);
    assert!(claims.try_acquire(identity));
}

#[test]
fn giving_up_one_claim_keeps_the_others() {
    let mut claims = NodeClaims::default();
    assert!(claims.try_acquire(NodeIdentity(1)));
    assert!(claims.try_acquire(NodeIdentity(2)));
    claims.release(NodeIdentity(1));
    assert!(!claims.try_acquire(NodeIdentity(2)));
    assert!(claims.try_acquire(NodeIdentity(1)));
}

#[test]
fn timestamp_conversion_and_comparison_share_one_representation() {
    let timespec = timestamp_from_timespec(12, 345_678_000).unwrap();
    let system =
        timestamp_from_system_time(time_of(UNIX_EPOCH + Duration::new(12, 345_678_000))).unwrap();
    assert_eq!(timespec, system);
    assert!(EventTimestamp::new(12, 345_677_999) < timespec);
    assert_eq!(
        event_timestamp(&event(EventType::KEY, 1, 1)).unwrap(),
        EventTimestamp::new(0, 0)
    );
}

#[test]
fn improper_times_are_refused() {
    for nanoseconds in [-1, 1_000_000_000, i64::MAX, i64::MIN] {
        let error = timestamp_from_timespec(0, nanoseconds).unwrap_err();
        assert_eq!(error.kind, IoErrorKind::InvalidData);
        assert_eq!(error.message, "invalid nanosecond value");
    }
    assert_eq!(
        timestamp_from_timespec(-5, 999_999_999).unwrap(),
        EventTimestamp::new(-5, 999_999_999)
    );
    let error =
        timestamp_from_system_time(time_of(UNIX_EPOCH - Duration::new(1, 0))).unwrap_err();
    assert_eq!(error.kind, IoErrorKind::InvalidData);
    assert_eq!(error.message, "negative input event timestamp");
    let error = timestamp_from_system_time(EventTime::SinceEpoch {
        seconds: 1 << 63,
        nanoseconds: 0,
    })
    .unwrap_err();
    assert_eq!(error.kind, IoErrorKind::InvalidData);
    assert_eq!(error.message, "input timestamp overflow");
    assert_eq!(
        timestamp_from_system_time(EventTime::SinceEpoch {
            seconds: (1 << 63) - 1,
            nanoseconds: 1,
        })
        .unwrap(),
        EventTimestamp::new(i64::MAX, 1)
    );
}

#[test]
fn an_improper_time_matters_only_for_a_configured_key() {
    let config = config(0);
    let cutoff = EventTimestamp::new(10, 0);
    let mut press = event(EventType::KEY, KeyCode::KEY_F9.code(), 1);
    press.time = EventTime::BeforeEpoch;
    assert_eq!(
        decide(press, &config, false, cutoff).unwrap_err().message,
        "negative input event timestamp"
    );
    press.code = KeyCode::KEY_F8.code();
    assert_eq!(
        decide(press, &config, false, cutoff).unwrap(),
        Decision::Ignore
    );
    press.code = KeyCode::KEY_F10.code();
    press.value = 2;
    assert_eq!(
        decide(press, &config, false, cutoff).unwrap(),
        Decision::Ignore
    );
}

#[test]
fn raw_drain_continues_through_batches_and_stops_only_at_would_block() {
    assert!(matches!(raw_drain_step(Ok(3)), RawDrainStep::Continue));
    assert!(matches!(raw_drain_step(Ok(1)), RawDrainStep::Continue));
    assert!(matches!(
        raw_drain_step(Err(IoError::new(IoErrorKind::WouldBlock, "operation would block"))),
        RawDrainStep::Complete
    ));
    let RawDrainStep::Error(error) = raw_drain_step(Err(IoError::new(
        IoErrorKind::PermissionDenied,
        "permission denied",
    ))) else {
        panic!("non-WouldBlock error was not propagated");
    };
    assert_eq!(error.kind, IoErrorKind::PermissionDenied);
}

#[test]
fn an_empty_batch_is_an_error() {
    let RawDrainStep::Error(error) = raw_drain_step(Ok(0)) else {
        panic!("an empty batch was accepted");
    };
    assert_eq!(error.kind, IoErrorKind::UnexpectedEof);
    assert_eq!(error.message, "input device returned an empty event batch");
}

#[test]
fn snapshot_query_failure_disconnects_for_loss_and_retry() {
    assert_eq!(
        snapshot_decision(&config(0), TransitionEpoch(1), Err(())),
        SnapshotDecision::Disconnect
    );
    assert_eq!(
        disconnect_plan(DeviceId(0)),
        [
            DisconnectStep::EmitLoss(ControlEvent::DeviceLost(DeviceId(0))),
            DisconnectStep::Retry,
        ]
    );
}

#[test]
fn a_snapshot_reports_the_held_keys() {
    assert_eq!(
        snapshot_decision(
            &config(5),
            TransitionEpoch(7),
            Ok(HeldKeys {
                ptt: false,
                toggle: true
            })
        ),
        SnapshotDecision::Emit(ControlEvent::KeySnapshot {
            device: DeviceId(5),
            epoch: TransitionEpoch(7),
            ptt_held: false,
            toggle_held: true,
        })
    );
}

#[test]
fn held_keys_are_found_in_the_reported_set() {
    let none: AttributeSet<KeyCode> = AttributeSet::new();
    let mut toggle: AttributeSet<KeyCode> = AttributeSet::new();
    toggle.insert(KeyCode::KEY_F10);
    toggle.insert(KeyCode::KEY_A);
    let both: AttributeSet<KeyCode> = [KeyCode::KEY_F9, KeyCode::KEY_F10].into_iter().collect();
    for (keys, ptt_down, toggle_down) in
        [(none, false, false), (toggle, false, true), (both, true, true)]
    {
        assert_eq!(
            held_keys(&keys, &config(0)),
            HeldKeys {
                ptt: ptt_down,
                toggle: toggle_down
            }
        );
    }
    let mut odd = config(0);
    odd.ptt_key = Key(u16::MAX);
    let keys: AttributeSet<KeyCode> = [KeyCode::KEY_F9].into_iter().collect();
    assert_eq!(
        held_keys(&keys, &odd),
        HeldKeys {
            ptt: false,
            toggle: false
        }
    );
}

#[test]
fn the_event_codes_are_those_of_the_kernel() {
    assert_eq!(EV_SYN, EventType::SYNCHRONIZATION.0);
    assert_eq!(EV_KEY, EventType::KEY.0);
    assert_eq!(SYN_REPORT, SynchronizationCode::SYN_REPORT.0);
    assert_eq!(SYN_DROPPED, SynchronizationCode::SYN_DROPPED.0);
}

#[test]
fn reader_errors_name_their_device() {
    let error = ReaderError::EventChannelClosed(DeviceId(3));
    assert_eq!(error.device(), DeviceId(3));
    assert_eq!(error.message(), "event channel closed for reader 3");
    let error = ReaderError::EpochChannelClosed(DeviceId(12));
    assert_eq!(error.device(), DeviceId(12));
    assert_eq!(error.message(), "epoch channel closed for reader 12");
}

#[test]
fn node_identities_can_be_told_apart_by_hashing() {
    let nodes: HashSet<NodeIdentity> = [NodeIdentity(1), NodeIdentity(2), NodeIdentity(1)]
        .into_iter()
        .collect();
    assert_eq!(nodes.len(), 2);
}

#[test]
fn watch_coalesces_to_latest_epoch() {
    let (sender, mut receiver) = tokio::sync::watch::channel(None);
    sender.send(Some(TransitionEpoch(1))).unwrap();
    sender.send(Some(TransitionEpoch(2))).unwrap();
    assert!(receiver.has_changed().unwrap());
    assert_eq!(*receiver.borrow_and_update(), Some(TransitionEpoch(2)));
}
