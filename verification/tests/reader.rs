use evdev::KeyCode;
use pttd::fault::{IoError, IoErrorKind};
use pttd::input::{
    EventTime, HeldKeys, InputEvent, Key, NodeIdentity, ReaderConfig, ReaderError, EV_KEY, EV_SYN,
    SYN_DROPPED, SYN_REPORT,
};
use pttd::path::DevicePath;
use pttd::reader::{
    AfterClose, AfterSend, Query, Reader, ReaderEvent, ReaderPhase, SendOutcome,
};
use pttd::state::{ControlEvent, DeviceId, EventTimestamp, TransitionEpoch};

const NOTHING_HELD: HeldKeys = HeldKeys {
    ptt: false,
    toggle: false,
};

const PTT_HELD: HeldKeys = HeldKeys {
    ptt: true,
    toggle: false,
};

fn config() -> ReaderConfig {
    ReaderConfig {
        device: DeviceId(2),
        path: DevicePath {
            text: "/dev/input/pttd-keyboard".to_owned(),
        },
        ptt_key: Key(KeyCode::KEY_F9.code()),
        toggle_key: Key(KeyCode::KEY_F10.code()),
    }
}

fn failed(message: &str) -> IoError {
    IoError::new(IoErrorKind::Other, message)
}

fn event(event_type: u16, code: u16, value: i32, seconds: u64) -> InputEvent {
    InputEvent {
        event_type,
        code,
        value,
        time: EventTime::SinceEpoch {
            seconds,
            nanoseconds: 0,
        },
    }
}

fn recovered(held: HeldKeys) -> ControlEvent {
    ControlEvent::DeviceRecovered {
        device: DeviceId(2),
        ptt_held: held.ptt,
        toggle_held: held.toggle,
    }
}

fn sent(reader: &mut Reader) -> ControlEvent {
    let ReaderPhase::Sending { event, .. } = reader.phase else {
        panic!("nothing is sent in {:?}", reader.phase);
    };
    assert!(reader
        .step(ReaderEvent::SendEnded(SendOutcome::Sent))
        .is_none());
    event
}

fn take(reader: &mut Reader, events: Vec<ReaderEvent>) {
    for event in events {
        assert!(reader.step(event).is_none());
    }
}

fn claimed(latest: Option<TransitionEpoch>) -> Reader {
    let mut reader = Reader::new(config(), latest);
    take(
        &mut reader,
        vec![
            ReaderEvent::ShutdownFlag(false),
            ReaderEvent::EpochsOpen(true),
            ReaderEvent::Opened(Ok(())),
            ReaderEvent::ClockSelected(Ok(())),
            ReaderEvent::Identified(Ok(NodeIdentity(77))),
        ],
    );
    assert_eq!(reader.phase, ReaderPhase::Claiming(NodeIdentity(77)));
    take(&mut reader, vec![ReaderEvent::Claimed(true)]);
    reader
}

fn streaming(latest: Option<TransitionEpoch>, held: HeldKeys) -> Reader {
    let mut reader = claimed(latest);
    take(
        &mut reader,
        vec![
            ReaderEvent::MadeNonblocking(Ok(())),
            ReaderEvent::Drained(Ok(3)),
            ReaderEvent::Drained(Ok(1)),
            ReaderEvent::Drained(Err(IoError::new(IoErrorKind::WouldBlock, "would block"))),
            ReaderEvent::Queried(Ok(held)),
            ReaderEvent::ClockRead(Ok((10, 500))),
            ReaderEvent::StreamStarted(Ok(())),
        ],
    );
    reader
}

fn listening() -> Reader {
    let mut reader = streaming(None, NOTHING_HELD);
    assert_eq!(sent(&mut reader), recovered(NOTHING_HELD));
    assert_eq!(
        reader.phase,
        ReaderPhase::Listening {
            cutoff: EventTimestamp::new(10, 500)
        }
    );
    reader
}

#[test]
fn a_recovered_device_is_reported_with_the_keys_that_are_down() {
    let mut reader = streaming(None, PTT_HELD);
    assert_eq!(sent(&mut reader), recovered(PTT_HELD));
    assert!(matches!(reader.phase, ReaderPhase::Listening { .. }));
}

#[test]
fn a_device_that_missed_a_transition_reports_its_keys_for_it() {
    let mut reader = streaming(Some(TransitionEpoch(4)), PTT_HELD);
    assert_eq!(sent(&mut reader), recovered(PTT_HELD));
    assert_eq!(
        sent(&mut reader),
        ControlEvent::KeySnapshot {
            device: DeviceId(2),
            epoch: TransitionEpoch(4),
            ptt_held: true,
            toggle_held: false,
        }
    );
    assert!(matches!(reader.phase, ReaderPhase::Listening { .. }));
}

#[test]
fn key_events_after_the_cutoff_go_out_and_others_do_not() {
    let mut reader = listening();
    let f9 = KeyCode::KEY_F9.code();
    take(
        &mut reader,
        vec![
            ReaderEvent::Input(Ok(event(EV_KEY, f9, 1, 10))),
            ReaderEvent::Input(Ok(event(EV_KEY, KeyCode::KEY_A.code(), 1, 11))),
            ReaderEvent::Input(Ok(event(EV_KEY, f9, 2, 11))),
            ReaderEvent::Input(Ok(event(EV_SYN, SYN_REPORT, 0, 11))),
        ],
    );
    assert!(matches!(reader.phase, ReaderPhase::Listening { .. }));
    take(
        &mut reader,
        vec![ReaderEvent::Input(Ok(event(EV_KEY, f9, 1, 11)))],
    );
    assert_eq!(
        sent(&mut reader),
        ControlEvent::PttDown {
            device: DeviceId(2),
            timestamp: EventTimestamp::new(11, 0)
        }
    );
    assert!(matches!(reader.phase, ReaderPhase::Listening { .. }));
}

#[test]
fn a_transition_is_answered_with_a_snapshot() {
    let mut reader = listening();
    take(
        &mut reader,
        vec![ReaderEvent::EpochChanged(Some(TransitionEpoch(9)))],
    );
    assert_eq!(reader.latest_epoch, Some(TransitionEpoch(9)));
    assert_eq!(
        reader.phase,
        ReaderPhase::Querying(Query::Snapshot {
            epoch: TransitionEpoch(9),
            cutoff: EventTimestamp::new(10, 500)
        })
    );
    take(&mut reader, vec![ReaderEvent::Queried(Ok(PTT_HELD))]);
    assert_eq!(
        sent(&mut reader),
        ControlEvent::KeySnapshot {
            device: DeviceId(2),
            epoch: TransitionEpoch(9),
            ptt_held: true,
            toggle_held: false,
        }
    );
    take(&mut reader, vec![ReaderEvent::EpochChanged(None)]);
    assert_eq!(reader.latest_epoch, None);
    assert!(matches!(reader.phase, ReaderPhase::Listening { .. }));
}

#[test]
fn a_failed_snapshot_loses_the_device_and_then_retries() {
    let mut reader = listening();
    take(
        &mut reader,
        vec![ReaderEvent::EpochChanged(Some(TransitionEpoch(9)))],
    );
    let noted = reader.step(ReaderEvent::Queried(Err(failed("no keys"))));
    assert_eq!(noted.unwrap().message, "no keys");
    assert_eq!(reader.phase, ReaderPhase::Closing(AfterClose::ReportLoss));
    take(&mut reader, vec![ReaderEvent::Closed]);
    assert_eq!(sent(&mut reader), ControlEvent::DeviceLost(DeviceId(2)));
    assert_eq!(reader.phase, ReaderPhase::CheckingRetry);
    take(&mut reader, vec![ReaderEvent::ShutdownFlag(false)]);
    assert_eq!(reader.phase, ReaderPhase::Reconnecting);
    take(
        &mut reader,
        vec![
            ReaderEvent::EpochChanged(Some(TransitionEpoch(10))),
            ReaderEvent::DelayOver,
        ],
    );
    assert_eq!(reader.phase, ReaderPhase::CheckingShutdown);
    assert_eq!(reader.latest_epoch, Some(TransitionEpoch(10)));
}

#[test]
fn lost_events_are_waited_out_and_the_keys_queried_anew() {
    let mut reader = listening();
    let f9 = KeyCode::KEY_F9.code();
    take(
        &mut reader,
        vec![ReaderEvent::Input(Ok(event(EV_SYN, SYN_DROPPED, 0, 12)))],
    );
    assert_eq!(
        sent(&mut reader),
        ControlEvent::SynchronizationLost(DeviceId(2))
    );
    take(
        &mut reader,
        vec![
            ReaderEvent::Input(Ok(event(EV_KEY, f9, 1, 13))),
            ReaderEvent::Input(Ok(event(EV_SYN, SYN_REPORT, 0, 13))),
            ReaderEvent::Queried(Ok(PTT_HELD)),
            ReaderEvent::ClockRead(Ok((20, 0))),
        ],
    );
    assert_eq!(sent(&mut reader), recovered(PTT_HELD));
    assert_eq!(
        reader.phase,
        ReaderPhase::Listening {
            cutoff: EventTimestamp::new(20, 0)
        }
    );
    take(
        &mut reader,
        vec![ReaderEvent::Input(Ok(event(EV_KEY, f9, 0, 20)))],
    );
    assert!(matches!(reader.phase, ReaderPhase::Listening { .. }));
}

#[test]
fn failures_before_the_first_report_retry_without_a_loss() {
    for (events, failure, message) in [
        (0, ReaderEvent::MadeNonblocking(Err(failed("a"))), "a"),
        (
            1,
            ReaderEvent::Drained(Ok(0)),
            "input device returned an empty event batch",
        ),
        (2, ReaderEvent::Queried(Err(failed("b"))), "b"),
        (
            3,
            ReaderEvent::ClockRead(Ok((0, 1_000_000_000))),
            "invalid nanosecond value",
        ),
        (3, ReaderEvent::ClockRead(Err(failed("c"))), "c"),
        (4, ReaderEvent::StreamStarted(Err(failed("d"))), "d"),
    ] {
        let mut reader = claimed(None);
        let steps = vec![
            ReaderEvent::MadeNonblocking(Ok(())),
            ReaderEvent::Drained(Err(IoError::new(IoErrorKind::WouldBlock, "would block"))),
            ReaderEvent::Queried(Ok(NOTHING_HELD)),
            ReaderEvent::ClockRead(Ok((10, 0))),
        ];
        take(&mut reader, steps.into_iter().take(events).collect());
        assert_eq!(reader.step(failure).unwrap().message, message);
        assert_eq!(reader.phase, ReaderPhase::Closing(AfterClose::Reconnect));
        take(&mut reader, vec![ReaderEvent::Closed]);
        assert_eq!(reader.phase, ReaderPhase::CheckingRetry);
    }
}

#[test]
fn a_device_that_cannot_be_prepared_is_tried_again() {
    let mut reader = Reader::new(config(), None);
    take(
        &mut reader,
        vec![
            ReaderEvent::ShutdownFlag(false),
            ReaderEvent::EpochsOpen(true),
        ],
    );
    assert!(reader
        .step(ReaderEvent::Opened(Err(failed("no such device"))))
        .is_some());
    assert_eq!(reader.phase, ReaderPhase::CheckingRetry);

    reader.phase = ReaderPhase::SelectingClock;
    assert!(reader
        .step(ReaderEvent::ClockSelected(Err(failed("no clock"))))
        .is_some());
    assert_eq!(reader.phase, ReaderPhase::Closing(AfterClose::Reconnect));

    reader.phase = ReaderPhase::Identifying;
    assert!(reader
        .step(ReaderEvent::Identified(Err(failed("no node"))))
        .is_some());
    assert_eq!(reader.phase, ReaderPhase::Closing(AfterClose::Reconnect));

    reader.phase = ReaderPhase::Claiming(NodeIdentity(1));
    assert!(reader.step(ReaderEvent::Claimed(false)).is_none());
    assert_eq!(reader.phase, ReaderPhase::Closing(AfterClose::Reconnect));
}

#[test]
fn failures_of_a_reported_device_report_its_loss() {
    let mut reader = listening();
    let mut bad = event(EV_KEY, KeyCode::KEY_F9.code(), 1, 11);
    bad.time = EventTime::BeforeEpoch;
    assert_eq!(
        reader.step(ReaderEvent::Input(Ok(bad))).unwrap().message,
        "negative input event timestamp"
    );
    assert_eq!(reader.phase, ReaderPhase::Closing(AfterClose::ReportLoss));

    let mut reader = listening();
    assert!(reader
        .step(ReaderEvent::Input(Err(failed("gone"))))
        .is_some());
    assert_eq!(reader.phase, ReaderPhase::Closing(AfterClose::ReportLoss));

    for phase in [
        ReaderPhase::Discarding,
        ReaderPhase::Querying(Query::Recovery),
        ReaderPhase::ReadingClock {
            held: NOTHING_HELD,
            resuming: true,
        },
    ] {
        let mut reader = listening();
        reader.phase = phase;
        for event in [
            ReaderEvent::Input(Err(failed("gone"))),
            ReaderEvent::Queried(Err(failed("gone"))),
            ReaderEvent::ClockRead(Err(failed("gone"))),
        ] {
            reader.step(event);
        }
        assert_eq!(reader.phase, ReaderPhase::Closing(AfterClose::ReportLoss));
    }
}

#[test]
fn a_reader_that_is_told_to_end_does() {
    let mut reader = Reader::new(config(), None);
    take(&mut reader, vec![ReaderEvent::ShutdownFlag(true)]);
    assert_eq!(reader.phase, ReaderPhase::Finished(Ok(DeviceId(2))));

    let mut reader = listening();
    take(
        &mut reader,
        vec![ReaderEvent::ShutdownChanged, ReaderEvent::Closed],
    );
    assert_eq!(reader.phase, ReaderPhase::Finished(Ok(DeviceId(2))));

    let mut reader = streaming(None, NOTHING_HELD);
    take(
        &mut reader,
        vec![
            ReaderEvent::SendEnded(SendOutcome::ShuttingDown),
            ReaderEvent::Closed,
        ],
    );
    assert_eq!(reader.phase, ReaderPhase::Finished(Ok(DeviceId(2))));

    for phase in [ReaderPhase::CheckingRetry, ReaderPhase::Reconnecting] {
        let mut reader = listening();
        reader.phase = phase;
        take(
            &mut reader,
            vec![
                ReaderEvent::ShutdownChanged,
                ReaderEvent::ShutdownFlag(true),
            ],
        );
        assert_eq!(reader.phase, ReaderPhase::Finished(Ok(DeviceId(2))));
    }

    let mut reader = listening();
    reader.phase = ReaderPhase::Discarding;
    take(
        &mut reader,
        vec![ReaderEvent::ShutdownChanged, ReaderEvent::Closed],
    );
    assert_eq!(reader.phase, ReaderPhase::Finished(Ok(DeviceId(2))));
}

#[test]
fn closed_channels_end_a_reader_with_its_device() {
    let epochs_closed = ReaderPhase::Finished(Err(ReaderError::EpochChannelClosed(DeviceId(2))));
    let events_closed = ReaderPhase::Finished(Err(ReaderError::EventChannelClosed(DeviceId(2))));

    let mut reader = Reader::new(config(), None);
    take(
        &mut reader,
        vec![
            ReaderEvent::ShutdownFlag(false),
            ReaderEvent::EpochsOpen(false),
        ],
    );
    assert_eq!(reader.phase, epochs_closed);

    let mut reader = listening();
    take(
        &mut reader,
        vec![ReaderEvent::EpochsClosed, ReaderEvent::Closed],
    );
    assert_eq!(reader.phase, epochs_closed);

    let mut reader = listening();
    reader.phase = ReaderPhase::Reconnecting;
    take(&mut reader, vec![ReaderEvent::EpochsClosed]);
    assert_eq!(reader.phase, epochs_closed);

    let mut reader = streaming(None, NOTHING_HELD);
    take(
        &mut reader,
        vec![
            ReaderEvent::SendEnded(SendOutcome::ChannelClosed),
            ReaderEvent::Closed,
        ],
    );
    assert_eq!(reader.phase, events_closed);

    let mut reader = listening();
    reader.phase = ReaderPhase::Sending {
        event: ControlEvent::DeviceLost(DeviceId(2)),
        then: AfterSend::Reconnect,
    };
    take(
        &mut reader,
        vec![ReaderEvent::SendEnded(SendOutcome::ChannelClosed)],
    );
    assert_eq!(reader.phase, events_closed);
    take(
        &mut reader,
        vec![ReaderEvent::ShutdownFlag(false), ReaderEvent::DelayOver],
    );
    assert_eq!(reader.phase, events_closed);
}
