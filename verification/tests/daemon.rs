use pttd::audio::{AckOutcome, AudioAck, AudioError, WorkerError};
use pttd::daemon::{AfterReaders, Daemon, DaemonEvent, DaemonPhase, Purpose};
use pttd::fault::{IoError, IoErrorKind};
use pttd::input::ReaderError;
use pttd::state::{ControlEvent, DesiredAudio, DeviceId, EventTimestamp};
use pttd::supervision::{
    audio_exit_before, ended_device, join_audio, AppError, AudioExit, ReaderExit, SignalKind,
};

fn acknowledged(revision: u64) -> DaemonEvent {
    DaemonEvent::Acknowledged(Some(AudioAck {
        revision,
        outcome: AckOutcome::Applied,
    }))
}

fn signal() -> DaemonEvent {
    DaemonEvent::Signal {
        kind: SignalKind::Terminate,
        received: true,
    }
}

fn take(daemon: &mut Daemon, events: Vec<DaemonEvent>) {
    for event in events {
        assert!(daemon.step(event).is_none());
    }
}

fn running(devices: usize) -> Daemon {
    let mut daemon = Daemon::new(devices);
    take(
        &mut daemon,
        vec![acknowledged(1), DaemonEvent::ReadersLaunched],
    );
    assert!(matches!(daemon.phase, DaemonPhase::Running));
    for device in 0..devices {
        take(
            &mut daemon,
            vec![DaemonEvent::Input(Some(ControlEvent::DeviceRecovered {
                device: DeviceId(device),
                ptt_held: false,
                toggle_held: false,
            }))],
        );
    }
    daemon
}

fn ptt_down(device: usize, seconds: i64) -> DaemonEvent {
    DaemonEvent::Input(Some(ControlEvent::PttDown {
        device: DeviceId(device),
        timestamp: EventTimestamp::new(seconds, 0),
    }))
}

fn toggle_down(device: usize, seconds: i64) -> DaemonEvent {
    DaemonEvent::Input(Some(ControlEvent::ToggleDown {
        device: DeviceId(device),
        timestamp: EventTimestamp::new(seconds, 0),
    }))
}

fn broken_reader(device: usize) -> ReaderExit {
    ReaderExit::Join {
        device: DeviceId(device),
        reason: "panic".to_owned(),
    }
}

fn failure(daemon: &Daemon) -> String {
    match &daemon.phase {
        DaemonPhase::Done(Err(error)) => error.message(),
        other => panic!("no failure in {other:?}"),
    }
}

fn desired(daemon: &Daemon) -> (u64, DesiredAudio) {
    let request = daemon.controller.latest.unwrap();
    (request.revision, request.state)
}

#[test]
fn startup_gate_does_not_start_readers_before_idle_completion() {
    let mut daemon = Daemon::new(1);
    assert_eq!(desired(&daemon), (1, DesiredAudio::PttIdle));
    assert!(matches!(
        daemon.phase,
        DaemonPhase::Starting { target: 1, .. }
    ));
    take(&mut daemon, vec![DaemonEvent::ReadersLaunched]);
    assert!(matches!(daemon.phase, DaemonPhase::Starting { .. }));
    take(&mut daemon, vec![acknowledged(1)]);
    assert!(matches!(daemon.phase, DaemonPhase::LaunchingReaders));
}

#[test]
fn startup_signal_waits_for_idle_and_never_starts_reader() {
    let mut daemon = Daemon::new(1);
    take(&mut daemon, vec![signal()]);
    assert!(matches!(
        daemon.phase,
        DaemonPhase::Starting {
            signalled: true,
            ..
        }
    ));
    take(&mut daemon, vec![acknowledged(1)]);
    assert!(matches!(
        daemon.phase,
        DaemonPhase::StoppingAudio(Purpose::Startup { failure: None })
    ));
    take(
        &mut daemon,
        vec![DaemonEvent::AudioExited(AudioExit::Stopped)],
    );
    assert!(matches!(daemon.phase, DaemonPhase::Done(Ok(()))));
}

#[test]
fn a_signal_listener_that_closes_during_startup_is_the_failure() {
    let mut daemon = Daemon::new(1);
    take(
        &mut daemon,
        vec![
            DaemonEvent::Signal {
                kind: SignalKind::Interrupt,
                received: false,
            },
            signal(),
            acknowledged(1),
            DaemonEvent::AudioExited(AudioExit::Stopped),
        ],
    );
    assert_eq!(failure(&daemon), "SIGINT listener closed");

    let mut daemon = Daemon::new(1);
    take(
        &mut daemon,
        vec![
            DaemonEvent::Signal {
                kind: SignalKind::Interrupt,
                received: false,
            },
            acknowledged(1),
            DaemonEvent::AudioExited(AudioExit::Broken("task panicked".to_owned())),
        ],
    );
    assert_eq!(failure(&daemon), "task panicked");
}

#[test]
fn a_worker_that_ends_during_startup_is_the_failure() {
    let mut daemon = Daemon::new(1);
    take(
        &mut daemon,
        vec![
            DaemonEvent::Acknowledged(None),
            DaemonEvent::AudioExited(AudioExit::Stopped),
        ],
    );
    assert!(!daemon.acknowledgements_open);
    assert_eq!(
        failure(&daemon),
        "audio worker stopped before startup idle acknowledgement"
    );
}

#[test]
fn a_signal_in_push_to_talk_mode_mutes_before_anything_stops() {
    let mut daemon = running(1);
    take(&mut daemon, vec![ptt_down(0, 5)]);
    assert_eq!(desired(&daemon), (2, DesiredAudio::PttTalking));
    take(&mut daemon, vec![signal()]);
    assert_eq!(desired(&daemon), (3, DesiredAudio::PttIdle));
    take(&mut daemon, vec![acknowledged(2), ptt_down(0, 6)]);
    assert!(matches!(
        daemon.phase,
        DaemonPhase::AwaitingTarget {
            target: 3,
            readers_stopped: false,
            ..
        }
    ));
    take(&mut daemon, vec![acknowledged(3)]);
    assert!(matches!(
        daemon.phase,
        DaemonPhase::StoppingReaders(AfterReaders::StopAudio(Purpose::Graceful))
    ));
    take(&mut daemon, vec![DaemonEvent::ReadersStopped]);
    assert!(matches!(
        daemon.phase,
        DaemonPhase::StoppingAudio(Purpose::Graceful)
    ));
    assert_eq!(desired(&daemon), (3, DesiredAudio::PttIdle));
    take(
        &mut daemon,
        vec![DaemonEvent::AudioExited(AudioExit::Stopped)],
    );
    assert!(matches!(daemon.phase, DaemonPhase::Done(Ok(()))));
}

#[test]
fn a_signal_in_open_mode_leaves_the_microphone_open() {
    let mut daemon = running(1);
    take(&mut daemon, vec![toggle_down(0, 5)]);
    assert_eq!(desired(&daemon), (2, DesiredAudio::Open));
    take(&mut daemon, vec![signal()]);
    assert!(matches!(
        daemon.phase,
        DaemonPhase::StoppingReaders(AfterReaders::Await {
            target: 2,
            purpose: Purpose::Graceful
        })
    ));
    take(
        &mut daemon,
        vec![
            DaemonEvent::ReadersStopped,
            DaemonEvent::Input(None),
            acknowledged(2),
            DaemonEvent::AudioExited(AudioExit::Failed(
                WorkerError::AcknowledgementChannelClosed,
            )),
        ],
    );
    assert_eq!(desired(&daemon), (2, DesiredAudio::Open));
    assert_eq!(failure(&daemon), "audio acknowledgement channel closed");
}

#[test]
fn a_reader_that_ends_mutes_and_is_the_failure() {
    let mut daemon = running(2);
    take(&mut daemon, vec![ptt_down(1, 5)]);
    take(
        &mut daemon,
        vec![DaemonEvent::ReaderExited(Some(broken_reader(1)))],
    );
    assert_eq!(desired(&daemon), (3, DesiredAudio::PttIdle));
    assert!(matches!(
        daemon.phase,
        DaemonPhase::AwaitingTarget { target: 3, .. }
    ));
    let noted = daemon.step(DaemonEvent::ReaderExited(Some(ReaderExit::Returned {
        expected: DeviceId(0),
        result: Ok(DeviceId(0)),
    })));
    assert_eq!(
        noted.unwrap().message(),
        "reader 0 terminated unexpectedly (returned identity 0)"
    );
    take(
        &mut daemon,
        vec![acknowledged(3), DaemonEvent::ReadersStopped],
    );
    let noted = daemon.step(DaemonEvent::AudioExited(AudioExit::Broken(
        "cancelled".to_owned(),
    )));
    assert_eq!(
        noted.unwrap().message(),
        "audio worker failed during fatal cleanup: cancelled"
    );
    assert_eq!(
        failure(&daemon),
        "reader 1 task terminated unexpectedly: panic"
    );
}

#[test]
fn a_reader_that_ends_without_a_hold_mutes_anew() {
    let mut daemon = running(1);
    take(
        &mut daemon,
        vec![DaemonEvent::ReaderExited(Some(broken_reader(0)))],
    );
    assert_eq!(desired(&daemon), (2, DesiredAudio::PttIdle));
    let noted = daemon.step(DaemonEvent::AudioExited(AudioExit::Stopped));
    assert_eq!(
        noted.unwrap().message(),
        "audio worker stopped before required audio acknowledgement"
    );
    assert!(matches!(
        daemon.phase,
        DaemonPhase::StoppingReaders(AfterReaders::Finish(Err(_)))
    ));
    take(&mut daemon, vec![DaemonEvent::ReadersStopped]);
    assert_eq!(
        failure(&daemon),
        "reader 0 task terminated unexpectedly: panic"
    );
}

#[test]
fn a_failure_in_open_mode_stops_the_readers_and_leaves_the_microphone_open() {
    let mut daemon = running(1);
    take(
        &mut daemon,
        vec![
            toggle_down(0, 5),
            DaemonEvent::Input(None),
            DaemonEvent::ReadersStopped,
            acknowledged(2),
            DaemonEvent::AudioExited(AudioExit::Stopped),
        ],
    );
    assert_eq!(desired(&daemon), (2, DesiredAudio::Open));
    assert_eq!(
        failure(&daemon),
        "input event channel closed unexpectedly"
    );
}

#[test]
fn every_fatal_reason_is_described() {
    for (event, message) in [
        (
            DaemonEvent::Input(None),
            "input event channel closed unexpectedly",
        ),
        (
            DaemonEvent::ReaderExited(None),
            "reader supervisor lost task identity",
        ),
        (
            DaemonEvent::Signal {
                kind: SignalKind::Terminate,
                received: false,
            },
            "SIGTERM listener closed",
        ),
    ] {
        let mut daemon = running(1);
        take(
            &mut daemon,
            vec![
                event,
                acknowledged(2),
                DaemonEvent::ReadersStopped,
                DaemonEvent::AudioExited(AudioExit::Stopped),
            ],
        );
        assert_eq!(failure(&daemon), message);
    }
}

#[test]
fn a_worker_that_ends_while_running_ends_the_readers_and_the_daemon() {
    let mut daemon = running(1);
    take(
        &mut daemon,
        vec![
            DaemonEvent::AudioExited(AudioExit::Failed(WorkerError::Audio(AudioError::Reap {
                operation: "mute default source",
                source: IoError::new(IoErrorKind::Other, "gone"),
            }))),
            DaemonEvent::ReadersStopped,
        ],
    );
    assert_eq!(
        failure(&daemon),
        "audio worker failed before controller shutdown: failed to reap after incomplete mute \
         default source: gone"
    );
}

#[test]
fn revisions_that_run_out_end_the_daemon() {
    let mut daemon = running(1);
    daemon.controller.next_revision = u64::MAX;
    take(&mut daemon, vec![signal()]);
    assert_eq!(failure(&daemon), "audio revision overflow");

    let mut daemon = running(1);
    daemon.controller.next_revision = u64::MAX;
    let noted = daemon.step(DaemonEvent::Input(None));
    assert_eq!(noted.unwrap().message(), "audio revision overflow");
    assert_eq!(
        failure(&daemon),
        "input event channel closed unexpectedly"
    );

    let mut daemon = running(1);
    take(&mut daemon, vec![ptt_down(0, 5)]);
    daemon.controller.next_revision = u64::MAX;
    take(
        &mut daemon,
        vec![DaemonEvent::ReaderExited(Some(broken_reader(0)))],
    );
    assert_eq!(failure(&daemon), "audio revision overflow");
}

#[test]
fn worker_fatal_is_observed_before_required_ack() {
    let error = audio_exit_before(
        "required audio acknowledgement",
        AudioExit::Failed(WorkerError::AcknowledgementChannelClosed),
    );
    assert!(error.message().contains("acknowledgement channel closed"));
    let mut daemon = running(1);
    take(
        &mut daemon,
        vec![
            signal(),
            DaemonEvent::AudioExited(AudioExit::Failed(
                WorkerError::AcknowledgementChannelClosed,
            )),
        ],
    );
    assert!(matches!(
        daemon.phase,
        DaemonPhase::StoppingReaders(AfterReaders::Finish(Err(_)))
    ));
    take(&mut daemon, vec![DaemonEvent::ReadersStopped]);
    assert_eq!(failure(&daemon), error.message());
}

#[test]
fn a_reader_task_of_no_known_device_is_no_configured_one() {
    assert_eq!(ended_device(Some(DeviceId(4))), DeviceId(4));
    assert_eq!(ended_device(None), DeviceId(usize::MAX));
}

#[test]
fn ends_of_readers_name_their_device() {
    let exit = broken_reader(4);
    assert_eq!(exit.device(), DeviceId(4));
    assert_eq!(
        exit.describe(),
        "reader 4 task terminated unexpectedly: panic"
    );
    let exit = ReaderExit::Returned {
        expected: DeviceId(3),
        result: Err(ReaderError::EpochChannelClosed(DeviceId(3))),
    };
    assert_eq!(exit.device(), DeviceId(3));
    assert_eq!(
        exit.describe(),
        "reader 3 terminated unexpectedly: epoch channel closed for reader 3"
    );
    assert_eq!(
        AppError::ReaderTerminated(exit).message(),
        "reader 3 terminated unexpectedly: epoch channel closed for reader 3"
    );
}

#[test]
fn failures_of_the_daemon_are_described() {
    for (error, message) in [
        (
            AppError::NoStartupIdle,
            "policy did not request startup idle",
        ),
        (
            AppError::OpenShutdownWithoutRequest,
            "OPEN shutdown has no published OPEN request",
        ),
        (
            AppError::OpenCleanupWithoutRequest,
            "OPEN fatal cleanup has no published OPEN request",
        ),
        (
            audio_exit_before("controller shutdown", AudioExit::Broken("panic".to_owned())),
            "audio worker task failed before controller shutdown: panic",
        ),
    ] {
        assert_eq!(error.message(), message);
    }
    assert!(join_audio(AudioExit::Stopped).is_ok());
    assert_eq!(
        join_audio(AudioExit::Broken("panic".to_owned()))
            .unwrap_err()
            .message(),
        "panic"
    );
}
