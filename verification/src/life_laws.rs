//! What the daemon does about each thing that happens, from startup to shutdown.

use vstd::prelude::*;

use crate::audio::{AudioAck, DesiredRequest, WorkerError};
use crate::controller::{ControllerMode, ControllerView};
use crate::daemon::{AfterReaders, Daemon, DaemonEvent, DaemonPhase, DaemonView, Purpose};
use crate::state::{ControlEvent, DesiredAudio, DeviceId};
use crate::supervision::{AppError, AudioExit, ReaderExit, SignalKind};

verus! {

/// A daemon starts with the request for a muted microphone published under the first revision, and
/// waits for its acknowledgement.
pub proof fn law_daemon_starts_muted(device_count: usize, daemon: Daemon)
    requires
        call_ensures(Daemon::new, (device_count,), daemon),
    ensures
        daemon@.controller.latest == Some(
            DesiredRequest { revision: 1, state: DesiredAudio::PttIdle },
        ),
        daemon@.controller.next_revision == 1,
        daemon@.controller == ControllerView::initial(device_count as nat).after(
            ControlEvent::Startup,
        ),
        daemon@.acknowledgements_open,
        daemon@.phase == (DaemonPhase::Starting { target: 1, signalled: false, failure: None }),
{
    crate::controller_laws::law_startup_publishes_idle(device_count as nat);
}

/// During the startup an acknowledgement is taken note of, and once the request is acknowledged the
/// readers are started, or, if a signal came, the audio worker is stopped; that no acknowledgement
/// can come any more is noted.
pub proof fn law_startup_waits_for_the_acknowledgement(
    daemon: DaemonView,
    target: u64,
    signalled: bool,
    failure: Option<AppError>,
    acknowledgement: AudioAck,
)
    requires
        daemon.phase == (DaemonPhase::Starting { target, signalled, failure }),
        daemon.acknowledgements_open,
        daemon.controller.last_acknowledged is Some ==> daemon.controller.last_acknowledged->0
            < target,
    ensures
        ({
            let next = daemon.after(DaemonEvent::Acknowledged(Some(acknowledgement)));
            &&& next.controller == daemon.controller.acknowledging(acknowledgement)
            &&& next.acknowledgements_open
            &&& acknowledgement.revision < target ==> next.phase == daemon.phase
            &&& acknowledgement.revision >= target && !signalled ==> next.phase
                is LaunchingReaders
            &&& acknowledgement.revision >= target && signalled ==> next.phase
                == DaemonPhase::StoppingAudio(Purpose::Startup { failure })
            &&& daemon.after(DaemonEvent::Acknowledged(None)) == DaemonView {
                acknowledgements_open: false,
                ..daemon
            }
        }),
{
}

/// A signal during the startup is remembered, and so is that it cannot be waited for any longer; a
/// second one changes nothing. An audio worker that ends during the startup ends the daemon.
pub proof fn law_startup_remembers_a_signal(
    daemon: DaemonView,
    target: u64,
    signalled: bool,
    failure: Option<AppError>,
    kind: SignalKind,
    received: bool,
    exit: AudioExit,
)
    requires
        daemon.phase == (DaemonPhase::Starting { target, signalled, failure }),
        daemon.controller.last_acknowledged is Some ==> daemon.controller.last_acknowledged->0
            < target,
    ensures
        daemon.after(DaemonEvent::Signal { kind, received }) == if signalled {
            daemon
        } else {
            DaemonView {
                phase: DaemonPhase::Starting {
                    target,
                    signalled: true,
                    failure: if received {
                        None
                    } else {
                        Some(AppError::SignalListenerClosed(kind))
                    },
                },
                ..daemon
            }
        },
        daemon.after(DaemonEvent::AudioExited(exit)) == (DaemonView {
            phase: DaemonPhase::Done(
                Err(AppError::AudioExitedBefore { target: "startup idle acknowledgement", exit }),
            ),
            ..daemon
        }),
{
}

/// Once the readers are started the daemon runs.
pub proof fn law_daemon_runs_once_readers_are_started(daemon: DaemonView)
    requires
        daemon.phase is LaunchingReaders,
    ensures
        daemon.after(DaemonEvent::ReadersLaunched) == (DaemonView {
            phase: DaemonPhase::Running,
            ..daemon
        }),
{
}

/// While the daemon runs every input event is handed to the controller, every acknowledgement is
/// taken note of, and the daemon runs on.
pub proof fn law_running_daemon_serves_events(
    daemon: DaemonView,
    input: ControlEvent,
    acknowledgement: AudioAck,
)
    requires
        daemon.phase is Running,
    ensures
        daemon.controller.effect(input) is Ok ==> daemon.after(DaemonEvent::Input(Some(input)))
            == (DaemonView { controller: daemon.controller.after(input), ..daemon }),
        daemon.acknowledgements_open ==> daemon.after(
            DaemonEvent::Acknowledged(Some(acknowledgement)),
        ) == (DaemonView {
            controller: daemon.controller.acknowledging(acknowledgement),
            ..daemon
        }),
        daemon.acknowledgements_open ==> daemon.after(DaemonEvent::Acknowledged(None))
            == (DaemonView { acknowledgements_open: false, ..daemon }),
{
}

/// An event that no number is left for fails a running daemon, with the controller as the event left
/// it.
pub proof fn law_overflowing_event_fails_the_daemon(
    daemon: DaemonView,
    input: ControlEvent,
    error: AppError,
)
    requires
        daemon.phase is Running,
        daemon.controller.effect(input) == Err::<crate::controller::EventEffect, AppError>(error),
    ensures
        daemon.after(DaemonEvent::Input(Some(input))) == (DaemonView {
            controller: daemon.controller.after(input),
            ..daemon
        }).failing(error, None),
{
}

/// The end of all input fails a running daemon.
pub proof fn law_end_of_input_fails_the_daemon(daemon: DaemonView)
    requires
        daemon.phase is Running,
    ensures
        daemon.after(DaemonEvent::Input(None)) == daemon.failing(
            AppError::InputChannelClosed,
            None,
        ),
{
}

/// A signal that cannot be waited for any longer fails a running daemon.
pub proof fn law_closed_signals_fail_the_daemon(daemon: DaemonView, kind: SignalKind)
    requires
        daemon.phase is Running,
    ensures
        daemon.after(DaemonEvent::Signal { kind, received: false }) == daemon.failing(
            AppError::SignalListenerClosed(kind),
            None,
        ),
{
}

/// The end of a reader that is not known fails a running daemon.
pub proof fn law_unknown_reader_fails_the_daemon(daemon: DaemonView)
    requires
        daemon.phase is Running,
    ensures
        daemon.after(DaemonEvent::ReaderExited(None)) == daemon.failing(
            AppError::ReaderIdentityLost,
            None,
        ),
{
}

/// An audio worker that ends fails a running daemon, and then only the readers are stopped.
pub proof fn law_ended_audio_fails_the_daemon(daemon: DaemonView, exit: AudioExit)
    requires
        daemon.phase is Running,
    ensures
        daemon.after(DaemonEvent::AudioExited(exit)) == (DaemonView {
            phase: DaemonPhase::StoppingReaders(
                AfterReaders::Finish(
                    Err(AppError::AudioExitedBefore { target: "controller shutdown", exit }),
                ),
            ),
            ..daemon
        }),
{
}

/// A reader that ends fails a running daemon, after the controller was told of the loss of its
/// device.
pub proof fn law_ended_reader_fails_the_daemon(
    daemon: DaemonView,
    exit: ReaderExit,
    device: DeviceId,
)
    requires
        daemon.phase is Running,
        device == match exit {
            ReaderExit::Returned { expected, .. } => expected,
            ReaderExit::Join { device, .. } => device,
        },
    ensures
        ({
            let loss = ControlEvent::DeviceLost(device);
            let next = DaemonView { controller: daemon.controller.after(loss), ..daemon };
            match daemon.controller.effect(loss) {
                Ok(effect) => daemon.after(DaemonEvent::ReaderExited(Some(exit))) == next.failing(
                    AppError::ReaderTerminated(exit),
                    effect.published,
                ),
                Err(error) => daemon.after(DaemonEvent::ReaderExited(Some(exit))) == DaemonView {
                    phase: DaemonPhase::Done(Err(error)),
                    ..next
                },
            }
        }),
{
}

/// A daemon that fails leaves an open microphone open and stops the readers first; otherwise it
/// makes sure that the microphone is muted before anything is stopped, by the request that told of
/// the loss or by a new one. The reason is kept.
pub proof fn law_failing_daemon_mutes_first(
    daemon: DaemonView,
    reason: AppError,
    loss_revision: Option<u64>,
)
    ensures
        ({
            let failing = daemon.failing(reason, loss_revision);
            let purpose = Purpose::Fatal { reason };
            let open = daemon.controller.latest is Some && daemon.controller.latest->0.state
                == DesiredAudio::Open;
            let told = loss_revision is Some && daemon.controller.latest == Some(
                DesiredRequest { revision: loss_revision->0, state: DesiredAudio::PttIdle },
            );
            let revision = (daemon.controller.next_revision + 1) as u64;
            let muting = DaemonView {
                controller: ControllerView {
                    next_revision: revision,
                    latest: Some(DesiredRequest { revision, state: DesiredAudio::PttIdle }),
                    ..daemon.controller
                },
                ..daemon
            };
            &&& open ==> failing == DaemonView {
                phase: DaemonPhase::StoppingReaders(
                    AfterReaders::Await { target: daemon.controller.latest->0.revision, purpose },
                ),
                ..daemon
            }
            &&& !open && told ==> failing == daemon.awaiting(loss_revision->0, true, false, purpose)
            &&& !open && !told && daemon.controller.next_revision < u64::MAX ==> failing
                == muting.awaiting(revision, true, false, purpose)
            &&& !open && !told && daemon.controller.next_revision == u64::MAX ==> failing
                == DaemonView { phase: DaemonPhase::Done(Err(reason)), ..daemon }
        }),
{
}

/// A signal leaves an open microphone open and stops the readers first; otherwise it mutes by a new
/// request before anything is stopped.
pub proof fn law_signalled_daemon_mutes_first(daemon: DaemonView, kind: SignalKind)
    requires
        daemon.phase is Running,
    ensures
        ({
            let ending = daemon.after(DaemonEvent::Signal { kind, received: true });
            let open = daemon.controller.latest is Some && daemon.controller.latest->0.state
                == DesiredAudio::Open;
            let revision = (daemon.controller.next_revision + 1) as u64;
            let muting = DaemonView {
                controller: ControllerView {
                    next_revision: revision,
                    latest: Some(DesiredRequest { revision, state: DesiredAudio::PttIdle }),
                    ..daemon.controller
                },
                ..daemon
            };
            &&& open ==> ending == DaemonView {
                acknowledgements_open: true,
                phase: DaemonPhase::StoppingReaders(
                    AfterReaders::Await {
                        target: daemon.controller.latest->0.revision,
                        purpose: Purpose::Graceful,
                    },
                ),
                ..daemon
            }
            &&& !open && daemon.controller.next_revision < u64::MAX ==> ending == muting.awaiting(
                revision,
                true,
                false,
                Purpose::Graceful,
            )
            &&& !open && daemon.controller.next_revision == u64::MAX ==> ending == DaemonView {
                phase: DaemonPhase::Done(Err(AppError::RevisionOverflow)),
                ..daemon
            }
        }),
{
}

/// The required acknowledgement is waited for as long as it is not there; then the readers are
/// stopped, unless they are, and after them the audio worker.
pub proof fn law_required_acknowledgement_is_waited_for(
    daemon: DaemonView,
    target: u64,
    events_open: bool,
    readers_stopped: bool,
    purpose: Purpose,
)
    ensures
        ({
            let waiting = daemon.awaiting(target, events_open, readers_stopped, purpose);
            let there = daemon.controller.last_acknowledged is Some
                && daemon.controller.last_acknowledged->0 >= target;
            &&& waiting == DaemonView { phase: waiting.phase, ..daemon }
            &&& !there ==> waiting.phase == (DaemonPhase::AwaitingTarget {
                target,
                events_open,
                readers_stopped,
                purpose,
            })
            &&& there && !readers_stopped ==> waiting.phase == DaemonPhase::StoppingReaders(
                AfterReaders::StopAudio(purpose),
            )
            &&& there && readers_stopped ==> waiting.phase == DaemonPhase::StoppingAudio(purpose)
        }),
{
}

/// While the required acknowledgement is waited for, acknowledgements are taken note of as long as
/// they can come.
pub proof fn law_waiting_daemon_notes_acknowledgements(
    daemon: DaemonView,
    target: u64,
    events_open: bool,
    readers_stopped: bool,
    purpose: Purpose,
    acknowledgement: AudioAck,
)
    requires
        daemon.phase == (DaemonPhase::AwaitingTarget {
            target,
            events_open,
            readers_stopped,
            purpose,
        }),
        daemon.acknowledgements_open,
    ensures
        daemon.after(DaemonEvent::Acknowledged(Some(acknowledgement))) == (DaemonView {
            controller: daemon.controller.acknowledging(acknowledgement),
            ..daemon
        }).awaiting(target, events_open, readers_stopped, purpose),
        daemon.after(DaemonEvent::Acknowledged(None)) == (DaemonView {
            acknowledgements_open: false,
            ..daemon
        }).awaiting(target, events_open, readers_stopped, purpose),
{
}

/// While the required acknowledgement is waited for, input events are only kept count of, as long
/// as they can come.
pub proof fn law_waiting_daemon_keeps_count_of_events(
    daemon: DaemonView,
    target: u64,
    events_open: bool,
    readers_stopped: bool,
    purpose: Purpose,
    input: ControlEvent,
    observed: ControllerView,
)
    requires
        daemon.phase == (DaemonPhase::AwaitingTarget {
            target,
            events_open,
            readers_stopped,
            purpose,
        }),
        observed == daemon.controller.after_frozen(input),
    ensures
        events_open ==> daemon.after(DaemonEvent::Input(Some(input))) == (DaemonView {
            controller: observed,
            ..daemon
        }).awaiting(target, events_open, readers_stopped, purpose),
        !events_open ==> daemon.after(DaemonEvent::Input(Some(input))) == daemon,
        daemon.after(DaemonEvent::Input(None)) == daemon.awaiting(
            target,
            false,
            readers_stopped,
            purpose,
        ),
{
}

/// While the required acknowledgement is waited for, the end of a reader is only kept count of, as
/// the loss of its device.
pub proof fn law_waiting_daemon_keeps_count_of_readers(
    daemon: DaemonView,
    target: u64,
    events_open: bool,
    readers_stopped: bool,
    purpose: Purpose,
    exit: ReaderExit,
    device: DeviceId,
    observed: ControllerView,
)
    requires
        daemon.phase == (DaemonPhase::AwaitingTarget {
            target,
            events_open,
            readers_stopped,
            purpose,
        }),
        device == match exit {
            ReaderExit::Returned { expected, .. } => expected,
            ReaderExit::Join { device, .. } => device,
        },
        observed == daemon.controller.after_frozen(ControlEvent::DeviceLost(device)),
    ensures
        daemon.after(DaemonEvent::ReaderExited(Some(exit))) == (DaemonView {
            controller: observed,
            ..daemon
        }).awaiting(target, events_open, readers_stopped, purpose),
{
}

/// An audio worker that ends before the required acknowledgement fails the daemon, for the reason
/// that it had, or for this, once the readers are stopped.
pub proof fn law_missed_acknowledgement_fails_the_daemon(
    daemon: DaemonView,
    target: u64,
    events_open: bool,
    readers_stopped: bool,
    purpose: Purpose,
    exit: AudioExit,
)
    requires
        daemon.phase == (DaemonPhase::AwaitingTarget {
            target,
            events_open,
            readers_stopped,
            purpose,
        }),
    ensures
        ({
            let next = daemon.after(DaemonEvent::AudioExited(exit));
            let missed = AppError::AudioExitedBefore {
                target: "required audio acknowledgement",
                exit,
            };
            let result = Err::<(), AppError>(
                if purpose is Fatal {
                    purpose->Fatal_reason
                } else {
                    missed
                },
            );
            &&& next == DaemonView { phase: next.phase, ..daemon }
            &&& readers_stopped ==> next.phase == DaemonPhase::Done(result)
            &&& !readers_stopped ==> next.phase == DaemonPhase::StoppingReaders(
                AfterReaders::Finish(result),
            )
            &&& daemon.setback(DaemonEvent::AudioExited(exit)) == if purpose is Fatal {
                Some(missed)
            } else {
                None
            }
        }),
{
}

/// Once the readers are stopped the daemon goes on with what was to follow: wait for the required
/// acknowledgement, stop the audio worker, or end.
pub proof fn law_stopped_readers_lead_on(
    daemon: DaemonView,
    target: u64,
    purpose: Purpose,
    result: Result<(), AppError>,
)
    ensures
        daemon.phase == DaemonPhase::StoppingReaders(AfterReaders::Await { target, purpose })
            ==> daemon.after(DaemonEvent::ReadersStopped) == daemon.awaiting(
            target,
            true,
            true,
            purpose,
        ),
        daemon.phase == DaemonPhase::StoppingReaders(AfterReaders::StopAudio(purpose))
            ==> daemon.after(DaemonEvent::ReadersStopped) == (DaemonView {
            phase: DaemonPhase::StoppingAudio(purpose),
            ..daemon
        }),
        daemon.phase == DaemonPhase::StoppingReaders(AfterReaders::Finish(result)) ==> daemon.after(
            DaemonEvent::ReadersStopped,
        ) == (DaemonView { phase: DaemonPhase::Done(result), ..daemon }),
{
}

/// Once the audio worker has stopped the daemon ends: for the reason that it failed for, or else
/// for a failure of the worker, or else for what went wrong at the startup, and otherwise well.
pub proof fn law_stopped_audio_ends_the_daemon(
    daemon: DaemonView,
    purpose: Purpose,
    error: WorkerError,
    broken: String,
)
    requires
        daemon.phase == DaemonPhase::StoppingAudio(purpose),
    ensures
        ({
            let stopped = daemon.after(DaemonEvent::AudioExited(AudioExit::Stopped));
            let failed = daemon.after(DaemonEvent::AudioExited(AudioExit::Failed(error)));
            let lost = daemon.after(DaemonEvent::AudioExited(AudioExit::Broken(broken)));
            &&& stopped == DaemonView { phase: stopped.phase, ..daemon }
            &&& failed == DaemonView { phase: failed.phase, ..daemon }
            &&& lost == DaemonView { phase: lost.phase, ..daemon }
            &&& stopped.phase == DaemonPhase::Done(
                match purpose {
                    Purpose::Startup { failure: Some(failure) } => Err(failure),
                    Purpose::Fatal { reason } => Err(reason),
                    _ => Ok(()),
                },
            )
            &&& failed.phase == DaemonPhase::Done(
                Err(
                    if purpose is Fatal {
                        purpose->Fatal_reason
                    } else {
                        AppError::AudioWorker(error)
                    },
                ),
            )
            &&& lost.phase == DaemonPhase::Done(
                Err(
                    if purpose is Fatal {
                        purpose->Fatal_reason
                    } else {
                        AppError::AudioTask(broken)
                    },
                ),
            )
        }),
{
}

/// Whether a phase waits for an event of that kind.
pub open spec fn is_awaited(phase: DaemonPhase, event: DaemonEvent) -> bool {
    match event {
        DaemonEvent::Signal { .. } => phase is Starting || phase is Running,
        DaemonEvent::AudioExited(_) => phase is Starting || phase is Running
            || phase is AwaitingTarget || phase is StoppingAudio,
        DaemonEvent::Acknowledged(_) => phase is Starting || phase is Running
            || phase is AwaitingTarget,
        DaemonEvent::ReadersLaunched => phase is LaunchingReaders,
        DaemonEvent::Input(_) => phase is Running || phase is AwaitingTarget,
        DaemonEvent::ReaderExited(exit) => phase is Running || phase is AwaitingTarget
            && exit is Some,
        DaemonEvent::ReadersStopped => phase is StoppingReaders,
    }
}

/// Events that are not waited for change nothing and tell of nothing.
pub proof fn law_unawaited_daemon_events_are_ignored(daemon: DaemonView, event: DaemonEvent)
    requires
        !is_awaited(daemon.phase, event),
    ensures
        daemon.after(event) == daemon,
        !(daemon.phase is Running) ==> daemon.setback(event) is None,
{
}

/// Acknowledgements count only as long as they can come.
pub proof fn law_closed_acknowledgements_count_for_nothing(
    daemon: DaemonView,
    acknowledgement: Option<AudioAck>,
)
    requires
        !daemon.acknowledgements_open,
    ensures
        daemon.after(DaemonEvent::Acknowledged(acknowledgement)).controller == daemon.controller,
        !daemon.after(DaemonEvent::Acknowledged(acknowledgement)).acknowledgements_open,
{
}

/// A reader that ends while the required acknowledgement is waited for, and an audio worker that
/// fails at the end of a failing daemon, are told of.
pub proof fn law_late_failures_are_told(
    daemon: DaemonView,
    exit: ReaderExit,
    reason: AppError,
    error: WorkerError,
    broken: String,
)
    ensures
        daemon.phase is AwaitingTarget ==> daemon.setback(DaemonEvent::ReaderExited(Some(exit)))
            == Some(AppError::ReaderTerminated(exit)),
        daemon.phase == DaemonPhase::StoppingAudio(Purpose::Fatal { reason }) ==> {
            &&& daemon.setback(DaemonEvent::AudioExited(AudioExit::Stopped)) is None
            &&& daemon.setback(DaemonEvent::AudioExited(AudioExit::Failed(error))) == Some(
                AppError::Cleanup(Box::new(AppError::AudioWorker(error))),
            )
            &&& daemon.setback(DaemonEvent::AudioExited(AudioExit::Broken(broken))) == Some(
                AppError::Cleanup(Box::new(AppError::AudioTask(broken))),
            )
        },
{
}

/// An audio worker that was told to stop comes to what it ended with, and one that ends too early
/// is told with what it ended before.
pub proof fn law_audio_exits_are_kept(
    target: &'static str,
    exit: AudioExit,
    early: AppError,
    joined: Result<(), AppError>,
)
    requires
        call_ensures(crate::supervision::audio_exit_before, (target, exit), early),
        call_ensures(crate::supervision::join_audio, (exit,), joined),
    ensures
        early == (AppError::AudioExitedBefore { target, exit }),
        joined is Ok <==> exit is Stopped,
        exit matches AudioExit::Failed(error) ==> joined == Err::<(), AppError>(
            AppError::AudioWorker(error),
        ),
        exit matches AudioExit::Broken(reason) ==> joined == Err::<(), AppError>(
            AppError::AudioTask(reason),
        ),
{
}

/// The end of a reader is the end of the device that the reader was started for.
pub proof fn law_reader_exits_name_the_device(
    exit: ReaderExit,
    device: DeviceId,
    known: Option<DeviceId>,
    ended: DeviceId,
)
    requires
        call_ensures(ReaderExit::device, (&exit,), device),
        call_ensures(crate::supervision::ended_device, (known,), ended),
    ensures
        device == match exit {
            ReaderExit::Returned { expected, .. } => expected,
            ReaderExit::Join { device, .. } => device,
        },
        known is Some ==> ended == known->0,
        known is None ==> ended.0 == usize::MAX,
{
}

/// The mode of a controller by its latest request.
pub proof fn law_mode_is_that_of_the_latest_request(
    controller: crate::controller::Controller,
    mode: ControllerMode,
    target: u64,
    complete: bool,
)
    requires
        call_ensures(crate::controller::Controller::mode, (&controller,), mode),
        call_ensures(
            crate::controller::Controller::target_complete,
            (&controller, target),
            complete,
        ),
    ensures
        mode == ControllerMode::Open <==> controller.latest is Some && controller.latest->0.state
            == DesiredAudio::Open,
        complete <==> controller.last_acknowledged is Some && controller.last_acknowledged->0
            >= target,
{
}

/// If no revision is left to mute with when the input ends, that is told, and otherwise nothing.
pub proof fn law_unmuted_end_of_input_is_told(daemon: DaemonView)
    requires
        daemon.phase is Running,
    ensures
        daemon.setback(DaemonEvent::Input(None)) == if daemon.controller.next_revision == u64::MAX && !(
        daemon.controller.latest is Some && daemon.controller.latest->0.state
            == DesiredAudio::Open) {
            Some(AppError::RevisionOverflow)
        } else {
            None
        },
{
}

/// If no revision is left to mute with when an unknown reader ends, that is told, and otherwise
/// nothing.
pub proof fn law_unmuted_loss_of_identity_is_told(daemon: DaemonView)
    requires
        daemon.phase is Running,
    ensures
        daemon.setback(DaemonEvent::ReaderExited(None)) == if daemon.controller.next_revision == u64::MAX && !(
        daemon.controller.latest is Some && daemon.controller.latest->0.state
            == DesiredAudio::Open) {
            Some(AppError::RevisionOverflow)
        } else {
            None
        },
{
}

/// If no revision is left to mute with when a signal cannot be waited for any longer, that is told,
/// and otherwise nothing.
pub proof fn law_unmuted_loss_of_signals_is_told(daemon: DaemonView, kind: SignalKind)
    requires
        daemon.phase is Running,
    ensures
        daemon.setback(DaemonEvent::Signal { kind, received: false }) == if daemon.controller.next_revision == u64::MAX && !(
        daemon.controller.latest is Some && daemon.controller.latest->0.state
            == DesiredAudio::Open) {
            Some(AppError::RevisionOverflow)
        } else {
            None
        },
{
}

/// A signal tells of nothing besides the result of a running daemon.
pub proof fn law_signals_tell_of_nothing(daemon: DaemonView, kind: SignalKind)
    requires
        daemon.phase is Running,
    ensures
        daemon.setback(DaemonEvent::Signal { kind, received: true }) is None,
{
}

/// A child process and the look at an idle source may take a second, a device is tried again after a
/// second, and input events may wait in line.
pub proof fn law_waits_are_short()
    ensures
        crate::command::WPCTL_TIMEOUT == 1,
        crate::worker::RECONCILE_INTERVAL == 1,
        crate::input::RECONNECT_DELAY == 1,
        crate::daemon::INPUT_CHANNEL_CAPACITY == 64,
{
}

} // verus!
