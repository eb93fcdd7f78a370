//! What holds of the daemon over any run of events.

use vstd::prelude::*;

use crate::audio::DesiredRequest;
use crate::controller::{ControllerMode, ControllerView};
use crate::daemon::{AfterReaders, DaemonEvent, DaemonPhase, DaemonView, Purpose};
use crate::state::{ControlEvent, DesiredAudio};
use crate::supervision::{AppError, SignalKind};

verus! {

impl ControllerView {
    /// Whether the request of that revision is the latest one and safe to end with: it mutes, or
    /// it leaves a microphone open that was opened by the toggle.
    pub open spec fn rests_on(self, revision: u64) -> bool {
        &&& self.latest matches Some(request)
        &&& request.revision == revision
        &&& request.state != DesiredAudio::PttTalking
    }

    /// Whether the latest request is safe to end with, and acknowledged.
    pub open spec fn at_rest(self) -> bool {
        &&& self.latest matches Some(request)
        &&& request.state != DesiredAudio::PttTalking
        &&& self.has_completed(request.revision)
    }
}

impl DaemonView {
    /// The state after a run of events, in order.
    pub open spec fn after_all(self, events: Seq<DaemonEvent>) -> Self
        decreases events.len(),
    {
        if events.len() == 0 {
            self
        } else {
            self.after_all(events.drop_last()).after(events.last())
        }
    }

    /// What holds of a daemon at all times.
    pub open spec fn sound(self) -> bool {
        let controller = self.controller;
        match self.phase {
            DaemonPhase::Starting { target, .. } => {
                &&& target == 1
                &&& controller.latest == Some(
                    DesiredRequest { revision: 1, state: DesiredAudio::PttIdle },
                )
                &&& !controller.has_completed(target)
            },
            DaemonPhase::LaunchingReaders => controller.at_rest(),
            DaemonPhase::StoppingReaders(AfterReaders::Await { target, purpose }) => {
                &&& controller.rests_on(target)
                &&& !(purpose is Startup)
                &&& controller.operation() == ControllerMode::Open
            },
            DaemonPhase::StoppingReaders(AfterReaders::StopAudio(purpose)) => {
                &&& controller.at_rest()
                &&& controller.operation() == ControllerMode::Ptt
                &&& !(purpose is Startup)
            },
            DaemonPhase::StoppingReaders(AfterReaders::Finish(result)) => result is Err,
            DaemonPhase::AwaitingTarget { target, readers_stopped, purpose, .. } => {
                &&& controller.rests_on(target)
                &&& !controller.has_completed(target)
                &&& readers_stopped <==> controller.operation() == ControllerMode::Open
                &&& !(purpose is Startup)
            },
            DaemonPhase::StoppingAudio(_) => controller.at_rest(),
            DaemonPhase::Done(result) => result is Ok ==> controller.at_rest(),
            DaemonPhase::Running => true,
        }
    }
}

proof fn lemma_failing_is_sound(daemon: DaemonView, reason: AppError, loss_revision: Option<u64>)
    ensures
        daemon.failing(reason, loss_revision).sound(),
{
}

proof fn lemma_running_is_sound(daemon: DaemonView, event: DaemonEvent)
    requires
        daemon.phase is Running,
    ensures
        daemon.running(event).sound(),
{
    match event {
        DaemonEvent::Input(Some(input)) => {
            let next = daemon.with_controller(daemon.controller.after(input));
            if let Err(error) = daemon.controller.effect(input) {
                lemma_failing_is_sound(next, error, None);
            }
        },
        DaemonEvent::Input(None) => {
            lemma_failing_is_sound(daemon, AppError::InputChannelClosed, None);
        },
        DaemonEvent::Signal { kind, received } => {
            if !received {
                lemma_failing_is_sound(daemon, AppError::SignalListenerClosed(kind), None);
            }
        },
        DaemonEvent::ReaderExited(None) => {
            lemma_failing_is_sound(daemon, AppError::ReaderIdentityLost, None);
        },
        DaemonEvent::ReaderExited(Some(exit)) => {
            let loss = ControlEvent::DeviceLost(exit.subject());
            let next = daemon.with_controller(daemon.controller.after(loss));
            if let Ok(effect) = daemon.controller.effect(loss) {
                lemma_failing_is_sound(
                    next,
                    AppError::ReaderTerminated(exit),
                    effect.published,
                );
            }
        },
        _ => {},
    }
}

proof fn lemma_awaiting_is_sound(
    daemon: DaemonView,
    target: u64,
    events_open: bool,
    readers_stopped: bool,
    purpose: Purpose,
)
    requires
        daemon.controller.rests_on(target),
        readers_stopped <==> daemon.controller.operation() == ControllerMode::Open,
        !(purpose is Startup),
    ensures
        daemon.awaiting(target, events_open, readers_stopped, purpose).sound(),
{
}

proof fn lemma_step_is_sound(daemon: DaemonView, event: DaemonEvent)
    requires
        daemon.sound(),
    ensures
        daemon.after(event).sound(),
{
    match daemon.phase {
        DaemonPhase::Running => {
            lemma_running_is_sound(daemon, event);
        },
        DaemonPhase::AwaitingTarget { target, events_open, readers_stopped, purpose } => {
            match event {
                DaemonEvent::Acknowledged(acknowledgement) => {
                    lemma_awaiting_is_sound(
                        daemon.noting(acknowledgement),
                        target,
                        events_open,
                        readers_stopped,
                        purpose,
                    );
                },
                DaemonEvent::Input(Some(input)) => {
                    crate::controller_laws::law_frozen_controller_is_quiet(
                        daemon.controller,
                        input,
                    );
                    lemma_awaiting_is_sound(
                        daemon.with_controller(daemon.controller.after_frozen(input)),
                        target,
                        events_open,
                        readers_stopped,
                        purpose,
                    );
                },
                DaemonEvent::ReaderExited(Some(exit)) => {
                    let loss = ControlEvent::DeviceLost(exit.subject());
                    crate::controller_laws::law_frozen_controller_is_quiet(
                        daemon.controller,
                        loss,
                    );
                    lemma_awaiting_is_sound(
                        daemon.with_controller(daemon.controller.after_frozen(loss)),
                        target,
                        events_open,
                        readers_stopped,
                        purpose,
                    );
                },
                _ => {},
            }
        },
        DaemonPhase::StoppingReaders(AfterReaders::Await { target, purpose }) => {
            lemma_awaiting_is_sound(daemon, target, true, true, purpose);
        },
        _ => {},
    }
}

/// Whatever happens, the daemon ends well only with its latest request acknowledged, and that
/// request mutes the microphone or leaves it open as the toggle opened it; and it stops the audio
/// worker only then.
pub proof fn law_daemon_stays_sound(device_count: nat, events: Seq<DaemonEvent>)
    ensures
        DaemonView::initial(device_count).after_all(events).sound(),
    decreases events.len(),
{
    if events.len() == 0 {
        crate::controller_laws::law_startup_publishes_idle(device_count);
        crate::controller_laws::law_events_keep_acknowledgements(
            ControllerView::initial(device_count),
            ControlEvent::Startup,
        );
    } else {
        law_daemon_stays_sound(device_count, events.drop_last());
        lemma_step_is_sound(
            DaemonView::initial(device_count).after_all(events.drop_last()),
            events.last(),
        );
    }
}

proof fn lemma_completion_lasts(daemon: DaemonView, event: DaemonEvent, target: u64)
    requires
        daemon.controller.has_completed(target),
    ensures
        daemon.after(event).controller.has_completed(target),
{
    match event {
        DaemonEvent::Input(Some(input)) => {
            crate::controller_laws::law_events_keep_acknowledgements(daemon.controller, input);
            crate::controller_laws::law_frozen_controller_is_quiet(daemon.controller, input);
        },
        DaemonEvent::ReaderExited(Some(exit)) => {
            let loss = ControlEvent::DeviceLost(exit.subject());
            crate::controller_laws::law_events_keep_acknowledgements(daemon.controller, loss);
            crate::controller_laws::law_frozen_controller_is_quiet(daemon.controller, loss);
        },
        _ => {},
    }
}

proof fn lemma_starting_goes_first(daemon: DaemonView, event: DaemonEvent)
    requires
        daemon.sound(),
        daemon.phase is Starting || daemon.phase is Done || daemon.controller.has_completed(1),
    ensures
        ({
            let next = daemon.after(event);
            next.phase is Starting || next.phase is Done || next.controller.has_completed(1)
        }),
{
    if daemon.controller.has_completed(1) {
        lemma_completion_lasts(daemon, event, 1);
    }
}

/// The first request, for a muted microphone, is acknowledged before anything else is done, and in
/// particular before any reader is started.
pub proof fn law_readers_wait_for_the_startup(device_count: nat, events: Seq<DaemonEvent>)
    ensures
        ({
            let daemon = DaemonView::initial(device_count).after_all(events);
            daemon.phase is Starting || daemon.phase is Done || daemon.controller.has_completed(1)
        }),
    decreases events.len(),
{
    if events.len() > 0 {
        let earlier = DaemonView::initial(device_count).after_all(events.drop_last());
        law_readers_wait_for_the_startup(device_count, events.drop_last());
        law_daemon_stays_sound(device_count, events.drop_last());
        lemma_starting_goes_first(earlier, events.last());
    }
}

/// After a signal during the startup, no reader is ever started: the daemon waits for the
/// acknowledgement and ends.
pub proof fn law_signal_during_startup_starts_no_reader(
    daemon: DaemonView,
    later: Seq<DaemonEvent>,
)
    requires
        daemon.phase matches DaemonPhase::Starting { signalled: true, .. },
    ensures
        ({
            let phase = daemon.after_all(later).phase;
            ||| phase matches DaemonPhase::Starting { signalled: true, .. }
            ||| phase matches DaemonPhase::StoppingAudio(Purpose::Startup { .. })
            ||| phase is Done
        }),
    decreases later.len(),
{
    if later.len() > 0 {
        law_signal_during_startup_starts_no_reader(daemon, later.drop_last());
    }
}

/// A signal in push-to-talk mode publishes the request for a muted microphone before anything is
/// stopped.
pub proof fn law_signal_mutes_before_stopping(daemon: DaemonView, kind: SignalKind)
    requires
        daemon.phase is Running,
        daemon.controller.operation() == ControllerMode::Ptt,
        daemon.controller.next_revision < u64::MAX,
    ensures
        ({
            let ending = daemon.after(DaemonEvent::Signal { kind, received: true });
            let revision = (daemon.controller.next_revision + 1) as u64;
            &&& ending.controller.latest == Some(
                DesiredRequest { revision, state: DesiredAudio::PttIdle },
            )
            &&& !daemon.controller.has_completed(revision) ==> ending.phase == (
            DaemonPhase::AwaitingTarget {
                target: revision,
                events_open: true,
                readers_stopped: false,
                purpose: Purpose::Graceful,
            })
        }),
{
}

/// A signal in open mode publishes nothing, and ends the readers first.
pub proof fn law_signal_leaves_an_open_microphone_open(daemon: DaemonView, kind: SignalKind)
    requires
        daemon.phase is Running,
        daemon.controller.operation() == ControllerMode::Open,
    ensures
        ({
            let ending = daemon.after(DaemonEvent::Signal { kind, received: true });
            &&& ending.controller == daemon.controller
            &&& ending.phase == DaemonPhase::StoppingReaders(
                AfterReaders::Await {
                    target: daemon.controller.latest->0.revision,
                    purpose: Purpose::Graceful,
                },
            )
        }),
{
}

/// While the daemon ends, nothing is published.
pub proof fn law_ending_daemon_publishes_nothing(daemon: DaemonView, event: DaemonEvent)
    requires
        !(daemon.phase is Running),
    ensures
        daemon.after(event).controller.latest == daemon.controller.latest,
{
    match event {
        DaemonEvent::Input(Some(input)) => {
            crate::controller_laws::law_frozen_controller_is_quiet(daemon.controller, input);
        },
        DaemonEvent::ReaderExited(Some(exit)) => {
            crate::controller_laws::law_frozen_controller_is_quiet(
                daemon.controller,
                ControlEvent::DeviceLost(exit.subject()),
            );
        },
        _ => {},
    }
}

impl DaemonPhase {
    /// Whether the daemon fails for that reason, or is about to.
    pub open spec fn fails_for(self, reason: AppError) -> bool {
        match self {
            DaemonPhase::StoppingReaders(AfterReaders::Await { purpose, .. }) => purpose
                == (Purpose::Fatal { reason }),
            DaemonPhase::StoppingReaders(AfterReaders::StopAudio(purpose)) => purpose
                == (Purpose::Fatal { reason }),
            DaemonPhase::StoppingReaders(AfterReaders::Finish(result)) => result == Err::<
                (),
                AppError,
            >(reason),
            DaemonPhase::AwaitingTarget { purpose, .. } => purpose == (Purpose::Fatal { reason }),
            DaemonPhase::StoppingAudio(purpose) => purpose == (Purpose::Fatal { reason }),
            DaemonPhase::Done(result) => result == Err::<(), AppError>(reason),
            _ => false,
        }
    }
}

proof fn lemma_failure_stays(daemon: DaemonView, reason: AppError, event: DaemonEvent)
    requires
        daemon.phase.fails_for(reason),
    ensures
        daemon.after(event).phase.fails_for(reason),
{
}

/// Whatever goes wrong while the daemon cleans up, it fails for the reason that it began with.
pub proof fn law_first_failure_is_the_result(
    daemon: DaemonView,
    reason: AppError,
    later: Seq<DaemonEvent>,
)
    requires
        daemon.phase.fails_for(reason),
    ensures
        daemon.after_all(later).phase.fails_for(reason),
    decreases later.len(),
{
    if later.len() > 0 {
        law_first_failure_is_the_result(daemon, reason, later.drop_last());
        lemma_failure_stays(daemon.after_all(later.drop_last()), reason, later.last());
    }
}

/// A daemon that has ended does nothing more.
pub proof fn law_ended_daemon_rests(daemon: DaemonView, later: Seq<DaemonEvent>)
    requires
        daemon.phase is Done,
    ensures
        daemon.after_all(later) == daemon,
    decreases later.len(),
{
    if later.len() > 0 {
        law_ended_daemon_rests(daemon, later.drop_last());
    }
}

} // verus!
