//! The life of the daemon, from startup to shutdown.
//!
//! The daemon tells by its phase what has to be done; whoever does it hands back what came of it.

use vstd::prelude::*;

use crate::audio::AudioAck;
use crate::controller::{Controller, ControllerMode, ControllerView};
use crate::state::{ControlEvent, DesiredAudio};
use crate::supervision::{
    audio_exit_before, join_audio, AppError, AudioExit, ReaderExit, SignalKind,
};

verus! {

/// How many input events may wait for the controller.
pub const INPUT_CHANNEL_CAPACITY: usize = 64;

/// Why the daemon ends.
#[derive(Debug)]
pub enum Purpose {
    /// A signal came before the startup was over, or could not be waited for any longer.
    Startup { failure: Option<AppError> },
    /// A signal came.
    Graceful,
    /// Something failed.
    Fatal { reason: AppError },
}

/// What follows once the readers have ended.
#[derive(Debug)]
pub enum AfterReaders {
    Await { target: u64, purpose: Purpose },
    StopAudio(Purpose),
    Finish(Result<(), AppError>),
}

/// What has to be done next.
#[derive(Debug)]
pub enum DaemonPhase {
    /// Wait for acknowledgements, as long as they can come, for the end of the audio worker, and
    /// for signals, unless one has come.
    Starting { target: u64, signalled: bool, failure: Option<AppError> },
    /// Start a reader for every device.
    LaunchingReaders,
    /// Wait for input events, acknowledgements, as long as they can come, the end of the audio
    /// worker, signals, and the end of a reader.
    Running,
    /// Tell the readers to end, and wait until they have.
    StoppingReaders(AfterReaders),
    /// Wait for acknowledgements and for input events, as long as they can come, for the end of
    /// the audio worker, and, as long as there are any, for the end of a reader.
    AwaitingTarget { target: u64, events_open: bool, readers_stopped: bool, purpose: Purpose },
    /// Tell the audio worker to stop, and wait until it has.
    StoppingAudio(Purpose),
    /// Nothing: the daemon ends with that result.
    Done(Result<(), AppError>),
}

/// What came of it.
#[derive(Debug)]
pub enum DaemonEvent {
    /// A signal, or that no such signal can come any more.
    Signal { kind: SignalKind, received: bool },
    AudioExited(AudioExit),
    /// An acknowledgement, or that none can come any more.
    Acknowledged(Option<AudioAck>),
    ReadersLaunched,
    /// An input event, or that none can come any more.
    Input(Option<ControlEvent>),
    ReaderExited(Option<ReaderExit>),
    ReadersStopped,
}

/// The mathematical state of a daemon.
#[verifier::ext_equal]
pub struct DaemonView {
    pub controller: ControllerView,
    pub acknowledgements_open: bool,
    pub phase: DaemonPhase,
}

/// The controller and what the daemon is about.
#[derive(Debug)]
pub struct Daemon {
    pub controller: Controller,
    /// Whether acknowledgements can still come.
    pub acknowledgements_open: bool,
    pub phase: DaemonPhase,
}

impl View for Daemon {
    type V = DaemonView;

    open spec fn view(&self) -> DaemonView {
        DaemonView {
            controller: self.controller@,
            acknowledgements_open: self.acknowledgements_open,
            phase: self.phase,
        }
    }
}

/// The result of the daemon, given why it ends and how the audio worker stopped.
pub open spec fn final_result(purpose: Purpose, exit: AudioExit) -> Result<(), AppError> {
    match purpose {
        Purpose::Startup { failure } => match (
            crate::supervision::stopped_result(exit),
            failure,
        ) {
            (Err(error), _) => Err(error),
            (Ok(_), Some(error)) => Err(error),
            (Ok(_), None) => Ok(()),
        },
        Purpose::Graceful => crate::supervision::stopped_result(exit),
        Purpose::Fatal { reason } => Err(reason),
    }
}

/// The phase after the required acknowledgement could not be had.
pub open spec fn after_missed_target(
    readers_stopped: bool,
    purpose: Purpose,
    exit: AudioExit,
) -> DaemonPhase {
    let result = match purpose {
        Purpose::Fatal { reason } => Err(reason),
        _ => Err(
            AppError::AudioExitedBefore { target: "required audio acknowledgement", exit },
        ),
    };
    if readers_stopped {
        DaemonPhase::Done(result)
    } else {
        DaemonPhase::StoppingReaders(AfterReaders::Finish(result))
    }
}

impl DaemonView {
    pub open spec fn in_phase(self, phase: DaemonPhase) -> Self {
        DaemonView { phase, ..self }
    }

    pub open spec fn with_controller(self, controller: ControllerView) -> Self {
        DaemonView { controller, ..self }
    }

    /// The state before any event: the request for a muted microphone is published.
    pub open spec fn initial(device_count: nat) -> Self {
        DaemonView {
            controller: ControllerView::initial(device_count).after(ControlEvent::Startup),
            acknowledgements_open: true,
            phase: DaemonPhase::Starting { target: 1, signalled: false, failure: None },
        }
    }

    /// The state with an acknowledgement, or the end of all of them, taken note of.
    pub open spec fn noting(self, acknowledgement: Option<AudioAck>) -> Self {
        if !self.acknowledgements_open {
            self
        } else {
            match acknowledgement {
                Some(acknowledgement) => self.with_controller(
                    self.controller.acknowledging(acknowledgement),
                ),
                None => DaemonView { acknowledgements_open: false, ..self },
            }
        }
    }

    /// The state as the startup goes on, or is over once its request is acknowledged.
    pub open spec fn starting(
        self,
        target: u64,
        signalled: bool,
        failure: Option<AppError>,
    ) -> Self {
        self.in_phase(
            if !self.controller.has_completed(target) {
                DaemonPhase::Starting { target, signalled, failure }
            } else if signalled {
                DaemonPhase::StoppingAudio(Purpose::Startup { failure })
            } else {
                DaemonPhase::LaunchingReaders
            },
        )
    }

    /// The state as the required acknowledgement is waited for, or is there.
    pub open spec fn awaiting(
        self,
        target: u64,
        events_open: bool,
        readers_stopped: bool,
        purpose: Purpose,
    ) -> Self {
        self.in_phase(
            if !self.controller.has_completed(target) {
                DaemonPhase::AwaitingTarget { target, events_open, readers_stopped, purpose }
            } else if readers_stopped {
                DaemonPhase::StoppingAudio(purpose)
            } else {
                DaemonPhase::StoppingReaders(AfterReaders::StopAudio(purpose))
            },
        )
    }

    /// The state as the daemon begins to end because of a signal: an open microphone is left open
    /// and the readers end first, otherwise the microphone is muted first.
    pub open spec fn shutting_down(self) -> Self {
        if self.controller.operation() == ControllerMode::Open {
            DaemonView {
                acknowledgements_open: true,
                phase: DaemonPhase::StoppingReaders(
                    AfterReaders::Await {
                        target: self.controller.latest->0.revision,
                        purpose: Purpose::Graceful,
                    },
                ),
                ..self
            }
        } else if self.controller.next_revision == u64::MAX {
            self.in_phase(DaemonPhase::Done(Err(AppError::RevisionOverflow)))
        } else {
            let next = self.with_controller(self.controller.publishing(DesiredAudio::PttIdle));
            next.awaiting(next.controller.next_revision, true, false, Purpose::Graceful)
        }
    }

    /// The state as the daemon begins to end because something failed, with the revision of the
    /// request that told of a loss, if there is one.
    pub open spec fn failing(self, reason: AppError, loss_revision: Option<u64>) -> Self {
        let purpose = Purpose::Fatal { reason };
        if self.controller.operation() == ControllerMode::Open {
            self.in_phase(
                DaemonPhase::StoppingReaders(
                    AfterReaders::Await {
                        target: self.controller.latest->0.revision,
                        purpose,
                    },
                ),
            )
        } else if self.controller.idles_with(loss_revision) {
            self.awaiting(loss_revision->0, true, false, purpose)
        } else if self.controller.next_revision == u64::MAX {
            self.in_phase(DaemonPhase::Done(Err(reason)))
        } else {
            let next = self.with_controller(self.controller.publishing(DesiredAudio::PttIdle));
            next.awaiting(next.controller.next_revision, true, false, purpose)
        }
    }

    /// The state after an event while the daemon runs.
    pub open spec fn running(self, event: DaemonEvent) -> Self {
        match event {
            DaemonEvent::Input(Some(input)) => {
                let next = self.with_controller(self.controller.after(input));
                match self.controller.effect(input) {
                    Ok(_) => next,
                    Err(error) => next.failing(error, None),
                }
            },
            DaemonEvent::Input(None) => self.failing(AppError::InputChannelClosed, None),
            DaemonEvent::Acknowledged(acknowledgement) => self.noting(acknowledgement),
            DaemonEvent::AudioExited(exit) => self.in_phase(
                DaemonPhase::StoppingReaders(
                    AfterReaders::Finish(
                        Err(AppError::AudioExitedBefore { target: "controller shutdown", exit }),
                    ),
                ),
            ),
            DaemonEvent::Signal { kind, received } => if received {
                self.shutting_down()
            } else {
                self.failing(AppError::SignalListenerClosed(kind), None)
            },
            DaemonEvent::ReaderExited(None) => self.failing(AppError::ReaderIdentityLost, None),
            DaemonEvent::ReaderExited(Some(exit)) => {
                let loss = ControlEvent::DeviceLost(exit.subject());
                let next = self.with_controller(self.controller.after(loss));
                match self.controller.effect(loss) {
                    Ok(effect) => next.failing(
                        AppError::ReaderTerminated(exit),
                        effect.published,
                    ),
                    Err(error) => next.in_phase(DaemonPhase::Done(Err(error))),
                }
            },
            _ => self,
        }
    }

    /// The state after an event. One that the phase does not wait for changes nothing.
    pub open spec fn after(self, event: DaemonEvent) -> Self {
        match self.phase {
            DaemonPhase::Starting { target, signalled, failure } => match event {
                DaemonEvent::Signal { kind, received } => if signalled {
                    self
                } else {
                    self.starting(
                        target,
                        true,
                        if received {
                            None
                        } else {
                            Some(AppError::SignalListenerClosed(kind))
                        },
                    )
                },
                DaemonEvent::AudioExited(exit) => self.in_phase(
                    DaemonPhase::Done(
                        Err(
                            AppError::AudioExitedBefore {
                                target: "startup idle acknowledgement",
                                exit,
                            },
                        ),
                    ),
                ),
                DaemonEvent::Acknowledged(acknowledgement) => self.noting(
                    acknowledgement,
                ).starting(target, signalled, failure),
                _ => self,
            },
            DaemonPhase::LaunchingReaders => match event {
                DaemonEvent::ReadersLaunched => self.in_phase(DaemonPhase::Running),
                _ => self,
            },
            DaemonPhase::Running => self.running(event),
            DaemonPhase::StoppingReaders(then) => match event {
                DaemonEvent::ReadersStopped => match then {
                    AfterReaders::Await { target, purpose } => self.awaiting(
                        target,
                        true,
                        true,
                        purpose,
                    ),
                    AfterReaders::StopAudio(purpose) => self.in_phase(
                        DaemonPhase::StoppingAudio(purpose),
                    ),
                    AfterReaders::Finish(result) => self.in_phase(DaemonPhase::Done(result)),
                },
                _ => self,
            },
            DaemonPhase::AwaitingTarget { target, events_open, readers_stopped, purpose } => {
                match event {
                    DaemonEvent::Acknowledged(acknowledgement) => self.noting(
                        acknowledgement,
                    ).awaiting(target, events_open, readers_stopped, purpose),
                    DaemonEvent::AudioExited(exit) => self.in_phase(
                        after_missed_target(readers_stopped, purpose, exit),
                    ),
                    DaemonEvent::Input(Some(input)) => if events_open {
                        self.with_controller(self.controller.after_frozen(input)).awaiting(
                            target,
                            events_open,
                            readers_stopped,
                            purpose,
                        )
                    } else {
                        self
                    },
                    DaemonEvent::Input(None) => self.awaiting(
                        target,
                        false,
                        readers_stopped,
                        purpose,
                    ),
                    DaemonEvent::ReaderExited(Some(exit)) => self.with_controller(
                        self.controller.after_frozen(ControlEvent::DeviceLost(exit.subject())),
                    ).awaiting(target, events_open, readers_stopped, purpose),
                    _ => self,
                }
            },
            DaemonPhase::StoppingAudio(purpose) => match event {
                DaemonEvent::AudioExited(exit) => self.in_phase(
                    DaemonPhase::Done(final_result(purpose, exit)),
                ),
                _ => self,
            },
            DaemonPhase::Done(_) => self,
        }
    }

    /// What the event shows to have gone wrong without being the result of the daemon.
    pub open spec fn setback(self, event: DaemonEvent) -> Option<AppError> {
        match (self.phase, event) {
            (DaemonPhase::Running, _) => match (self.running(event).phase, event) {
                (DaemonPhase::Done(_), DaemonEvent::Signal { received: true, .. }) => None,
                (DaemonPhase::Done(_), DaemonEvent::ReaderExited(Some(exit))) => if
                    self.controller.effect(ControlEvent::DeviceLost(exit.subject())) is Err {
                    None
                } else {
                    Some(AppError::RevisionOverflow)
                },
                (DaemonPhase::Done(_), _) => Some(AppError::RevisionOverflow),
                _ => None,
            },
            (
                DaemonPhase::AwaitingTarget { purpose: Purpose::Fatal { .. }, .. },
                DaemonEvent::AudioExited(exit),
            ) => Some(
                AppError::AudioExitedBefore { target: "required audio acknowledgement", exit },
            ),
            (
                DaemonPhase::AwaitingTarget { .. },
                DaemonEvent::ReaderExited(Some(exit)),
            ) => Some(AppError::ReaderTerminated(exit)),
            (
                DaemonPhase::StoppingAudio(Purpose::Fatal { .. }),
                DaemonEvent::AudioExited(exit),
            ) => match crate::supervision::stopped_result(exit) {
                Ok(_) => None,
                Err(error) => Some(AppError::Cleanup(Box::new(error))),
            },
            _ => None,
        }
    }
}

impl Daemon {
    /// A daemon of that many devices, with the request for a muted microphone published.
    pub fn new(device_count: usize) -> (daemon: Self)
        ensures
            daemon@ == DaemonView::initial(device_count as nat),
    {
        proof {
            crate::controller_laws::law_startup_publishes_idle(device_count as nat);
        }
        let mut controller = Controller::new(device_count);
        let phase = match controller.handle(ControlEvent::Startup) {
            Ok(effect) => match effect.published {
                Some(target) => DaemonPhase::Starting { target, signalled: false, failure: None },
                None => DaemonPhase::Done(Err(AppError::NoStartupIdle)),
            },
            Err(error) => DaemonPhase::Done(Err(error)),
        };
        Daemon { controller, acknowledgements_open: true, phase }
    }

    /// Takes in what came of the present phase. Returns what went wrong without being the result
    /// of the daemon.
    pub fn step(&mut self, event: DaemonEvent) -> (noted: Option<AppError>)
        ensures
            final(self)@ == old(self)@.after(event),
            noted == old(self)@.setback(event),
    {
        let mut phase = DaemonPhase::Running;
        std::mem::swap(&mut self.phase, &mut phase);
        match phase {
            DaemonPhase::Starting { target, signalled, failure } => {
                self.start(target, signalled, failure, event);
                None
            },
            DaemonPhase::LaunchingReaders => {
                match event {
                    DaemonEvent::ReadersLaunched => {},
                    _ => {
                        self.phase = DaemonPhase::LaunchingReaders;
                    },
                }
                None
            },
            DaemonPhase::Running => self.run(event),
            DaemonPhase::StoppingReaders(then) => {
                match event {
                    DaemonEvent::ReadersStopped => match then {
                        AfterReaders::Await { target, purpose } => {
                            self.wait_for_audio_target(target, true, true, purpose);
                        },
                        AfterReaders::StopAudio(purpose) => {
                            self.phase = DaemonPhase::StoppingAudio(purpose);
                        },
                        AfterReaders::Finish(result) => {
                            self.phase = DaemonPhase::Done(result);
                        },
                    },
                    _ => {
                        self.phase = DaemonPhase::StoppingReaders(then);
                    },
                }
                None
            },
            DaemonPhase::AwaitingTarget { target, events_open, readers_stopped, purpose } => {
                self.hold(target, events_open, readers_stopped, purpose, event)
            },
            DaemonPhase::StoppingAudio(purpose) => match event {
                DaemonEvent::AudioExited(exit) => self.finish(purpose, exit),
                _ => {
                    self.phase = DaemonPhase::StoppingAudio(purpose);
                    None
                },
            },
            DaemonPhase::Done(result) => {
                self.phase = DaemonPhase::Done(result);
                None
            },
        }
    }

    fn note_acknowledgement(&mut self, acknowledgement: Option<AudioAck>)
        ensures
            final(self)@ == old(self)@.noting(acknowledgement),
    {
        if self.acknowledgements_open {
            match acknowledgement {
                Some(acknowledgement) => self.controller.record_ack(acknowledgement),
                None => {
                    self.acknowledgements_open = false;
                },
            }
        }
    }

    fn start(
        &mut self,
        target: u64,
        signalled: bool,
        failure: Option<AppError>,
        event: DaemonEvent,
    )
        ensures
            final(self)@ == old(self)@.in_phase(
                DaemonPhase::Starting { target, signalled, failure },
            ).after(event),
    {
        match event {
            DaemonEvent::Signal { kind, received } => {
                if signalled {
                    self.phase = DaemonPhase::Starting { target, signalled, failure };
                } else {
                    let failure = if received {
                        None
                    } else {
                        Some(AppError::SignalListenerClosed(kind))
                    };
                    self.go_on_starting(target, true, failure);
                }
            },
            DaemonEvent::AudioExited(exit) => {
                self.phase =
                DaemonPhase::Done(Err(audio_exit_before("startup idle acknowledgement", exit)));
            },
            DaemonEvent::Acknowledged(acknowledgement) => {
                self.note_acknowledgement(acknowledgement);
                self.go_on_starting(target, signalled, failure);
            },
            _ => {
                self.phase = DaemonPhase::Starting { target, signalled, failure };
            },
        }
    }

    fn go_on_starting(&mut self, target: u64, signalled: bool, failure: Option<AppError>)
        ensures
            final(self)@ == old(self)@.starting(target, signalled, failure),
    {
        self.phase =
        if !self.controller.target_complete(target) {
            DaemonPhase::Starting { target, signalled, failure }
        } else if signalled {
            DaemonPhase::StoppingAudio(Purpose::Startup { failure })
        } else {
            DaemonPhase::LaunchingReaders
        };
    }

    fn wait_for_audio_target(
        &mut self,
        target: u64,
        events_open: bool,
        readers_stopped: bool,
        purpose: Purpose,
    )
        ensures
            final(self)@ == old(self)@.awaiting(target, events_open, readers_stopped, purpose),
    {
        self.phase =
        if !self.controller.target_complete(target) {
            DaemonPhase::AwaitingTarget { target, events_open, readers_stopped, purpose }
        } else if readers_stopped {
            DaemonPhase::StoppingAudio(purpose)
        } else {
            DaemonPhase::StoppingReaders(AfterReaders::StopAudio(purpose))
        };
    }

    fn shut_down(&mut self)
        ensures
            final(self)@ == old(self)@.shutting_down(),
    {
        match self.controller.mode() {
            ControllerMode::Open => {
                self.phase =
                match self.controller.latest {
                    Some(request) => {
                        self.acknowledgements_open = true;
                        DaemonPhase::StoppingReaders(
                            AfterReaders::Await {
                                target: request.revision,
                                purpose: Purpose::Graceful,
                            },
                        )
                    },
                    None => DaemonPhase::Done(Err(AppError::OpenShutdownWithoutRequest)),
                };
            },
            ControllerMode::Ptt => match self.controller.publish(DesiredAudio::PttIdle) {
                Ok(target) => self.wait_for_audio_target(target, true, false, Purpose::Graceful),
                Err(error) => {
                    self.phase = DaemonPhase::Done(Err(error));
                },
            },
        }
    }

    fn finish_fatal_cleanup(&mut self, reason: AppError, loss_revision: Option<u64>) -> (noted:
        Option<AppError>)
        ensures
            final(self)@ == old(self)@.failing(reason, loss_revision),
            noted == if old(self)@.failing(reason, loss_revision).phase is Done {
                Some(AppError::RevisionOverflow)
            } else {
                None
            },
    {
        match self.controller.fatal_cleanup_target(loss_revision) {
            Ok((ControllerMode::Open, target)) => {
                self.phase =
                DaemonPhase::StoppingReaders(
                    AfterReaders::Await { target, purpose: Purpose::Fatal { reason } },
                );
                None
            },
            Ok((ControllerMode::Ptt, target)) => {
                self.wait_for_audio_target(target, true, false, Purpose::Fatal { reason });
                None
            },
            Err(error) => {
                self.phase = DaemonPhase::Done(Err(reason));
                Some(error)
            },
        }
    }

    fn run(&mut self, event: DaemonEvent) -> (noted: Option<AppError>)
        requires
            old(self).phase is Running,
        ensures
            final(self)@ == old(self)@.running(event),
            noted == old(self)@.setback(event),
    {
        match event {
            DaemonEvent::Input(Some(input)) => match self.controller.handle(input) {
                Ok(_) => None,
                Err(error) => self.finish_fatal_cleanup(error, None),
            },
            DaemonEvent::Input(None) => {
                self.finish_fatal_cleanup(AppError::InputChannelClosed, None)
            },
            DaemonEvent::Acknowledged(acknowledgement) => {
                self.note_acknowledgement(acknowledgement);
                None
            },
            DaemonEvent::AudioExited(exit) => {
                self.phase =
                DaemonPhase::StoppingReaders(
                    AfterReaders::Finish(Err(audio_exit_before("controller shutdown", exit))),
                );
                None
            },
            DaemonEvent::Signal { kind, received } => {
                if received {
                    self.shut_down();
                    None
                } else {
                    self.finish_fatal_cleanup(AppError::SignalListenerClosed(kind), None)
                }
            },
            DaemonEvent::ReaderExited(None) => {
                self.finish_fatal_cleanup(AppError::ReaderIdentityLost, None)
            },
            DaemonEvent::ReaderExited(Some(exit)) => {
                match self.controller.handle(ControlEvent::DeviceLost(exit.device())) {
                    Ok(effect) => self.finish_fatal_cleanup(
                        AppError::ReaderTerminated(exit),
                        effect.published,
                    ),
                    Err(error) => {
                        self.phase = DaemonPhase::Done(Err(error));
                        None
                    },
                }
            },
            _ => None,
        }
    }

    fn hold(
        &mut self,
        target: u64,
        events_open: bool,
        readers_stopped: bool,
        purpose: Purpose,
        event: DaemonEvent,
    ) -> (noted: Option<AppError>)
        ensures
            final(self)@ == old(self)@.in_phase(
                DaemonPhase::AwaitingTarget { target, events_open, readers_stopped, purpose },
            ).after(event),
            noted == old(self)@.in_phase(
                DaemonPhase::AwaitingTarget { target, events_open, readers_stopped, purpose },
            ).setback(event),
    {
        match event {
            DaemonEvent::Acknowledged(acknowledgement) => {
                self.note_acknowledgement(acknowledgement);
                self.wait_for_audio_target(target, events_open, readers_stopped, purpose);
                None
            },
            DaemonEvent::AudioExited(exit) => {
                self.miss_target(readers_stopped, purpose, exit)
            },
            DaemonEvent::Input(Some(input)) => {
                if events_open {
                    self.controller.observe_frozen(input);
                    self.wait_for_audio_target(target, events_open, readers_stopped, purpose);
                } else {
                    self.phase =
                    DaemonPhase::AwaitingTarget { target, events_open, readers_stopped, purpose };
                }
                None
            },
            DaemonEvent::Input(None) => {
                self.wait_for_audio_target(target, false, readers_stopped, purpose);
                None
            },
            DaemonEvent::ReaderExited(Some(exit)) => {
                self.controller.observe_frozen(ControlEvent::DeviceLost(exit.device()));
                self.wait_for_audio_target(target, events_open, readers_stopped, purpose);
                Some(AppError::ReaderTerminated(exit))
            },
            _ => {
                self.phase =
                DaemonPhase::AwaitingTarget { target, events_open, readers_stopped, purpose };
                None
            },
        }
    }

    fn miss_target(&mut self, readers_stopped: bool, purpose: Purpose, exit: AudioExit) -> (noted:
        Option<AppError>)
        ensures
            final(self)@ == old(self)@.in_phase(
                after_missed_target(readers_stopped, purpose, exit),
            ),
            noted == match purpose {
                Purpose::Fatal { .. } => Some(
                    AppError::AudioExitedBefore {
                        target: "required audio acknowledgement",
                        exit,
                    },
                ),
                _ => None,
            },
    {
        let error = audio_exit_before("required audio acknowledgement", exit);
        let (result, noted) = match purpose {
            Purpose::Fatal { reason } => (Err(reason), Some(error)),
            _ => (Err(error), None),
        };
        self.phase =
        if readers_stopped {
            DaemonPhase::Done(result)
        } else {
            DaemonPhase::StoppingReaders(AfterReaders::Finish(result))
        };
        noted
    }

    fn finish(&mut self, purpose: Purpose, exit: AudioExit) -> (noted: Option<AppError>)
        ensures
            final(self)@ == old(self)@.in_phase(DaemonPhase::Done(final_result(purpose, exit))),
            noted == old(self)@.in_phase(DaemonPhase::StoppingAudio(purpose)).setback(
                DaemonEvent::AudioExited(exit),
            ),
    {
        let joined = join_audio(exit);
        match purpose {
            Purpose::Startup { failure } => {
                self.phase =
                DaemonPhase::Done(
                    match (joined, failure) {
                        (Err(error), _) => Err(error),
                        (Ok(()), Some(error)) => Err(error),
                        (Ok(()), None) => Ok(()),
                    },
                );
                None
            },
            Purpose::Graceful => {
                self.phase = DaemonPhase::Done(joined);
                None
            },
            Purpose::Fatal { reason } => {
                self.phase = DaemonPhase::Done(Err(reason));
                match joined {
                    Ok(()) => None,
                    Err(error) => Some(AppError::Cleanup(Box::new(error))),
                }
            },
        }
    }
}

} // verus!
