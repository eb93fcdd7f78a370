use std::collections::VecDeque;

use pttd::audio::{
    AckOutcome, AudioAck, AudioError, DesiredRequest, SourceId, WorkerError,
};
use pttd::command::{
    CommandEvent, CommandOutput, CommandPhase, CommandRunner, Execution,
};
use pttd::fault::{IoError, IoErrorKind};
use pttd::state::DesiredAudio;
use pttd::worker::{AudioWorker, IdleGoal, Poll, Polled, Task, WorkerEvent, WorkerPhase};

/// How a child process behaves.
enum Behavior {
    Ready {
        success: bool,
        stdout: Vec<u8>,
    },
    ReadyAndPublish {
        success: bool,
        stdout: Vec<u8>,
        request: DesiredRequest,
    },
    Pending,
    WaitError {
        reap_fails: bool,
    },
    SpawnError,
}

fn ready(stdout: &[u8]) -> Behavior {
    Behavior::Ready {
        success: true,
        stdout: stdout.to_vec(),
    }
}

fn failure() -> Behavior {
    Behavior::Ready {
        success: false,
        stdout: Vec::new(),
    }
}

fn io_error(message: &str) -> IoError {
    IoError::new(IoErrorKind::Other, message)
}

fn exited(success: bool, stdout: &[u8]) -> CommandOutput {
    CommandOutput {
        success,
        status: Some(if success { 0 } else { 1 }),
        stdout: stdout.to_vec(),
    }
}

fn request(revision: u64, state: DesiredAudio) -> DesiredRequest {
    DesiredRequest { revision, state }
}

/// A child process and what was done to it.
struct Child {
    behavior: Behavior,
    waited: bool,
}

/// Everything around a worker.
struct World {
    worker: AudioWorker,
    behaviors: VecDeque<Behavior>,
    argv: Vec<Vec<String>>,
    events: Vec<&'static str>,
    acks: Vec<AudioAck>,
    noted: Vec<String>,
    child: Option<Child>,
    desired: Option<DesiredRequest>,
    changed: bool,
    closed: bool,
    time_up: bool,
    stop: bool,
    ticks: usize,
}

impl World {
    fn new<const N: usize>(behaviors: [Behavior; N], initial: Option<DesiredRequest>) -> Self {
        World {
            worker: AudioWorker::new(initial),
            behaviors: behaviors.into_iter().collect(),
            argv: Vec::new(),
            events: Vec::new(),
            acks: Vec::new(),
            noted: Vec::new(),
            child: None,
            desired: initial,
            changed: false,
            closed: false,
            time_up: false,
            stop: false,
            ticks: 0,
        }
    }

    fn publish(&mut self, request: DesiredRequest) {
        self.desired = Some(request);
        self.changed = true;
    }

    fn seen(&mut self) -> Option<DesiredRequest> {
        self.changed = false;
        self.desired
    }

    fn command(&mut self, task: Task) -> Option<CommandEvent> {
        match &self.worker.commands.phase {
            CommandPhase::Spawning { .. } => {
                assert!(self.child.is_none(), "spawn before reap");
                self.argv.push(task.wpctl().arguments());
                self.events.push("spawn");
                let behavior = self.behaviors.pop_front().expect("missing behavior");
                if matches!(behavior, Behavior::SpawnError) {
                    return Some(CommandEvent::Spawned(Err(io_error("spawn failed"))));
                }
                self.child = Some(Child {
                    behavior,
                    waited: false,
                });
                Some(CommandEvent::Spawned(Ok(())))
            }
            CommandPhase::Waiting { supersede, .. } => {
                let watches = supersede.is_some() && self.worker.desired_open;
                let child = self.child.as_mut().unwrap();
                if !child.waited {
                    child.waited = true;
                    self.events.push("wait");
                }
                match &child.behavior {
                    Behavior::Ready { success, stdout } => {
                        let output = exited(*success, stdout);
                        self.child = None;
                        Some(CommandEvent::Exited(Ok(output)))
                    }
                    Behavior::ReadyAndPublish {
                        success,
                        stdout,
                        request,
                    } => {
                        let output = exited(*success, stdout);
                        let request = *request;
                        self.child = None;
                        self.publish(request);
                        Some(CommandEvent::Exited(Ok(output)))
                    }
                    Behavior::WaitError { .. } => {
                        Some(CommandEvent::Exited(Err(io_error("wait failed"))))
                    }
                    Behavior::Pending | Behavior::SpawnError => {
                        if self.time_up {
                            self.time_up = false;
                            Some(CommandEvent::TimeUp)
                        } else if watches && self.changed {
                            Some(CommandEvent::DesiredChanged(self.seen()))
                        } else if watches && self.closed {
                            Some(CommandEvent::DesiredClosed)
                        } else {
                            None
                        }
                    }
                }
            }
            CommandPhase::Killing { .. } => {
                self.events.push("kill");
                Some(CommandEvent::Killed(None))
            }
            CommandPhase::Reaping { .. } => {
                self.events.push("reap");
                let child = self.child.take().unwrap();
                if matches!(child.behavior, Behavior::WaitError { reap_fails: true }) {
                    self.child = Some(child);
                    Some(CommandEvent::Reaped(Err(io_error("reap failed"))))
                } else {
                    Some(CommandEvent::Reaped(Ok(())))
                }
            }
            other => panic!("nothing to do in {other:?}"),
        }
    }

    /// Does what the worker asks for next, and tells whether there was anything to do.
    fn step(&mut self) -> bool {
        let event = match &self.worker.phase {
            WorkerPhase::Running(task) => {
                let task = *task;
                match self.command(task) {
                    Some(event) => WorkerEvent::Command(event),
                    None => return false,
                }
            }
            WorkerPhase::Polling(_) => WorkerEvent::Polled(if self.closed {
                Polled::Closed
            } else if self.changed {
                Polled::Changed(self.seen())
            } else {
                Polled::Unchanged
            }),
            WorkerPhase::Acknowledging { .. } => {
                self.acks.push(self.worker.acknowledgement().unwrap());
                WorkerEvent::Acknowledged(true)
            }
            WorkerPhase::CheckingStop => WorkerEvent::StopFlag(self.stop),
            WorkerPhase::Listening => {
                if self.stop {
                    WorkerEvent::StopChanged(true)
                } else if self.worker.desired_open && self.changed {
                    WorkerEvent::DesiredChanged(self.seen())
                } else if self.worker.desired_open && self.closed {
                    WorkerEvent::DesiredClosed
                } else if self.worker.is_idle() && self.ticks > 0 {
                    self.ticks -= 1;
                    WorkerEvent::Tick
                } else {
                    return false;
                }
            }
            WorkerPhase::Stopped(_) => return false,
        };
        if let Some(error) = self.worker.step(event) {
            self.noted.push(error.message());
        }
        true
    }

    /// Does what the worker asks for until there is nothing to do.
    fn run(&mut self) {
        while self.step() {}
    }

    fn release(&mut self, success: bool, stdout: &[u8]) {
        self.child.as_mut().unwrap().behavior = Behavior::Ready {
            success,
            stdout: stdout.to_vec(),
        };
    }

    fn finish(&mut self) {
        self.stop = true;
        self.run();
        assert!(matches!(self.worker.phase, WorkerPhase::Stopped(Ok(()))));
    }
}

fn execute(
    runner: &mut CommandRunner,
    operation: &'static str,
    behavior: Behavior,
    events: &mut Vec<&'static str>,
) -> Result<Execution, AudioError> {
    let mut desired_open = true;
    runner.begin(operation, None);
    loop {
        let event = match &runner.phase {
            CommandPhase::Spawning { .. } => {
                events.push("spawn");
                CommandEvent::Spawned(Ok(()))
            }
            CommandPhase::Waiting { .. } => {
                events.push("wait");
                match &behavior {
                    Behavior::Pending => CommandEvent::TimeUp,
                    _ => CommandEvent::Exited(Err(io_error("wait failed"))),
                }
            }
            CommandPhase::Killing { .. } => {
                events.push("kill");
                CommandEvent::Killed(None)
            }
            CommandPhase::Reaping { .. } => {
                events.push("reap");
                match &behavior {
                    Behavior::WaitError { reap_fails: true } => {
                        CommandEvent::Reaped(Err(io_error("reap failed")))
                    }
                    _ => CommandEvent::Reaped(Ok(())),
                }
            }
            CommandPhase::Finished(_) => return runner.take_result().unwrap(),
            CommandPhase::Ready => panic!("the command is gone"),
        };
        runner.step(event, &mut desired_open);
    }
}

#[test]
fn timeout_kills_and_reaps_and_reap_failure_poisons() {
    let mut events = Vec::new();
    let mut runner = CommandRunner::new();
    let result = execute(&mut runner, "timeout", Behavior::Pending, &mut events);
    assert!(matches!(result, Err(AudioError::Timeout { .. })));
    assert_eq!(events, ["spawn", "wait", "kill", "reap"]);

    let mut events = Vec::new();
    let mut runner = CommandRunner::new();
    let failing = Behavior::WaitError { reap_fails: true };
    assert!(matches!(
        execute(&mut runner, "bad", failing, &mut events),
        Err(AudioError::Reap { .. })
    ));
    assert_eq!(events, ["spawn", "wait", "kill", "reap"]);
    assert!(matches!(
        execute(&mut runner, "later", Behavior::Pending, &mut events),
        Err(AudioError::Poisoned { .. })
    ));
    assert_eq!(events.len(), 4);
}

#[test]
fn supersession_during_resolution_kills_reaps_and_suppresses_old_ack() {
    let mut world = World::new(
        [Behavior::Pending, ready(b"")],
        Some(request(1, DesiredAudio::PttTalking)),
    );
    world.run();
    world.publish(request(2, DesiredAudio::Open));
    world.run();
    assert_eq!(
        world.acks,
        [AudioAck {
            revision: 2,
            outcome: AckOutcome::Applied
        }]
    );
    world.finish();
    assert_eq!(
        world.events,
        ["spawn", "wait", "kill", "reap", "spawn", "wait"]
    );
    assert_eq!(world.argv.len(), 2);
}

#[test]
fn supersession_during_unmute_and_ptt_reentry_supersede_open() {
    let mut world = World::new(
        [
            ready(b"id 42, type PipeWire:Interface:Node\n"),
            Behavior::Pending,
            Behavior::Pending,
            ready(b"id 42, type PipeWire:Interface:Node\n"),
            ready(b""),
        ],
        Some(request(1, DesiredAudio::PttTalking)),
    );
    world.run();
    world.publish(request(2, DesiredAudio::Open));
    world.run();
    world.publish(request(3, DesiredAudio::PttTalking));
    world.run();
    assert_eq!(
        world.acks,
        [AudioAck {
            revision: 3,
            outcome: AckOutcome::Applied,
        }]
    );
    world.finish();
    assert_eq!(
        world.events.iter().filter(|event| **event == "kill").count(),
        2
    );
    assert_eq!(
        &world.argv[3..],
        [
            vec!["inspect".to_owned(), "@DEFAULT_AUDIO_SOURCE@".to_owned()],
            vec!["set-mute".to_owned(), "42".to_owned(), "0".to_owned()],
        ]
    );
}

#[test]
fn source_is_remembered_before_failed_unmute_and_idle_mutes_both_targets() {
    let mut world = World::new(
        [
            ready(b"id 42, type PipeWire:Interface:Node\n"),
            failure(),
            failure(),
            ready(b""),
        ],
        Some(request(1, DesiredAudio::PttTalking)),
    );
    world.run();
    assert_eq!(world.acks[0].outcome, AckOutcome::HandledFailure);
    world.publish(request(2, DesiredAudio::PttIdle));
    world.run();
    assert_eq!(world.acks[1].revision, 2);
    world.finish();
    assert_eq!(
        &world.argv[2..4],
        [
            vec!["set-mute".to_owned(), "42".to_owned(), "1".to_owned()],
            vec![
                "set-mute".to_owned(),
                "@DEFAULT_AUDIO_SOURCE@".to_owned(),
                "1".to_owned()
            ],
        ]
    );
    assert_eq!(
        world.noted,
        [
            "unmute concrete source exited unsuccessfully (Some(1))",
            "mute remembered source exited unsuccessfully (Some(1))",
        ]
    );
}

#[test]
fn idle_failure_is_acknowledged_then_retried_on_tick() {
    let mut world = World::new(
        [failure(), Behavior::Pending],
        Some(request(1, DesiredAudio::PttIdle)),
    );
    world.run();
    assert_eq!(world.acks[0].outcome, AckOutcome::HandledFailure);
    assert!(world.worker.idle_retry_pending);
    world.ticks = 1;
    world.run();
    assert_eq!(world.argv.len(), 2);
    world.release(true, b"");
    world.finish();
    assert!(!world.worker.idle_retry_pending);
    assert_eq!(world.acks.len(), 1);
}

#[test]
fn reconcile_query_and_mute_failures_retry_on_later_ticks() {
    let mut world = World::new(
        [
            ready(b""),
            failure(),
            ready(b"Volume: 1.0\n"),
            failure(),
            ready(b"Volume: 1.0 [MUTED]\n"),
        ],
        Some(request(1, DesiredAudio::PttIdle)),
    );
    world.run();
    assert_eq!(world.acks.len(), 1);
    world.ticks = 1;
    world.run();
    assert_eq!(world.argv.len(), 2);
    world.ticks = 1;
    world.run();
    assert_eq!(world.argv.len(), 4);
    world.ticks = 1;
    world.run();
    assert_eq!(world.argv.len(), 5);
    world.finish();
}

#[test]
fn stale_query_to_mute_is_suppressed() {
    let mut world = World::new(
        [Behavior::ReadyAndPublish {
            success: true,
            stdout: b"Volume: 1.0\n".to_vec(),
            request: request(2, DesiredAudio::Open),
        }],
        None,
    );
    world.worker.handled = Some(request(1, DesiredAudio::PttIdle));
    world.run();
    world.ticks = 1;
    loop {
        if let WorkerPhase::Running(Task::UnmuteDefault(newer)) = &world.worker.phase {
            assert_eq!(newer.revision, 2);
            break;
        }
        assert!(world.step());
    }
    assert_eq!(world.argv.len(), 1);
}

#[test]
fn stale_success_and_failure_acknowledgements_are_suppressed_and_ordered() {
    let mut world = World::new(
        [
            Behavior::ReadyAndPublish {
                success: false,
                stdout: Vec::new(),
                request: request(2, DesiredAudio::Open),
            },
            Behavior::ReadyAndPublish {
                success: true,
                stdout: Vec::new(),
                request: request(3, DesiredAudio::PttIdle),
            },
            ready(b""),
        ],
        Some(request(1, DesiredAudio::Open)),
    );
    world.run();
    assert_eq!(
        world.acks,
        [AudioAck {
            revision: 3,
            outcome: AckOutcome::Applied,
        }]
    );
    world.finish();
}

#[test]
fn graceful_stop_and_desired_closure_do_not_cancel_active_work() {
    let mut world = World::new(
        [Behavior::Pending],
        Some(request(1, DesiredAudio::Open)),
    );
    world.run();
    world.closed = true;
    world.stop = true;
    world.run();
    assert_eq!(world.events, ["spawn", "wait"]);
    assert!(!world.worker.desired_open);
    world.release(true, b"");
    world.run();
    assert_eq!(world.acks[0].revision, 1);
    assert!(matches!(world.worker.phase, WorkerPhase::Stopped(Ok(()))));
    assert_eq!(world.events, ["spawn", "wait"]);
}

#[test]
fn talking_and_open_failures_ack_once_without_automatic_retry_and_stop_waits() {
    let mut world = World::new(
        [failure(), failure()],
        Some(request(1, DesiredAudio::PttTalking)),
    );
    world.run();
    assert_eq!(
        world.acks,
        [AudioAck {
            revision: 1,
            outcome: AckOutcome::HandledFailure
        }]
    );
    assert_eq!(world.argv.len(), 1);
    world.publish(request(2, DesiredAudio::Open));
    world.ticks = 3;
    world.run();
    assert_eq!(
        world.acks[1],
        AudioAck {
            revision: 2,
            outcome: AckOutcome::HandledFailure
        }
    );
    world.finish();
    assert_eq!(world.argv.len(), 2);
    assert_eq!(world.acks.len(), 2);
}

#[test]
fn unreadable_output_is_noted_and_handled() {
    let mut world = World::new(
        [ready(b"nonsense\n"), ready(b""), ready(b"Volume: loud\n")],
        Some(request(1, DesiredAudio::PttTalking)),
    );
    world.run();
    assert_eq!(
        world.acks,
        [AudioAck {
            revision: 1,
            outcome: AckOutcome::HandledFailure
        }]
    );
    assert_eq!(world.worker.remembered, None);
    world.publish(request(2, DesiredAudio::PttIdle));
    world.run();
    world.ticks = 1;
    world.run();
    assert_eq!(
        world.noted,
        [
            "could not parse resolve default source output: missing source identity header",
            "could not parse query default source mute output: volume is not numeric",
        ]
    );
    world.finish();
}

#[test]
fn a_child_that_cannot_be_started_is_a_handled_failure() {
    let mut world = World::new(
        [Behavior::SpawnError],
        Some(request(1, DesiredAudio::Open)),
    );
    world.run();
    assert_eq!(world.acks[0].outcome, AckOutcome::HandledFailure);
    assert_eq!(
        world.noted,
        ["failed to start unmute default source: spawn failed"]
    );
    world.finish();
}

#[test]
fn a_failed_wait_is_handled_once_the_child_is_reaped() {
    let mut world = World::new(
        [Behavior::WaitError { reap_fails: false }, ready(b"")],
        Some(request(1, DesiredAudio::Open)),
    );
    world.run();
    assert_eq!(world.acks[0].outcome, AckOutcome::HandledFailure);
    assert_eq!(world.events, ["spawn", "wait", "kill", "reap"]);
    world.publish(request(2, DesiredAudio::Open));
    world.run();
    assert_eq!(world.acks[1].outcome, AckOutcome::Applied);
    world.finish();
}

#[test]
fn a_child_that_cannot_be_reaped_ends_the_worker() {
    let mut world = World::new(
        [Behavior::WaitError { reap_fails: true }],
        Some(request(1, DesiredAudio::PttIdle)),
    );
    world.run();
    let WorkerPhase::Stopped(Err(error)) = &world.worker.phase else {
        panic!("the worker goes on");
    };
    assert!(matches!(error, WorkerError::Audio(AudioError::Reap { .. })));
    assert_eq!(
        error.message(),
        "failed to reap after incomplete mute default source: reap failed"
    );
    assert!(world.worker.commands.poisoned);
    assert!(world.acks.is_empty());
    world.publish(request(2, DesiredAudio::Open));
    world.run();
    assert_eq!(world.argv.len(), 1);
}

#[test]
fn a_poisoned_runner_is_not_used_again() {
    let mut worker = AudioWorker::new(None);
    worker.commands.poisoned = true;
    worker.step(WorkerEvent::StopFlag(false));
    worker.step(WorkerEvent::DesiredChanged(Some(request(
        1,
        DesiredAudio::Open,
    ))));
    assert!(matches!(
        worker.phase,
        WorkerPhase::Stopped(Err(WorkerError::Audio(AudioError::Poisoned {
            operation: "unmute default source"
        })))
    ));
}

#[test]
fn muting_runs_to_its_end_though_another_state_is_desired() {
    let mut world = World::new(
        [Behavior::Pending, ready(b"")],
        Some(request(1, DesiredAudio::PttIdle)),
    );
    world.run();
    world.publish(request(2, DesiredAudio::Open));
    world.run();
    assert_eq!(world.events, ["spawn", "wait"]);
    world.release(true, b"");
    world.run();
    assert_eq!(
        world.acks,
        [AudioAck {
            revision: 2,
            outcome: AckOutcome::Applied
        }]
    );
    world.finish();
}

#[test]
fn an_acknowledgement_that_cannot_be_sent_ends_the_worker() {
    let mut world = World::new([ready(b"")], Some(request(1, DesiredAudio::Open)));
    while !matches!(world.worker.phase, WorkerPhase::Acknowledging { .. }) {
        assert!(world.step());
    }
    world.worker.step(WorkerEvent::Acknowledged(false));
    assert!(matches!(
        world.worker.phase,
        WorkerPhase::Stopped(Err(WorkerError::AcknowledgementChannelClosed))
    ));
}

#[test]
fn requests_that_are_acknowledged_or_older_are_left_alone() {
    let mut world = World::new([ready(b"")], Some(request(5, DesiredAudio::Open)));
    world.run();
    world.publish(request(5, DesiredAudio::PttTalking));
    world.run();
    world.publish(request(4, DesiredAudio::PttIdle));
    world.run();
    assert_eq!(world.argv.len(), 1);
    assert_eq!(world.acks.len(), 1);
    world.finish();
}

#[test]
fn events_that_nothing_waits_for_change_nothing() {
    let mut worker = AudioWorker::new(Some(request(1, DesiredAudio::PttIdle)));
    for event in [
        WorkerEvent::Tick,
        WorkerEvent::StopFlag(true),
        WorkerEvent::StopChanged(true),
        WorkerEvent::DesiredClosed,
        WorkerEvent::Acknowledged(false),
        WorkerEvent::Polled(Polled::Closed),
        WorkerEvent::Command(CommandEvent::TimeUp),
        WorkerEvent::Command(CommandEvent::Reaped(Ok(()))),
    ] {
        assert!(worker.step(event).is_none());
        assert!(matches!(
            worker.phase,
            WorkerPhase::Running(Task::MuteDefault {
                goal: IdleGoal::Apply(_),
                succeeded: true
            })
        ));
        assert!(matches!(
            worker.commands.phase,
            CommandPhase::Spawning {
                operation: "mute default source",
                supersede: None
            }
        ));
        assert!(worker.desired_open);
    }
}

#[test]
fn a_resolved_source_is_remembered_before_it_is_unmuted() {
    let mut world = World::new(
        [ready(b"id 7, type PipeWire:Interface:Node\n")],
        Some(request(1, DesiredAudio::PttTalking)),
    );
    while !matches!(
        world.worker.phase,
        WorkerPhase::Polling(Poll::Resolved { .. })
    ) {
        assert!(world.step());
    }
    assert_eq!(world.worker.remembered, Some(SourceId(7)));
    world.publish(request(2, DesiredAudio::PttIdle));
    world.step();
    let WorkerPhase::Running(task) = &world.worker.phase else {
        panic!("nothing is muted");
    };
    assert_eq!(task.operation(), "mute remembered source");
    assert_eq!(task.wpctl().arguments(), ["set-mute", "7", "1"]);
}

#[test]
fn a_kill_that_fails_is_told_apart_from_a_timeout() {
    let mut runner = CommandRunner::new();
    let mut desired_open = true;
    runner.begin("query default source mute", Some(1));
    for event in [
        CommandEvent::Spawned(Ok(())),
        CommandEvent::DesiredChanged(Some(request(1, DesiredAudio::Open))),
        CommandEvent::DesiredChanged(None),
        CommandEvent::TimeUp,
        CommandEvent::Killed(Some(io_error("no such process"))),
        CommandEvent::Reaped(Ok(())),
    ] {
        assert!(runner.take_result().is_none());
        runner.step(event, &mut desired_open);
    }
    let Some(Err(error)) = runner.take_result() else {
        panic!("the command did not fail");
    };
    assert_eq!(
        error.message(),
        "failed to kill timed-out query default source mute: no such process"
    );
    assert!(desired_open);
}

#[test]
fn without_a_remembered_source_idle_mutes_the_default_one_alone() {
    let mut world = World::new([ready(b"")], Some(request(1, DesiredAudio::PttIdle)));
    world.run();
    assert_eq!(
        world.acks,
        [AudioAck {
            revision: 1,
            outcome: AckOutcome::Applied
        }]
    );
    assert_eq!(
        world.argv,
        [["set-mute", "@DEFAULT_AUDIO_SOURCE@", "1"]]
    );
    assert!(!world.worker.idle_retry_pending);
    world.finish();
}
