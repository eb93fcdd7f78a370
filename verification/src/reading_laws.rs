//! What a reader does about each thing that happens, step by step and from end to end.

use vstd::prelude::*;

use crate::fault::{Fault, IoError, IoErrorKind};
use crate::input::{
    Decision, EventTime, HeldKeys, InputEvent, NodeIdentity, ReaderConfig, ReaderError,
};
use crate::reader::{
    AfterClose, AfterSend, Query, Reader, ReaderEvent, ReaderPhase, SendOutcome,
};
use crate::state::{ControlEvent, DeviceId, EventTimestamp, TransitionEpoch};

verus! {

/// A reader sees first whether it is told to end, and then whether mode transitions can still be
/// announced, before it opens the device; it ends well if told to, and fails without announcements.
pub proof fn law_reader_begins_by_checking(
    config: ReaderConfig,
    latest_epoch: Option<TransitionEpoch>,
    reader: Reader,
)
    requires
        call_ensures(Reader::new, (config, latest_epoch), reader),
    ensures
        reader.config == config,
        reader.latest_epoch == latest_epoch,
        reader.phase is CheckingShutdown,
        ({
            let ended = reader.after(ReaderEvent::ShutdownFlag(true));
            let checking = reader.after(ReaderEvent::ShutdownFlag(false));
            &&& ended == Reader { phase: ReaderPhase::Finished(Ok(config.device)), ..reader }
            &&& checking == Reader { phase: ReaderPhase::CheckingEpochs, ..reader }
            &&& checking.after(ReaderEvent::EpochsOpen(true)) == Reader {
                phase: ReaderPhase::Opening,
                ..reader
            }
            &&& checking.after(ReaderEvent::EpochsOpen(false)) == Reader {
                phase: ReaderPhase::Finished(Err(ReaderError::EpochChannelClosed(config.device))),
                ..reader
            }
        }),
{
}

/// The same holds of a reader that begins anew.
pub proof fn law_reader_checks_before_every_try(reader: Reader, flag: bool)
    ensures
        reader.phase is CheckingShutdown ==> reader.after(ReaderEvent::ShutdownFlag(flag))
            == (Reader {
            phase: if flag {
                ReaderPhase::Finished(Ok(reader.config.device))
            } else {
                ReaderPhase::CheckingEpochs
            },
            ..reader
        }),
        reader.phase is CheckingEpochs ==> reader.after(ReaderEvent::EpochsOpen(flag)) == (Reader {
            phase: if flag {
                ReaderPhase::Opening
            } else {
                ReaderPhase::Finished(
                    Err(ReaderError::EpochChannelClosed(reader.config.device)),
                )
            },
            ..reader
        }),
{
}

/// Opening a device goes on to its clock, its identity, the claim of its node, and making its
/// reading not wait; a failure closes what is open, tells nobody, and leads to another try.
pub proof fn law_device_is_prepared_in_order(
    reader: Reader,
    identity: NodeIdentity,
    error: IoError,
)
    ensures
        ({
            let failed = Reader {
                phase: ReaderPhase::Closing(AfterClose::Reconnect),
                ..reader
            };
            &&& reader.phase is Opening ==> {
                &&& reader.after(ReaderEvent::Opened(Ok(()))) == Reader {
                    phase: ReaderPhase::SelectingClock,
                    ..reader
                }
                &&& reader.after(ReaderEvent::Opened(Err(error))) == Reader {
                    phase: ReaderPhase::CheckingRetry,
                    ..reader
                }
            }
            &&& reader.phase is SelectingClock ==> {
                &&& reader.after(ReaderEvent::ClockSelected(Ok(()))) == Reader {
                    phase: ReaderPhase::Identifying,
                    ..reader
                }
                &&& reader.after(ReaderEvent::ClockSelected(Err(error))) == failed
            }
            &&& reader.phase is Identifying ==> {
                &&& reader.after(ReaderEvent::Identified(Ok(identity))) == Reader {
                    phase: ReaderPhase::Claiming(identity),
                    ..reader
                }
                &&& reader.after(ReaderEvent::Identified(Err(error))) == failed
            }
            &&& reader.phase is Claiming ==> {
                &&& reader.after(ReaderEvent::Claimed(true)) == Reader {
                    phase: ReaderPhase::SettingNonblocking,
                    ..reader
                }
                &&& reader.after(ReaderEvent::Claimed(false)) == failed
            }
            &&& reader.phase is SettingNonblocking ==> {
                &&& reader.after(ReaderEvent::MadeNonblocking(Ok(()))) == Reader {
                    phase: ReaderPhase::Draining,
                    ..reader
                }
                &&& reader.after(ReaderEvent::MadeNonblocking(Err(error))) == failed
            }
        }),
{
}

/// Stale events are thrown away until reading would block, and only then the keys are queried; any
/// other end of the reading closes the device.
pub proof fn law_stale_events_are_thrown_away(reader: Reader, count: usize, error: IoError)
    requires
        reader.phase is Draining,
    ensures
        count > 0 ==> reader.after(ReaderEvent::Drained(Ok(count))) == reader,
        reader.after(ReaderEvent::Drained(Ok(0))) == (Reader {
            phase: ReaderPhase::Closing(AfterClose::Reconnect),
            ..reader
        }),
        reader.after(ReaderEvent::Drained(Err(error))) == (Reader {
            phase: if error.kind == IoErrorKind::WouldBlock {
                ReaderPhase::Querying(Query::Opening)
            } else {
                ReaderPhase::Closing(AfterClose::Reconnect)
            },
            ..reader
        }),
{
}

/// After the keys the clock is read, and after the clock the stream is started, or, where events
/// were lost, the recovery is told; the reading of the clock is the cutoff from then on. A failure
/// is told as a loss exactly if the controller knows of the device.
pub proof fn law_recovery_is_prepared_in_order(
    reader: Reader,
    held: HeldKeys,
    seconds: i64,
    nanoseconds: i64,
    error: IoError,
)
    ensures
        ({
            let device = reader.config.device;
            let unknown = Reader { phase: ReaderPhase::Closing(AfterClose::Reconnect), ..reader };
            let lost = Reader { phase: ReaderPhase::Closing(AfterClose::ReportLoss), ..reader };
            let proper = 0 <= nanoseconds < 1_000_000_000;
            let cutoff = EventTimestamp { seconds, nanoseconds: nanoseconds as u32 };
            let read = ReaderEvent::ClockRead(Ok((seconds, nanoseconds)));
            &&& reader.phase == ReaderPhase::Querying(Query::Opening) ==> {
                &&& reader.after(ReaderEvent::Queried(Ok(held))) == Reader {
                    phase: ReaderPhase::ReadingClock { held, resuming: false },
                    ..reader
                }
                &&& reader.after(ReaderEvent::Queried(Err(error))) == unknown
            }
            &&& reader.phase == ReaderPhase::Querying(Query::Recovery) ==> {
                &&& reader.after(ReaderEvent::Queried(Ok(held))) == Reader {
                    phase: ReaderPhase::ReadingClock { held, resuming: true },
                    ..reader
                }
                &&& reader.after(ReaderEvent::Queried(Err(error))) == lost
            }
            &&& reader.phase == (ReaderPhase::ReadingClock { held, resuming: false }) ==> {
                &&& proper ==> reader.after(read) == Reader {
                    phase: ReaderPhase::StartingStream { held, cutoff },
                    ..reader
                }
                &&& !proper ==> reader.after(read) == unknown
                &&& reader.after(ReaderEvent::ClockRead(Err(error))) == unknown
            }
            &&& reader.phase == (ReaderPhase::ReadingClock { held, resuming: true }) ==> {
                &&& proper ==> reader.after(read) == Reader {
                    phase: ReaderPhase::Sending {
                        event: ControlEvent::DeviceRecovered {
                            device,
                            ptt_held: held.ptt,
                            toggle_held: held.toggle,
                        },
                        then: AfterSend::Listen { cutoff },
                    },
                    ..reader
                }
                &&& !proper ==> reader.after(read) == lost
                &&& reader.after(ReaderEvent::ClockRead(Err(error))) == lost
            }
        }),
{
}

/// Once the stream is started, the recovery is told with the keys that are down, then, if a mode
/// transition was announced, a snapshot of them for the latest one, and then the reader listens.
pub proof fn law_recovery_and_snapshot_are_told(
    reader: Reader,
    held: HeldKeys,
    cutoff: EventTimestamp,
    error: IoError,
)
    requires
        reader.phase == (ReaderPhase::StartingStream { held, cutoff }),
    ensures
        ({
            let device = reader.config.device;
            let telling = reader.after(ReaderEvent::StreamStarted(Ok(())));
            let told = telling.after(ReaderEvent::SendEnded(SendOutcome::Sent));
            &&& reader.after(ReaderEvent::StreamStarted(Err(error))) == Reader {
                phase: ReaderPhase::Closing(AfterClose::Reconnect),
                ..reader
            }
            &&& telling == Reader {
                phase: ReaderPhase::Sending {
                    event: ControlEvent::DeviceRecovered {
                        device,
                        ptt_held: held.ptt,
                        toggle_held: held.toggle,
                    },
                    then: AfterSend::Snapshot { held, cutoff },
                },
                ..reader
            }
            &&& reader.latest_epoch is None ==> told == Reader {
                phase: ReaderPhase::Listening { cutoff },
                ..reader
            }
            &&& reader.latest_epoch matches Some(epoch) ==> {
                &&& told == Reader {
                    phase: ReaderPhase::Sending {
                        event: ControlEvent::KeySnapshot {
                            device,
                            epoch,
                            ptt_held: held.ptt,
                            toggle_held: held.toggle,
                        },
                        then: AfterSend::Listen { cutoff },
                    },
                    ..reader
                }
                &&& told.after(ReaderEvent::SendEnded(SendOutcome::Sent)) == Reader {
                    phase: ReaderPhase::Listening { cutoff },
                    ..reader
                }
            }
        }),
{
}

/// Once an event is sent the reader goes on with what was to follow. If it is told to end meanwhile
/// it ends well, and if nobody takes the event it fails, either way with the device closed.
pub proof fn law_sending_leads_on(
    reader: Reader,
    event: ControlEvent,
    then: AfterSend,
    held: HeldKeys,
    cutoff: EventTimestamp,
    outcome: SendOutcome,
)
    requires
        reader.phase == (ReaderPhase::Sending { event, then }),
    ensures
        ({
            let device = reader.config.device;
            let next = reader.after(ReaderEvent::SendEnded(outcome));
            let result = if outcome == SendOutcome::ShuttingDown {
                Ok::<DeviceId, ReaderError>(device)
            } else {
                Err(ReaderError::EventChannelClosed(device))
            };
            &&& next == Reader { phase: next.phase, ..reader }
            &&& outcome == SendOutcome::Sent ==> {
                &&& then == (AfterSend::Listen { cutoff }) ==> next.phase
                    == (ReaderPhase::Listening { cutoff })
                &&& then is Discard ==> next.phase is Discarding
                &&& then is Reconnect ==> next.phase is CheckingRetry
                &&& then == (AfterSend::Snapshot { held, cutoff }) ==> next.phase
                    == match reader.latest_epoch {
                    Some(epoch) => ReaderPhase::Sending {
                        event: ControlEvent::KeySnapshot {
                            device,
                            epoch,
                            ptt_held: held.ptt,
                            toggle_held: held.toggle,
                        },
                        then: AfterSend::Listen { cutoff },
                    },
                    None => ReaderPhase::Listening { cutoff },
                }
            }
            &&& outcome != SendOutcome::Sent ==> next.phase == if then is Reconnect {
                ReaderPhase::Finished(result)
            } else {
                ReaderPhase::Closing(AfterClose::Finish(result))
            }
        }),
{
}

/// A press or a release of the push-to-talk key after the cutoff is sent on as such, and then the
/// reader listens on.
pub proof fn law_talk_key_reaches_the_controller(
    reader: Reader,
    cutoff: EventTimestamp,
    event: InputEvent,
    seconds: u64,
    nanoseconds: u32,
)
    requires
        reader.phase == (ReaderPhase::Listening { cutoff }),
        event.event_type == 1,
        event.code == reader.config.ptt_key.0,
        event.value == 0 || event.value == 1,
        event.time == (EventTime::SinceEpoch { seconds, nanoseconds }),
        seconds <= i64::MAX,
        cutoff.seconds < seconds || cutoff.seconds == seconds && cutoff.nanoseconds < nanoseconds,
    ensures
        ({
            let device = reader.config.device;
            let timestamp = EventTimestamp { seconds: seconds as i64, nanoseconds };
            let sending = reader.after(ReaderEvent::Input(Ok(event)));
            &&& sending == Reader {
                phase: ReaderPhase::Sending {
                    event: if event.value == 1 {
                        ControlEvent::PttDown { device, timestamp }
                    } else {
                        ControlEvent::PttUp { device, timestamp }
                    },
                    then: AfterSend::Listen { cutoff },
                },
                ..reader
            }
            &&& sending.after(ReaderEvent::SendEnded(SendOutcome::Sent)) == reader
        }),
{
}

/// A press or a release of a toggle key of its own after the cutoff is sent on as such, and then
/// the reader listens on.
pub proof fn law_toggle_key_reaches_the_controller(
    reader: Reader,
    cutoff: EventTimestamp,
    event: InputEvent,
    seconds: u64,
    nanoseconds: u32,
)
    requires
        reader.phase == (ReaderPhase::Listening { cutoff }),
        event.event_type == 1,
        event.code == reader.config.toggle_key.0,
        reader.config.toggle_key.0 != reader.config.ptt_key.0,
        event.value == 0 || event.value == 1,
        event.time == (EventTime::SinceEpoch { seconds, nanoseconds }),
        seconds <= i64::MAX,
        cutoff.seconds < seconds || cutoff.seconds == seconds && cutoff.nanoseconds < nanoseconds,
    ensures
        ({
            let device = reader.config.device;
            let timestamp = EventTimestamp { seconds: seconds as i64, nanoseconds };
            let sending = reader.after(ReaderEvent::Input(Ok(event)));
            &&& sending == Reader {
                phase: ReaderPhase::Sending {
                    event: if event.value == 1 {
                        ControlEvent::ToggleDown { device, timestamp }
                    } else {
                        ControlEvent::ToggleUp { device, timestamp }
                    },
                    then: AfterSend::Listen { cutoff },
                },
                ..reader
            }
            &&& sending.after(ReaderEvent::SendEnded(SendOutcome::Sent)) == reader
        }),
{
}

/// What an input event calls for is done: ignored events change nothing, and an event without a
/// proper time, or a failure to read, closes the device and is told as a loss.
pub proof fn law_input_is_dealt_with(
    reader: Reader,
    cutoff: EventTimestamp,
    event: InputEvent,
    error: IoError,
)
    requires
        reader.phase == (ReaderPhase::Listening { cutoff }),
    ensures
        ({
            let next = reader.after(ReaderEvent::Input(Ok(event)));
            let lost = Reader { phase: ReaderPhase::Closing(AfterClose::ReportLoss), ..reader };
            match reader.config.decision(event, cutoff) {
                Ok(Decision::Emit(out)) => next == Reader {
                    phase: ReaderPhase::Sending { event: out, then: AfterSend::Listen { cutoff } },
                    ..reader
                },
                Ok(Decision::BeginSynchronization) => next == Reader {
                    phase: ReaderPhase::Sending {
                        event: ControlEvent::SynchronizationLost(reader.config.device),
                        then: AfterSend::Discard,
                    },
                    ..reader
                },
                Ok(_) => next == reader,
                Err(_) => next == lost,
            }
        }),
        reader.after(ReaderEvent::Input(Err(error))) == (Reader {
            phase: ReaderPhase::Closing(AfterClose::ReportLoss),
            ..reader
        }),
{
}

/// That events were lost is told, then everything up to the next report is thrown away, and then
/// the keys are queried anew and the recovery is told.
pub proof fn law_lost_events_lead_to_a_recovery(
    reader: Reader,
    cutoff: EventTimestamp,
    dropped: InputEvent,
    skipped: InputEvent,
    report: InputEvent,
    held: HeldKeys,
    error: IoError,
)
    requires
        reader.phase == (ReaderPhase::Listening { cutoff }),
        dropped.event_type == 0,
        dropped.code == 3,
        skipped.event_type != 0 || skipped.code != 0,
        report.event_type == 0,
        report.code == 0,
    ensures
        ({
            let telling = reader.after(ReaderEvent::Input(Ok(dropped)));
            let discarding = telling.after(ReaderEvent::SendEnded(SendOutcome::Sent));
            let querying = discarding.after(ReaderEvent::Input(Ok(report)));
            &&& telling == Reader {
                phase: ReaderPhase::Sending {
                    event: ControlEvent::SynchronizationLost(reader.config.device),
                    then: AfterSend::Discard,
                },
                ..reader
            }
            &&& discarding == Reader { phase: ReaderPhase::Discarding, ..reader }
            &&& discarding.after(ReaderEvent::Input(Ok(skipped))) == discarding
            &&& discarding.after(ReaderEvent::Input(Err(error))) == Reader {
                phase: ReaderPhase::Closing(AfterClose::ReportLoss),
                ..reader
            }
            &&& discarding.after(ReaderEvent::ShutdownChanged) == Reader {
                phase: ReaderPhase::Closing(AfterClose::Finish(Ok(reader.config.device))),
                ..reader
            }
            &&& querying == Reader { phase: ReaderPhase::Querying(Query::Recovery), ..reader }
            &&& querying.after(ReaderEvent::Queried(Ok(held))) == Reader {
                phase: ReaderPhase::ReadingClock { held, resuming: true },
                ..reader
            }
        }),
{
}

/// A mode transition that is announced to a listening reader makes it query the keys and send them
/// as the snapshot of that transition, and then listen on; a device whose keys cannot be queried is
/// told to be lost.
pub proof fn law_announced_transitions_are_answered(
    reader: Reader,
    cutoff: EventTimestamp,
    epoch: TransitionEpoch,
    held: HeldKeys,
    error: IoError,
)
    requires
        reader.phase == (ReaderPhase::Listening { cutoff }),
    ensures
        ({
            let device = reader.config.device;
            let querying = reader.after(ReaderEvent::EpochChanged(Some(epoch)));
            let sending = querying.after(ReaderEvent::Queried(Ok(held)));
            let informed = Reader { latest_epoch: Some(epoch), ..reader };
            &&& querying == Reader {
                phase: ReaderPhase::Querying(Query::Snapshot { epoch, cutoff }),
                ..informed
            }
            &&& sending == Reader {
                phase: ReaderPhase::Sending {
                    event: ControlEvent::KeySnapshot {
                        device,
                        epoch,
                        ptt_held: held.ptt,
                        toggle_held: held.toggle,
                    },
                    then: AfterSend::Listen { cutoff },
                },
                ..informed
            }
            &&& sending.after(ReaderEvent::SendEnded(SendOutcome::Sent)) == informed
            &&& querying.after(ReaderEvent::Queried(Err(error))) == Reader {
                phase: ReaderPhase::Closing(AfterClose::ReportLoss),
                ..informed
            }
            &&& reader.after(ReaderEvent::EpochChanged(None)) == Reader {
                latest_epoch: None,
                ..reader
            }
        }),
{
}

/// A listening reader that is told to end closes its device and ends well; if no mode transition
/// can be announced any more, it closes its device and fails.
pub proof fn law_listening_reader_ends_when_told(reader: Reader)
    requires
        reader.phase is Listening,
    ensures
        ({
            let device = reader.config.device;
            let told = reader.after(ReaderEvent::ShutdownChanged);
            let cut_off = reader.after(ReaderEvent::EpochsClosed);
            &&& told == Reader {
                phase: ReaderPhase::Closing(AfterClose::Finish(Ok(device))),
                ..reader
            }
            &&& told.after(ReaderEvent::Closed) == Reader {
                phase: ReaderPhase::Finished(Ok(device)),
                ..reader
            }
            &&& cut_off == Reader {
                phase: ReaderPhase::Closing(
                    AfterClose::Finish(Err(ReaderError::EpochChannelClosed(device))),
                ),
                ..reader
            }
            &&& cut_off.after(ReaderEvent::Closed) == Reader {
                phase: ReaderPhase::Finished(Err(ReaderError::EpochChannelClosed(device))),
                ..reader
            }
        }),
{
}

/// A closed device is tried again, after its loss was told where that is due; a reader that was to
/// end ends as it was to.
pub proof fn law_closed_device_leads_on(reader: Reader, result: Result<DeviceId, ReaderError>)
    ensures
        reader.phase == ReaderPhase::Closing(AfterClose::Reconnect) ==> reader.after(
            ReaderEvent::Closed,
        ) == (Reader { phase: ReaderPhase::CheckingRetry, ..reader }),
        reader.phase == ReaderPhase::Closing(AfterClose::ReportLoss) ==> reader.after(
            ReaderEvent::Closed,
        ) == (Reader {
            phase: ReaderPhase::Sending {
                event: ControlEvent::DeviceLost(reader.config.device),
                then: AfterSend::Reconnect,
            },
            ..reader
        }),
        reader.phase == ReaderPhase::Closing(AfterClose::Finish(result)) ==> reader.after(
            ReaderEvent::Closed,
        ) == (Reader { phase: ReaderPhase::Finished(result), ..reader }),
{
}

/// Before another try the reader waits for the delay to be over, keeps up with announced mode
/// transitions, and ends when it is told to or when none can be announced any more.
pub proof fn law_reader_waits_before_another_try(
    reader: Reader,
    latest: Option<TransitionEpoch>,
)
    ensures
        ({
            let device = reader.config.device;
            &&& reader.phase is CheckingRetry ==> {
                &&& reader.after(ReaderEvent::ShutdownFlag(true)) == Reader {
                    phase: ReaderPhase::Finished(Ok(device)),
                    ..reader
                }
                &&& reader.after(ReaderEvent::ShutdownFlag(false)) == Reader {
                    phase: ReaderPhase::Reconnecting,
                    ..reader
                }
            }
            &&& reader.phase is Reconnecting ==> {
                &&& reader.after(ReaderEvent::ShutdownChanged) == Reader {
                    phase: ReaderPhase::Finished(Ok(device)),
                    ..reader
                }
                &&& reader.after(ReaderEvent::EpochChanged(latest)) == Reader {
                    latest_epoch: latest,
                    ..reader
                }
                &&& reader.after(ReaderEvent::EpochsClosed) == Reader {
                    phase: ReaderPhase::Finished(Err(ReaderError::EpochChannelClosed(device))),
                    ..reader
                }
                &&& reader.after(ReaderEvent::DelayOver) == Reader {
                    phase: ReaderPhase::CheckingShutdown,
                    ..reader
                }
            }
        }),
{
}

/// Whether a phase waits for an event of that kind.
pub open spec fn is_awaited(phase: ReaderPhase, event: ReaderEvent) -> bool {
    match event {
        ReaderEvent::ShutdownFlag(_) => phase is CheckingShutdown || phase is CheckingRetry,
        ReaderEvent::EpochsOpen(_) => phase is CheckingEpochs,
        ReaderEvent::Opened(_) => phase is Opening,
        ReaderEvent::ClockSelected(_) => phase is SelectingClock,
        ReaderEvent::Identified(_) => phase is Identifying,
        ReaderEvent::Claimed(_) => phase is Claiming,
        ReaderEvent::MadeNonblocking(_) => phase is SettingNonblocking,
        ReaderEvent::Drained(_) => phase is Draining,
        ReaderEvent::Queried(_) => phase is Querying,
        ReaderEvent::ClockRead(_) => phase is ReadingClock,
        ReaderEvent::StreamStarted(_) => phase is StartingStream,
        ReaderEvent::SendEnded(_) => phase is Sending,
        ReaderEvent::ShutdownChanged => phase is Listening || phase is Discarding
            || phase is Reconnecting,
        ReaderEvent::EpochChanged(_) => phase is Listening || phase is Reconnecting,
        ReaderEvent::EpochsClosed => phase is Listening || phase is Reconnecting,
        ReaderEvent::Input(_) => phase is Listening || phase is Discarding,
        ReaderEvent::Closed => phase is Closing,
        ReaderEvent::DelayOver => phase is Reconnecting,
    }
}

/// Events that are not waited for change nothing and tell of no failure.
pub proof fn law_unawaited_reader_events_are_ignored(reader: Reader, event: ReaderEvent)
    requires
        !is_awaited(reader.phase, event),
    ensures
        reader.after(event) == reader,
        reader.fault(event) is None,
{
}

/// A failure that is waited for is told with its kind and description, and what goes well tells of
/// none.
pub proof fn law_failures_are_told(
    reader: Reader,
    error: IoError,
    held: HeldKeys,
    identity: NodeIdentity,
    flag: bool,
    outcome: SendOutcome,
)
    ensures
        ({
            let told = Some(Fault { kind: error.kind, text: error.message@ });
            &&& reader.phase is Opening ==> reader.fault(ReaderEvent::Opened(Err(error))) == told
            &&& reader.phase is SelectingClock ==> reader.fault(
                ReaderEvent::ClockSelected(Err(error)),
            ) == told
            &&& reader.phase is Identifying ==> reader.fault(ReaderEvent::Identified(Err(error)))
                == told
            &&& reader.phase is SettingNonblocking ==> reader.fault(
                ReaderEvent::MadeNonblocking(Err(error)),
            ) == told
            &&& reader.phase is Querying ==> reader.fault(ReaderEvent::Queried(Err(error))) == told
            &&& reader.phase is ReadingClock ==> reader.fault(ReaderEvent::ClockRead(Err(error)))
                == told
            &&& reader.phase is StartingStream ==> reader.fault(
                ReaderEvent::StreamStarted(Err(error)),
            ) == told
            &&& reader.phase is Listening || reader.phase is Discarding ==> reader.fault(
                ReaderEvent::Input(Err(error)),
            ) == told
            &&& reader.phase is Draining && error.kind != IoErrorKind::WouldBlock ==> reader.fault(
                ReaderEvent::Drained(Err(error)),
            ) == told
            &&& error.kind == IoErrorKind::WouldBlock ==> reader.fault(
                ReaderEvent::Drained(Err(error)),
            ) is None
        }),
        reader.fault(ReaderEvent::Opened(Ok(()))) is None,
        reader.fault(ReaderEvent::ClockSelected(Ok(()))) is None,
        reader.fault(ReaderEvent::Identified(Ok(identity))) is None,
        reader.fault(ReaderEvent::Claimed(flag)) is None,
        reader.fault(ReaderEvent::Queried(Ok(held))) is None,
        reader.fault(ReaderEvent::SendEnded(outcome)) is None,
        reader.fault(ReaderEvent::Closed) is None,
{
}

/// The device that a reader's failure names, and its description.
pub proof fn law_reader_errors_name_the_device(
    device: DeviceId,
    events_closed: DeviceId,
    epochs_closed: DeviceId,
)
    requires
        call_ensures(
            ReaderError::device,
            (&ReaderError::EventChannelClosed(device),),
            events_closed,
        ),
        call_ensures(
            ReaderError::device,
            (&ReaderError::EpochChannelClosed(device),),
            epochs_closed,
        ),
    ensures
        events_closed == device,
        epochs_closed == device,
{
}

/// What is noted is the failure that there was, with its kind and description, and nothing without
/// one.
pub proof fn law_noted_errors_are_the_failures(error: IoError, fault: Fault)
    ensures
        crate::reader::reports(None, None),
        !crate::reader::reports(None, Some(fault)),
        !crate::reader::reports(Some(error), None),
        crate::reader::reports(Some(error), Some(fault)) <==> error.kind == fault.kind
            && error.message@ == fault.text,
        crate::fault::ends_as(Err::<bool, IoError>(error), Err(fault)) <==> error.kind == fault.kind
            && error.message@ == fault.text,
        !crate::fault::ends_as(Err::<bool, IoError>(error), Ok(true)),
        !crate::fault::ends_as(Ok::<bool, IoError>(true), Err(fault)),
{
}

} // verus!
