//! What holds of the controller over any run of events.

use vstd::prelude::*;

use crate::audio::{AudioAck, DesiredRequest};
use crate::controller::{ControllerMode, ControllerView, EventEffect};
use crate::state::{ControlEvent, DesiredAudio, DeviceId, Mode, PolicyView, TransitionEpoch};
use crate::supervision::AppError;

verus! {

/// Whether the event is one of those that come from outside the controller.
pub open spec fn comes_from_outside(event: ControlEvent) -> bool {
    !(event is BeginBarrier) && !(event is CompleteBarrier)
}

impl ControllerView {
    /// The state after a run of events, in order.
    pub open spec fn after_all(self, events: Seq<ControlEvent>) -> Self
        decreases events.len(),
    {
        if events.len() == 0 {
            self
        } else {
            self.after_all(events.drop_last()).after(events.last())
        }
    }

    /// What holds between the controller and its policy.
    pub open spec fn coherent(self) -> bool {
        &&& match self.pending {
            Some(barrier) => {
                &&& self.policy.pending_epoch == Some(barrier.epoch)
                &&& barrier.epoch.0 == self.epoch
                &&& barrier.awaiting.subset_of(self.recovered)
                &&& !barrier.awaiting.is_empty()
            },
            None => self.policy.pending_epoch is None,
        }
        &&& match self.latest {
            Some(request) => request.revision == self.next_revision,
            None => self.next_revision == 0,
        }
        &&& self.policy.settled()
    }

    /// Whether the latest request is for the mode of the policy.
    pub open spec fn in_mode(self) -> bool {
        &&& self.policy.startup_handled
        &&& self.operation() == ControllerMode::Open <==> self.policy.mode == Mode::Open
    }

    /// Whether the latest request is for what mode and keys call for.
    pub open spec fn current(self) -> bool {
        self.latest matches Some(request) && request.state == self.policy.level()
    }

    /// Whether the controller is coherent, and its latest request is for the mode of the policy and
    /// for what mode and keys call for.
    pub open spec fn up_to_date(self) -> bool {
        self.coherent() && self.in_mode() && self.current()
    }

    /// Whether the event comes from outside and finds numbers for what it sets off.
    pub open spec fn admits(self, event: ControlEvent) -> bool {
        comes_from_outside(event) && self.effect(event) is Ok
    }

    /// Whether the event is admitted and keeps the audio state last asked for current.
    pub open spec fn takes_up(self, event: ControlEvent) -> bool {
        self.admits(event) && self.policy.keeps_current(event)
    }
}

proof fn lemma_level(policy: PolicyView, other: PolicyView)
    requires
        policy.mode == other.mode,
        policy.has_hold() == other.has_hold(),
    ensures
        policy.level() == other.level(),
{
}

/// Every event from outside that finds numbers for what it sets off keeps the controller coherent:
/// a barrier is pending exactly while the policy has one, it is the latest, it waits for some
/// device and only for readable ones, and the latest request bears the latest revision.
pub proof fn law_controller_stays_coherent(controller: ControllerView, event: ControlEvent)
    requires
        controller.coherent(),
        controller.admits(event),
    ensures
        controller.after(event).coherent(),
{
    crate::policy_laws::law_events_keep_it_settled(controller.policy, event);
    crate::policy_laws::law_only_a_toggle_changes_the_mode(controller.policy, event);
    let next = controller.responding(event);
    assert(next.policy == controller.policy.after(event));
    if controller.policy.outcome(event).transition is Some {
        let epoch = TransitionEpoch((controller.epoch + 1) as u64);
        let begun = next.policy.after(ControlEvent::BeginBarrier(epoch));
        crate::policy_laws::law_events_keep_it_settled(
            next.policy,
            ControlEvent::BeginBarrier(epoch),
        );
        crate::policy_laws::law_events_keep_it_settled(begun, ControlEvent::CompleteBarrier(epoch));
    } else {
        if let Some(barrier) = next.pending {
            crate::policy_laws::law_events_keep_it_settled(
                next.policy,
                ControlEvent::CompleteBarrier(barrier.epoch),
            );
        }
    }
}

/// A run of events from outside, each of which finds numbers for what it sets off, leaves a new
/// controller coherent.
pub proof fn law_runs_stay_coherent(device_count: nat, events: Seq<ControlEvent>)
    requires
        forall|i: int|
            #![trigger events[i]]
            0 <= i < events.len() ==> ControllerView::initial(device_count).after_all(
                events.take(i),
            ).admits(events[i]),
    ensures
        ControllerView::initial(device_count).after_all(events).coherent(),
    decreases events.len(),
{
    let start = ControllerView::initial(device_count);
    if events.len() > 0 {
        let earlier = events.drop_last();
        assert forall|i: int| #![trigger earlier[i]] 0 <= i < earlier.len() implies start.after_all(
            earlier.take(i),
        ).admits(earlier[i]) by {
            assert(earlier.take(i) =~= events.take(i));
            assert(events[i] == earlier[i]);
        }
        law_runs_stay_coherent(device_count, earlier);
        assert(events.take(events.len() - 1) =~= earlier);
        assert(events[events.len() - 1] == events.last());
        law_controller_stays_coherent(start.after_all(earlier), events.last());
    } else {
        assert(!start.policy.has_hold());
    }
}

/// Once the startup has been handled, the latest request is for an open microphone exactly while
/// the policy is in open mode.
pub proof fn law_latest_request_tells_the_mode(controller: ControllerView, event: ControlEvent)
    requires
        controller.coherent(),
        controller.in_mode(),
        controller.admits(event),
    ensures
        controller.after(event).in_mode(),
{
    crate::policy_laws::law_only_a_toggle_changes_the_mode(controller.policy, event);
}

/// The first startup publishes the request for a muted microphone, and from then on the latest
/// request tells the mode.
pub proof fn law_startup_publishes_idle(device_count: nat)
    ensures
        ({
            let start = ControllerView::initial(device_count);
            let started = start.after(ControlEvent::Startup);
            &&& start.effect(ControlEvent::Startup) == Ok::<EventEffect, AppError>(
                EventEffect { published: Some(1), began_epoch: None, completed_epoch: None },
            )
            &&& started.latest == Some(
                DesiredRequest { revision: 1, state: DesiredAudio::PttIdle },
            )
            &&& started.up_to_date()
        }),
{
    let start = ControllerView::initial(device_count);
    let started = start.after(ControlEvent::Startup);
    assert(forall|i: int|
        0 <= i < device_count ==> !(#[trigger] started.policy.devices[i]).valid_hold());
    assert(!started.policy.has_hold());
}

/// While the latest request is for what mode and keys call for, every event that keeps the audio
/// state last asked for current leaves it so.
pub proof fn law_latest_request_is_current(controller: ControllerView, event: ControlEvent)
    requires
        controller.coherent(),
        controller.current(),
        controller.admits(event),
        controller.policy.keeps_current(event),
    ensures
        controller.after(event).current(),
{
    crate::policy_laws::law_requests_stay_current(controller.policy, event);
    crate::policy_laws::law_events_keep_it_settled(controller.policy, event);
    crate::policy_laws::law_only_a_toggle_changes_the_mode(controller.policy, event);
    let next = controller.responding(event);
    assert(next.policy == controller.policy.after(event));
    assert(next.current());
    if controller.policy.outcome(event).transition is Some {
        let epoch = TransitionEpoch((controller.epoch + 1) as u64);
        let begun = next.policy.after(ControlEvent::BeginBarrier(epoch));
        crate::policy_laws::law_barriers_take_holds_away(next.policy, epoch);
        crate::policy_laws::law_barriers_take_holds_away(begun, epoch);
        lemma_level(next.policy, begun);
        lemma_level(next.policy, begun.after(ControlEvent::CompleteBarrier(epoch)));
    } else {
        if let Some(barrier) = next.pending {
            crate::policy_laws::law_barriers_take_holds_away(next.policy, barrier.epoch);
            if !next.policy.has_hold() {
                lemma_level(
                    next.policy,
                    next.policy.after(ControlEvent::CompleteBarrier(barrier.epoch)),
                );
            }
            assert(next.policy.pending_epoch is Some);
        }
    }
}

/// A controller that is up to date, as one is after the startup, stays so along any run of events
/// that keep the audio state last asked for current: the latest request is at every point the one
/// that mode and keys call for.
pub proof fn law_runs_keep_the_request_current(
    controller: ControllerView,
    events: Seq<ControlEvent>,
)
    requires
        controller.up_to_date(),
        forall|i: int|
            #![trigger events[i]]
            0 <= i < events.len() ==> controller.after_all(events.take(i)).takes_up(events[i]),
    ensures
        controller.after_all(events).up_to_date(),
    decreases events.len(),
{
    if events.len() > 0 {
        let earlier = events.drop_last();
        assert forall|i: int| #![trigger earlier[i]] 0 <= i < earlier.len() implies
        controller.after_all(earlier.take(i)).takes_up(earlier[i]) by {
            assert(earlier.take(i) =~= events.take(i));
            assert(events[i] == earlier[i]);
        }
        law_runs_keep_the_request_current(controller, earlier);
        assert(events.take(events.len() - 1) =~= earlier);
        assert(events[events.len() - 1] == events.last());
        lemma_step_stays_up_to_date(controller.after_all(earlier), events.last());
    }
}

proof fn lemma_step_stays_up_to_date(controller: ControllerView, event: ControlEvent)
    requires
        controller.up_to_date(),
        controller.takes_up(event),
    ensures
        controller.after(event).up_to_date(),
{
    law_controller_stays_coherent(controller, event);
    law_latest_request_tells_the_mode(controller, event);
    law_latest_request_is_current(controller, event);
}

/// Every request that is published has a higher revision than the latest one before it.
pub proof fn law_revisions_increase(controller: ControllerView, event: ControlEvent)
    requires
        controller.coherent(),
    ensures
        controller.effect(event) matches Ok(effect) ==> {
            &&& effect.published == match controller.policy.outcome(event).desired_audio {
                Some(_) => Some(controller.after(event).latest->0.revision),
                None => None,
            }
            &&& effect.published matches Some(revision) ==> {
                &&& revision == controller.next_revision + 1
                &&& controller.latest matches Some(previous) ==> revision > previous.revision
            }
            &&& effect.published is None ==> controller.after(event).latest == controller.latest
        },
{
}

/// Snapshots of another epoch than the pending barrier's are ignored.
pub proof fn law_stale_snapshots_are_ignored(
    controller: ControllerView,
    device: DeviceId,
    epoch: TransitionEpoch,
    ptt_held: bool,
    toggle_held: bool,
)
    requires
        controller.coherent(),
        !(controller.pending matches Some(barrier) && barrier.epoch == epoch),
    ensures
        ({
            let event = ControlEvent::KeySnapshot { device, epoch, ptt_held, toggle_held };
            &&& controller.after(event) == controller
            &&& controller.effect(event) == Ok::<EventEffect, AppError>(
                EventEffect { published: None, began_epoch: None, completed_epoch: None },
            )
        }),
{
    let event = ControlEvent::KeySnapshot { device, epoch, ptt_held, toggle_held };
    assert(controller.after(event) =~= controller);
}

/// A toggle begins a barrier of a number not used before, whether or not one is pending; it is
/// announced to every readable device and to no other, and completes at once if there is none.
pub proof fn law_toggle_begins_a_barrier(controller: ControllerView, event: ControlEvent)
    requires
        controller.coherent(),
        controller.admits(event),
        controller.policy.outcome(event).transition is Some,
    ensures
        ({
            let next = controller.after(event);
            let epoch = TransitionEpoch((controller.epoch + 1) as u64);
            &&& next.epoch == epoch.0
            &&& controller.effect(event)->Ok_0.began_epoch == Some(epoch)
            &&& forall|i: int|
                0 <= i < controller.epochs.len() ==> #[trigger] next.epochs[i]
                    == if controller.recovered.contains(i as usize) {
                    Some(epoch)
                } else {
                    controller.epochs[i]
                }
            &&& controller.recovered.is_empty() <==> next.pending is None
            &&& next.pending matches Some(barrier) ==> barrier.epoch == epoch && barrier.awaiting
                == controller.recovered
        }),
{
}

/// A pending barrier never blocks on a lost device, and completes with the last device that
/// reports its keys or is lost.
pub proof fn law_barrier_completes_with_its_last_device(
    controller: ControllerView,
    device: DeviceId,
    event: ControlEvent,
)
    requires
        controller.coherent(),
        controller.admits(event),
        controller.pending is Some,
        crate::controller::lost_by(event) == Some(device) || (event matches
            ControlEvent::KeySnapshot { device: reporting, epoch, .. } && reporting == device
            && epoch == controller.pending->0.epoch),
    ensures
        ({
            let barrier = controller.pending->0;
            let rest = barrier.awaiting.remove(device.0);
            if rest.is_empty() {
                &&& controller.after(event).pending is None
                &&& controller.after(event).policy.pending_epoch is None
                &&& controller.effect(event)->Ok_0.completed_epoch == Some(barrier.epoch)
            } else {
                &&& controller.after(event).pending matches Some(left)
                &&& left.epoch == barrier.epoch
                &&& left.awaiting == rest
                &&& controller.effect(event)->Ok_0.completed_epoch is None
            }
        }),
{
    law_controller_stays_coherent(controller, event);
    crate::policy_laws::law_only_a_toggle_changes_the_mode(controller.policy, event);
}

/// A frozen controller publishes nothing and announces nothing, whatever it observes.
pub proof fn law_frozen_controller_is_quiet(controller: ControllerView, event: ControlEvent)
    ensures
        controller.after_frozen(event).latest == controller.latest,
        controller.after_frozen(event).next_revision == controller.next_revision,
        controller.after_frozen(event).epochs == controller.epochs,
        controller.after_frozen(event).epoch == controller.epoch,
        controller.after_frozen(event).last_acknowledged == controller.last_acknowledged,
{
}

/// Events have no bearing on what is acknowledged.
pub proof fn law_events_keep_acknowledgements(controller: ControllerView, event: ControlEvent)
    ensures
        controller.after(event).last_acknowledged == controller.last_acknowledged,
{
}

/// A target that is complete stays so: acknowledgements that come late or out of order take
/// nothing back.
pub proof fn law_completion_is_lasting(
    controller: ControllerView,
    target: u64,
    acknowledgement: AudioAck,
)
    ensures
        controller.has_completed(target) ==> controller.acknowledging(
            acknowledgement,
        ).has_completed(target),
        controller.acknowledging(acknowledgement).has_completed(acknowledgement.revision),
        !controller.has_completed(target) && controller.acknowledging(
            acknowledgement,
        ).has_completed(target) ==> acknowledgement.revision >= target,
{
}

} // verus!
