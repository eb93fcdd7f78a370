//! What the controller publishes, announces and waits for, event by event.

use vstd::prelude::*;

use crate::audio::{AckOutcome, AudioAck, DesiredRequest};
use crate::controller::{
    BarrierView, Controller, ControllerMode, ControllerView, EventEffect,
};
use crate::state::{ControlEvent, DesiredAudio, DeviceId, TransitionEpoch};
use crate::supervision::AppError;

verus! {

/// At first nothing is readable, pending, published, announced or acknowledged.
pub proof fn law_controller_starts_blank(device_count: usize, controller: Controller)
    requires
        call_ensures(Controller::new, (device_count,), controller),
    ensures
        controller@.policy == crate::state::PolicyView::initial(device_count as nat),
        controller@.epochs.len() == device_count,
        forall|i: int| 0 <= i < device_count ==> #[trigger] controller@.epochs[i] is None,
        controller@.recovered == Set::<usize>::empty(),
        controller@.pending is None,
        controller@.next_revision == 0,
        controller@.epoch == 0,
        controller@.latest is None,
        controller@.last_acknowledged is None,
{
}

/// An audio state that the policy asks for is published as the latest request under the next
/// revision, whatever was published before; without one nothing is published.
pub proof fn law_asked_audio_is_published(controller: ControllerView, event: ControlEvent)
    requires
        controller.next_revision < u64::MAX,
        controller.epoch < u64::MAX,
    ensures
        ({
            let next = controller.after(event);
            let revision = (controller.next_revision + 1) as u64;
            &&& controller.effect(event) is Ok
            &&& match controller.policy.outcome(event).desired_audio {
                Some(state) => {
                    &&& next.latest == Some(DesiredRequest { revision, state })
                    &&& next.next_revision == revision
                    &&& controller.effect(event)->Ok_0.published == Some(revision)
                },
                None => {
                    &&& next.latest == controller.latest
                    &&& next.next_revision == controller.next_revision
                    &&& controller.effect(event)->Ok_0.published is None
                },
            }
            &&& next.last_acknowledged == controller.last_acknowledged
        }),
{
}

/// The readable devices are those that recovered and were not lost since.
pub proof fn law_readable_devices_are_kept_up_with(
    controller: ControllerView,
    event: ControlEvent,
)
    ensures
        controller.after(event).recovered == match event {
            ControlEvent::DeviceRecovered { device, .. } => controller.recovered.insert(device.0),
            ControlEvent::DeviceLost(device) => controller.recovered.remove(device.0),
            ControlEvent::SynchronizationLost(device) => controller.recovered.remove(device.0),
            _ => controller.recovered,
        },
        controller.after_frozen(event).recovered == controller.after(event).recovered,
{
}

/// A mode transition begins a barrier of the next number, whether or not one is pending. The policy
/// is told so, every readable device and no other is told, and all of them are waited for; with
/// none, the policy is told at once that the barrier is complete.
pub proof fn law_transition_begins_a_barrier(controller: ControllerView, event: ControlEvent)
    requires
        controller.policy.outcome(event).transition is Some,
        controller.next_revision < u64::MAX,
        controller.epoch < u64::MAX,
        !(event is DeviceRecovered),
        !(event is DeviceLost),
        !(event is SynchronizationLost),
    ensures
        ({
            let next = controller.after(event);
            let epoch = TransitionEpoch((controller.epoch + 1) as u64);
            let begun = controller.policy.after(event).after(ControlEvent::BeginBarrier(epoch));
            let nobody = controller.recovered.is_empty();
            let effect = controller.effect(event)->Ok_0;
            &&& controller.effect(event) is Ok
            &&& next.epoch == controller.epoch + 1
            &&& next.epochs.len() == controller.epochs.len()
            &&& forall|i: int|
                0 <= i < controller.epochs.len() ==> #[trigger] next.epochs[i]
                    == if controller.recovered.contains(i as usize) {
                    Some(epoch)
                } else {
                    controller.epochs[i]
                }
            &&& effect.began_epoch == Some(epoch)
            &&& nobody ==> {
                &&& next.pending is None
                &&& next.policy == begun.after(ControlEvent::CompleteBarrier(epoch))
                &&& effect.completed_epoch == Some(epoch)
            }
            &&& !nobody ==> {
                &&& next.pending == Some(BarrierView { epoch, awaiting: controller.recovered })
                &&& next.policy == begun
                &&& effect.completed_epoch is None
            }
        }),
{
}

/// Without a mode transition no barrier begins and nothing is announced.
pub proof fn law_no_barrier_without_a_transition(controller: ControllerView, event: ControlEvent)
    requires
        controller.policy.outcome(event).transition is None,
    ensures
        controller.after(event).epoch == controller.epoch,
        controller.after(event).epochs == controller.epochs,
        controller.effect(event) matches Ok(effect) ==> effect.began_epoch is None,
{
}

/// The pending barrier no longer waits for a device that is lost or that reports its keys for it,
/// and goes on waiting for every other; with the last one it is complete, and the policy is told.
pub proof fn law_pending_barrier_waits_for_the_rest(
    controller: ControllerView,
    event: ControlEvent,
    device: DeviceId,
    barrier: BarrierView,
)
    requires
        controller.pending == Some(barrier),
        controller.next_revision < u64::MAX,
        controller.policy.outcome(event).transition is None,
        event == ControlEvent::DeviceLost(device) || event == ControlEvent::SynchronizationLost(
            device,
        ) || (event matches ControlEvent::KeySnapshot { device: reporting, epoch, .. } && reporting
            == device && epoch == barrier.epoch),
    ensures
        ({
            let next = controller.after(event);
            let told = controller.policy.after(event);
            let effect = controller.effect(event)->Ok_0;
            let others = exists|other: usize|
                #![trigger barrier.awaiting.contains(other)]
                other != device.0 && barrier.awaiting.contains(other);
            &&& controller.effect(event) is Ok
            &&& others ==> {
                &&& next.pending == Some(
                    BarrierView {
                        epoch: barrier.epoch,
                        awaiting: barrier.awaiting.remove(device.0),
                    },
                )
                &&& next.policy == told
                &&& effect.completed_epoch is None
            }
            &&& !others ==> {
                &&& next.pending is None
                &&& next.policy == told.after(ControlEvent::CompleteBarrier(barrier.epoch))
                &&& effect.completed_epoch == Some(barrier.epoch)
            }
        }),
{
    let rest = barrier.awaiting.remove(device.0);
    if exists|other: usize|
        #![trigger barrier.awaiting.contains(other)]
        other != device.0 && barrier.awaiting.contains(other) {
        let other = choose|other: usize|
            #![trigger barrier.awaiting.contains(other)]
            other != device.0 && barrier.awaiting.contains(other);
        assert(rest.contains(other));
        assert(!rest.is_empty());
    } else {
        assert(rest =~= Set::empty());
        assert(rest.is_empty());
    }
}

/// Any other event leaves the pending barrier as it is, and the policy is told of the event and of
/// nothing else. So do losses and snapshots while no barrier is pending.
pub proof fn law_other_events_leave_the_barrier(controller: ControllerView, event: ControlEvent)
    requires
        controller.policy.outcome(event).transition is None,
        match event {
            ControlEvent::DeviceLost(_) => controller.pending is None,
            ControlEvent::SynchronizationLost(_) => controller.pending is None,
            ControlEvent::KeySnapshot { epoch, .. } => controller.pending is Some
                ==> controller.pending->0.epoch != epoch,
            _ => true,
        },
    ensures
        controller.after(event).pending == controller.pending,
        controller.after(event).policy == controller.policy.after(event),
        controller.effect(event) matches Ok(effect) ==> effect.completed_epoch is None,
{
}

/// Where no revision is left for a request, or no number for a barrier, the event fails for that
/// reason, with the policy told of the event and, in the second case, the request published.
pub proof fn law_numbers_run_out(controller: ControllerView, event: ControlEvent)
    ensures
        ({
            let outcome = controller.policy.outcome(event);
            let next = controller.after(event);
            let revision = (controller.next_revision + 1) as u64;
            &&& controller.effect(event) == Err::<EventEffect, AppError>(AppError::RevisionOverflow)
                <==> outcome.desired_audio is Some && controller.next_revision == u64::MAX
            &&& controller.effect(event) == Err::<EventEffect, AppError>(AppError::EpochOverflow)
                <==> !(outcome.desired_audio is Some && controller.next_revision == u64::MAX)
                && outcome.transition is Some && controller.epoch == u64::MAX
            &&& controller.effect(event) is Err ==> {
                &&& next.policy == controller.policy.after(event)
                &&& next.epochs == controller.epochs
                &&& next.epoch == controller.epoch
                &&& next.pending == controller.pending
                &&& next.last_acknowledged == controller.last_acknowledged
            }
            &&& controller.effect(event) == Err::<EventEffect, AppError>(AppError::RevisionOverflow)
                ==> next.latest == controller.latest && next.next_revision
                == controller.next_revision
            &&& controller.effect(event) == Err::<EventEffect, AppError>(AppError::EpochOverflow)
                ==> match outcome.desired_audio {
                Some(state) => next.latest == Some(DesiredRequest { revision, state })
                    && next.next_revision == revision,
                None => next.latest == controller.latest && next.next_revision
                    == controller.next_revision,
            }
        }),
{
}

/// Publishing makes a request of the next revision the latest one, and changes nothing else.
pub proof fn law_publishing_makes_the_latest_request(
    controller: ControllerView,
    state: DesiredAudio,
)
    requires
        controller.next_revision < u64::MAX,
    ensures
        ({
            let next = controller.publishing(state);
            &&& next.next_revision == controller.next_revision + 1
            &&& next.latest is Some
            &&& next.latest->0.revision == controller.next_revision + 1
            &&& next.latest->0.state == state
            &&& next == ControllerView {
                next_revision: next.next_revision,
                latest: next.latest,
                ..controller
            }
        }),
{
}

/// The highest revision that was acknowledged is kept, and a target is complete exactly if it does
/// not lie above that.
pub proof fn law_highest_acknowledgement_is_kept(
    controller: ControllerView,
    revision: u64,
    outcome: AckOutcome,
    target: u64,
)
    ensures
        ({
            let next = controller.acknowledging(AudioAck { revision, outcome });
            &&& next.last_acknowledged == Some(
                if controller.last_acknowledged is Some && controller.last_acknowledged->0
                    > revision {
                    controller.last_acknowledged->0
                } else {
                    revision
                },
            )
            &&& next == ControllerView { last_acknowledged: next.last_acknowledged, ..controller }
            &&& controller.has_completed(target) <==> controller.last_acknowledged is Some
                && controller.last_acknowledged->0 >= target
        }),
{
}

/// The microphone is operated as open exactly if the latest request is for that.
pub proof fn law_latest_request_tells_the_operation(
    controller: ControllerView,
    revision: Option<u64>,
)
    ensures
        controller.operation() == ControllerMode::Open <==> controller.latest is Some
            && controller.latest->0.state == DesiredAudio::Open,
        controller.idles_with(revision) <==> controller.latest is Some && revision == Some(
            controller.latest->0.revision,
        ) && controller.latest->0.state == DesiredAudio::PttIdle,
{
}

/// An event that must not set anything off is told to the policy, and the pending barrier no longer
/// waits for a device that it tells to be lost; nothing completes, and nothing else changes.
pub proof fn law_frozen_events_only_keep_count(
    controller: ControllerView,
    event: ControlEvent,
    device: DeviceId,
)
    ensures
        ({
            let next = controller.after_frozen(event);
            let lost = event == ControlEvent::DeviceLost(device) || event
                == ControlEvent::SynchronizationLost(device);
            &&& next == ControllerView {
                policy: controller.policy.after(event),
                recovered: next.recovered,
                pending: next.pending,
                ..controller
            }
            &&& !(event is DeviceLost) && !(event is SynchronizationLost) ==> next.pending
                == controller.pending
            &&& lost ==> match controller.pending {
                Some(barrier) => next.pending == Some(
                    BarrierView {
                        epoch: barrier.epoch,
                        awaiting: barrier.awaiting.remove(device.0),
                    },
                ),
                None => next.pending is None,
            }
        }),
{
}

} // verus!
