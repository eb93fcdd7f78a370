//! The controller: feeds the policy, publishes audio requests, and runs transition barriers.

use std::collections::HashSet;

use vstd::prelude::*;

use crate::audio::{AudioAck, DesiredRequest};
use crate::state::{
    ControlEvent, DesiredAudio, DeviceId, Policy, PolicyView, TransitionEpoch,
};
use crate::supervision::AppError;

verus! {

broadcast use vstd::std_specs::hash::group_hash_axioms;

/// How the microphone is operated, by the latest request.
#[derive(Clone, Copy, Debug, PartialEq, Eq, Structural)]
pub enum ControllerMode {
    Ptt,
    Open,
}

/// A barrier that is not complete, and the devices whose keys it waits for.
#[derive(Debug)]
pub struct PendingBarrier {
    pub epoch: TransitionEpoch,
    pub awaiting: HashSet<usize>,
}

/// What an event set off.
#[derive(Clone, Copy, Debug, PartialEq, Eq, Structural)]
pub struct EventEffect {
    pub published: Option<u64>,
    pub began_epoch: Option<TransitionEpoch>,
    pub completed_epoch: Option<TransitionEpoch>,
}

impl Default for EventEffect {
    fn default() -> (effect: Self)
        ensures
            effect == (EventEffect { published: None, began_epoch: None, completed_epoch: None }),
    {
        EventEffect { published: None, began_epoch: None, completed_epoch: None }
    }
}

/// The mathematical content of a pending barrier.
#[verifier::ext_equal]
pub struct BarrierView {
    pub epoch: TransitionEpoch,
    pub awaiting: Set<usize>,
}

impl View for PendingBarrier {
    type V = BarrierView;

    open spec fn view(&self) -> BarrierView {
        BarrierView { epoch: self.epoch, awaiting: self.awaiting@ }
    }
}

/// The mathematical state of a controller.
#[verifier::ext_equal]
pub struct ControllerView {
    pub policy: PolicyView,
    pub epochs: Seq<Option<TransitionEpoch>>,
    pub recovered: Set<usize>,
    pub pending: Option<BarrierView>,
    pub next_revision: u64,
    pub epoch: u64,
    pub latest: Option<DesiredRequest>,
    pub last_acknowledged: Option<u64>,
}

/// Decides what is published and when barriers begin and end.
#[derive(Debug)]
pub struct Controller {
    pub policy: Policy,
    /// The mode transition that was last announced to each device.
    pub epochs: Vec<Option<TransitionEpoch>>,
    /// The devices that can be read.
    pub recovered: HashSet<usize>,
    pub pending: Option<PendingBarrier>,
    /// The revision of the latest request, or zero.
    pub next_revision: u64,
    /// The number of the latest mode transition, or zero.
    pub epoch: u64,
    /// The request that was published last.
    pub latest: Option<DesiredRequest>,
    pub last_acknowledged: Option<u64>,
}

impl View for Controller {
    type V = ControllerView;

    open spec fn view(&self) -> ControllerView {
        ControllerView {
            policy: self.policy@,
            epochs: self.epochs@,
            recovered: self.recovered@,
            pending: match self.pending {
                Some(barrier) => Some(barrier@),
                None => None,
            },
            next_revision: self.next_revision,
            epoch: self.epoch,
            latest: self.latest,
            last_acknowledged: self.last_acknowledged,
        }
    }
}

/// The device that an event tells to be lost, or out of step.
pub open spec fn lost_by(event: ControlEvent) -> Option<DeviceId> {
    match event {
        ControlEvent::DeviceLost(device) => Some(device),
        ControlEvent::SynchronizationLost(device) => Some(device),
        _ => None,
    }
}

impl ControllerView {
    /// The state before any event.
    pub open spec fn initial(device_count: nat) -> Self {
        ControllerView {
            policy: PolicyView::initial(device_count),
            epochs: Seq::new(device_count, |i: int| None),
            recovered: Set::empty(),
            pending: None,
            next_revision: 0,
            epoch: 0,
            latest: None,
            last_acknowledged: None,
        }
    }

    /// The state with the policy told of an event and the readable devices kept up with it.
    pub open spec fn observing(self, event: ControlEvent) -> Self {
        ControllerView {
            policy: self.policy.after(event),
            recovered: match event {
                ControlEvent::DeviceRecovered { device, .. } => self.recovered.insert(device.0),
                ControlEvent::DeviceLost(device) => self.recovered.remove(device.0),
                ControlEvent::SynchronizationLost(device) => self.recovered.remove(device.0),
                _ => self.recovered,
            },
            ..self
        }
    }

    /// The state with a request published.
    pub open spec fn publishing(self, state: DesiredAudio) -> Self {
        let revision = (self.next_revision + 1) as u64;
        ControllerView {
            next_revision: revision,
            latest: Some(DesiredRequest { revision, state }),
            ..self
        }
    }

    /// The state with a barrier begun: it is announced to every readable device and waits for
    /// them all, and it is complete at once if there is none.
    pub open spec fn with_barrier(self) -> Self {
        let epoch = TransitionEpoch((self.epoch + 1) as u64);
        let begun = self.policy.after(ControlEvent::BeginBarrier(epoch));
        ControllerView {
            policy: if self.recovered.is_empty() {
                begun.after(ControlEvent::CompleteBarrier(epoch))
            } else {
                begun
            },
            epochs: Seq::new(
                self.epochs.len(),
                |i: int|
                    if self.recovered.contains(i as usize) {
                        Some(epoch)
                    } else {
                        self.epochs[i]
                    },
            ),
            pending: if self.recovered.is_empty() {
                None
            } else {
                Some(BarrierView { epoch, awaiting: self.recovered })
            },
            epoch: epoch.0,
            ..self
        }
    }

    /// The device that the pending barrier need not wait for any longer after the event.
    pub open spec fn participant(self, event: ControlEvent) -> Option<DeviceId> {
        match event {
            ControlEvent::KeySnapshot { device, epoch, .. } => if self.pending matches Some(barrier)
                && barrier.epoch == epoch {
                Some(device)
            } else {
                None
            },
            _ => lost_by(event),
        }
    }

    /// The state with the pending barrier no longer waiting for a device.
    pub open spec fn not_awaiting(self, device: DeviceId) -> Self {
        match self.pending {
            Some(barrier) => ControllerView {
                pending: Some(
                    BarrierView { awaiting: barrier.awaiting.remove(device.0), ..barrier },
                ),
                ..self
            },
            None => self,
        }
    }

    /// The state with the pending barrier completed if it waits for nothing.
    pub open spec fn settling(self) -> Self {
        match self.pending {
            Some(barrier) => if barrier.awaiting.is_empty() {
                ControllerView {
                    policy: self.policy.after(ControlEvent::CompleteBarrier(barrier.epoch)),
                    pending: None,
                    ..self
                }
            } else {
                self
            },
            None => self,
        }
    }

    /// The request that an event sets off, published.
    pub open spec fn responding(self, event: ControlEvent) -> Self {
        match self.policy.outcome(event).desired_audio {
            Some(state) => self.observing(event).publishing(state),
            None => self.observing(event),
        }
    }

    /// Whether an event sets off a request that no revision is left for.
    pub open spec fn out_of_revisions(self, event: ControlEvent) -> bool {
        self.policy.outcome(event).desired_audio is Some && self.next_revision == u64::MAX
    }

    /// Whether an event sets off a barrier that no number is left for.
    pub open spec fn out_of_epochs(self, event: ControlEvent) -> bool {
        self.policy.outcome(event).transition is Some && self.epoch == u64::MAX
    }

    /// The state after an event. Where numbers run out, what came before stands.
    pub open spec fn after(self, event: ControlEvent) -> Self {
        if self.out_of_revisions(event) {
            self.observing(event)
        } else if self.out_of_epochs(event) {
            self.responding(event)
        } else if self.policy.outcome(event).transition is Some {
            self.responding(event).with_barrier()
        } else {
            match self.responding(event).participant(event) {
                Some(device) => self.responding(event).not_awaiting(device).settling(),
                None => self.responding(event),
            }
        }
    }

    /// What an event sets off, or why that fails.
    pub open spec fn effect(self, event: ControlEvent) -> Result<EventEffect, AppError> {
        let published = if self.policy.outcome(event).desired_audio is Some {
            Some((self.next_revision + 1) as u64)
        } else {
            None
        };
        if self.out_of_revisions(event) {
            Err(AppError::RevisionOverflow)
        } else if self.out_of_epochs(event) {
            Err(AppError::EpochOverflow)
        } else if self.policy.outcome(event).transition is Some {
            let epoch = TransitionEpoch((self.epoch + 1) as u64);
            Ok(
                EventEffect {
                    published,
                    began_epoch: Some(epoch),
                    completed_epoch: if self.after(event).pending is None {
                        Some(epoch)
                    } else {
                        None
                    },
                },
            )
        } else {
            Ok(
                EventEffect {
                    published,
                    began_epoch: None,
                    completed_epoch: match self.pending {
                        Some(barrier) => if self.after(event).pending is None {
                            Some(barrier.epoch)
                        } else {
                            None
                        },
                        None => None,
                    },
                },
            )
        }
    }

    /// The state after an event that no longer sets anything off.
    pub open spec fn after_frozen(self, event: ControlEvent) -> Self {
        match lost_by(event) {
            Some(device) => self.observing(event).not_awaiting(device),
            None => self.observing(event),
        }
    }

    /// The state with an acknowledgement taken note of, unless a later one is known.
    pub open spec fn acknowledging(self, acknowledgement: AudioAck) -> Self {
        if self.has_completed(acknowledgement.revision) {
            self
        } else {
            ControllerView { last_acknowledged: Some(acknowledgement.revision), ..self }
        }
    }

    /// Whether everything up to that revision is acknowledged.
    pub open spec fn has_completed(self, target: u64) -> bool {
        self.last_acknowledged matches Some(revision) && revision >= target
    }

    pub open spec fn operation(self) -> ControllerMode {
        if self.latest matches Some(request) && request.state == DesiredAudio::Open {
            ControllerMode::Open
        } else {
            ControllerMode::Ptt
        }
    }

    /// Whether the request of that revision is the latest one, and for idle.
    pub open spec fn idles_with(self, revision: Option<u64>) -> bool {
        &&& self.latest matches Some(request)
        &&& Some(request.revision) == revision
        &&& request.state == DesiredAudio::PttIdle
    }
}

/// A copy of a set.
fn copied(set: &HashSet<usize>) -> (copy: HashSet<usize>)
    ensures
        copy@ == set@,
{
    let mut copy: HashSet<usize> = HashSet::new();
    let ghost mut seen: Seq<usize> = Seq::empty();
    for key in it: set.iter()
        invariant
            it.seq().unref().to_set() == set@,
            seen == it.seq().unref().take(it.index()),
            copy@ == seen.to_set(),
            it.index() == it.seq().len() ==> copy@ == set@,
    {
        proof {
            assert(seen.push(*key) =~= it.seq().unref().take(it.index() + 1));
            assert(seen.push(*key).to_set() =~= seen.to_set().insert(*key)) by {
                broadcast use vstd::seq_lib::group_seq_properties;

            }
            seen = seen.push(*key);
        }
        copy.insert(*key);
        assert(it.seq().unref().take(it.seq().len() as int) =~= it.seq().unref());
    }
    copy
}

impl Controller {
    /// A controller of that many devices.
    pub fn new(device_count: usize) -> (controller: Self)
        ensures
            controller@ == ControllerView::initial(device_count as nat),
    {
        let mut epochs: Vec<Option<TransitionEpoch>> = Vec::new();
        let mut index: usize = 0;
        while index < device_count
            invariant
                index <= device_count,
                epochs@ == Seq::new(index as nat, |i: int| None::<TransitionEpoch>),
            decreases device_count - index,
        {
            epochs.push(None);
            index += 1;
            assert(epochs@ =~= Seq::new(index as nat, |i: int| None::<TransitionEpoch>));
        }
        let controller = Controller {
            policy: Policy::new(device_count),
            epochs,
            recovered: HashSet::new(),
            pending: None,
            next_revision: 0,
            epoch: 0,
            latest: None,
            last_acknowledged: None,
        };
        assert(controller@ =~= ControllerView::initial(device_count as nat));
        controller
    }

    /// Takes in an event: publishes the request that it calls for, begins the barrier that it
    /// calls for, and completes the pending one once it waits for nothing.
    pub fn handle(&mut self, event: ControlEvent) -> (result: Result<EventEffect, AppError>)
        ensures
            final(self)@ == old(self)@.after(event),
            result == old(self)@.effect(event),
    {
        let outcome = self.policy.handle(event);
        match event {
            ControlEvent::DeviceRecovered { device, .. } => {
                self.recovered.insert(device.0);
            },
            ControlEvent::DeviceLost(device) => {
                self.recovered.remove(&device.0);
            },
            ControlEvent::SynchronizationLost(device) => {
                self.recovered.remove(&device.0);
            },
            _ => {},
        }
        assert(self@ =~= old(self)@.observing(event));

        let mut effect = EventEffect::default();
        if let Some(desired) = outcome.desired_audio {
            match self.publish(desired) {
                Ok(revision) => {
                    effect.published = Some(revision);
                },
                Err(error) => return Err(error),
            }
        }
        assert(self@ =~= old(self)@.responding(event));
        if outcome.transition.is_some() {
            let epoch = match self.begin_barrier() {
                Ok(epoch) => epoch,
                Err(error) => return Err(error),
            };
            effect.began_epoch = Some(epoch);
            if self.pending.is_none() {
                effect.completed_epoch = Some(epoch);
            }
            return Ok(effect);
        }
        let participant = match event {
            ControlEvent::KeySnapshot { device, epoch, .. } => match &self.pending {
                Some(barrier) => if barrier.epoch == epoch {
                    Some(device)
                } else {
                    None
                },
                None => None,
            },
            ControlEvent::DeviceLost(device) => Some(device),
            ControlEvent::SynchronizationLost(device) => Some(device),
            _ => None,
        };
        if let Some(device) = participant {
            self.stop_awaiting(device);
            effect.completed_epoch = self.settle();
        }
        Ok(effect)
    }

    /// Takes in an event that must not set anything off any more.
    pub fn observe_frozen(&mut self, event: ControlEvent)
        ensures
            final(self)@ == old(self)@.after_frozen(event),
    {
        let _ = self.policy.handle(event);
        match event {
            ControlEvent::DeviceRecovered { device, .. } => {
                self.recovered.insert(device.0);
            },
            ControlEvent::DeviceLost(device) => {
                self.recovered.remove(&device.0);
                self.stop_awaiting(device);
            },
            ControlEvent::SynchronizationLost(device) => {
                self.recovered.remove(&device.0);
                self.stop_awaiting(device);
            },
            _ => {},
        }
        assert(self@ =~= old(self)@.after_frozen(event));
    }

    fn stop_awaiting(&mut self, device: DeviceId)
        ensures
            final(self)@ == old(self)@.not_awaiting(device),
    {
        if let Some(mut barrier) = self.pending.take() {
            barrier.awaiting.remove(&device.0);
            self.pending = Some(barrier);
        }
        assert(self@ =~= old(self)@.not_awaiting(device));
    }

    fn settle(&mut self) -> (completed: Option<TransitionEpoch>)
        ensures
            final(self)@ == old(self)@.settling(),
            completed == match old(self)@.pending {
                Some(barrier) => if barrier.awaiting.is_empty() {
                    Some(barrier.epoch)
                } else {
                    None
                },
                None => None,
            },
    {
        let mut completed = None;
        if let Some(barrier) = self.pending.take() {
            if barrier.awaiting.is_empty() {
                self.policy.handle(ControlEvent::CompleteBarrier(barrier.epoch));
                completed = Some(barrier.epoch);
            } else {
                self.pending = Some(barrier);
            }
        }
        assert(self@ =~= old(self)@.settling());
        completed
    }

    /// Publishes a request for an audio state, and returns its revision.
    pub fn publish(&mut self, state: DesiredAudio) -> (result: Result<u64, AppError>)
        ensures
            old(self)@.next_revision < u64::MAX ==> {
                &&& result == Ok::<u64, AppError>((old(self)@.next_revision + 1) as u64)
                &&& final(self)@ == old(self)@.publishing(state)
            },
            old(self)@.next_revision == u64::MAX ==> {
                &&& result == Err::<u64, AppError>(AppError::RevisionOverflow)
                &&& final(self)@ == old(self)@
            },
    {
        match self.next_revision.checked_add(1) {
            Some(revision) => {
                self.next_revision = revision;
                self.latest = Some(DesiredRequest { revision, state });
                assert(self@ =~= old(self)@.publishing(state));
                Ok(revision)
            },
            None => Err(AppError::RevisionOverflow),
        }
    }

    /// Begins a transition barrier, and returns its number.
    pub fn begin_barrier(&mut self) -> (result: Result<TransitionEpoch, AppError>)
        ensures
            old(self)@.epoch < u64::MAX ==> {
                &&& result == Ok::<TransitionEpoch, AppError>(
                    TransitionEpoch((old(self)@.epoch + 1) as u64),
                )
                &&& final(self)@ == old(self)@.with_barrier()
            },
            old(self)@.epoch == u64::MAX ==> {
                &&& result == Err::<TransitionEpoch, AppError>(AppError::EpochOverflow)
                &&& final(self)@ == old(self)@
            },
    {
        let epoch = match self.epoch.checked_add(1) {
            Some(number) => TransitionEpoch(number),
            None => return Err(AppError::EpochOverflow),
        };
        self.epoch = epoch.0;
        self.policy.handle(ControlEvent::BeginBarrier(epoch));
        self.announce(epoch);
        if self.recovered.is_empty() {
            self.policy.handle(ControlEvent::CompleteBarrier(epoch));
            self.pending = None;
        } else {
            let awaiting = copied(&self.recovered);
            self.pending = Some(PendingBarrier { epoch, awaiting });
        }
        assert(self@ =~= old(self)@.with_barrier());
        Ok(epoch)
    }

    fn announce(&mut self, epoch: TransitionEpoch)
        ensures
            final(self)@ == (ControllerView {
                epochs: Seq::new(
                    old(self)@.epochs.len(),
                    |i: int|
                        if old(self)@.recovered.contains(i as usize) {
                            Some(epoch)
                        } else {
                            old(self)@.epochs[i]
                        },
                ),
                ..old(self)@
            }),
    {
        let ghost before = self@;
        let mut index: usize = 0;
        while index < self.epochs.len()
            invariant
                index <= self.epochs@.len(),
                self@ == (ControllerView { epochs: self.epochs@, ..before }),
                self.epochs@.len() == before.epochs.len(),
                forall|i: int|
                    0 <= i < before.epochs.len() ==> #[trigger] self.epochs@[i] == if i < index
                        && before.recovered.contains(i as usize) {
                        Some(epoch)
                    } else {
                        before.epochs[i]
                    },
            decreases self.epochs.len() - index,
        {
            if self.recovered.contains(&index) {
                self.epochs.set(index, Some(epoch));
            }
            index += 1;
        }
        assert(self.epochs@ =~= Seq::new(
            before.epochs.len(),
            |i: int|
                if before.recovered.contains(i as usize) {
                    Some(epoch)
                } else {
                    before.epochs[i]
                },
        ));
    }

    /// Takes note of an acknowledgement, unless a later one is known.
    pub fn record_ack(&mut self, acknowledgement: AudioAck)
        ensures
            final(self)@ == old(self)@.acknowledging(acknowledgement),
    {
        let newer = match self.last_acknowledged {
            Some(revision) => acknowledgement.revision > revision,
            None => true,
        };
        if newer {
            self.last_acknowledged = Some(acknowledgement.revision);
        }
    }

    /// Whether everything up to that revision is acknowledged.
    pub fn target_complete(&self, target: u64) -> (complete: bool)
        ensures
            complete == self@.has_completed(target),
    {
        match self.last_acknowledged {
            Some(revision) => revision >= target,
            None => false,
        }
    }

    /// How the microphone is operated, by the latest request.
    pub fn mode(&self) -> (mode: ControllerMode)
        ensures
            mode == self@.operation(),
    {
        match self.latest {
            Some(request) => if request.state == DesiredAudio::Open {
                ControllerMode::Open
            } else {
                ControllerMode::Ptt
            },
            None => ControllerMode::Ptt,
        }
    }

    /// Picks the request that has to be acknowledged before the daemon may fail: an open
    /// microphone is left open, and otherwise the microphone is muted, by the request that told of
    /// a loss if that is still the latest one and mutes.
    pub fn fatal_cleanup_target(&mut self, loss_revision: Option<u64>) -> (result: Result<
        (ControllerMode, u64),
        AppError,
    >)
        ensures
            old(self)@.operation() == ControllerMode::Open ==> {
                &&& result == Ok::<(ControllerMode, u64), AppError>(
                    (ControllerMode::Open, old(self)@.latest->0.revision),
                )
                &&& final(self)@ == old(self)@
            },
            old(self)@.operation() == ControllerMode::Ptt && old(self)@.idles_with(loss_revision)
                ==> {
                &&& result == Ok::<(ControllerMode, u64), AppError>(
                    (ControllerMode::Ptt, loss_revision->0),
                )
                &&& final(self)@ == old(self)@
            },
            old(self)@.operation() == ControllerMode::Ptt && !old(self)@.idles_with(loss_revision)
                && old(self)@.next_revision < u64::MAX ==> {
                &&& result == Ok::<(ControllerMode, u64), AppError>(
                    (ControllerMode::Ptt, (old(self)@.next_revision + 1) as u64),
                )
                &&& final(self)@ == old(self)@.publishing(DesiredAudio::PttIdle)
            },
            old(self)@.operation() == ControllerMode::Ptt && !old(self)@.idles_with(loss_revision)
                && old(self)@.next_revision == u64::MAX ==> {
                &&& result == Err::<(ControllerMode, u64), AppError>(AppError::RevisionOverflow)
                &&& final(self)@ == old(self)@
            },
    {
        match self.mode() {
            ControllerMode::Open => match self.latest {
                Some(request) => Ok((ControllerMode::Open, request.revision)),
                None => Err(AppError::OpenCleanupWithoutRequest),
            },
            ControllerMode::Ptt => {
                if let (Some(revision), Some(request)) = (loss_revision, self.latest) {
                    if request.revision == revision && request.state == DesiredAudio::PttIdle {
                        return Ok((ControllerMode::Ptt, revision));
                    }
                }
                match self.publish(DesiredAudio::PttIdle) {
                    Ok(revision) => Ok((ControllerMode::Ptt, revision)),
                    Err(error) => Err(error),
                }
            },
        }
    }
}

} // verus!
