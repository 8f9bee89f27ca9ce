//! The per-type queue through which the asset server tells a typed store
//! which of its entries are no longer referenced.

use crate::asset_server::asset_ref_counter::DEFAULT_CHANNEL_CAPACITY;
use crate::asset_server::handle::HandleId;
use std::collections::VecDeque;
use vstd::prelude::*;

verus! {

/// A notification to the store of one asset type.
#[derive(Clone, Copy, Debug, PartialEq, Eq, Structural)]
pub enum AssetLifecycleEvent {
    /// The last strong handle to the asset is gone: its entry can be removed.
    Free(HandleId),
}

impl AssetLifecycleEvent {
    /// The identifier that the event is about.
    pub open spec fn spec_id(self) -> HandleId {
        match self {
            AssetLifecycleEvent::Free(id) => id,
        }
    }

    #[verifier::when_used_as_spec(spec_id)]
    pub fn id(self) -> (id: HandleId)
        ensures
            id == self.spec_id(),
    {
        match self {
            AssetLifecycleEvent::Free(id) => id,
        }
    }
}

/// What an `AssetLifecycle` holds: the notifications that wait for the
/// store, oldest first, and how many of them it accepts.
pub struct LifecycleView {
    pub events: Seq<AssetLifecycleEvent>,
    pub capacity: nat,
}

impl LifecycleView {
    /// Whether no further notification is accepted.
    pub open spec fn is_full(self) -> bool {
        self.events.len() >= self.capacity
    }

    /// The queue after one more notification.
    pub open spec fn push(self, event: AssetLifecycleEvent) -> LifecycleView {
        LifecycleView { events: self.events.push(event), capacity: self.capacity }
    }

    /// The queue after its oldest notification was taken out.
    pub open spec fn drop_first(self) -> LifecycleView {
        LifecycleView { events: self.events.drop_first(), capacity: self.capacity }
    }

    /// The queue with every notification taken out.
    pub open spec fn drained(self) -> LifecycleView {
        LifecycleView { events: Seq::empty(), capacity: self.capacity }
    }
}

/// The bounded first-in first-out queue of lifecycle notifications for one
/// asset type.
pub struct AssetLifecycle {
    queue: VecDeque<AssetLifecycleEvent>,
    capacity: usize,
}

impl View for AssetLifecycle {
    type V = LifecycleView;

    closed spec fn view(&self) -> LifecycleView {
        LifecycleView { events: self.queue@, capacity: self.capacity as nat }
    }
}

impl AssetLifecycle {
    /// An empty queue of the given capacity.
    pub fn with_capacity(capacity: usize) -> (lifecycle: AssetLifecycle)
        ensures
            lifecycle@.events == Seq::<AssetLifecycleEvent>::empty(),
            lifecycle@.capacity == capacity,
    {
        AssetLifecycle { queue: VecDeque::new(), capacity }
    }

    /// The number of notifications that wait for the store.
    pub fn len(&self) -> (len: usize)
        ensures
            len == self@.events.len(),
    {
        self.queue.len()
    }

    pub fn is_empty(&self) -> (empty: bool)
        ensures
            empty == (self@.events.len() == 0),
    {
        self.queue.len() == 0
    }

    pub fn is_full(&self) -> (full: bool)
        ensures
            full == self@.is_full(),
    {
        self.queue.len() >= self.capacity
    }

    /// Queues `Free(id)` for the store unless the queue is full; a full queue
    /// hands the notification back and stays as it is.
    pub fn free_asset(&mut self, id: HandleId) -> (queued: Result<(), AssetLifecycleEvent>)
        ensures
            old(self)@.is_full() ==> queued == Err::<(), AssetLifecycleEvent>(
                AssetLifecycleEvent::Free(id),
            ) && final(self)@ == old(self)@,
            !old(self)@.is_full() ==> queued is Ok && final(self)@ == old(self)@.push(
                AssetLifecycleEvent::Free(id),
            ),
    {
        if self.queue.len() < self.capacity {
            self.queue.push_back(AssetLifecycleEvent::Free(id));
            Ok(())
        } else {
            Err(AssetLifecycleEvent::Free(id))
        }
    }

    /// Takes the oldest notification out of the queue; `None` when none
    /// waits.
    pub fn try_recv(&mut self) -> (head: Option<AssetLifecycleEvent>)
        ensures
            old(self)@.events.len() == 0 ==> head is None && final(self)@ == old(self)@,
            old(self)@.events.len() > 0 ==> head == Some(old(self)@.events[0]) && final(self)@
                == old(self)@.drop_first(),
    {
        self.queue.pop_front()
    }
}

impl Default for AssetLifecycle {
    fn default() -> (lifecycle: AssetLifecycle)
        ensures
            lifecycle@.events == Seq::<AssetLifecycleEvent>::empty(),
            lifecycle@.capacity == DEFAULT_CHANNEL_CAPACITY,
    {
        AssetLifecycle::with_capacity(DEFAULT_CHANNEL_CAPACITY)
    }
}

} // verus!
