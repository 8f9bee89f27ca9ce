//! The reference-count channel and the table of counts that it feeds.

use crate::asset_server::error::AssetError;
use crate::asset_server::handle::HandleId;
use std::collections::HashMap;
use std::collections::VecDeque;
use vstd::prelude::*;

verus! {

/// Capacity of a channel that is created without naming one.
pub const DEFAULT_CHANNEL_CAPACITY: usize = 100;

/// A change of the number of strong handles to an asset.
#[derive(Clone, Copy, Debug, PartialEq, Eq, Structural)]
pub enum RefChange {
    Increment(HandleId),
    Decrement(HandleId),
}

impl RefChange {
    /// The identifier that the change is about.
    pub open spec fn spec_id(self) -> HandleId {
        match self {
            RefChange::Increment(id) => id,
            RefChange::Decrement(id) => id,
        }
    }

    #[verifier::when_used_as_spec(spec_id)]
    pub fn id(self) -> (id: HandleId)
        ensures
            id == self.spec_id(),
    {
        match self {
            RefChange::Increment(id) => id,
            RefChange::Decrement(id) => id,
        }
    }
}

/// The bounded first-in first-out channel that carries `RefChange` events
/// from the owners of handles to the asset server. Its view is the sequence of
/// events in flight, oldest first; `spec_capacity` is the bound, which never
/// changes.
pub struct RefChangeChannel {
    queue: VecDeque<RefChange>,
    capacity: usize,
}

impl View for RefChangeChannel {
    type V = Seq<RefChange>;

    closed spec fn view(&self) -> Seq<RefChange> {
        self.queue@
    }
}

impl RefChangeChannel {
    /// The number of events that the channel accepts before it is full.
    pub closed spec fn spec_capacity(&self) -> nat {
        self.capacity as nat
    }

    /// Whether the channel accepts no further event.
    pub open spec fn spec_is_full(&self) -> bool {
        self@.len() >= self.spec_capacity()
    }

    /// An empty channel of the given capacity.
    pub fn new(capacity: usize) -> (channel: RefChangeChannel)
        ensures
            channel@ == Seq::<RefChange>::empty(),
            channel.spec_capacity() == capacity,
    {
        RefChangeChannel { queue: VecDeque::new(), capacity }
    }

    /// The number of events that the channel accepts before it is full.
    pub fn capacity(&self) -> (capacity: usize)
        ensures
            capacity == self.spec_capacity(),
    {
        self.capacity
    }

    /// The number of events in flight.
    pub fn len(&self) -> (len: usize)
        ensures
            len == self@.len(),
    {
        self.queue.len()
    }

    pub fn is_empty(&self) -> (empty: bool)
        ensures
            empty == (self@.len() == 0),
    {
        self.queue.len() == 0
    }

    #[verifier::when_used_as_spec(spec_is_full)]
    pub fn is_full(&self) -> (full: bool)
        ensures
            full == self.spec_is_full(),
    {
        self.queue.len() >= self.capacity
    }

    /// Appends `change` unless the channel is full; a full channel hands the
    /// event back and stays as it is.
    pub fn try_send(&mut self, change: RefChange) -> (sent: Result<(), RefChange>)
        ensures
            final(self).spec_capacity() == old(self).spec_capacity(),
            old(self).spec_is_full() ==> sent == Err::<(), RefChange>(change) && final(self)@
                == old(self)@,
            !old(self).spec_is_full() ==> sent is Ok && final(self)@ == old(self)@.push(change),
    {
        if self.queue.len() < self.capacity {
            self.queue.push_back(change);
            Ok(())
        } else {
            Err(change)
        }
    }

    /// The oldest event in flight, which stays in the channel.
    pub fn peek(&self) -> (head: Option<RefChange>)
        ensures
            head == if self@.len() > 0 {
                Some(self@[0])
            } else {
                None
            },
    {
        if self.queue.len() > 0 {
            Some(self.queue[0])
        } else {
            None
        }
    }

    /// Takes the oldest event out of the channel; `None` when nothing is in
    /// flight.
    pub fn try_recv(&mut self) -> (head: Option<RefChange>)
        ensures
            final(self).spec_capacity() == old(self).spec_capacity(),
            old(self)@.len() == 0 ==> head is None && final(self)@ == old(self)@,
            old(self)@.len() > 0 ==> head == Some(old(self)@[0]) && final(self)@ == old(self)@.drop_first(),
    {
        self.queue.pop_front()
    }
}

/// The count that `counts` holds for `id`: zero where it has no entry.
pub open spec fn count_of(counts: Map<HandleId, nat>, id: HandleId) -> nat {
    if counts.contains_key(id) {
        counts[id]
    } else {
        0
    }
}

/// The reference-count channel together with the authoritative number of
/// strong handles per asset.
pub struct AssetRefCounter {
    channel: RefChangeChannel,
    ref_counts: HashMap<u64, usize>,
}

impl AssetRefCounter {
    /// The events in flight, oldest first.
    pub closed spec fn pending(&self) -> Seq<RefChange> {
        self.channel@
    }

    /// The capacity of the channel.
    pub closed spec fn capacity(&self) -> nat {
        self.channel.spec_capacity()
    }

    /// The table of counts. An identifier without an entry has never been
    /// incremented.
    pub closed spec fn counts(&self) -> Map<HandleId, nat> {
        Map::new(
            |id: HandleId| self.ref_counts@.contains_key(id.0.0),
            |id: HandleId| self.ref_counts@[id.0.0] as nat,
        )
    }

    /// A counter with an empty table and an empty channel of the given
    /// capacity.
    pub fn with_capacity(capacity: usize) -> (counter: AssetRefCounter)
        ensures
            counter.pending() == Seq::<RefChange>::empty(),
            counter.capacity() == capacity,
            counter.counts() == Map::<HandleId, nat>::empty(),
    {
        let counter = AssetRefCounter {
            channel: RefChangeChannel::new(capacity),
            ref_counts: HashMap::new(),
        };
        assert(counter.counts() =~= Map::<HandleId, nat>::empty());
        counter
    }

    /// The producer side of the channel, through which handles announce that
    /// they were made or given up.
    pub fn sender(&mut self) -> (channel: &mut RefChangeChannel)
        ensures
            channel@ == old(self).pending(),
            channel.spec_capacity() == old(self).capacity(),
            final(self).pending() == final(channel)@,
            final(self).capacity() == final(channel).spec_capacity(),
            final(self).counts() == old(self).counts(),
    {
        &mut self.channel
    }

    /// The capacity of the channel.
    pub fn channel_capacity(&self) -> (capacity: usize)
        ensures
            capacity == self.capacity(),
    {
        self.channel.capacity()
    }

    /// The number of events in flight.
    pub fn pending_len(&self) -> (len: usize)
        ensures
            len == self.pending().len(),
    {
        self.channel.len()
    }

    /// The oldest event in flight, which stays in the channel.
    pub fn next_change(&self) -> (head: Option<RefChange>)
        ensures
            head == if self.pending().len() > 0 {
                Some(self.pending()[0])
            } else {
                None
            },
    {
        self.channel.peek()
    }

    /// Takes the oldest event out of the channel; `None` when nothing is in
    /// flight.
    pub fn take_change(&mut self) -> (head: Option<RefChange>)
        ensures
            final(self).capacity() == old(self).capacity(),
            final(self).counts() == old(self).counts(),
            old(self).pending().len() == 0 ==> head is None && final(self).pending() == old(self).pending(),
            old(self).pending().len() > 0 ==> head == Some(old(self).pending()[0]) && final(self).pending() == old(self).pending().drop_first(),
    {
        self.channel.try_recv()
    }

    /// The count of `id`.
    pub fn count(&self, id: HandleId) -> (count: usize)
        ensures
            count == count_of(self.counts(), id),
    {
        broadcast use vstd::std_specs::hash::group_hash_axioms;

        match self.ref_counts.get(&id.0.0) {
            Some(count) => *count,
            None => 0,
        }
    }

    /// Counts one more strong handle to `id`.
    pub fn increment(&mut self, id: HandleId) -> (done: Result<(), AssetError>)
        ensures
            final(self).pending() == old(self).pending(),
            final(self).capacity() == old(self).capacity(),
            count_of(old(self).counts(), id) < usize::MAX ==> done is Ok && final(self).counts()
                == old(self).counts().insert(id, count_of(old(self).counts(), id) + 1),
            count_of(old(self).counts(), id) >= usize::MAX ==> done == Err::<(), AssetError>(
                AssetError::CountOverflow(id),
            ) && final(self).counts() == old(self).counts(),
    {
        broadcast use vstd::std_specs::hash::group_hash_axioms;

        let count = self.count(id);
        if count == usize::MAX {
            Err(AssetError::CountOverflow(id))
        } else {
            self.ref_counts.insert(id.0.0, count + 1);
            assert(final(self).counts() =~= old(self).counts().insert(id, (count + 1) as nat));
            Ok(())
        }
    }

    /// Counts one strong handle to `id` less, and returns how many are left.
    pub fn decrement(&mut self, id: HandleId) -> (left: Result<usize, AssetError>)
        ensures
            final(self).pending() == old(self).pending(),
            final(self).capacity() == old(self).capacity(),
            count_of(old(self).counts(), id) > 0 ==> left == Ok::<usize, AssetError>(
                (count_of(old(self).counts(), id) - 1) as usize,
            ) && final(self).counts() == old(self).counts().insert(
                id,
                (count_of(old(self).counts(), id) - 1) as nat,
            ),
            count_of(old(self).counts(), id) == 0 ==> left == Err::<usize, AssetError>(
                AssetError::CountUnderflow(id),
            ) && final(self).counts() == old(self).counts(),
    {
        broadcast use vstd::std_specs::hash::group_hash_axioms;

        let count = self.count(id);
        if count == 0 {
            Err(AssetError::CountUnderflow(id))
        } else {
            self.ref_counts.insert(id.0.0, count - 1);
            assert(final(self).counts() =~= old(self).counts().insert(id, (count - 1) as nat));
            Ok(count - 1)
        }
    }
}

impl Default for AssetRefCounter {
    fn default() -> (counter: AssetRefCounter)
        ensures
            counter.pending() == Seq::<RefChange>::empty(),
            counter.capacity() == DEFAULT_CHANNEL_CAPACITY,
            counter.counts() == Map::<HandleId, nat>::empty(),
    {
        AssetRefCounter::with_capacity(DEFAULT_CHANNEL_CAPACITY)
    }
}

} // verus!
