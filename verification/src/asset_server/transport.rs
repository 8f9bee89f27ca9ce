//! The reference-count channel between threads.
//!
//! The handles of all threads announce themselves on a bounded channel of
//! the standard library, whose receiving end the thread of the asset server
//! holds. A full channel makes the sender wait: no event is ever dropped.
//! What is sent is worked out by the operations on handles, and what is
//! received is applied by the asset server; the functions here only carry
//! it from one to the other.

use crate::asset_server::asset_ref_counter::RefChange;
use crate::asset_server::asset_ref_counter::RefChangeChannel;
use crate::asset_server::asset_server::AssetServer;
use crate::asset_server::asset_server::ServerView;
use crate::asset_server::error::AssetError;
use crate::asset_server::handle::Handle;
use crate::asset_server::handle::HandleId;
use crate::asset_server::handle::HandleType;
use crate::asset_server::handle::HandleUntyped;
use crate::asset_server::loader::AssetLoader;
use std::sync::mpsc::Receiver;
use std::sync::mpsc::SyncSender;
use std::sync::mpsc::TryRecvError;
use vstd::prelude::*;

verus! {

/// The sending end of a bounded channel of the standard library. Nothing of
/// its state is visible here.
#[verifier::external_type_specification]
#[verifier::external_body]
#[verifier::reject_recursive_types(T)]
pub struct ExSyncSender<T>(std::sync::mpsc::SyncSender<T>);

/// The receiving end of a channel of the standard library. Nothing of its
/// state is visible here.
#[verifier::external_type_specification]
#[verifier::external_body]
#[verifier::reject_recursive_types(T)]
pub struct ExReceiver<T>(std::sync::mpsc::Receiver<T>);

/// Why nothing was received.
#[derive(Clone, Copy, Debug, PartialEq, Eq, Structural)]
pub enum NothingReceived {
    /// Nothing waits in the channel.
    Empty,
    /// Every sending end is gone, and nothing waits in the channel.
    Disconnected,
}

/// Calls `SyncSender::send`, which waits while the channel is full.
///
/// Trusted: the body is not verified. The contract says what the std
/// documentation says of a failed send: the message that could not be sent
/// comes back. A send fails when the receiving end is gone.
#[verifier::external_body]
fn send(sender: &SyncSender<RefChange>, change: RefChange) -> (sent: Result<(), RefChange>)
    ensures
        sent matches Err(back) ==> back == change,
{
    match sender.send(change) {
        Ok(()) => Ok(()),
        Err(failed) => Err(failed.0),
    }
}

/// Calls `Receiver::try_recv`, which never waits.
///
/// Trusted: the body is not verified. Nothing is claimed of what is
/// received: it depends on what other threads have sent.
#[verifier::external_body]
fn try_recv(receiver: &Receiver<RefChange>) -> (received: Result<RefChange, NothingReceived>) {
    match receiver.try_recv() {
        Ok(change) => Ok(change),
        Err(TryRecvError::Empty) => Err(NothingReceived::Empty),
        Err(TryRecvError::Disconnected) => Err(NothingReceived::Disconnected),
    }
}

/// Sends the events in `outbox`, oldest first, on `sender`, waiting where
/// the channel is full. When the receiving end is gone, the event that could
/// not be sent and all that follow it stay in `outbox`.
pub fn forward(outbox: &mut RefChangeChannel, sender: &SyncSender<RefChange>) -> (forwarded:
    Result<(), AssetError>)
    ensures
        final(outbox).spec_capacity() == old(outbox).spec_capacity(),
        match forwarded {
            Ok(()) => final(outbox)@.len() == 0,
            Err(e) => {
                &&& e == AssetError::ChannelDisconnected
                &&& 0 < final(outbox)@.len() <= old(outbox)@.len()
                &&& final(outbox)@ == old(outbox)@.skip(
                    old(outbox)@.len() - final(outbox)@.len(),
                )
            },
        },
{
    proof {
        assert(outbox@.skip(0) =~= outbox@);
    }
    loop
        invariant
            outbox.spec_capacity() == old(outbox).spec_capacity(),
            outbox@.len() <= old(outbox)@.len(),
            outbox@ == old(outbox)@.skip(old(outbox)@.len() - outbox@.len()),
        decreases outbox@.len(),
    {
        let change = match outbox.peek() {
            Some(change) => change,
            None => {
                return Ok(());
            },
        };
        if send(sender, change).is_err() {
            return Err(AssetError::ChannelDisconnected);
        }
        let ghost before = outbox@;
        outbox.try_recv();
        assert(before.drop_first() =~= old(outbox)@.skip(
            old(outbox)@.len() - before.len() + 1,
        ));
    }
}

impl HandleUntyped {
    /// Mints a strong handle to `handle_id`, announced on the channel
    /// between threads: one `Increment` is sent on `sender`. No handle is
    /// made when the receiving end is gone; nothing else makes this fail.
    pub fn strong_on(handle_id: HandleId, sender: &SyncSender<RefChange>) -> (minted: Result<
        HandleUntyped,
        AssetError,
    >)
        ensures
            match minted {
                Ok(handle) => {
                    &&& handle.spec_id() == handle_id
                    &&& handle.spec_handle_type() == HandleType::Strong
                },
                Err(e) => e == AssetError::ChannelDisconnected,
            },
    {
        let mut outbox = RefChangeChannel::new(1);
        let handle = match HandleUntyped::strong(handle_id, &mut outbox) {
            Ok(handle) => handle,
            Err(e) => {
                return Err(e);
            },
        };
        match forward(&mut outbox, sender) {
            Ok(()) => Ok(handle),
            Err(e) => Err(e),
        }
    }
}

impl<T> Handle<T> {
    /// Another handle of the same type to the same asset, announced on the
    /// channel between threads: the clone of a strong handle sends its
    /// `Increment` on `sender`, the clone of a weak handle sends nothing.
    /// The handle is not cloned when the receiving end is gone.
    pub fn clone_on(&self, sender: &SyncSender<RefChange>) -> (cloned: Result<Handle<T>, AssetError>)
        ensures
            match cloned {
                Ok(handle) => {
                    &&& handle.spec_id() == self.spec_id()
                    &&& handle.spec_handle_type() == self.spec_handle_type()
                },
                Err(e) => self.spec_is_strong() && e == AssetError::ChannelDisconnected,
            },
            self.spec_is_weak() ==> cloned is Ok,
    {
        let mut outbox = RefChangeChannel::new(1);
        let handle = match self.clone_handle(&mut outbox) {
            Ok(handle) => handle,
            Err(e) => {
                return Err(e);
            },
        };
        match forward(&mut outbox, sender) {
            Ok(()) => Ok(handle),
            Err(e) => Err(e),
        }
    }

    /// Gives the handle up, announced on the channel between threads: a
    /// strong handle sends its `Decrement` on `sender`, a weak one sends
    /// nothing. The handle is gone either way; the error says that its
    /// `Decrement` could not be sent because the receiving end is gone.
    pub fn release_on(self, sender: &SyncSender<RefChange>) -> (released: Result<(), AssetError>)
        ensures
            released matches Err(e) ==> self.spec_is_strong() && e
                == AssetError::ChannelDisconnected,
            self.spec_is_weak() ==> released is Ok,
    {
        let mut outbox = RefChangeChannel::new(1);
        match self.release(&mut outbox) {
            Ok(()) => forward(&mut outbox, sender),
            Err(_) => Err(AssetError::ChannelFull),
        }
    }
}

/// Whether a server that was in the state `before`, was allowed to take up
/// to `limit` events from the channel between threads and took `received`
/// can have ended in the state `after` with the result `result`: what was
/// received joined the pending events, and all of them were applied as a
/// maintenance pass applies them.
///
/// The channel is asked only while fewer than `limit` events were taken and
/// the server has room for one: so a disconnected channel is reported only
/// short of the limit, and a server without room takes nothing.
pub open spec fn received_and_applied(
    before: ServerView,
    limit: nat,
    received: Seq<RefChange>,
    after: ServerView,
    result: Result<(), AssetError>,
) -> bool {
    let fed = (ServerView { pending: before.pending + received, ..before }).drain();
    &&& received.len() <= limit
    &&& after == fed.0
    &&& match fed.1 {
        Err(e) => result == Err::<(), AssetError>(e) && e != AssetError::ChannelDisconnected,
        Ok(()) => {
            ||| result is Ok
            ||| result == Err::<(), AssetError>(AssetError::ChannelDisconnected)
                && received.len() < limit && before.capacity > 0
            ||| result == Err::<(), AssetError>(AssetError::ChannelFull) && before.capacity
                == 0 && received.len() == 0 && limit > 0
        },
    }
}

/// Applying events never reports a disconnected channel: only the channel
/// between threads can be disconnected.
pub proof fn lemma_drain_never_disconnected(s: ServerView)
    ensures
        s.drain().1 != Err::<(), AssetError>(AssetError::ChannelDisconnected),
        s.drain().1 != Err::<(), AssetError>(AssetError::ChannelFull),
        s.drain().0.capacity == s.capacity,
    decreases s.pending.len(),
{
    if s.pending.len() > 0 {
        match s.apply(s.pending[0]) {
            Ok(next) => {
                lemma_drain_never_disconnected(
                    ServerView { pending: s.pending.drop_first(), ..next },
                );
            },
            Err(_) => {},
        }
    }
}

/// A pass over the pending events followed by a pass over one more event
/// is a pass over all of them.
pub proof fn lemma_drain_then_one_more(s: ServerView, event: RefChange)
    requires
        s.drain().1 is Ok,
    ensures
        s.drain().0.pending.len() == 0,
        (ServerView { pending: s.pending.push(event), ..s }).drain() == s.drain().0.with_sent(
            event,
        ).drain(),
    decreases s.pending.len(),
{
    let longer = ServerView { pending: s.pending.push(event), ..s };
    if s.pending.len() == 0 {
        assert(s.drain().0 == s);
        assert(longer == s.with_sent(event));
    } else {
        let head = s.pending[0];
        let next = s.apply(head)->Ok_0;
        let rest = ServerView { pending: s.pending.drop_first(), ..next };
        assert(longer.pending[0] == head);
        assert(longer.apply(head)->Ok_0 == (ServerView { pending: longer.pending, ..next }));
        assert(longer.pending.drop_first() =~= rest.pending.push(event));
        lemma_drain_then_one_more(rest, event);
    }
}

impl<L: AssetLoader> AssetServer<L> {
    /// The maintenance pass, fed from the channel between threads: applies
    /// what is pending, then takes one event after the other out of
    /// `receiver` and applies it, until nothing waits there or `limit`
    /// events were taken. It never waits for further events.
    ///
    /// The pass ends early with the reason when an event cannot be applied
    /// (that event stays pending in the server), and with
    /// `ChannelDisconnected` when every sending end is gone.
    pub fn receive(&mut self, receiver: &Receiver<RefChange>, limit: usize) -> (result: Result<
        (),
        AssetError,
    >)
        ensures
            final(self).slots() == old(self).slots(),
            old(self).wf() ==> final(self).wf(),
            limit == 0 ==> result == old(self)@.drain().1 && final(self)@ == old(self)@.drain().0,
            exists|received: Seq<RefChange>| #[trigger]
                received_and_applied(old(self)@, limit as nat, received, final(self)@, result),
    {
        let ghost mut received: Seq<RefChange> = Seq::empty();
        let mut taken: usize = 0;
        proof {
            assert(self@.pending + received =~= self@.pending);
            assert((ServerView { pending: self@.pending + received, ..old(self)@ }) == self@);
        }
        loop
            invariant
                self.slots() == old(self).slots(),
                old(self).wf() ==> self.wf(),
                taken <= limit,
                received.len() == taken,
                self@.capacity == old(self)@.capacity,
                self@.capacity == 0 ==> taken == 0,
                self@.drain() == (ServerView {
                    pending: old(self)@.pending + received,
                    ..old(self)@
                }).drain(),
            decreases limit - taken,
        {
            let ghost before = self@;
            proof {
                lemma_drain_never_disconnected(before);
            }
            match self.free_unused_assets_system() {
                Ok(()) => {},
                Err(e) => {
                    assert(received_and_applied(old(self)@, limit as nat, received, self@, Err(e)));
                    return Err(e);
                },
            }
            proof {
                lemma_drain_stays(before);
            }
            if taken >= limit {
                assert(received_and_applied(old(self)@, limit as nat, received, self@, Ok(())));
                return Ok(());
            }
            if self.pending_capacity() == 0 {
                assert(received_and_applied(
                    old(self)@,
                    limit as nat,
                    received,
                    self@,
                    Err(AssetError::ChannelFull),
                ));
                return Err(AssetError::ChannelFull);
            }
            match try_recv(receiver) {
                Err(NothingReceived::Empty) => {
                    assert(received_and_applied(old(self)@, limit as nat, received, self@, Ok(())));
                    return Ok(());
                },
                Err(NothingReceived::Disconnected) => {
                    assert(received_and_applied(
                        old(self)@,
                        limit as nat,
                        received,
                        self@,
                        Err(AssetError::ChannelDisconnected),
                    ));
                    return Err(AssetError::ChannelDisconnected);
                },
                Ok(event) => {
                    let ghost fed = ServerView {
                        pending: old(self)@.pending + received,
                        ..old(self)@
                    };
                    let sent = self.sender().try_send(event);
                    assert(sent is Ok);
                    proof {
                        lemma_drain_then_one_more(fed, event);
                        assert(fed.pending.push(event) =~= old(self)@.pending + received.push(
                            event,
                        ));
                        received = received.push(event);
                    }
                    taken += 1;
                },
            }
        }
    }
}

/// A pass that got through leaves a state that a further pass does not
/// change.
pub proof fn lemma_drain_stays(s: ServerView)
    requires
        s.drain().1 is Ok,
    ensures
        s.drain().0.pending.len() == 0,
        s.drain().0.drain() == s.drain(),
    decreases s.pending.len(),
{
    if s.pending.len() > 0 {
        let next = s.apply(s.pending[0])->Ok_0;
        lemma_drain_stays(ServerView { pending: s.pending.drop_first(), ..next });
    }
}

} // verus!
