//! What holds of the reference-count protocol as a whole: the events that
//! the handles to an asset announce balance out, the maintenance pass turns
//! them into the number of owners, and an asset is freed once, with the store
//! of the type that it was loaded as.

use crate::asset_server::asset_lifecycle::AssetLifecycleEvent;
use crate::asset_server::asset_path::AssetPathId;
use crate::asset_server::asset_path::AssetPathView;
use crate::asset_server::asset_path::path_id_of;
use crate::asset_server::asset_ref_counter::RefChange;
use crate::asset_server::asset_server::claimed;
use crate::asset_server::asset_server::extensions_disjoint;
use crate::asset_server::asset_server::overlaps;
use crate::asset_server::asset_server::ServerView;
use crate::asset_server::error::AssetError;
use crate::asset_server::handle::HandleId;
use crate::asset_server::handle::HandleType;
use crate::asset_server::loader::AssetTypeId;
use vstd::prelude::*;

verus! {

/// What the owner of a strong handle can do with it.
pub enum HandleOp {
    /// Clone it: one more strong handle exists.
    Clone,
    /// Give it up: one strong handle less exists.
    Release,
}

/// The number of strong handles that exist after a strong handle was minted
/// and `ops` were carried out on it and its clones.
pub open spec fn owners_after(ops: Seq<HandleOp>) -> int
    decreases ops.len(),
{
    if ops.len() == 0 {
        1
    } else {
        owners_after(ops.drop_last()) + match ops.last() {
            HandleOp::Clone => 1int,
            HandleOp::Release => -1int,
        }
    }
}

/// Whether `ops` can be carried out: each operation needs a strong handle to
/// act on.
pub open spec fn admissible(ops: Seq<HandleOp>) -> bool
    decreases ops.len(),
{
    ops.len() == 0 || (admissible(ops.drop_last()) && owners_after(ops.drop_last()) >= 1)
}

/// The events that go out on the reference-count channel when a strong
/// handle to `id` is minted and `ops` are carried out on it and its clones.
pub open spec fn announced(id: HandleId, ops: Seq<HandleOp>) -> Seq<RefChange>
    decreases ops.len(),
{
    if ops.len() == 0 {
        HandleType::Strong.acquire_events(id)
    } else {
        announced(id, ops.drop_last()) + match ops.last() {
            HandleOp::Clone => HandleType::Strong.acquire_events(id),
            HandleOp::Release => HandleType::Strong.release_events(id),
        }
    }
}

/// How many of `events` are `Increment(id)`.
pub open spec fn increments(events: Seq<RefChange>, id: HandleId) -> nat
    decreases events.len(),
{
    if events.len() == 0 {
        0
    } else {
        increments(events.drop_last(), id) + if events.last() == RefChange::Increment(id) {
            1nat
        } else {
            0nat
        }
    }
}

/// How many of `events` are `Decrement(id)`.
pub open spec fn decrements(events: Seq<RefChange>, id: HandleId) -> nat
    decreases events.len(),
{
    if events.len() == 0 {
        0
    } else {
        decrements(events.drop_last(), id) + if events.last() == RefChange::Decrement(id) {
            1nat
        } else {
            0nat
        }
    }
}

/// Counting over `events` followed by one more event.
proof fn lemma_count_push(events: Seq<RefChange>, event: RefChange, id: HandleId)
    ensures
        increments(events.push(event), id) == increments(events, id) + if event
            == RefChange::Increment(id) {
            1nat
        } else {
            0nat
        },
        decrements(events.push(event), id) == decrements(events, id) + if event
            == RefChange::Decrement(id) {
            1nat
        } else {
            0nat
        },
{
    assert(events.push(event).drop_last() =~= events);
}

/// Counting over `events` from its first event on.
proof fn lemma_count_first(events: Seq<RefChange>, id: HandleId)
    requires
        events.len() > 0,
    ensures
        increments(events, id) == increments(events.drop_first(), id) + if events[0]
            == RefChange::Increment(id) {
            1nat
        } else {
            0nat
        },
        decrements(events, id) == decrements(events.drop_first(), id) + if events[0]
            == RefChange::Decrement(id) {
            1nat
        } else {
            0nat
        },
    decreases events.len(),
{
    if events.len() == 1 {
        assert(events.drop_last() =~= Seq::<RefChange>::empty());
        assert(events.drop_first() =~= Seq::<RefChange>::empty());
    } else {
        lemma_count_first(events.drop_last(), id);
        assert(events.drop_last().drop_first() =~= events.drop_first().drop_last());
    }
}

/// Conservation: of the events that the handles to one asset announce, the
/// increments exceed the decrements by the number of strong handles that
/// still exist. Once every handle has been given up, there are as many
/// decrements as increments.
pub proof fn lemma_conservation(id: HandleId, ops: Seq<HandleOp>)
    requires
        admissible(ops),
    ensures
        owners_after(ops) >= 0,
        increments(announced(id, ops), id) - decrements(announced(id, ops), id) == owners_after(
            ops,
        ),
        owners_after(ops) == 0 ==> increments(announced(id, ops), id) == decrements(
            announced(id, ops),
            id,
        ),
    decreases ops.len(),
{
    if ops.len() == 0 {
        let minted = RefChange::Increment(id);
        assert(announced(id, ops) =~= Seq::<RefChange>::empty().push(minted));
        lemma_count_push(Seq::<RefChange>::empty(), minted, id);
    } else {
        let before = ops.drop_last();
        lemma_conservation(id, before);
        let event = match ops.last() {
            HandleOp::Clone => RefChange::Increment(id),
            HandleOp::Release => RefChange::Decrement(id),
        };
        assert(announced(id, ops) =~= announced(id, before).push(event));
        lemma_count_push(announced(id, before), event, id);
    }
}

/// A handle that does not own a reference announces nothing, neither when it
/// is cloned nor when it is given up; so no count ever changes on its
/// account.
pub proof fn lemma_weak_handles_are_silent(id: HandleId, pending: Seq<RefChange>)
    ensures
        HandleType::Weak.acquire_events(id) == Seq::<RefChange>::empty(),
        HandleType::Weak.release_events(id) == Seq::<RefChange>::empty(),
        pending + HandleType::Weak.acquire_events(id) == pending,
        pending + HandleType::Weak.release_events(id) == pending,
{
    assert(pending + Seq::<RefChange>::empty() =~= pending);
}

/// One applied event moves the count of its own identifier by one and leaves
/// all other counts alone.
pub proof fn lemma_apply_counts(s: ServerView, change: RefChange, id: HandleId)
    requires
        s.apply(change) is Ok,
    ensures
        s.apply(change)->Ok_0.count(id) == s.count(id) + increments(seq![change], id)
            - decrements(seq![change], id),
        s.apply(change)->Ok_0.pending == s.pending,
        s.apply(change)->Ok_0.capacity == s.capacity,
        s.apply(change)->Ok_0.source_info == s.source_info,
{
    lemma_count_push(Seq::<RefChange>::empty(), change, id);
    assert(seq![change] =~= Seq::<RefChange>::empty().push(change));
}

/// A maintenance pass that gets through leaves the channel empty, and each
/// count then stands at what it was plus the increments and minus the
/// decrements that were pending for its identifier.
pub proof fn lemma_drain_counts(s: ServerView, id: HandleId)
    requires
        s.drain().1 is Ok,
    ensures
        s.drain().0.pending.len() == 0,
        s.drain().0.count(id) == s.count(id) + increments(s.pending, id) - decrements(
            s.pending,
            id,
        ),
        s.drain().0.capacity == s.capacity,
        s.drain().0.source_info == s.source_info,
    decreases s.pending.len(),
{
    if s.pending.len() > 0 {
        let change = s.pending[0];
        let next = s.apply(change)->Ok_0;
        let rest = ServerView { pending: s.pending.drop_first(), ..next };
        lemma_apply_counts(s, change, id);
        lemma_count_push(Seq::<RefChange>::empty(), change, id);
        assert(seq![change] =~= Seq::<RefChange>::empty().push(change));
        lemma_count_first(s.pending, id);
        lemma_drain_counts(rest, id);
    }
}

/// A maintenance pass that stops early has changed nothing but what the
/// events before the offending one asked for: the offending event is still
/// the next one in the channel.
pub proof fn lemma_drain_stops_at_offender(s: ServerView)
    requires
        s.drain().1 is Err,
    ensures
        s.drain().0.pending.len() > 0,
        s.drain().0.apply(s.drain().0.pending[0]) == Err::<ServerView, AssetError>(
            s.drain().1->Err_0,
        ),
    decreases s.pending.len(),
{
    if s.pending.len() > 0 {
        let change = s.pending[0];
        match s.apply(change) {
            Ok(next) => {
                lemma_drain_stops_at_offender(
                    ServerView { pending: s.pending.drop_first(), ..next },
                );
            },
            Err(_) => {},
        }
    }
}

/// A load of a path that has no owner yet, followed by a maintenance pass,
/// brings the count of its identifier to one. When the handle is then
/// cloned once and both handles are given up, the next pass brings the count
/// back to zero and queues exactly one `Free`: for the store of the type that
/// the asset was loaded as.
pub proof fn lemma_load_clone_release_release(
    s: ServerView,
    path_id: AssetPathId,
    type_id: AssetTypeId,
)
    requires
        s.pending.len() == 0,
        s.count(HandleId(path_id)) == 0,
        s.lifecycles.contains_key(type_id),
        !s.lifecycles[type_id].is_full(),
    ensures
        ({
            let id = HandleId(path_id);
            let loaded = s.with_load(path_id, type_id).drain();
            let used = loaded.0.with_sent(RefChange::Increment(id)).with_sent(
                RefChange::Decrement(id),
            ).with_sent(RefChange::Decrement(id)).drain();
            &&& loaded.1 is Ok
            &&& loaded.0.count(id) == 1
            &&& loaded.0.lifecycles == s.lifecycles
            &&& used.1 is Ok
            &&& used.0.count(id) == 0
            &&& used.0.pending.len() == 0
            &&& used.0.lifecycles == s.lifecycles.insert(
                type_id,
                s.lifecycles[type_id].push(AssetLifecycleEvent::Free(id)),
            )
        }),
{
    let id = HandleId(path_id);
    let inc = RefChange::Increment(id);
    let dec = RefChange::Decrement(id);
    let s1 = s.with_load(path_id, type_id);
    assert(s1.pending =~= seq![inc]);
    assert(s1.pending.drop_first() =~= Seq::<RefChange>::empty());
    reveal_with_fuel(ServerView::drain, 5);
    let loaded = s1.drain();
    assert(loaded.0.count(id) == 1);
    let s2 = loaded.0.with_sent(inc).with_sent(dec).with_sent(dec);
    assert(s2.pending =~= seq![inc, dec, dec]);
    assert(s2.pending.drop_first() =~= seq![dec, dec]);
    assert(s2.pending.drop_first().drop_first() =~= seq![dec]);
    assert(s2.pending.drop_first().drop_first().drop_first() =~= Seq::<RefChange>::empty());
    let a1 = s2.apply(inc)->Ok_0;
    assert(a1.count(id) == 2);
    let b1 = ServerView { pending: seq![dec, dec], ..a1 };
    let a2 = b1.apply(dec)->Ok_0;
    assert(a2.count(id) == 1);
    let b2 = ServerView { pending: seq![dec], ..a2 };
    assert(b2.source_info[id.0] == type_id);
    assert(b2.free_refusal(id) is None);
    let a3 = b2.apply(dec)->Ok_0;
    assert(a3.count(id) == 0);
}

/// Two loads of one path are two owners: after both loads and a maintenance
/// pass the count stands at two, and giving one handle up leaves it at one,
/// with nothing freed.
pub proof fn lemma_two_loads_are_two_owners(
    s: ServerView,
    path_id: AssetPathId,
    type_id: AssetTypeId,
)
    requires
        s.pending.len() == 0,
        s.count(HandleId(path_id)) == 0,
    ensures
        ({
            let id = HandleId(path_id);
            let loaded = s.with_load(path_id, type_id).with_load(path_id, type_id).drain();
            let released = loaded.0.with_sent(RefChange::Decrement(id)).drain();
            &&& loaded.1 is Ok
            &&& loaded.0.count(id) == 2
            &&& released.1 is Ok
            &&& released.0.count(id) == 1
            &&& released.0.lifecycles == s.lifecycles
        }),
{
    let id = HandleId(path_id);
    let inc = RefChange::Increment(id);
    let dec = RefChange::Decrement(id);
    let s1 = s.with_load(path_id, type_id).with_load(path_id, type_id);
    assert(s1.pending =~= seq![inc, inc]);
    assert(s1.pending.drop_first() =~= seq![inc]);
    assert(s1.pending.drop_first().drop_first() =~= Seq::<RefChange>::empty());
    reveal_with_fuel(ServerView::drain, 4);
    let a1 = s1.apply(inc)->Ok_0;
    assert(a1.count(id) == 1);
    let b1 = ServerView { pending: seq![inc], ..a1 };
    let a2 = b1.apply(inc)->Ok_0;
    assert(a2.count(id) == 2);
    let loaded = s1.drain();
    assert(loaded.0.count(id) == 2);
    let s2 = loaded.0.with_sent(dec);
    assert(s2.pending =~= seq![dec]);
    assert(s2.pending.drop_first() =~= Seq::<RefChange>::empty());
}

/// In a server whose loaded types are all registered, a count that reaches
/// zero is never refused for want of a registered type: the only thing that
/// can hold a `Free` back is a path that was never loaded or a full queue.
pub proof fn lemma_registered_sources_can_be_freed(s: ServerView, id: HandleId)
    requires
        s.sources_registered(),
    ensures
        !(s.free_refusal(id) matches Some(AssetError::AssetTypeNotRegistered(_))),
        s.source_info.contains_key(id.0) && !s.lifecycles[s.source_info[id.0]].is_full()
            ==> s.free_refusal(id) is None,
{
    if s.source_info.contains_key(id.0) {
        assert(s.lifecycles.contains_key(s.source_info[id.0]));
    }
}

/// Where no two loaders declare the same extension, the loader for an
/// extension is the only one that declares it.
pub proof fn lemma_one_loader_per_extension(
    registered: Seq<Seq<Seq<char>>>,
    i: int,
    j: int,
    ext: Seq<char>,
)
    requires
        extensions_disjoint(registered),
        0 <= i < registered.len(),
        0 <= j < registered.len(),
        registered[i].contains(ext),
        registered[j].contains(ext),
    ensures
        i == j,
{
}

/// When a count reaches zero, `Free` goes to the queue of the type recorded
/// for the identifier's path, whatever other types are registered: every
/// other queue stays as it is. Two type identifiers that differ in any bit
/// name different queues.
pub proof fn lemma_free_routes_by_load_type(s: ServerView, id: HandleId, other: AssetTypeId)
    requires
        s.count(id) == 1,
        s.apply(RefChange::Decrement(id)) is Ok,
        other != s.source_info[id.0],
    ensures
        ({
            let next = s.apply(RefChange::Decrement(id))->Ok_0;
            let type_id = s.source_info[id.0];
            &&& s.source_info.contains_key(id.0)
            &&& s.lifecycles.contains_key(type_id)
            &&& next.lifecycles[type_id].events == s.lifecycles[type_id].events.push(
                AssetLifecycleEvent::Free(id),
            )
            &&& next.lifecycles.contains_key(other) == s.lifecycles.contains_key(other)
            &&& next.lifecycles[other] == s.lifecycles[other]
            &&& other.0 != type_id.0
        }),
{
}

/// The type that a load records for a path is the one that the load was
/// made for, and it is what a later `Free` is routed by.
pub proof fn lemma_load_records_type(s: ServerView, path: AssetPathView, type_id: AssetTypeId)
    ensures
        s.with_load(path_id_of(path), type_id).source_info[path_id_of(path)] == type_id,
        s.with_load(path_id_of(path), type_id).pending == s.pending.push(
            RefChange::Increment(HandleId(path_id_of(path))),
        ),
        s.with_load(path_id_of(path), type_id).counts == s.counts,
{
}

/// Once a loader is registered, every loader that declares one of its
/// extensions is refused.
pub proof fn lemma_registered_extension_is_taken(
    registered: Seq<Seq<Seq<char>>>,
    first: Seq<Seq<char>>,
    second: Seq<Seq<char>>,
    ext: Seq<char>,
)
    requires
        first.contains(ext),
        second.contains(ext),
    ensures
        overlaps(registered.push(first), second),
{
    let pushed = registered.push(first);
    assert(pushed[registered.len() as int].contains(ext));
    assert(claimed(pushed, ext));
    let k = choose|k: int| 0 <= k < second.len() && second[k] == ext;
    assert(claimed(pushed, second[k]));
}

} // verus!
