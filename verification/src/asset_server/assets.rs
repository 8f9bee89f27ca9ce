//! The store of the assets of one type, keyed by handle identifier.

use crate::asset_server::asset_lifecycle::AssetLifecycleEvent;
use crate::asset_server::asset_lifecycle::LifecycleView;
use crate::asset_server::asset_server::AssetServer;
use crate::asset_server::asset_server::ServerView;
use crate::asset_server::handle::Handle;
use crate::asset_server::handle::HandleId;
use crate::asset_server::loader::Asset;
use crate::asset_server::loader::AssetLoader;
use crate::asset_server::loader::AssetTypeId;
use std::collections::HashMap;
use vstd::prelude::*;

verus! {

/// The identifiers that the notifications in `events` free.
pub open spec fn freed_ids(events: Seq<AssetLifecycleEvent>) -> Set<HandleId> {
    Set::new(|id: HandleId| events.contains(AssetLifecycleEvent::Free(id)))
}

/// One more notification frees one more identifier.
proof fn lemma_freed_ids_push(events: Seq<AssetLifecycleEvent>, id: HandleId)
    ensures
        freed_ids(events.push(AssetLifecycleEvent::Free(id))) == freed_ids(events).insert(id),
{
    let event = AssetLifecycleEvent::Free(id);
    let pushed = events.push(event);
    assert forall|other: HandleId|
        freed_ids(pushed).contains(other) <==> freed_ids(events).insert(id).contains(
            other,
        ) by {
        let wanted = AssetLifecycleEvent::Free(other);
        if pushed.contains(wanted) {
            let i = choose|i: int| 0 <= i < pushed.len() && pushed[i] == wanted;
            if i < events.len() {
                assert(events[i] == wanted);
            }
        }
        if events.contains(wanted) {
            let i = choose|i: int| 0 <= i < events.len() && events[i] == wanted;
            assert(pushed[i] == wanted);
        }
        if other == id {
            assert(pushed[events.len() as int] == wanted);
        }
    }
    assert(freed_ids(pushed) =~= freed_ids(events).insert(id));
}

/// Calls `HashMap::get_mut`.
///
/// Trusted: the body is not verified. The contract says what the std
/// documentation says: the result is a mutable reference to the value that
/// the key maps to, or `None` when the map does not hold the key; whatever is
/// written through the reference is the value of the key afterwards, and no
/// other entry changes.
#[verifier::external_body]
fn hash_map_get_mut<'a, T>(map: &'a mut HashMap<u64, T>, key: u64) -> (value: Option<&'a mut T>)
    ensures
        match value {
            Some(v) => {
                &&& old(map)@.contains_key(key)
                &&& *v == old(map)@[key]
                &&& final(map)@ == old(map)@.insert(key, *final(v))
            },
            None => !old(map)@.contains_key(key) && final(map)@ == old(map)@,
        },
{
    map.get_mut(&key)
}

/// All loaded assets of type `T`. Its view maps each identifier to the asset
/// stored under it.
pub struct Assets<T> {
    assets: HashMap<u64, T>,
}

impl<T> View for Assets<T> {
    type V = Map<HandleId, T>;

    closed spec fn view(&self) -> Map<HandleId, T> {
        Map::new(
            |id: HandleId| self.assets@.contains_key(id.0.0),
            |id: HandleId| self.assets@[id.0.0],
        )
    }
}

impl<T> Assets<T> {
    /// An empty store.
    pub fn new() -> (store: Assets<T>)
        ensures
            store@ == Map::<HandleId, T>::empty(),
    {
        let store = Assets { assets: HashMap::new() };
        assert(store@ =~= Map::<HandleId, T>::empty());
        store
    }

    /// Stores `asset` under `id`, in place of what was stored there.
    pub fn insert(&mut self, id: HandleId, asset: T)
        ensures
            final(self)@ == old(self)@.insert(id, asset),
    {
        broadcast use vstd::std_specs::hash::group_hash_axioms;

        self.assets.insert(id.0.0, asset);
        assert(final(self)@ =~= old(self)@.insert(id, asset));
    }

    /// Removes the entry of `id`, if there is one.
    pub fn remove(&mut self, id: HandleId)
        ensures
            final(self)@ == old(self)@.remove(id),
    {
        broadcast use vstd::std_specs::hash::group_hash_axioms;

        self.assets.remove(&id.0.0);
        assert(final(self)@ =~= old(self)@.remove(id));
    }

    /// The asset stored under `id`.
    pub fn get(&self, id: &HandleId) -> (asset: Option<&T>)
        ensures
            match asset {
                Some(a) => self@.contains_key(*id) && *a == self@[*id],
                None => !self@.contains_key(*id),
            },
    {
        broadcast use vstd::std_specs::hash::group_hash_axioms;

        self.assets.get(&id.0.0)
    }

    /// The asset stored under `id`, to change it in place.
    pub fn get_mut(&mut self, id: &HandleId) -> (asset: Option<&mut T>)
        ensures
            match asset {
                Some(a) => {
                    &&& old(self)@.contains_key(*id)
                    &&& *a == old(self)@[*id]
                    &&& final(self)@ =~= old(self)@.insert(*id, *final(a))
                },
                None => !old(self)@.contains_key(*id) && final(self)@ =~= old(self)@,
            },
    {
        hash_map_get_mut(&mut self.assets, id.0.0)
    }

    /// The asset that `handle` refers to, to change it in place.
    pub fn get_asset_mut(&mut self, handle: &Handle<T>) -> (asset: Option<&mut T>)
        ensures
            match asset {
                Some(a) => {
                    &&& old(self)@.contains_key(handle.spec_id())
                    &&& *a == old(self)@[handle.spec_id()]
                    &&& final(self)@ == old(self)@.insert(handle.spec_id(), *final(a))
                },
                None => !old(self)@.contains_key(handle.spec_id()) && final(self)@ == old(
                    self,
                )@,
            },
    {
        let id = handle.id();
        self.get_mut(&id)
    }

    /// The asset that `handle` refers to.
    pub fn get_asset(&self, handle: &Handle<T>) -> (asset: Option<&T>)
        ensures
            match asset {
                Some(a) => self@.contains_key(handle.spec_id()) && *a == self@[handle.spec_id()],
                None => !self@.contains_key(handle.spec_id()),
            },
    {
        let id = handle.id();
        self.get(&id)
    }

    /// Whether an asset is stored under `id`.
    pub fn contains(&self, id: HandleId) -> (stored: bool)
        ensures
            stored == self@.contains_key(id),
    {
        broadcast use vstd::std_specs::hash::group_hash_axioms;

        self.assets.contains_key(&id.0.0)
    }

    /// The store's own maintenance step: takes every notification out of the
    /// lifecycle queue that `server` keeps for the asset type `T`, and
    /// removes the entries that they free. Nothing else in the server
    /// changes, and nothing happens when the type is not registered.
    pub fn free_unused_assets<L: AssetLoader>(&mut self, server: &mut AssetServer<L>) where
        T: Asset<L::Payload>,
        ensures
            final(server).slots() == old(server).slots(),
            old(server).wf() ==> final(server).wf(),
            match old(server)@.lifecycles.contains_key(AssetTypeId(T::TYPE_UUID)) {
                true => {
                    &&& final(server)@ == (ServerView {
                        lifecycles: old(server)@.lifecycles.insert(
                            AssetTypeId(T::TYPE_UUID),
                            old(server)@.lifecycles[AssetTypeId(T::TYPE_UUID)].drained(),
                        ),
                        ..old(server)@
                    })
                    &&& final(self)@ == old(self)@.remove_keys(
                        freed_ids(old(server)@.lifecycles[AssetTypeId(T::TYPE_UUID)].events),
                    )
                },
                false => final(server)@ == old(server)@ && final(self)@ == old(self)@,
            },
    {
        let type_id = AssetTypeId(T::TYPE_UUID);
        let ghost waiting = old(server)@.lifecycles[type_id];
        let ghost registered = old(server)@.lifecycles.contains_key(type_id);
        let ghost mut done: int = 0;
        proof {
            assert(waiting.events.take(0) =~= Seq::<AssetLifecycleEvent>::empty());
            assert(freed_ids(waiting.events.take(0)) =~= Set::<HandleId>::empty());
            assert(self@.remove_keys(Set::<HandleId>::empty()) =~= self@);
            if registered {
                assert(waiting.events.skip(0) =~= waiting.events);
                assert(server@.lifecycles =~= server@.lifecycles.insert(type_id, waiting));
            }
        }
        loop
            invariant
                type_id == AssetTypeId(T::TYPE_UUID),
                waiting == old(server)@.lifecycles[type_id],
                registered == old(server)@.lifecycles.contains_key(type_id),
                server.slots() == old(server).slots(),
                old(server).wf() ==> server.wf(),
                0 <= done <= waiting.events.len(),
                !registered ==> server@ == old(server)@ && done == 0,
                registered ==> server@ == (ServerView {
                    lifecycles: old(server)@.lifecycles.insert(
                        type_id,
                        LifecycleView {
                            events: waiting.events.skip(done),
                            capacity: waiting.capacity,
                        },
                    ),
                    ..old(server)@
                }),
                self@ == old(self)@.remove_keys(freed_ids(waiting.events.take(done))),
            decreases waiting.events.len() - done,
        {
            match server.next_free_event(type_id) {
                None => {
                    proof {
                        if registered {
                            assert(waiting.events.skip(done).len() == 0);
                            assert(waiting.events.take(done) =~= waiting.events);
                            assert(waiting.events.skip(done) =~= Seq::<
                                AssetLifecycleEvent,
                            >::empty());
                        }
                    }
                    return ;
                },
                Some(event) => {
                    let id = event.id();
                    let ghost before = self@;
                    self.remove(id);
                    proof {
                        assert(event == waiting.events.skip(done)[0]);
                        assert(event == waiting.events[done]);
                        assert(waiting.events.take(done + 1) =~= waiting.events.take(done).push(
                            event,
                        ));
                        lemma_freed_ids_push(waiting.events.take(done), id);
                        assert(self@ =~= old(self)@.remove_keys(
                            freed_ids(waiting.events.take(done + 1)),
                        ));
                        assert(waiting.events.skip(done).drop_first() =~= waiting.events.skip(
                            done + 1,
                        ));
                        assert(server@.lifecycles =~= old(server)@.lifecycles.insert(
                            type_id,
                            LifecycleView {
                                events: waiting.events.skip(done + 1),
                                capacity: waiting.capacity,
                            },
                        ));
                        done = done + 1;
                    }
                },
            }
        }
    }
}

} // verus!
