//! The asset server: the registry of loaders and asset types, the table of
//! reference counts, and the maintenance pass that turns the events of the
//! reference-count channel into counts and free notifications.

use crate::asset_server::asset_lifecycle::AssetLifecycle;
use crate::asset_server::asset_lifecycle::AssetLifecycleEvent;
use crate::asset_server::asset_lifecycle::LifecycleView;
use crate::asset_server::asset_path::extension_of;
use crate::asset_server::asset_path::path_id_of;
use crate::asset_server::asset_path::AssetPath;
use crate::asset_server::asset_path::AssetPathId;
use crate::asset_server::asset_ref_counter::count_of;
use crate::asset_server::asset_ref_counter::AssetRefCounter;
use crate::asset_server::asset_ref_counter::RefChange;
use crate::asset_server::asset_ref_counter::RefChangeChannel;
use crate::asset_server::asset_ref_counter::DEFAULT_CHANNEL_CAPACITY;
use crate::asset_server::assets::Assets;
use crate::asset_server::error::AssetError;
use crate::asset_server::handle::Handle;
use crate::asset_server::handle::HandleId;
use crate::asset_server::handle::HandleType;
use crate::asset_server::handle::HandleUntyped;
use crate::asset_server::loader::extensions_of;
use crate::asset_server::loader::Asset;
use crate::asset_server::loader::AssetLoader;
use crate::asset_server::loader::AssetTypeId;
use std::collections::HashMap;
use std::sync::mpsc::SyncSender;
use vstd::prelude::*;

verus! {

/// The state of an asset server, as mathematical values: the channel, the
/// counts and the two tables. The registered loaders stand beside it, in
/// `AssetServer::slots`, since their type differs from server to server.
pub struct ServerView {
    /// The events of the reference-count channel that no maintenance pass has
    /// consumed yet, oldest first.
    pub pending: Seq<RefChange>,
    /// The capacity of the reference-count channel.
    pub capacity: nat,
    /// The number of strong handles per asset, as far as the maintenance
    /// passes have got.
    pub counts: Map<HandleId, nat>,
    /// The asset type under which each path was last loaded.
    pub source_info: Map<AssetPathId, AssetTypeId>,
    /// The lifecycle queue of each registered asset type.
    pub lifecycles: Map<AssetTypeId, LifecycleView>,
}

impl ServerView {
    /// The count of `id`: zero where the table has no entry.
    pub open spec fn count(self, id: HandleId) -> nat {
        count_of(self.counts, id)
    }

    /// Whether the reference-count channel accepts no further event.
    pub open spec fn channel_full(self) -> bool {
        self.pending.len() >= self.capacity
    }

    /// The state with `count` entered for `id`.
    pub open spec fn with_count(self, id: HandleId, count: nat) -> ServerView {
        ServerView { counts: self.counts.insert(id, count), ..self }
    }

    /// The state after `event` was sent on the reference-count channel.
    pub open spec fn with_sent(self, event: RefChange) -> ServerView {
        ServerView { pending: self.pending.push(event), ..self }
    }

    /// The state after `Free(id)` was queued for the asset type `type_id`.
    pub open spec fn with_freed(self, type_id: AssetTypeId, id: HandleId) -> ServerView {
        ServerView {
            lifecycles: self.lifecycles.insert(
                type_id,
                self.lifecycles[type_id].push(AssetLifecycleEvent::Free(id)),
            ),
            ..self
        }
    }

    /// What stands in the way of telling a store that `id` is unused, if
    /// anything does.
    pub open spec fn free_refusal(self, id: HandleId) -> Option<AssetError> {
        if !self.source_info.contains_key(id.0) {
            Some(AssetError::MissingSourceInfo(id))
        } else {
            let type_id = self.source_info[id.0];
            if !self.lifecycles.contains_key(type_id) {
                Some(AssetError::AssetTypeNotRegistered(type_id))
            } else if self.lifecycles[type_id].is_full() {
                Some(AssetError::LifecycleFull(type_id))
            } else {
                None
            }
        }
    }

    /// The effect of one event of the reference-count channel on the counts
    /// and the lifecycle queues.
    ///
    /// An `Increment` adds one to the count of its identifier. A `Decrement`
    /// takes one off; when that leaves zero, `Free` is queued for the asset
    /// type that the identifier's path was loaded as, and for no other. An
    /// event that cannot be applied leaves the state as it is.
    pub open spec fn apply(self, change: RefChange) -> Result<ServerView, AssetError> {
        match change {
            RefChange::Increment(id) => {
                if self.count(id) >= usize::MAX {
                    Err(AssetError::CountOverflow(id))
                } else {
                    Ok(self.with_count(id, self.count(id) + 1))
                }
            },
            RefChange::Decrement(id) => {
                if self.count(id) == 0 {
                    Err(AssetError::CountUnderflow(id))
                } else if self.count(id) > 1 {
                    Ok(self.with_count(id, (self.count(id) - 1) as nat))
                } else {
                    match self.free_refusal(id) {
                        Some(e) => Err(e),
                        None => Ok(self.with_count(id, 0).with_freed(self.source_info[id.0], id)),
                    }
                }
            },
        }
    }

    /// The effect of a maintenance pass: the pending events are applied in
    /// the order in which they were sent, until none is left or one cannot be
    /// applied. That one stays at the head of the channel, with all that
    /// follow it.
    pub open spec fn drain(self) -> (ServerView, Result<(), AssetError>)
        decreases self.pending.len(),
    {
        if self.pending.len() == 0 {
            (self, Ok(()))
        } else {
            match self.apply(self.pending[0]) {
                Ok(next) => (ServerView { pending: self.pending.drop_first(), ..next }).drain(),
                Err(e) => (self, Err(e)),
            }
        }
    }

    /// The state after an asset of type `type_id` was loaded from the path
    /// with identifier `path_id`: the type is recorded for the path, and the
    /// `Increment` of the new strong handle is in flight.
    pub open spec fn with_load(self, path_id: AssetPathId, type_id: AssetTypeId) -> ServerView {
        ServerView {
            source_info: self.source_info.insert(path_id, type_id),
            ..self
        }.with_sent(RefChange::Increment(HandleId(path_id)))
    }

    /// Every type that a path was loaded as is registered.
    pub open spec fn sources_registered(self) -> bool {
        forall|path_id: AssetPathId| #[trigger]
            self.source_info.contains_key(path_id) ==> self.lifecycles.contains_key(
                self.source_info[path_id],
            )
    }
}

/// Whether one of the registered loaders declares the extension `ext`.
/// `registered` holds, for each loader, the extensions that it declares.
pub open spec fn claimed(registered: Seq<Seq<Seq<char>>>, ext: Seq<char>) -> bool {
    exists|i: int| 0 <= i < registered.len() && #[trigger] registered[i].contains(ext)
}

/// No extension is declared by two of the registered loaders.
pub open spec fn extensions_disjoint(registered: Seq<Seq<Seq<char>>>) -> bool {
    forall|i: int, j: int, ext: Seq<char>|
        0 <= i < registered.len() && 0 <= j < registered.len() && i != j
            && #[trigger] registered[i].contains(ext) ==> !#[trigger] registered[j].contains(ext)
}

/// Whether one of the extensions in `declared` is declared by a registered
/// loader too.
pub open spec fn overlaps(registered: Seq<Seq<Seq<char>>>, declared: Seq<Seq<char>>) -> bool {
    exists|k: int| 0 <= k < declared.len() && claimed(registered, #[trigger] declared[k])
}

/// A registered loader, as the contracts speak of it: the loader itself and
/// the extensions that it declared when it was registered.
pub struct LoaderSlotView<L> {
    pub loader: L,
    pub extensions: Seq<Seq<char>>,
}

/// The extensions of each slot, in the order of the slots.
pub open spec fn extensions_by_slot<L>(slots: Seq<LoaderSlotView<L>>) -> Seq<Seq<Seq<char>>> {
    Seq::new(slots.len(), |i: int| slots[i].extensions)
}

/// Whether the slot `i` is the one that a load of a path with the extension
/// `ext` selects: the first whose loader declares the extension.
pub open spec fn selects(registered: Seq<Seq<Seq<char>>>, ext: Seq<char>, i: int) -> bool {
    &&& 0 <= i < registered.len()
    &&& registered[i].contains(ext)
    &&& forall|j: int| 0 <= j < i ==> !registered[j].contains(ext)
}

/// Whether `declared` is what `loader` answers when it is asked for its
/// extensions.
pub open spec fn declares<L: AssetLoader>(loader: L, declared: Seq<Seq<char>>) -> bool {
    exists|exts: &[&str]| #[trigger]
        call_ensures(L::extensions, (&loader,), exts) && extensions_of(exts@) == declared
}

/// Whether `asset` is what `loader` makes of `path` for the asset type `T`:
/// the loader answers the path with a payload, and `T` recovers `asset` from
/// that payload (`None` where the payload is of another type).
pub open spec fn produces<L: AssetLoader, T: Asset<L::Payload>>(
    loader: L,
    path: AssetPath,
    asset: Option<T>,
) -> bool {
    exists|payload: L::Payload| #[trigger]
        call_ensures(L::load, (&loader, &path), payload) && call_ensures(
            T::downcast,
            (payload,),
            asset,
        )
}

/// What registering `loader` for the extensions `declared` does to the slots
/// `before`: the loader is refused when one of the extensions is declared in
/// a slot already; otherwise it gets a new slot, the last, and every other
/// slot stays as it is.
pub open spec fn registered_as<L>(
    before: Seq<LoaderSlotView<L>>,
    loader: L,
    declared: Seq<Seq<char>>,
    after: Seq<LoaderSlotView<L>>,
    added: Result<(), AssetError>,
) -> bool {
    match added {
        Ok(()) => {
            &&& !overlaps(extensions_by_slot(before), declared)
            &&& after == before.push(LoaderSlotView { loader, extensions: declared })
        },
        Err(e) => {
            &&& overlaps(extensions_by_slot(before), declared)
            &&& e == AssetError::DuplicateExtension
            &&& after == before
        },
    }
}

/// A registered loader, with the extensions that it declared when it was
/// registered.
struct LoaderSlot<L> {
    loader: L,
    extensions: Vec<String>,
}

/// The asset server, for loaders of type `L`.
pub struct AssetServer<L: AssetLoader> {
    asset_ref_counter: AssetRefCounter,
    loaders: Vec<LoaderSlot<L>>,
    asset_lifecycles: HashMap<u128, AssetLifecycle>,
    source_info: HashMap<u64, AssetTypeId>,
}

impl<L: AssetLoader> View for AssetServer<L> {
    type V = ServerView;

    closed spec fn view(&self) -> ServerView {
        ServerView {
            pending: self.asset_ref_counter.pending(),
            capacity: self.asset_ref_counter.capacity(),
            counts: self.asset_ref_counter.counts(),
            source_info: Map::new(
                |path_id: AssetPathId| self.source_info@.contains_key(path_id.0),
                |path_id: AssetPathId| self.source_info@[path_id.0],
            ),
            lifecycles: Map::new(
                |type_id: AssetTypeId| self.asset_lifecycles@.contains_key(type_id.0),
                |type_id: AssetTypeId| self.asset_lifecycles@[type_id.0]@,
            ),
        }
    }
}

impl<L: AssetLoader> AssetServer<L> {
    /// The registered loaders with the extensions that each declared, in
    /// the order in which they were registered.
    pub closed spec fn slots(&self) -> Seq<LoaderSlotView<L>> {
        Seq::new(
            self.loaders@.len(),
            |i: int|
                LoaderSlotView {
                    loader: self.loaders@[i].loader,
                    extensions: self.loaders@[i].extensions.deep_view(),
                },
        )
    }

    /// The extensions that each registered loader declared, in the order in
    /// which the loaders were registered.
    pub open spec fn loaders(&self) -> Seq<Seq<Seq<char>>> {
        extensions_by_slot(self.slots())
    }

    /// What every server satisfies that was made by `new` or `with_capacity`
    /// and changed through its own operations: no two loaders declare the
    /// same extension, and every type that a path was loaded as is
    /// registered.
    pub open spec fn wf(&self) -> bool {
        &&& extensions_disjoint(self.loaders())
        &&& self@.sources_registered()
    }

    /// What the registry has against a load of `path` as an asset of type
    /// `type_id`, if anything: no loader declares the extension of the path,
    /// or the type is not registered.
    pub open spec fn lookup_refusal(&self, path: Seq<char>, type_id: AssetTypeId) -> Option<
        AssetError,
    > {
        if extension_of(path) is None || !claimed(self.loaders(), extension_of(path)->0) {
            Some(AssetError::NoLoaderForExtension)
        } else if !self@.lifecycles.contains_key(type_id) {
            Some(AssetError::AssetTypeNotRegistered(type_id))
        } else {
            None
        }
    }

    /// What refuses a load of `path` as an asset of type `type_id` before any
    /// loader is asked, if anything does: what the registry has against it,
    /// or else a full reference-count channel.
    pub open spec fn load_refusal(&self, path: Seq<char>, type_id: AssetTypeId) -> Option<
        AssetError,
    > {
        match self.lookup_refusal(path, type_id) {
            Some(e) => Some(e),
            None => self.store_refusal(type_id),
        }
    }

    /// What refuses the storing of a loaded asset of type `type_id`, if
    /// anything does.
    pub open spec fn store_refusal(&self, type_id: AssetTypeId) -> Option<AssetError> {
        if !self@.lifecycles.contains_key(type_id) {
            Some(AssetError::AssetTypeNotRegistered(type_id))
        } else if self@.channel_full() {
            Some(AssetError::ChannelFull)
        } else {
            None
        }
    }

    /// A server without loaders, types or counts, whose reference-count
    /// channel has the given capacity.
    pub fn with_capacity(capacity: usize) -> (server: AssetServer<L>)
        ensures
            server.wf(),
            server.slots() == Seq::<LoaderSlotView<L>>::empty(),
            server@.pending == Seq::<RefChange>::empty(),
            server@.capacity == capacity,
            server@.counts == Map::<HandleId, nat>::empty(),
            server@.source_info == Map::<AssetPathId, AssetTypeId>::empty(),
            server@.lifecycles == Map::<AssetTypeId, LifecycleView>::empty(),
    {
        let server = AssetServer {
            asset_ref_counter: AssetRefCounter::with_capacity(capacity),
            loaders: Vec::new(),
            asset_lifecycles: HashMap::new(),
            source_info: HashMap::new(),
        };
        assert(server@.source_info =~= Map::<AssetPathId, AssetTypeId>::empty());
        assert(server@.lifecycles =~= Map::<AssetTypeId, LifecycleView>::empty());
        assert(server.slots() =~= Seq::<LoaderSlotView<L>>::empty());
        server
    }

    /// A server without loaders, types or counts, whose reference-count
    /// channel has the default capacity.
    pub fn new() -> (server: AssetServer<L>)
        ensures
            server.wf(),
            server.slots() == Seq::<LoaderSlotView<L>>::empty(),
            server@.pending == Seq::<RefChange>::empty(),
            server@.capacity == DEFAULT_CHANNEL_CAPACITY,
            server@.counts == Map::<HandleId, nat>::empty(),
            server@.source_info == Map::<AssetPathId, AssetTypeId>::empty(),
            server@.lifecycles == Map::<AssetTypeId, LifecycleView>::empty(),
    {
        AssetServer::with_capacity(DEFAULT_CHANNEL_CAPACITY)
    }

    /// The producer side of the reference-count channel, to hand to the
    /// operations on handles.
    pub fn sender(&mut self) -> (channel: &mut RefChangeChannel)
        ensures
            channel@ == old(self)@.pending,
            channel.spec_capacity() == old(self)@.capacity,
            final(self)@ == (ServerView {
                pending: final(channel)@,
                capacity: final(channel).spec_capacity(),
                ..old(self)@
            }),
            final(self).slots() == old(self).slots(),
    {
        self.asset_ref_counter.sender()
    }

    /// The count of `id`, as far as the maintenance passes have got.
    pub fn ref_count(&self, id: HandleId) -> (count: usize)
        ensures
            count == self@.count(id),
    {
        self.asset_ref_counter.count(id)
    }

    /// The number of events that wait for the next maintenance pass.
    pub fn pending_changes(&self) -> (pending: usize)
        ensures
            pending == self@.pending.len(),
    {
        self.asset_ref_counter.pending_len()
    }

    /// The capacity of the reference-count channel.
    pub fn pending_capacity(&self) -> (capacity: usize)
        ensures
            capacity == self@.capacity,
    {
        self.asset_ref_counter.channel_capacity()
    }

    /// Whether the asset type is registered.
    pub fn is_registered(&self, type_id: AssetTypeId) -> (registered: bool)
        ensures
            registered == self@.lifecycles.contains_key(type_id),
    {
        broadcast use vstd::std_specs::hash::group_hash_axioms;

        self.asset_lifecycles.contains_key(&type_id.0)
    }

    /// The asset type that the path with identifier `path_id` was last
    /// loaded as.
    pub fn source_type(&self, path_id: AssetPathId) -> (type_id: Option<AssetTypeId>)
        ensures
            type_id == if self@.source_info.contains_key(path_id) {
                Some(self@.source_info[path_id])
            } else {
                None
            },
    {
        broadcast use vstd::std_specs::hash::group_hash_axioms;

        match self.source_info.get(&path_id.0) {
            Some(type_id) => Some(*type_id),
            None => None,
        }
    }

    /// The first registered loader that declares `extension`.
    pub fn find_loader(&self, extension: &str) -> (found: Option<usize>)
        ensures
            match found {
                Some(i) => {
                    &&& i < self.loaders().len()
                    &&& self.loaders()[i as int].contains(extension@)
                    &&& forall|j: int| 0 <= j < i ==> !self.loaders()[j].contains(extension@)
                },
                None => !claimed(self.loaders(), extension@),
            },
    {
        let wanted = String::from_str(extension);
        let mut i: usize = 0;
        while i < self.loaders.len()
            invariant
                i <= self.loaders.len(),
                wanted@ == extension@,
                forall|j: int| 0 <= j < i ==> !self.loaders()[j].contains(extension@),
            decreases self.loaders.len() - i,
        {
            if contains_extension(&self.loaders[i].extensions, &wanted) {
                return Some(i);
            }
            i += 1;
        }
        None
    }

    /// Registers `loader` for the extensions that it declares: asks it for
    /// them, and hands both to `add_loader_for`. A loader that declares an
    /// extension which a registered loader declares already is refused; the
    /// first loader of a server is always accepted.
    pub fn add_loader(&mut self, loader: L) -> (added: Result<(), AssetError>)
        ensures
            final(self)@ == old(self)@,
            old(self).wf() ==> final(self).wf(),
            old(self).slots().len() == 0 ==> added is Ok,
            exists|declared: Seq<Seq<char>>| #[trigger]
                declares(loader, declared) && registered_as(
                    old(self).slots(),
                    loader,
                    declared,
                    final(self).slots(),
                    added,
                ),
    {
        let exts = loader.extensions();
        let extensions = owned_extensions(exts);
        let ghost declared = extensions.deep_view();
        proof {
            assert(call_ensures(L::extensions, (&loader,), exts) && extensions_of(exts@)
                == declared);
            assert(declares(loader, declared));
        }
        let added = self.add_loader_for(loader, extensions);
        proof {
            if old(self).slots().len() == 0 {
                assert forall|k: int| 0 <= k < declared.len() implies !claimed(
                    old(self).loaders(),
                    #[trigger] declared[k],
                ) by {}
                assert(!overlaps(old(self).loaders(), declared));
            }
        }
        added
    }

    /// Registers `loader` for `extensions`. The loader is refused when one
    /// of the extensions is declared by a registered loader already;
    /// otherwise it joins the registered loaders as the last of them, and a
    /// load of a path with one of its extensions selects it from then on.
    pub fn add_loader_for(&mut self, loader: L, extensions: Vec<String>) -> (added: Result<
        (),
        AssetError,
    >)
        ensures
            final(self)@ == old(self)@,
            old(self).wf() ==> final(self).wf(),
            registered_as(
                old(self).slots(),
                loader,
                extensions.deep_view(),
                final(self).slots(),
                added,
            ),
            added is Ok ==> forall|m: int|
                0 <= m < extensions.len() ==> selects(
                    final(self).loaders(),
                    #[trigger] extensions.deep_view()[m],
                    old(self).slots().len() as int,
                ),
    {
        let ghost declared = extensions.deep_view();
        let mut k: usize = 0;
        while k < extensions.len()
            invariant
                k <= extensions.len(),
                extensions.deep_view() == declared,
                *self == *old(self),
                forall|m: int| 0 <= m < k ==> !claimed(self.loaders(), #[trigger] declared[m]),
            decreases extensions.len() - k,
        {
            assert(extensions.deep_view()[k as int] == extensions[k as int]@);
            if self.find_loader(extensions[k].as_str()).is_some() {
                assert(claimed(self.loaders(), declared[k as int]));
                return Err(AssetError::DuplicateExtension);
            }
            k += 1;
        }
        assert(extensions.deep_view().len() == extensions.len());
        proof {
            lemma_push_keeps_disjoint(self.loaders(), declared);
        }
        self.loaders.push(LoaderSlot { loader, extensions });
        proof {
            let slot = LoaderSlotView { loader, extensions: declared };
            assert(self.slots() =~= old(self).slots().push(slot));
            assert(self.loaders() =~= old(self).loaders().push(declared));
            assert forall|m: int| 0 <= m < declared.len() implies selects(
                self.loaders(),
                #[trigger] declared[m],
                old(self).slots().len() as int,
            ) by {
                let last = old(self).slots().len() as int;
                assert(self.loaders()[last] == declared);
                assert(declared.contains(declared[m]));
                assert forall|j: int| 0 <= j < last implies !self.loaders()[j].contains(
                    declared[m],
                ) by {
                    if self.loaders()[j].contains(declared[m]) {
                        assert(old(self).loaders()[j].contains(declared[m]));
                        assert(claimed(old(self).loaders(), declared[m]));
                    }
                }
            }
        }
        Ok(())
    }

    /// Registers the asset type `T` with a lifecycle queue of the given
    /// capacity, and returns the empty store for its assets. A type can be
    /// registered once.
    pub fn register_asset_with_capacity<T: Asset<L::Payload>>(&mut self, capacity: usize) -> (registered:
        Result<Assets<T>, AssetError>)
        ensures
            final(self).slots() == old(self).slots(),
            old(self).wf() ==> final(self).wf(),
            match registered {
                Ok(store) => {
                    &&& !old(self)@.lifecycles.contains_key(AssetTypeId(T::TYPE_UUID))
                    &&& store@ == Map::<HandleId, T>::empty()
                    &&& final(self)@ == (ServerView {
                        lifecycles: old(self)@.lifecycles.insert(
                            AssetTypeId(T::TYPE_UUID),
                            LifecycleView { events: Seq::empty(), capacity: capacity as nat },
                        ),
                        ..old(self)@
                    })
                },
                Err(e) => {
                    &&& old(self)@.lifecycles.contains_key(AssetTypeId(T::TYPE_UUID))
                    &&& e == AssetError::DuplicateAssetType(AssetTypeId(T::TYPE_UUID))
                    &&& final(self)@ == old(self)@
                },
            },
    {
        broadcast use vstd::std_specs::hash::group_hash_axioms;

        let type_id = AssetTypeId(T::TYPE_UUID);
        if self.asset_lifecycles.contains_key(&type_id.0) {
            return Err(AssetError::DuplicateAssetType(type_id));
        }
        self.asset_lifecycles.insert(type_id.0, AssetLifecycle::with_capacity(capacity));
        assert(final(self)@.lifecycles =~= old(self)@.lifecycles.insert(
            type_id,
            LifecycleView { events: Seq::empty(), capacity: capacity as nat },
        ));
        assert(final(self)@.source_info =~= old(self)@.source_info);
        Ok(Assets::new())
    }

    /// Registers the asset type `T` with a lifecycle queue of the default
    /// capacity, and returns the empty store for its assets. A type can be
    /// registered once.
    pub fn register_asset<T: Asset<L::Payload>>(&mut self) -> (registered: Result<Assets<T>, AssetError>)
        ensures
            final(self).slots() == old(self).slots(),
            old(self).wf() ==> final(self).wf(),
            match registered {
                Ok(store) => {
                    &&& !old(self)@.lifecycles.contains_key(AssetTypeId(T::TYPE_UUID))
                    &&& store@ == Map::<HandleId, T>::empty()
                    &&& final(self)@ == (ServerView {
                        lifecycles: old(self)@.lifecycles.insert(
                            AssetTypeId(T::TYPE_UUID),
                            LifecycleView {
                                events: Seq::empty(),
                                capacity: DEFAULT_CHANNEL_CAPACITY as nat,
                            },
                        ),
                        ..old(self)@
                    })
                },
                Err(e) => {
                    &&& old(self)@.lifecycles.contains_key(AssetTypeId(T::TYPE_UUID))
                    &&& e == AssetError::DuplicateAssetType(AssetTypeId(T::TYPE_UUID))
                    &&& final(self)@ == old(self)@
                },
            },
    {
        self.register_asset_with_capacity::<T>(DEFAULT_CHANNEL_CAPACITY)
    }

    /// The second half of a load: takes what the loader's payload turned out
    /// to be, stores it under the identifier of the path, records the type
    /// for the path, and mints the strong handle, whose `Increment` goes out
    /// on the reference-count channel.
    ///
    /// Nothing is stored, recorded or announced when the type is not
    /// registered, when the channel is full, or when the payload was not of
    /// the requested type (`loaded` is `None`).
    pub fn complete_load<T>(
        &mut self,
        path_id: AssetPathId,
        type_id: AssetTypeId,
        loaded: Option<T>,
        assets: &mut Assets<T>,
    ) -> (minted: Result<Handle<T>, AssetError>)
        ensures
            final(self).slots() == old(self).slots(),
            old(self).wf() ==> final(self).wf(),
            match old(self).store_refusal(type_id) {
                Some(e) => {
                    &&& minted == Err::<Handle<T>, AssetError>(e)
                    &&& final(self)@ == old(self)@
                    &&& final(assets)@ == old(assets)@
                },
                None => match loaded {
                    None => {
                        &&& minted == Err::<Handle<T>, AssetError>(AssetError::AssetTypeMismatch)
                        &&& final(self)@ == old(self)@
                        &&& final(assets)@ == old(assets)@
                    },
                    Some(asset) => {
                        &&& minted is Ok
                        &&& minted->Ok_0.spec_id() == HandleId(path_id)
                        &&& minted->Ok_0.spec_handle_type() == HandleType::Strong
                        &&& final(self)@ == old(self)@.with_load(path_id, type_id)
                        &&& final(assets)@ == old(assets)@.insert(HandleId(path_id), asset)
                    },
                },
            },
    {
        broadcast use vstd::std_specs::hash::group_hash_axioms;

        if !self.is_registered(type_id) {
            return Err(AssetError::AssetTypeNotRegistered(type_id));
        }
        if self.asset_ref_counter.pending_len() >= self.asset_ref_counter.channel_capacity() {
            return Err(AssetError::ChannelFull);
        }
        match loaded {
            None => Err(AssetError::AssetTypeMismatch),
            Some(asset) => {
                let handle_id = HandleId(path_id);
                assets.insert(handle_id, asset);
                self.source_info.insert(path_id.0, type_id);
                let minted = HandleUntyped::strong(handle_id, self.asset_ref_counter.sender());
                assert(self@.source_info =~= old(self)@.source_info.insert(path_id, type_id));
                assert(self@.lifecycles =~= old(self)@.lifecycles);
                match minted {
                    Ok(handle) => Ok(handle.typed()),
                    Err(e) => Err(e),
                }
            },
        }
    }

    /// Loads the asset that `path` names as an asset of type `T`.
    ///
    /// The loader is the first registered one that declares the extension of
    /// the path. What it makes of the path, once recovered as a `T`, is
    /// stored in `assets` under the identifier of the path, in place of what
    /// was stored there; the type is recorded for the path; and a strong
    /// handle is minted, whose `Increment` goes out on the reference-count
    /// channel. Every load mints its own strong handle, whether or not the
    /// path was loaded before.
    ///
    /// A load that is refused (no loader for the extension, type not
    /// registered, channel full, payload of another type) changes neither the
    /// server nor the store.
    pub fn load<T: Asset<L::Payload>>(&mut self, path: &AssetPath, assets: &mut Assets<T>) -> (loaded:
        Result<Handle<T>, AssetError>)
        ensures
            final(self).slots() == old(self).slots(),
            old(self).wf() ==> final(self).wf(),
            match old(self).load_refusal(path@.path, AssetTypeId(T::TYPE_UUID)) {
                Some(e) => {
                    &&& loaded == Err::<Handle<T>, AssetError>(e)
                    &&& final(self)@ == old(self)@
                    &&& final(assets)@ == old(assets)@
                },
                None => exists|slot: int| #[trigger]
                    selects(old(self).loaders(), extension_of(path@.path)->0, slot) && (
                    match loaded {
                        Ok(handle) => {
                            &&& handle.spec_id() == HandleId(path_id_of(path@))
                            &&& handle.spec_handle_type() == HandleType::Strong
                            &&& final(self)@ == old(self)@.with_load(
                                path_id_of(path@),
                                AssetTypeId(T::TYPE_UUID),
                            )
                            &&& final(assets)@.contains_key(handle.spec_id())
                            &&& final(assets)@ == old(assets)@.insert(
                                handle.spec_id(),
                                final(assets)@[handle.spec_id()],
                            )
                            &&& produces(
                                old(self).slots()[slot].loader,
                                *path,
                                Some(final(assets)@[handle.spec_id()]),
                            )
                        },
                        Err(e) => {
                            &&& e == AssetError::AssetTypeMismatch
                            &&& final(self)@ == old(self)@
                            &&& final(assets)@ == old(assets)@
                            &&& produces(old(self).slots()[slot].loader, *path, None::<T>)
                        },
                    }),
            },
    {
        let extension = match path.extension() {
            Some(extension) => extension,
            None => {
                return Err(AssetError::NoLoaderForExtension);
            },
        };
        let index = match self.find_loader(extension.as_str()) {
            Some(index) => index,
            None => {
                return Err(AssetError::NoLoaderForExtension);
            },
        };
        assert(claimed(self.loaders(), extension@)) by {
            assert(self.loaders()[index as int].contains(extension@));
        }
        assert(selects(self.loaders(), extension@, index as int));
        let type_id = AssetTypeId(T::TYPE_UUID);
        if !self.is_registered(type_id) {
            return Err(AssetError::AssetTypeNotRegistered(type_id));
        }
        if self.asset_ref_counter.pending_len() >= self.asset_ref_counter.channel_capacity() {
            return Err(AssetError::ChannelFull);
        }
        let payload = self.loaders[index].loader.load(path);
        let ghost made = payload;
        let asset = T::downcast(payload);
        proof {
            let loader = old(self).slots()[index as int].loader;
            assert(loader == self.loaders@[index as int].loader);
            assert(call_ensures(L::load, (&loader, path), made) && call_ensures(
                T::downcast,
                (made,),
                asset,
            ));
            assert(produces(loader, *path, asset));
        }
        self.complete_load(path.get_id(), type_id, asset, assets)
    }

    /// Stores `asset` under the identifier of the path with the identifier
    /// `path_id`, in place of what was stored there, and records `type_id` as
    /// the type that the path was loaded as. Nothing is announced. A type
    /// that is not registered is refused, and nothing changes.
    pub fn record_load<T>(
        &mut self,
        path_id: AssetPathId,
        type_id: AssetTypeId,
        asset: T,
        assets: &mut Assets<T>,
    ) -> (recorded: Result<(), AssetError>)
        ensures
            final(self).slots() == old(self).slots(),
            old(self).wf() ==> final(self).wf(),
            match recorded {
                Ok(()) => {
                    &&& old(self)@.lifecycles.contains_key(type_id)
                    &&& final(self)@ == (ServerView {
                        source_info: old(self)@.source_info.insert(path_id, type_id),
                        ..old(self)@
                    })
                    &&& final(assets)@ == old(assets)@.insert(HandleId(path_id), asset)
                },
                Err(e) => {
                    &&& !old(self)@.lifecycles.contains_key(type_id)
                    &&& e == AssetError::AssetTypeNotRegistered(type_id)
                    &&& final(self)@ == old(self)@
                    &&& final(assets)@ == old(assets)@
                },
            },
    {
        broadcast use vstd::std_specs::hash::group_hash_axioms;

        if !self.is_registered(type_id) {
            return Err(AssetError::AssetTypeNotRegistered(type_id));
        }
        assets.insert(HandleId(path_id), asset);
        self.source_info.insert(path_id.0, type_id);
        assert(self@.source_info =~= old(self)@.source_info.insert(path_id, type_id));
        assert(self@.lifecycles =~= old(self)@.lifecycles);
        Ok(())
    }

    /// Loads the asset that `path` names as an asset of type `T`, as `load`
    /// does, but announces the new strong handle on the channel between
    /// threads: its `Increment` is sent on `sender`, which waits while that
    /// channel is full. A full channel is therefore no refusal here.
    ///
    /// A load that is refused (no loader for the extension, type not
    /// registered, payload of another type, receiving end gone) changes
    /// neither the server nor the store.
    pub fn load_on<T: Asset<L::Payload>>(
        &mut self,
        path: &AssetPath,
        assets: &mut Assets<T>,
        sender: &SyncSender<RefChange>,
    ) -> (loaded: Result<Handle<T>, AssetError>)
        ensures
            final(self).slots() == old(self).slots(),
            old(self).wf() ==> final(self).wf(),
            match old(self).lookup_refusal(path@.path, AssetTypeId(T::TYPE_UUID)) {
                Some(e) => {
                    &&& loaded == Err::<Handle<T>, AssetError>(e)
                    &&& final(self)@ == old(self)@
                    &&& final(assets)@ == old(assets)@
                },
                None => exists|slot: int| #[trigger]
                    selects(old(self).loaders(), extension_of(path@.path)->0, slot) && (
                    match loaded {
                        Ok(handle) => {
                            &&& handle.spec_id() == HandleId(path_id_of(path@))
                            &&& handle.spec_handle_type() == HandleType::Strong
                            &&& final(self)@ == (ServerView {
                                source_info: old(self)@.source_info.insert(
                                    path_id_of(path@),
                                    AssetTypeId(T::TYPE_UUID),
                                ),
                                ..old(self)@
                            })
                            &&& final(assets)@.contains_key(handle.spec_id())
                            &&& final(assets)@ == old(assets)@.insert(
                                handle.spec_id(),
                                final(assets)@[handle.spec_id()],
                            )
                            &&& produces(
                                old(self).slots()[slot].loader,
                                *path,
                                Some(final(assets)@[handle.spec_id()]),
                            )
                        },
                        Err(e) => {
                            &&& final(self)@ == old(self)@
                            &&& final(assets)@ == old(assets)@
                            &&& e == AssetError::AssetTypeMismatch || e
                                == AssetError::ChannelDisconnected
                            &&& e == AssetError::AssetTypeMismatch ==> produces(
                                old(self).slots()[slot].loader,
                                *path,
                                None::<T>,
                            )
                        },
                    }),
            },
    {
        let extension = match path.extension() {
            Some(extension) => extension,
            None => {
                return Err(AssetError::NoLoaderForExtension);
            },
        };
        let index = match self.find_loader(extension.as_str()) {
            Some(index) => index,
            None => {
                return Err(AssetError::NoLoaderForExtension);
            },
        };
        assert(claimed(self.loaders(), extension@)) by {
            assert(self.loaders()[index as int].contains(extension@));
        }
        assert(selects(self.loaders(), extension@, index as int));
        let type_id = AssetTypeId(T::TYPE_UUID);
        if !self.is_registered(type_id) {
            return Err(AssetError::AssetTypeNotRegistered(type_id));
        }
        let payload = self.loaders[index].loader.load(path);
        let ghost made = payload;
        let downcast = T::downcast(payload);
        proof {
            let loader = old(self).slots()[index as int].loader;
            assert(loader == self.loaders@[index as int].loader);
            assert(call_ensures(L::load, (&loader, path), made) && call_ensures(
                T::downcast,
                (made,),
                downcast,
            ));
            assert(produces(loader, *path, downcast));
        }
        let asset = match downcast {
            Some(asset) => asset,
            None => {
                return Err(AssetError::AssetTypeMismatch);
            },
        };
        let path_id = path.get_id();
        let handle = match HandleUntyped::strong_on(HandleId(path_id), sender) {
            Ok(handle) => handle,
            Err(e) => {
                return Err(e);
            },
        };
        match self.record_load(path_id, type_id, asset, assets) {
            Ok(()) => Ok(handle.typed()),
            Err(e) => Err(e),
        }
    }

    /// Applies one event of the reference-count channel to the counts and the
    /// lifecycle queues, as `ServerView::apply` says. An event that cannot be
    /// applied changes nothing.
    pub fn apply_ref_change(&mut self, change: RefChange) -> (applied: Result<(), AssetError>)
        ensures
            final(self).slots() == old(self).slots(),
            old(self).wf() ==> final(self).wf(),
            match old(self)@.apply(change) {
                Ok(next) => applied is Ok && final(self)@ == next,
                Err(e) => applied == Err::<(), AssetError>(e) && final(self)@ == old(self)@,
            },
    {
        broadcast use vstd::std_specs::hash::group_hash_axioms;

        match change {
            RefChange::Increment(id) => self.asset_ref_counter.increment(id),
            RefChange::Decrement(id) => {
                let count = self.asset_ref_counter.count(id);
                if count == 1 {
                    let type_id = match self.source_info.get(&id.0.0) {
                        Some(type_id) => *type_id,
                        None => {
                            return Err(AssetError::MissingSourceInfo(id));
                        },
                    };
                    let mut lifecycle = match self.asset_lifecycles.remove(&type_id.0) {
                        Some(lifecycle) => lifecycle,
                        None => {
                            assert(self.asset_lifecycles@ =~= old(self).asset_lifecycles@);
                            return Err(AssetError::AssetTypeNotRegistered(type_id));
                        },
                    };
                    let queued = lifecycle.free_asset(id);
                    self.asset_lifecycles.insert(type_id.0, lifecycle);
                    if queued.is_err() {
                        assert(self@.lifecycles =~= old(self)@.lifecycles);
                        assert(self@.source_info =~= old(self)@.source_info);
                        return Err(AssetError::LifecycleFull(type_id));
                    }
                    assert(self@.lifecycles =~= old(self)@.lifecycles.insert(
                        type_id,
                        old(self)@.lifecycles[type_id].push(AssetLifecycleEvent::Free(id)),
                    ));
                    assert(self@.source_info =~= old(self)@.source_info);
                }
                match self.asset_ref_counter.decrement(id) {
                    Ok(_) => Ok(()),
                    Err(e) => Err(e),
                }
            },
        }
    }

    /// The maintenance pass: applies the events that wait in the
    /// reference-count channel, oldest first, and returns when the channel is
    /// empty. It never waits for further events.
    ///
    /// The pass stops early at an event that cannot be applied and returns
    /// the reason. That event, and all that follow it, stay in the channel.
    pub fn free_unused_assets_system(&mut self) -> (drained: Result<(), AssetError>)
        ensures
            final(self).slots() == old(self).slots(),
            old(self).wf() ==> final(self).wf(),
            (final(self)@, drained) == old(self)@.drain(),
    {
        loop
            invariant
                self.slots() == old(self).slots(),
                old(self).wf() ==> self.wf(),
                self@.drain() == old(self)@.drain(),
            decreases self@.pending.len(),
        {
            let change = match self.asset_ref_counter.next_change() {
                Some(change) => change,
                None => {
                    return Ok(());
                },
            };
            let ghost before = self@;
            match self.apply_ref_change(change) {
                Ok(()) => {
                    self.asset_ref_counter.take_change();
                    assert(self@ == (ServerView {
                        pending: before.pending.drop_first(),
                        ..before.apply(change)->Ok_0
                    }));
                },
                Err(e) => {
                    return Err(e);
                },
            }
        }
    }

    /// Takes the oldest notification out of the lifecycle queue of the asset
    /// type; `None` when the type is not registered or nothing waits for
    /// its store.
    pub fn next_free_event(&mut self, type_id: AssetTypeId) -> (event: Option<
        AssetLifecycleEvent,
    >)
        ensures
            final(self).slots() == old(self).slots(),
            old(self).wf() ==> final(self).wf(),
            match event {
                Some(e) => {
                    &&& old(self)@.lifecycles.contains_key(type_id)
                    &&& old(self)@.lifecycles[type_id].events.len() > 0
                    &&& e == old(self)@.lifecycles[type_id].events[0]
                    &&& final(self)@ == (ServerView {
                        lifecycles: old(self)@.lifecycles.insert(
                            type_id,
                            old(self)@.lifecycles[type_id].drop_first(),
                        ),
                        ..old(self)@
                    })
                },
                None => {
                    &&& !old(self)@.lifecycles.contains_key(type_id) || old(self)@.lifecycles[type_id].events.len() == 0
                    &&& final(self)@ == old(self)@
                },
            },
    {
        broadcast use vstd::std_specs::hash::group_hash_axioms;

        let mut lifecycle = match self.asset_lifecycles.remove(&type_id.0) {
            Some(lifecycle) => lifecycle,
            None => {
                assert(self.asset_lifecycles@ =~= old(self).asset_lifecycles@);
                return None;
            },
        };
        let event = lifecycle.try_recv();
        self.asset_lifecycles.insert(type_id.0, lifecycle);
        if event.is_none() {
            assert(self@.lifecycles =~= old(self)@.lifecycles);
            assert(self@.source_info =~= old(self)@.source_info);
        } else {
            assert(self@.lifecycles =~= old(self)@.lifecycles.insert(
                type_id,
                old(self)@.lifecycles[type_id].drop_first(),
            ));
            assert(self@.source_info =~= old(self)@.source_info);
        }
        event
    }
}

impl<L: AssetLoader> Default for AssetServer<L> {
    fn default() -> (server: AssetServer<L>)
        ensures
            server.wf(),
            server.slots() == Seq::<LoaderSlotView<L>>::empty(),
            server@.pending == Seq::<RefChange>::empty(),
            server@.capacity == DEFAULT_CHANNEL_CAPACITY,
            server@.counts == Map::<HandleId, nat>::empty(),
            server@.source_info == Map::<AssetPathId, AssetTypeId>::empty(),
            server@.lifecycles == Map::<AssetTypeId, LifecycleView>::empty(),
    {
        AssetServer::new()
    }
}

/// The extensions in `exts`, as strings of their own.
fn owned_extensions(exts: &[&str]) -> (owned: Vec<String>)
    ensures
        owned.deep_view() == extensions_of(exts@),
{
    let mut owned: Vec<String> = Vec::new();
    let mut i: usize = 0;
    while i < exts.len()
        invariant
            i <= exts.len(),
            owned.len() == i,
            forall|j: int| 0 <= j < i ==> owned[j]@ == exts[j]@,
        decreases exts.len() - i,
    {
        owned.push(String::from_str(exts[i]));
        i += 1;
    }
    assert(owned.deep_view() =~= extensions_of(exts@));
    owned
}

/// Whether `wanted` is one of `exts`.
fn contains_extension(exts: &Vec<String>, wanted: &String) -> (found: bool)
    ensures
        found == exts.deep_view().contains(wanted@),
{
    let mut k: usize = 0;
    while k < exts.len()
        invariant
            k <= exts.len(),
            forall|m: int| 0 <= m < k ==> exts.deep_view()[m] != wanted@,
        decreases exts.len() - k,
    {
        assert(exts.deep_view()[k as int] == exts[k as int]@);
        if exts[k] == *wanted {
            assert(exts.deep_view().contains(wanted@));
            return true;
        }
        k += 1;
    }
    assert(exts.deep_view().len() == exts.len());
    false
}

/// After a loader was registered, a load of a path with one of its
/// extensions selects its slot, and a load of a path with any other extension
/// selects the slot that it selected before, or none as before.
pub proof fn lemma_registration_selects<L>(
    before: Seq<LoaderSlotView<L>>,
    loader: L,
    declared: Seq<Seq<char>>,
    after: Seq<LoaderSlotView<L>>,
    ext: Seq<char>,
    slot: int,
)
    requires
        registered_as(before, loader, declared, after, Ok(())),
    ensures
        after.len() == before.len() + 1,
        after[before.len() as int].loader == loader,
        forall|i: int| 0 <= i < before.len() ==> after[i] == before[i],
        declared.contains(ext) ==> selects(extensions_by_slot(after), ext, before.len() as int),
        !declared.contains(ext) ==> (selects(extensions_by_slot(after), ext, slot) <==> selects(
            extensions_by_slot(before),
            ext,
            slot,
        )),
{
    let old_lists = extensions_by_slot(before);
    let new_lists = extensions_by_slot(after);
    let last = before.len() as int;
    assert(new_lists[last] == declared);
    assert forall|i: int| 0 <= i < last implies new_lists[i] == old_lists[i] by {}
    if declared.contains(ext) {
        let k = choose|k: int| 0 <= k < declared.len() && declared[k] == ext;
        assert forall|j: int| 0 <= j < last implies !new_lists[j].contains(ext) by {
            if new_lists[j].contains(ext) {
                assert(old_lists[j].contains(ext));
                assert(claimed(old_lists, declared[k]));
            }
        }
    } else {
        if selects(new_lists, ext, slot) {
            assert(slot != last);
            assert forall|j: int| 0 <= j < slot implies !old_lists[j].contains(ext) by {
                assert(new_lists[j] == old_lists[j]);
            }
        }
        if selects(old_lists, ext, slot) {
            assert forall|j: int| 0 <= j < slot implies !new_lists[j].contains(ext) by {
                assert(new_lists[j] == old_lists[j]);
            }
        }
    }
}

/// A loader that shares no extension with the registered ones can join them
/// without two loaders then declaring the same extension.
proof fn lemma_push_keeps_disjoint(registered: Seq<Seq<Seq<char>>>, declared: Seq<Seq<char>>)
    requires
        forall|m: int| 0 <= m < declared.len() ==> !claimed(registered, #[trigger] declared[m]),
    ensures
        !overlaps(registered, declared),
        extensions_disjoint(registered) ==> extensions_disjoint(registered.push(declared)),
{
    let pushed = registered.push(declared);
    if extensions_disjoint(registered) {
        assert forall|i: int, j: int, ext: Seq<char>|
            0 <= i < pushed.len() && 0 <= j < pushed.len() && i != j && #[trigger] pushed[i].contains(
                ext,
            ) implies !#[trigger] pushed[j].contains(ext) by {
            if pushed[j].contains(ext) {
                if i < registered.len() && j < registered.len() {
                    assert(registered[i].contains(ext));
                    assert(registered[j].contains(ext));
                } else {
                    let old_one = if i < registered.len() {
                        i
                    } else {
                        j
                    };
                    assert(registered[old_one].contains(ext));
                    assert(declared.contains(ext));
                    let m = choose|m: int| 0 <= m < declared.len() && declared[m] == ext;
                    assert(claimed(registered, declared[m]));
                }
            }
        }
    }
}

} // verus!
