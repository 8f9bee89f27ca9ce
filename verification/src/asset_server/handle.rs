//! Strong and weak handles to assets.
//!
//! A strong handle is an owning reference: making one announces an
//! `Increment` on the reference-count channel, giving one up announces a
//! `Decrement`. A weak handle names an asset without keeping it alive and
//! never touches the channel. The number of owners lives in the asset server,
//! not in the handles.
//!
//! The operations here take the channel that they announce on as a
//! parameter and say exactly what they leave in it. A handle does not end by
//! itself: whoever owns one gives it up with `release`.

use crate::asset_server::asset_path::path_id_of;
use crate::asset_server::asset_path::AssetPath;
use crate::asset_server::asset_path::AssetPathId;
use crate::asset_server::asset_ref_counter::RefChange;
use crate::asset_server::asset_ref_counter::RefChangeChannel;
use crate::asset_server::error::AssetError;
use std::marker::PhantomData;
use vstd::prelude::*;
use vstd::std_specs::convert::FromSpecImpl;

verus! {

/// Identifier of an asset: the key of the typed stores and of the table of
/// counts. Handles to the same path carry equal identifiers.
#[derive(Clone, Copy, Debug, PartialEq, Eq, Structural, Hash, PartialOrd, Ord)]
pub struct HandleId(pub AssetPathId);

impl HandleId {
    /// The identifier of the path that the asset was loaded from.
    pub fn path_id(&self) -> (id: AssetPathId)
        ensures
            id == self.0,
    {
        self.0
    }
}

impl From<AssetPath> for HandleId {
    fn from(asset_path: AssetPath) -> (id: HandleId) {
        HandleId(asset_path.get_id())
    }
}

impl FromSpecImpl<AssetPath> for HandleId {
    open spec fn obeys_from_spec() -> bool {
        true
    }

    open spec fn from_spec(asset_path: AssetPath) -> HandleId {
        HandleId(path_id_of(asset_path@))
    }
}

/// Whether a handle owns a reference to its asset.
#[derive(Clone, Copy, Debug, PartialEq, Eq, Structural)]
pub enum HandleType {
    Weak,
    Strong,
}

impl HandleType {
    /// What making a handle of this type announces.
    pub open spec fn acquire_events(self, id: HandleId) -> Seq<RefChange> {
        match self {
            HandleType::Weak => Seq::empty(),
            HandleType::Strong => seq![RefChange::Increment(id)],
        }
    }

    /// What giving up a handle of this type announces.
    pub open spec fn release_events(self, id: HandleId) -> Seq<RefChange> {
        match self {
            HandleType::Weak => Seq::empty(),
            HandleType::Strong => seq![RefChange::Decrement(id)],
        }
    }
}

/// A handle that does not say what type of asset it refers to.
#[derive(Debug)]
pub struct HandleUntyped {
    id: HandleId,
    handle_type: HandleType,
}

/// A handle to an asset of type `T`.
#[derive(Debug)]
pub struct Handle<T> {
    id: HandleId,
    handle_type: HandleType,
    marker: PhantomData<T>,
}

impl HandleUntyped {
    pub closed spec fn spec_id(&self) -> HandleId {
        self.id
    }

    pub closed spec fn spec_handle_type(&self) -> HandleType {
        self.handle_type
    }

    #[verifier::when_used_as_spec(spec_id)]
    pub fn id(&self) -> (id: HandleId)
        ensures
            id == self.spec_id(),
    {
        self.id
    }

    #[verifier::when_used_as_spec(spec_handle_type)]
    pub fn handle_type(&self) -> (handle_type: HandleType)
        ensures
            handle_type == self.spec_handle_type(),
    {
        self.handle_type
    }

    /// Mints a strong handle to `handle_id`, announcing one `Increment` on
    /// `sender`. On a full channel no handle is made and nothing is
    /// announced.
    pub fn strong(handle_id: HandleId, sender: &mut RefChangeChannel) -> (minted: Result<
        HandleUntyped,
        AssetError,
    >)
        ensures
            final(sender).spec_capacity() == old(sender).spec_capacity(),
            match minted {
                Ok(handle) => {
                    &&& !old(sender).spec_is_full()
                    &&& handle.spec_id() == handle_id
                    &&& handle.spec_handle_type() == HandleType::Strong
                    &&& final(sender)@ == old(sender)@.push(RefChange::Increment(handle_id))
                },
                Err(e) => {
                    &&& old(sender).spec_is_full()
                    &&& e == AssetError::ChannelFull
                    &&& final(sender)@ == old(sender)@
                },
            },
    {
        match sender.try_send(RefChange::Increment(handle_id)) {
            Ok(()) => Ok(HandleUntyped { id: handle_id, handle_type: HandleType::Strong }),
            Err(_) => Err(AssetError::ChannelFull),
        }
    }

    /// A weak handle to `handle_id`.
    pub fn weak(handle_id: HandleId) -> (handle: HandleUntyped)
        ensures
            handle.spec_id() == handle_id,
            handle.spec_handle_type() == HandleType::Weak,
    {
        HandleUntyped { id: handle_id, handle_type: HandleType::Weak }
    }

    /// Turns the handle into a typed one. Ownership moves with it: the
    /// untyped handle is used up, so the reference it owned is owned once,
    /// by the result.
    pub fn typed<T>(self) -> (handle: Handle<T>)
        ensures
            handle.spec_id() == self.spec_id(),
            handle.spec_handle_type() == self.spec_handle_type(),
    {
        Handle { id: self.id, handle_type: self.handle_type, marker: PhantomData }
    }
}

impl<T> Handle<T> {
    pub closed spec fn spec_id(&self) -> HandleId {
        self.id
    }

    pub closed spec fn spec_handle_type(&self) -> HandleType {
        self.handle_type
    }

    pub open spec fn spec_is_strong(&self) -> bool {
        self.spec_handle_type() == HandleType::Strong
    }

    pub open spec fn spec_is_weak(&self) -> bool {
        self.spec_handle_type() == HandleType::Weak
    }

    #[verifier::when_used_as_spec(spec_id)]
    pub fn id(&self) -> (id: HandleId)
        ensures
            id == self.spec_id(),
    {
        self.id
    }

    #[verifier::when_used_as_spec(spec_handle_type)]
    pub fn handle_type(&self) -> (handle_type: HandleType)
        ensures
            handle_type == self.spec_handle_type(),
    {
        self.handle_type
    }

    #[verifier::when_used_as_spec(spec_is_strong)]
    pub fn is_strong(&self) -> (strong: bool)
        ensures
            strong == self.spec_is_strong(),
    {
        self.handle_type == HandleType::Strong
    }

    #[verifier::when_used_as_spec(spec_is_weak)]
    pub fn is_weak(&self) -> (weak: bool)
        ensures
            weak == self.spec_is_weak(),
    {
        self.handle_type == HandleType::Weak
    }

    /// A weak handle to `id`.
    pub fn weak(id: HandleId) -> (handle: Handle<T>)
        ensures
            handle.spec_id() == id,
            handle.spec_handle_type() == HandleType::Weak,
    {
        Handle { id, handle_type: HandleType::Weak, marker: PhantomData }
    }

    /// A weak handle to the same asset. No event is announced.
    pub fn clone_weak(&self) -> (handle: Handle<T>)
        ensures
            handle.spec_id() == self.spec_id(),
            handle.spec_handle_type() == HandleType::Weak,
    {
        Handle { id: self.id, handle_type: HandleType::Weak, marker: PhantomData }
    }

    /// Another handle of the same type to the same asset. The clone of a
    /// strong handle is a fresh owner and announces its own `Increment` on
    /// `sender`; the clone of a weak handle announces nothing. On a full
    /// channel a strong handle is not cloned and nothing is announced.
    pub fn clone_handle(&self, sender: &mut RefChangeChannel) -> (cloned: Result<
        Handle<T>,
        AssetError,
    >)
        ensures
            final(sender).spec_capacity() == old(sender).spec_capacity(),
            match cloned {
                Ok(handle) => {
                    &&& self.spec_is_weak() || !old(sender).spec_is_full()
                    &&& handle.spec_id() == self.spec_id()
                    &&& handle.spec_handle_type() == self.spec_handle_type()
                    &&& final(sender)@ == old(sender)@ + self.spec_handle_type().acquire_events(
                        self.spec_id(),
                    )
                },
                Err(e) => {
                    &&& self.spec_is_strong() && old(sender).spec_is_full()
                    &&& e == AssetError::ChannelFull
                    &&& final(sender)@ == old(sender)@
                },
            },
    {
        match self.handle_type {
            HandleType::Weak => {
                assert(sender@ + Seq::<RefChange>::empty() =~= sender@);
                Ok(Handle { id: self.id, handle_type: HandleType::Weak, marker: PhantomData })
            },
            HandleType::Strong => {
                let ghost before = sender@;
                match HandleUntyped::strong(self.id, sender) {
                    Ok(handle) => {
                        assert(before.push(RefChange::Increment(self.id)) =~= before
                            + seq![RefChange::Increment(self.id)]);
                        Ok(handle.typed())
                    },
                    Err(e) => Err(e),
                }
            },
        }
    }

    /// Gives the handle up. A strong handle announces one `Decrement` on
    /// `sender`; a weak one announces nothing. On a full channel a strong
    /// handle is handed back unchanged, and nothing is announced.
    pub fn release(self, sender: &mut RefChangeChannel) -> (released: Result<(), Handle<T>>)
        ensures
            final(sender).spec_capacity() == old(sender).spec_capacity(),
            match released {
                Ok(()) => {
                    &&& self.spec_is_weak() || !old(sender).spec_is_full()
                    &&& final(sender)@ == old(sender)@ + self.spec_handle_type().release_events(
                        self.spec_id(),
                    )
                },
                Err(handle) => {
                    &&& self.spec_is_strong() && old(sender).spec_is_full()
                    &&& handle == self
                    &&& final(sender)@ == old(sender)@
                },
            },
    {
        match self.handle_type {
            HandleType::Weak => {
                assert(sender@ + Seq::<RefChange>::empty() =~= sender@);
                Ok(())
            },
            HandleType::Strong => {
                let ghost before = sender@;
                match sender.try_send(RefChange::Decrement(self.id)) {
                    Ok(()) => {
                        assert(before.push(RefChange::Decrement(self.id)) =~= before
                            + seq![RefChange::Decrement(self.id)]);
                        Ok(())
                    },
                    Err(_) => Err(self),
                }
            },
        }
    }
}

} // verus!
