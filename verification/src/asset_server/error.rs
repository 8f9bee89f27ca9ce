//! The ways in which the asset server refuses an operation.

use crate::asset_server::handle::HandleId;
use crate::asset_server::loader::AssetTypeId;
use vstd::prelude::*;

verus! {

/// Why an operation of the asset server did not take place. Whenever one of
/// these is returned, the operation has changed nothing.
#[derive(Clone, Copy, Debug, PartialEq, Eq, Structural)]
pub enum AssetError {
    /// Configuration: the asset type is already registered.
    DuplicateAssetType(AssetTypeId),
    /// Configuration: an extension of the loader is already claimed by a
    /// registered loader.
    DuplicateExtension,
    /// Lookup: no registered loader declares the extension of the path, or
    /// the path has no extension.
    NoLoaderForExtension,
    /// Lookup: the asset type was never registered.
    AssetTypeNotRegistered(AssetTypeId),
    /// Lookup: the loader chosen by the extension produced a payload that is
    /// not of the requested asset type.
    AssetTypeMismatch,
    /// Protocol: a decrement arrived for an identifier whose count is zero.
    CountUnderflow(HandleId),
    /// Protocol: a count reached zero for an identifier that no load ever
    /// recorded a type for.
    MissingSourceInfo(HandleId),
    /// Protocol: the count of an identifier cannot grow any further.
    CountOverflow(HandleId),
    /// Protocol: the other end of the reference-count channel between
    /// threads is gone, while handles or the server still use it.
    ChannelDisconnected,
    /// Backpressure: the reference-count channel is full. The producer has to
    /// wait until a maintenance pass has drained it.
    ChannelFull,
    /// Backpressure: the lifecycle queue of the asset type is full. The
    /// maintenance pass has to wait until the type's store has drained it.
    LifecycleFull(AssetTypeId),
}

impl AssetError {
    /// Whether this is a misuse at registration time.
    pub open spec fn spec_is_configuration_error(self) -> bool {
        self is DuplicateAssetType || self is DuplicateExtension
    }

    /// Whether this is a failure to find a loader or a type for a load.
    pub open spec fn spec_is_lookup_error(self) -> bool {
        self is NoLoaderForExtension || self is AssetTypeNotRegistered || self is AssetTypeMismatch
    }

    /// Whether this reports broken handle bookkeeping.
    pub open spec fn spec_is_protocol_error(self) -> bool {
        self is CountUnderflow || self is MissingSourceInfo || self is CountOverflow
            || self is ChannelDisconnected
    }

    /// Whether this only asks the caller to wait and try again.
    pub open spec fn spec_is_backpressure(self) -> bool {
        self is ChannelFull || self is LifecycleFull
    }

    #[verifier::when_used_as_spec(spec_is_configuration_error)]
    pub fn is_configuration_error(self) -> (b: bool)
        ensures
            b == self.spec_is_configuration_error(),
    {
        match self {
            AssetError::DuplicateAssetType(_) | AssetError::DuplicateExtension => true,
            _ => false,
        }
    }

    #[verifier::when_used_as_spec(spec_is_lookup_error)]
    pub fn is_lookup_error(self) -> (b: bool)
        ensures
            b == self.spec_is_lookup_error(),
    {
        match self {
            AssetError::NoLoaderForExtension
            | AssetError::AssetTypeNotRegistered(_)
            | AssetError::AssetTypeMismatch => true,
            _ => false,
        }
    }

    #[verifier::when_used_as_spec(spec_is_protocol_error)]
    pub fn is_protocol_error(self) -> (b: bool)
        ensures
            b == self.spec_is_protocol_error(),
    {
        match self {
            AssetError::CountUnderflow(_)
            | AssetError::MissingSourceInfo(_)
            | AssetError::CountOverflow(_)
            | AssetError::ChannelDisconnected => true,
            _ => false,
        }
    }

    #[verifier::when_used_as_spec(spec_is_backpressure)]
    pub fn is_backpressure(self) -> (b: bool)
        ensures
            b == self.spec_is_backpressure(),
    {
        match self {
            AssetError::ChannelFull | AssetError::LifecycleFull(_) => true,
            _ => false,
        }
    }
}

} // verus!
