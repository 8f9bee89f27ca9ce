//! What the asset server asks of its collaborators: asset types that name
//! themselves, and loaders that turn a path into a payload.

use crate::asset_server::asset_path::AssetPath;
use vstd::prelude::*;

verus! {

/// Identifier of a concrete asset type: all 128 bits take part in every
/// comparison.
#[derive(Clone, Copy, Debug, PartialEq, Eq, Structural, Hash, PartialOrd, Ord)]
pub struct AssetTypeId(pub u128);

impl AssetTypeId {
    /// The raw 128-bit value.
    pub fn value(&self) -> (v: u128)
        ensures
            v == self.0,
    {
        self.0
    }
}

/// A concrete asset type, as seen by a server whose loaders hand out payloads
/// of type `P`.
pub trait Asset<P>: Sized {
    /// The identifier under which the type is registered.
    const TYPE_UUID: u128;

    /// Recovers an asset of this type from a loader's payload; `None` when
    /// the payload holds something else.
    fn downcast(payload: P) -> (asset: Option<Self>);
}

/// The extensions in `exts`, each as the sequence of its characters.
pub open spec fn extensions_of(exts: Seq<&str>) -> Seq<Seq<char>> {
    Seq::new(exts.len(), |i: int| exts[i]@)
}

/// Produces payloads from asset paths, for the extensions that it declares.
///
/// A server holds loaders of one type. Where loaders of several kinds are
/// needed, that type is a sum of them, and `Payload` is what all of them can
/// hand out: each asset type recovers itself from it (`Asset::downcast`).
/// A loader can be asked from whichever thread performs a load.
pub trait AssetLoader: Send + Sync {
    /// What the loader hands out for a path.
    type Payload;

    /// The extensions that this loader handles. The server asks once, when
    /// the loader is registered.
    fn extensions(&self) -> (exts: &[&str]);

    /// Loads the asset that `asset_path` names.
    fn load(&self, asset_path: &AssetPath) -> (payload: Self::Payload);
}

} // verus!
