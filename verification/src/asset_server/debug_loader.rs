//! A loader without a backing file, for wiring and diagnosis: it answers
//! every path with an empty `DebugAsset`.

use crate::asset_server::asset_path::AssetPath;
use crate::asset_server::loader::Asset;
use crate::asset_server::loader::extensions_of;
use crate::asset_server::loader::AssetLoader;
use vstd::prelude::*;

verus! {

/// The type identifier of `DebugAsset`.
pub const DEBUG_ASSET_TYPE_ID: u128 = 0x5eed_a55e_7000_4000_8000_0000_0000_0001;

/// The asset that a `DebugLoader` produces.
#[derive(Clone, Copy, Debug, PartialEq, Eq, Structural)]
pub struct DebugAsset {}

/// A loader for a caller-chosen set of extensions.
#[derive(Debug)]
pub struct DebugLoader<'a> {
    extensions: &'a [&'a str],
}

impl<'a> DebugLoader<'a> {
    /// The extensions that the loader declares.
    pub closed spec fn spec_extensions(&self) -> Seq<Seq<char>> {
        extensions_of(self.extensions@)
    }

    /// A loader that declares `extensions`.
    pub fn new(extensions: &'a [&'a str]) -> (loader: DebugLoader<'a>)
        ensures
            loader.spec_extensions() == extensions_of(extensions@),
    {
        DebugLoader { extensions }
    }
}

impl<'a> AssetLoader for DebugLoader<'a> {
    type Payload = DebugAsset;

    fn extensions(&self) -> (exts: &[&str])
        ensures
            extensions_of(exts@) == self.spec_extensions(),
    {
        self.extensions
    }

    fn load(&self, asset_path: &AssetPath) -> (payload: DebugAsset)
        ensures
            payload == (DebugAsset {  }),
    {
        DebugAsset {  }
    }
}

impl Asset<DebugAsset> for DebugAsset {
    const TYPE_UUID: u128 = DEBUG_ASSET_TYPE_ID;

    fn downcast(payload: DebugAsset) -> (asset: Option<DebugAsset>)
        ensures
            asset == Some(payload),
    {
        Some(payload)
    }
}

/// The identifier under which `DebugAsset` is registered is
/// `DEBUG_ASSET_TYPE_ID`.
pub proof fn lemma_debug_asset_type_id()
    ensures
        <DebugAsset as Asset<DebugAsset>>::TYPE_UUID == DEBUG_ASSET_TYPE_ID,
{
}

} // verus!
