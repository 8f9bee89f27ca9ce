//! Sampling properties of GPU textures.

use crate::render::texture::TextureMagnificationFilter;
use crate::render::texture::TextureMinificationFilter;
use crate::render::texture::TextureWrapMode;
use vstd::prelude::*;
use vstd::std_specs::convert::FromSpecImpl;

verus! {

/// How a GPU texture is sampled when a pixel covers more than one texel.
#[derive(Clone, Copy, Debug, PartialEq, Eq, Structural, Hash)]
pub enum MinificationFilter {
    Nearest,
    NearestMipMapNearest,
    NearestMipMapLinear,
    Linear,
    LinearMipMapNearest,
    LinearMipMapLinear,
}

/// How a GPU texture is sampled when a texel covers more than one pixel.
#[derive(Clone, Copy, Debug, PartialEq, Eq, Structural, Hash)]
pub enum MagnificationFilter {
    Nearest,
    Linear,
}

/// What becomes of a coordinate outside a GPU texture.
#[derive(Clone, Copy, Debug, PartialEq, Eq, Structural)]
pub enum WrapMode {
    Repeat,
    ClampToEdge,
    ClampToBorder,
    MirroredRepeat,
    MirrorClampToEdge,
}

impl MinificationFilter {
    /// The GPU filter for the filter of a texture asset.
    pub open spec fn spec_from_texture(v: TextureMinificationFilter) -> MinificationFilter {
        match v {
            TextureMinificationFilter::Nearest => MinificationFilter::Nearest,
            TextureMinificationFilter::NearestMipMapNearest =>
                MinificationFilter::NearestMipMapNearest,
            TextureMinificationFilter::NearestMipMapLinear =>
                MinificationFilter::NearestMipMapLinear,
            TextureMinificationFilter::Linear => MinificationFilter::Linear,
            TextureMinificationFilter::LinearMipMapNearest =>
                MinificationFilter::LinearMipMapNearest,
            TextureMinificationFilter::LinearMipMapLinear =>
                MinificationFilter::LinearMipMapLinear,
        }
    }
}

impl From<TextureMinificationFilter> for MinificationFilter {
    fn from(v: TextureMinificationFilter) -> (filter: MinificationFilter) {
        match v {
            TextureMinificationFilter::Nearest => Self::Nearest,
            TextureMinificationFilter::NearestMipMapNearest => Self::NearestMipMapNearest,
            TextureMinificationFilter::NearestMipMapLinear => Self::NearestMipMapLinear,
            TextureMinificationFilter::Linear => Self::Linear,
            TextureMinificationFilter::LinearMipMapNearest => Self::LinearMipMapNearest,
            TextureMinificationFilter::LinearMipMapLinear => Self::LinearMipMapLinear,
        }
    }
}

impl FromSpecImpl<TextureMinificationFilter> for MinificationFilter {
    open spec fn obeys_from_spec() -> bool {
        true
    }

    open spec fn from_spec(v: TextureMinificationFilter) -> MinificationFilter {
        MinificationFilter::spec_from_texture(v)
    }
}

impl MagnificationFilter {
    /// The GPU filter for the filter of a texture asset.
    pub open spec fn spec_from_texture(v: TextureMagnificationFilter) -> MagnificationFilter {
        match v {
            TextureMagnificationFilter::Nearest => MagnificationFilter::Nearest,
            TextureMagnificationFilter::Linear => MagnificationFilter::Linear,
        }
    }
}

impl From<TextureMagnificationFilter> for MagnificationFilter {
    fn from(v: TextureMagnificationFilter) -> (filter: MagnificationFilter) {
        match v {
            TextureMagnificationFilter::Nearest => Self::Nearest,
            TextureMagnificationFilter::Linear => Self::Linear,
        }
    }
}

impl FromSpecImpl<TextureMagnificationFilter> for MagnificationFilter {
    open spec fn obeys_from_spec() -> bool {
        true
    }

    open spec fn from_spec(v: TextureMagnificationFilter) -> MagnificationFilter {
        MagnificationFilter::spec_from_texture(v)
    }
}

impl WrapMode {
    /// The GPU wrap mode for the wrap mode of a texture asset.
    pub open spec fn spec_from_texture(v: TextureWrapMode) -> WrapMode {
        match v {
            TextureWrapMode::Repeat => WrapMode::Repeat,
            TextureWrapMode::ClampToEdge => WrapMode::ClampToEdge,
            TextureWrapMode::ClampToBorder => WrapMode::ClampToBorder,
            TextureWrapMode::MirroredRepeat => WrapMode::MirroredRepeat,
            TextureWrapMode::MirrorClampToEdge => WrapMode::MirrorClampToEdge,
        }
    }
}

impl From<TextureWrapMode> for WrapMode {
    fn from(v: TextureWrapMode) -> (mode: WrapMode) {
        match v {
            TextureWrapMode::Repeat => Self::Repeat,
            TextureWrapMode::ClampToEdge => Self::ClampToEdge,
            TextureWrapMode::ClampToBorder => Self::ClampToBorder,
            TextureWrapMode::MirroredRepeat => Self::MirroredRepeat,
            TextureWrapMode::MirrorClampToEdge => Self::MirrorClampToEdge,
        }
    }
}

impl FromSpecImpl<TextureWrapMode> for WrapMode {
    open spec fn obeys_from_spec() -> bool {
        true
    }

    open spec fn from_spec(v: TextureWrapMode) -> WrapMode {
        WrapMode::spec_from_texture(v)
    }
}

/// A GPU minification filter reads mipmaps exactly if the asset's filter
/// that it stands for does.
pub proof fn lemma_mip_mapping_is_kept(v: TextureMinificationFilter)
    ensures
        v.spec_is_using_mip_mapping() <==> !(MinificationFilter::spec_from_texture(v) is Nearest
            || MinificationFilter::spec_from_texture(v) is Linear),
{
}

} // verus!
