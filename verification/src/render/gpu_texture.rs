//! The shape of a texture as the GPU sees it.

use crate::render::texture::TextureKind;
use vstd::prelude::*;
use vstd::std_specs::convert::FromSpecImpl;

verus! {

/// The shape of a GPU texture and the size of its largest mip level, in
/// texels.
#[derive(Clone, Copy, Debug, PartialEq, Eq, Structural)]
pub enum GpuTextureKind {
    Line { length: usize },
    Rectangle { width: usize, height: usize },
    Cube { width: usize, height: usize },
    Volume { width: usize, height: usize, depth: usize },
}

impl GpuTextureKind {
    /// The number of images that each mip level holds: six for a cube, one
    /// for every other kind.
    pub open spec fn spec_faces(self) -> nat {
        if self is Cube {
            6
        } else {
            1
        }
    }

    /// The number of images that each mip level holds.
    pub fn faces(self) -> (faces: usize)
        ensures
            faces == self.spec_faces(),
    {
        match self {
            GpuTextureKind::Cube { .. } => 6,
            _ => 1,
        }
    }

    /// The GPU shape of a texture asset of the given kind.
    pub open spec fn spec_from_texture_kind(v: TextureKind) -> GpuTextureKind {
        match v {
            TextureKind::Line { length } => GpuTextureKind::Line { length: length as usize },
            TextureKind::Rectangle { width, height } => GpuTextureKind::Rectangle {
                width: width as usize,
                height: height as usize,
            },
            TextureKind::Cube { width, height } => GpuTextureKind::Cube {
                width: width as usize,
                height: height as usize,
            },
            TextureKind::Volume { width, height, depth } => GpuTextureKind::Volume {
                width: width as usize,
                height: height as usize,
                depth: depth as usize,
            },
        }
    }
}

impl From<TextureKind> for GpuTextureKind {
    fn from(v: TextureKind) -> (kind: GpuTextureKind) {
        match v {
            TextureKind::Line { length } => GpuTextureKind::Line { length: length as usize },
            TextureKind::Rectangle { width, height } => GpuTextureKind::Rectangle {
                width: width as usize,
                height: height as usize,
            },
            TextureKind::Cube { width, height } => GpuTextureKind::Cube {
                width: width as usize,
                height: height as usize,
            },
            TextureKind::Volume { width, height, depth } => GpuTextureKind::Volume {
                width: width as usize,
                height: height as usize,
                depth: depth as usize,
            },
        }
    }
}

impl FromSpecImpl<TextureKind> for GpuTextureKind {
    open spec fn obeys_from_spec() -> bool {
        true
    }

    open spec fn from_spec(v: TextureKind) -> GpuTextureKind {
        GpuTextureKind::spec_from_texture_kind(v)
    }
}

} // verus!
