//! Pixel formats of GPU textures and what follows from them for the layout
//! of texel data.

use vstd::prelude::*;

verus! {

/// Pixel format of a GPU texture.
#[derive(Clone, Copy, Debug, PartialEq, Eq, Structural)]
pub enum PixelKind {
    F32,
    F16,
    D32F,
    D16,
    D24S8,
    RGBA8,
    SRGBA8,
    RGB8,
    SRGB8,
    BGRA8,
    BGR8,
    RG8,
    RG16,
    R8,
    R8UI,
    R16,
    RGB16,
    RGBA16,
    DXT1RGB,
    DXT1RGBA,
    DXT3RGBA,
    DXT5RGBA,
    RGB32F,
    RGBA32F,
    RGBA16F,
    R8RGTC,
    RG8RGTC,
    R11G11B10F,
    RGB10A2,
}

impl PixelKind {
    /// The number of bytes that one 4-wide block of a block-compressed
    /// format takes; `None` for the formats that store texels one by one.
    pub open spec fn spec_block_size(self) -> Option<nat> {
        match self {
            PixelKind::DXT1RGB | PixelKind::DXT1RGBA | PixelKind::R8RGTC => Some(8),
            PixelKind::DXT3RGBA | PixelKind::DXT5RGBA | PixelKind::RG8RGTC => Some(16),
            _ => None,
        }
    }

    /// The number of bytes that one texel takes; `None` for the
    /// block-compressed formats.
    pub open spec fn spec_bytes_per_pixel(self) -> Option<nat> {
        match self {
            PixelKind::RGBA32F => Some(16),
            PixelKind::RGB32F => Some(12),
            PixelKind::RGBA16 | PixelKind::RGBA16F => Some(8),
            PixelKind::RGB16 => Some(6),
            PixelKind::RGBA8
            | PixelKind::SRGBA8
            | PixelKind::BGRA8
            | PixelKind::RG16
            | PixelKind::D24S8
            | PixelKind::D32F
            | PixelKind::F32
            | PixelKind::R11G11B10F
            | PixelKind::RGB10A2 => Some(4),
            PixelKind::RGB8 | PixelKind::SRGB8 | PixelKind::BGR8 => Some(3),
            PixelKind::RG8 | PixelKind::R16 | PixelKind::D16 | PixelKind::F16 => Some(2),
            PixelKind::R8 | PixelKind::R8UI => Some(1),
            PixelKind::DXT1RGB
            | PixelKind::DXT1RGBA
            | PixelKind::DXT3RGBA
            | PixelKind::DXT5RGBA
            | PixelKind::R8RGTC
            | PixelKind::RG8RGTC => None,
        }
    }

    /// Whether the format is block-compressed.
    pub open spec fn spec_is_compressed(self) -> bool {
        self.spec_block_size() is Some
    }

    /// The row alignment, in bytes, with which texel data of this format is
    /// unpacked.
    pub open spec fn spec_unpack_alignment(self) -> Option<i32> {
        match self {
            PixelKind::RGBA16
            | PixelKind::RGBA16F
            | PixelKind::RGB16
            | PixelKind::RGBA32F
            | PixelKind::RGB32F => Some(8),
            PixelKind::RGBA8
            | PixelKind::SRGBA8
            | PixelKind::RGB8
            | PixelKind::SRGB8
            | PixelKind::BGRA8
            | PixelKind::BGR8
            | PixelKind::RG16
            | PixelKind::R16
            | PixelKind::D24S8
            | PixelKind::D32F
            | PixelKind::F32
            | PixelKind::R11G11B10F
            | PixelKind::RGB10A2 => Some(4),
            PixelKind::RG8 | PixelKind::D16 | PixelKind::F16 => Some(2),
            PixelKind::R8 | PixelKind::R8UI => Some(1),
            PixelKind::DXT1RGB
            | PixelKind::DXT1RGBA
            | PixelKind::DXT3RGBA
            | PixelKind::DXT5RGBA
            | PixelKind::R8RGTC
            | PixelKind::RG8RGTC => None,
        }
    }

    /// Whether the format is block-compressed.
    #[verifier::when_used_as_spec(spec_is_compressed)]
    pub fn is_compressed(self) -> (compressed: bool)
        ensures
            compressed == self.spec_is_compressed(),
            compressed == (self.spec_bytes_per_pixel() is None),
    {
        match self {
            Self::DXT1RGB
            | Self::DXT1RGBA
            | Self::DXT3RGBA
            | Self::DXT5RGBA
            | Self::R8RGTC
            | Self::RG8RGTC => true,
            Self::RGBA16
            | Self::RGBA16F
            | Self::RGB16
            | Self::RGBA8
            | Self::SRGBA8
            | Self::RGB8
            | Self::SRGB8
            | Self::BGRA8
            | Self::BGR8
            | Self::RG16
            | Self::R16
            | Self::D24S8
            | Self::D32F
            | Self::F32
            | Self::RG8
            | Self::D16
            | Self::F16
            | Self::R8
            | Self::R8UI
            | Self::RGB32F
            | Self::RGBA32F
            | Self::R11G11B10F
            | Self::RGB10A2 => false,
        }
    }

    /// The row alignment, in bytes, with which texel data of this format is
    /// unpacked; `None` for the block-compressed formats, which have no rows
    /// to align.
    #[verifier::when_used_as_spec(spec_unpack_alignment)]
    pub fn unpack_alignment(self) -> (alignment: Option<i32>)
        ensures
            alignment == self.spec_unpack_alignment(),
            alignment is None <==> self.spec_is_compressed(),
            alignment matches Some(a) ==> a == 1 || a == 2 || a == 4 || a == 8,
    {
        match self {
            Self::RGBA16 | Self::RGBA16F | Self::RGB16 | Self::RGBA32F | Self::RGB32F => Some(8),
            Self::RGBA8
            | Self::SRGBA8
            | Self::RGB8
            | Self::SRGB8
            | Self::BGRA8
            | Self::BGR8
            | Self::RG16
            | Self::R16
            | Self::D24S8
            | Self::D32F
            | Self::F32
            | Self::R11G11B10F
            | Self::RGB10A2 => Some(4),
            Self::RG8 | Self::D16 | Self::F16 => Some(2),
            Self::R8 | Self::R8UI => Some(1),
            Self::DXT1RGB
            | Self::DXT1RGBA
            | Self::DXT3RGBA
            | Self::DXT5RGBA
            | Self::R8RGTC
            | Self::RG8RGTC => None,
        }
    }

    /// The number of bytes that one texel takes; `None` for the
    /// block-compressed formats.
    pub fn bytes_per_pixel(self) -> (bytes: Option<usize>)
        ensures
            match bytes {
                Some(b) => self.spec_bytes_per_pixel() == Some(b as nat),
                None => self.spec_bytes_per_pixel() is None,
            },
    {
        match self {
            Self::RGBA32F => Some(16),
            Self::RGB32F => Some(12),
            Self::RGBA16 | Self::RGBA16F => Some(8),
            Self::RGB16 => Some(6),
            Self::RGBA8
            | Self::SRGBA8
            | Self::BGRA8
            | Self::RG16
            | Self::D24S8
            | Self::D32F
            | Self::F32
            | Self::R11G11B10F
            | Self::RGB10A2 => Some(4),
            Self::RGB8 | Self::SRGB8 | Self::BGR8 => Some(3),
            Self::RG8 | Self::R16 | Self::D16 | Self::F16 => Some(2),
            Self::R8 | Self::R8UI => Some(1),
            Self::DXT1RGB
            | Self::DXT1RGBA
            | Self::DXT3RGBA
            | Self::DXT5RGBA
            | Self::R8RGTC
            | Self::RG8RGTC => None,
        }
    }

    /// The number of bytes that one 4-wide block takes; `None` for the
    /// formats that store texels one by one.
    pub fn block_size(self) -> (bytes: Option<usize>)
        ensures
            match bytes {
                Some(b) => self.spec_block_size() == Some(b as nat),
                None => self.spec_block_size() is None,
            },
    {
        match self {
            Self::DXT1RGB | Self::DXT1RGBA | Self::R8RGTC => Some(8),
            Self::DXT3RGBA | Self::DXT5RGBA | Self::RG8RGTC => Some(16),
            _ => None,
        }
    }
}

/// Every format either stores texels one by one or in blocks, never both.
pub proof fn lemma_texel_or_block(kind: PixelKind)
    ensures
        kind.spec_bytes_per_pixel() is Some <==> kind.spec_block_size() is None,
        kind.spec_unpack_alignment() is Some <==> kind.spec_bytes_per_pixel() is Some,
{
}

} // verus!
