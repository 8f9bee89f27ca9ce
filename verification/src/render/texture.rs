//! Textures as the assets describe them: kind, pixel format, filters and
//! wrap modes.

use crate::render::error::FrameworkError;
use crate::render::pixel_kind::PixelKind;
use vstd::prelude::*;
use vstd::std_specs::convert::FromSpecImpl;

verus! {

/// The shape of a texture and its size in texels.
#[derive(Clone, Copy, Debug, PartialEq, Eq, Structural)]
pub enum TextureKind {
    /// 1D texture.
    Line { length: u32 },
    /// 2D texture.
    Rectangle { width: u32, height: u32 },
    /// Cube texture: six faces of the given size.
    Cube { width: u32, height: u32 },
    /// Volume texture (3D).
    Volume { width: u32, height: u32, depth: u32 },
}

impl Default for TextureKind {
    fn default() -> (kind: TextureKind)
        ensures
            kind == (TextureKind::Rectangle { width: 0, height: 0 }),
    {
        TextureKind::Rectangle { width: 0, height: 0 }
    }
}

/// Pixel format of a texture asset. Each format has a number by which it is
/// stored.
#[derive(Clone, Copy, Debug, PartialEq, Eq, Structural)]
pub enum TexturePixelKind {
    /// 1 byte red.
    R8,
    /// Red, green, and blue components, each by 1 byte.
    RGB8,
    /// Red, green, blue, and alpha components, each by 1 byte.
    RGBA8,
    /// Red and green, each by 1 byte.
    RG8,
    /// 2 byte red.
    R16,
    /// Red and green, each by 2 byte.
    RG16,
    /// Blue, green, and red components, each by 1 byte.
    BGR8,
    /// Blue, green, red and alpha components, each by 1 byte.
    BGRA8,
    /// Red, green, and blue components, each by 2 byte.
    RGB16,
    /// Red, green, blue, and alpha components, each by 2 byte.
    RGBA16,
    /// Compressed S3TC DXT1 RGB (no alpha).
    DXT1RGB,
    /// Compressed S3TC DXT1 RGBA.
    DXT1RGBA,
    /// Compressed S3TC DXT3 RGBA.
    DXT3RGBA,
    /// Compressed S3TC DXT5 RGBA.
    DXT5RGBA,
    /// Compressed R8 texture (RGTC).
    R8RGTC,
    /// Compressed RG8 texture (RGTC).
    RG8RGTC,
    /// Floating-point RGB texture with 32bit depth.
    RGB32F,
    /// Floating-point RGBA texture with 32bit depth.
    RGBA32F,
}

impl TexturePixelKind {
    /// The number of the format.
    pub open spec fn spec_id(self) -> u32 {
        match self {
            TexturePixelKind::R8 => 0,
            TexturePixelKind::RGB8 => 1,
            TexturePixelKind::RGBA8 => 2,
            TexturePixelKind::RG8 => 3,
            TexturePixelKind::R16 => 4,
            TexturePixelKind::RG16 => 5,
            TexturePixelKind::BGR8 => 6,
            TexturePixelKind::BGRA8 => 7,
            TexturePixelKind::RGB16 => 8,
            TexturePixelKind::RGBA16 => 9,
            TexturePixelKind::DXT1RGB => 10,
            TexturePixelKind::DXT1RGBA => 11,
            TexturePixelKind::DXT3RGBA => 12,
            TexturePixelKind::DXT5RGBA => 13,
            TexturePixelKind::R8RGTC => 14,
            TexturePixelKind::RG8RGTC => 15,
            TexturePixelKind::RGB32F => 16,
            TexturePixelKind::RGBA32F => 17,
        }
    }

    /// The format with the number `id`. The numbers 0 to 17 name a format;
    /// every other number is refused.
    pub fn new(id: u32) -> (kind: Result<TexturePixelKind, FrameworkError>)
        ensures
            match kind {
                Ok(k) => id <= 17 && k.spec_id() == id,
                Err(e) => id > 17 && e == (FrameworkError::InvalidTextureKind { id }),
            },
    {
        match id {
            0 => Ok(Self::R8),
            1 => Ok(Self::RGB8),
            2 => Ok(Self::RGBA8),
            3 => Ok(Self::RG8),
            4 => Ok(Self::R16),
            5 => Ok(Self::RG16),
            6 => Ok(Self::BGR8),
            7 => Ok(Self::BGRA8),
            8 => Ok(Self::RGB16),
            9 => Ok(Self::RGBA16),
            10 => Ok(Self::DXT1RGB),
            11 => Ok(Self::DXT1RGBA),
            12 => Ok(Self::DXT3RGBA),
            13 => Ok(Self::DXT5RGBA),
            14 => Ok(Self::R8RGTC),
            15 => Ok(Self::RG8RGTC),
            16 => Ok(Self::RGB32F),
            17 => Ok(Self::RGBA32F),
            _ => Err(FrameworkError::InvalidTextureKind { id }),
        }
    }

    /// The number of the format.
    #[verifier::when_used_as_spec(spec_id)]
    pub fn id(self) -> (id: u32)
        ensures
            id == self.spec_id(),
            id <= 17,
    {
        match self {
            Self::R8 => 0,
            Self::RGB8 => 1,
            Self::RGBA8 => 2,
            Self::RG8 => 3,
            Self::R16 => 4,
            Self::RG16 => 5,
            Self::BGR8 => 6,
            Self::BGRA8 => 7,
            Self::RGB16 => 8,
            Self::RGBA16 => 9,
            Self::DXT1RGB => 10,
            Self::DXT1RGBA => 11,
            Self::DXT3RGBA => 12,
            Self::DXT5RGBA => 13,
            Self::R8RGTC => 14,
            Self::RG8RGTC => 15,
            Self::RGB32F => 16,
            Self::RGBA32F => 17,
        }
    }

    /// The GPU pixel format in which texel data of this format is uploaded.
    pub open spec fn spec_pixel_kind(self) -> PixelKind {
        match self {
            TexturePixelKind::R8 => PixelKind::R8,
            TexturePixelKind::RGB8 => PixelKind::RGB8,
            TexturePixelKind::RGBA8 => PixelKind::RGBA8,
            TexturePixelKind::RG8 => PixelKind::RG8,
            TexturePixelKind::R16 => PixelKind::R16,
            TexturePixelKind::RG16 => PixelKind::RG16,
            TexturePixelKind::BGR8 => PixelKind::BGR8,
            TexturePixelKind::BGRA8 => PixelKind::BGRA8,
            TexturePixelKind::RGB16 => PixelKind::RGB16,
            TexturePixelKind::RGBA16 => PixelKind::RGBA16,
            TexturePixelKind::DXT1RGB => PixelKind::DXT1RGB,
            TexturePixelKind::DXT1RGBA => PixelKind::DXT1RGBA,
            TexturePixelKind::DXT3RGBA => PixelKind::DXT3RGBA,
            TexturePixelKind::DXT5RGBA => PixelKind::DXT5RGBA,
            TexturePixelKind::R8RGTC => PixelKind::R8RGTC,
            TexturePixelKind::RG8RGTC => PixelKind::RG8RGTC,
            TexturePixelKind::RGB32F => PixelKind::RGB32F,
            TexturePixelKind::RGBA32F => PixelKind::RGBA32F,
        }
    }
}

impl From<TexturePixelKind> for PixelKind {
    fn from(texture_kind: TexturePixelKind) -> (kind: PixelKind) {
        match texture_kind {
            TexturePixelKind::R8 => Self::R8,
            TexturePixelKind::RGB8 => Self::RGB8,
            TexturePixelKind::RGBA8 => Self::RGBA8,
            TexturePixelKind::RG8 => Self::RG8,
            TexturePixelKind::R16 => Self::R16,
            TexturePixelKind::RG16 => Self::RG16,
            TexturePixelKind::BGR8 => Self::BGR8,
            TexturePixelKind::BGRA8 => Self::BGRA8,
            TexturePixelKind::RGB16 => Self::RGB16,
            TexturePixelKind::RGBA16 => Self::RGBA16,
            TexturePixelKind::DXT1RGB => Self::DXT1RGB,
            TexturePixelKind::DXT1RGBA => Self::DXT1RGBA,
            TexturePixelKind::DXT3RGBA => Self::DXT3RGBA,
            TexturePixelKind::DXT5RGBA => Self::DXT5RGBA,
            TexturePixelKind::R8RGTC => Self::R8RGTC,
            TexturePixelKind::RG8RGTC => Self::RG8RGTC,
            TexturePixelKind::RGB32F => Self::RGB32F,
            TexturePixelKind::RGBA32F => Self::RGBA32F,
        }
    }
}

impl FromSpecImpl<TexturePixelKind> for PixelKind {
    open spec fn obeys_from_spec() -> bool {
        true
    }

    open spec fn from_spec(texture_kind: TexturePixelKind) -> PixelKind {
        texture_kind.spec_pixel_kind()
    }
}

/// The number of a format names that format again; no two formats share a
/// number.
pub proof fn lemma_pixel_kind_id_round_trip(a: TexturePixelKind, b: TexturePixelKind)
    ensures
        a.spec_id() <= 17,
        a.spec_id() == b.spec_id() ==> a == b,
{
}

/// A texture format is block-compressed exactly if its number lies between
/// 10 and 15.
pub proof fn lemma_compressed_texture_formats(kind: TexturePixelKind)
    ensures
        kind.spec_pixel_kind().spec_is_compressed() <==> 10 <= kind.spec_id() <= 15,
{
}

/// How a texture is sampled when a pixel covers more than one texel.
#[derive(Clone, Copy, Debug, PartialEq, Eq, Structural, Hash)]
pub enum TextureMinificationFilter {
    /// The texel nearest to the centre of the pixel.
    Nearest,
    /// The nearest texel of the mipmap that fits the pixel best.
    NearestMipMapNearest,
    /// The nearest texels of the two mipmaps that fit best, averaged.
    NearestMipMapLinear,
    /// The weighted average of the four texels around the centre.
    Linear,
    /// The weighted average within the mipmap that fits the pixel best.
    LinearMipMapNearest,
    /// The weighted averages within the two mipmaps that fit best, averaged.
    LinearMipMapLinear,
}

impl TextureMinificationFilter {
    /// Whether the filter reads mipmaps.
    pub open spec fn spec_is_using_mip_mapping(self) -> bool {
        !(self is Nearest || self is Linear)
    }

    /// Whether the filter reads mipmaps.
    #[verifier::when_used_as_spec(spec_is_using_mip_mapping)]
    pub fn is_using_mip_mapping(self) -> (mip_mapping: bool)
        ensures
            mip_mapping == self.spec_is_using_mip_mapping(),
    {
        match self {
            TextureMinificationFilter::Nearest | TextureMinificationFilter::Linear => false,
            TextureMinificationFilter::NearestMipMapNearest
            | TextureMinificationFilter::LinearMipMapLinear
            | TextureMinificationFilter::NearestMipMapLinear
            | TextureMinificationFilter::LinearMipMapNearest => true,
        }
    }
}

/// How a texture is sampled when a texel covers more than one pixel.
#[derive(Clone, Copy, Debug, PartialEq, Eq, Structural, Hash)]
pub enum TextureMagnificationFilter {
    /// The texel nearest to the centre of the pixel.
    Nearest,
    /// The weighted average of the four texels around the centre.
    Linear,
}

impl Default for TextureMagnificationFilter {
    fn default() -> (filter: TextureMagnificationFilter)
        ensures
            filter == TextureMagnificationFilter::Linear,
    {
        Self::Linear
    }
}

/// What becomes of a texture coordinate outside the texture.
#[derive(Clone, Copy, Debug, PartialEq, Eq, Structural, Hash)]
pub enum TextureWrapMode {
    /// Only the fractional part counts: the texture repeats.
    Repeat,
    /// The coordinate is clamped to the edge of the texture.
    ClampToEdge,
    /// Outside the texture the border colour is used.
    ClampToBorder,
    /// The texture repeats, mirrored at every other repetition.
    MirroredRepeat,
    /// The texture is mirrored once, then clamped to the edge.
    MirrorClampToEdge,
}

impl Default for TextureWrapMode {
    fn default() -> (mode: TextureWrapMode)
        ensures
            mode == TextureWrapMode::Repeat,
    {
        Self::Repeat
    }
}

} // verus!
