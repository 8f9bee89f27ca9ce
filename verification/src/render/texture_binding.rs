//! The layout of the texel data of a texture: how many bytes an image of a
//! given size takes, and where each mip level starts.

use crate::render::error::FrameworkError;
use crate::render::gpu_texture::GpuTextureKind;
use crate::render::pixel_kind::PixelKind;
use vstd::prelude::*;

verus! {

/// The number of 4-wide blocks that cover `x` texels.
pub open spec fn spec_ceil_div_4(x: nat) -> nat {
    (x + 3) / 4
}

/// The number of bytes of an image of `width` by `height` by `depth` texels:
/// texels times bytes per texel, or, for a block-compressed format, blocks
/// times bytes per block, where every side is covered by whole blocks.
pub open spec fn spec_image_3d_size_bytes(
    pixel_kind: PixelKind,
    width: nat,
    height: nat,
    depth: nat,
) -> nat {
    match pixel_kind.spec_bytes_per_pixel() {
        Some(bytes) => bytes * (width * height * depth),
        None => spec_ceil_div_4(width) * spec_ceil_div_4(height) * spec_ceil_div_4(depth)
            * pixel_kind.spec_block_size()->0,
    }
}

/// The number of bytes of an image of `width` by `height` texels.
pub open spec fn spec_image_2d_size_bytes(pixel_kind: PixelKind, width: nat, height: nat) -> nat {
    match pixel_kind.spec_bytes_per_pixel() {
        Some(bytes) => bytes * (width * height),
        None => spec_ceil_div_4(width) * spec_ceil_div_4(height)
            * pixel_kind.spec_block_size()->0,
    }
}

/// The number of bytes of a row of `length` texels.
pub open spec fn spec_image_1d_size_bytes(pixel_kind: PixelKind, length: nat) -> nat {
    match pixel_kind.spec_bytes_per_pixel() {
        Some(bytes) => bytes * length,
        None => spec_ceil_div_4(length) * pixel_kind.spec_block_size()->0,
    }
}

/// A row is an image of height one, and an image is a volume of depth one.
pub proof fn lemma_image_sizes_agree(pixel_kind: PixelKind, width: nat, height: nat)
    ensures
        spec_image_1d_size_bytes(pixel_kind, width) == spec_image_2d_size_bytes(
            pixel_kind,
            width,
            1,
        ),
        spec_image_2d_size_bytes(pixel_kind, width, height) == spec_image_3d_size_bytes(
            pixel_kind,
            width,
            height,
            1,
        ),
{
    assert(spec_ceil_div_4(1) == 1);
    assert(width * 1 == width) by (nonlinear_arith);
    assert(width * height * 1 == width * height) by (nonlinear_arith);
    assert(spec_ceil_div_4(width) * 1 == spec_ceil_div_4(width)) by (nonlinear_arith);
    assert(spec_ceil_div_4(width) * spec_ceil_div_4(height) * 1 == spec_ceil_div_4(width)
        * spec_ceil_div_4(height)) by (nonlinear_arith);
}

/// The number of 4-wide blocks that cover `x` texels.
pub fn ceil_div_4(x: usize) -> (blocks: usize)
    ensures
        blocks == spec_ceil_div_4(x as nat),
{
    if x % 4 == 0 {
        x / 4
    } else {
        x / 4 + 1
    }
}

/// The product of four factors, where it fits the machine word.
fn checked_product(a: usize, b: usize, c: usize, d: usize) -> (product: Option<usize>)
    ensures
        match product {
            Some(p) => p == a * b * c * d,
            None => a * b * c * d > usize::MAX,
        },
{
    if a == 0 || b == 0 || c == 0 || d == 0 {
        assert(a * b * c * d == 0) by (nonlinear_arith)
            requires
                a == 0 || b == 0 || c == 0 || d == 0,
        ;
        return Some(0);
    }
    let ab = match a.checked_mul(b) {
        Some(ab) => ab,
        None => {
            assert(a * b * c * d >= a * b) by (nonlinear_arith)
                requires
                    a >= 1,
                    b >= 1,
                    c >= 1,
                    d >= 1,
            ;
            return None;
        },
    };
    let abc = match ab.checked_mul(c) {
        Some(abc) => abc,
        None => {
            assert(a * b * c * d >= a * b * c) by (nonlinear_arith)
                requires
                    a >= 1,
                    b >= 1,
                    c >= 1,
                    d >= 1,
            ;
            return None;
        },
    };
    abc.checked_mul(d)
}

/// The number of bytes of an image of `width` by `height` by `depth` texels;
/// `None` when that number does not fit the machine word.
pub fn checked_image_size_bytes(
    pixel_kind: PixelKind,
    width: usize,
    height: usize,
    depth: usize,
) -> (size: Option<usize>)
    ensures
        match size {
            Some(s) => s == spec_image_3d_size_bytes(
                pixel_kind,
                width as nat,
                height as nat,
                depth as nat,
            ),
            None => spec_image_3d_size_bytes(
                pixel_kind,
                width as nat,
                height as nat,
                depth as nat,
            ) > usize::MAX,
        },
{
    match pixel_kind.bytes_per_pixel() {
        Some(bytes) => {
            assert(bytes * (width * height * depth) == width * height * depth * bytes)
                by (nonlinear_arith);
            checked_product(width, height, depth, bytes)
        },
        None => {
            let block = match pixel_kind.block_size() {
                Some(block) => block,
                None => 0,
            };
            checked_product(ceil_div_4(width), ceil_div_4(height), ceil_div_4(depth), block)
        },
    }
}

/// The number of bytes of a row of `length` texels.
pub fn image_1d_size_bytes(pixel_kind: PixelKind, length: usize) -> (size: usize)
    requires
        spec_image_1d_size_bytes(pixel_kind, length as nat) <= usize::MAX,
    ensures
        size == spec_image_1d_size_bytes(pixel_kind, length as nat),
{
    proof {
        lemma_image_sizes_agree(pixel_kind, length as nat, 1);
    }
    match checked_image_size_bytes(pixel_kind, length, 1, 1) {
        Some(size) => size,
        None => 0,
    }
}

/// The number of bytes of an image of `width` by `height` texels.
pub fn image_2d_size_bytes(pixel_kind: PixelKind, width: usize, height: usize) -> (size: usize)
    requires
        spec_image_2d_size_bytes(pixel_kind, width as nat, height as nat) <= usize::MAX,
    ensures
        size == spec_image_2d_size_bytes(pixel_kind, width as nat, height as nat),
{
    proof {
        lemma_image_sizes_agree(pixel_kind, width as nat, height as nat);
    }
    match checked_image_size_bytes(pixel_kind, width, height, 1) {
        Some(size) => size,
        None => 0,
    }
}

/// The number of bytes of a volume of `width` by `height` by `depth` texels.
pub fn image_3d_size_bytes(pixel_kind: PixelKind, width: usize, height: usize, depth: usize) -> (size:
    usize)
    requires
        spec_image_3d_size_bytes(pixel_kind, width as nat, height as nat, depth as nat)
            <= usize::MAX,
    ensures
        size == spec_image_3d_size_bytes(pixel_kind, width as nat, height as nat, depth as nat),
{
    match checked_image_size_bytes(pixel_kind, width, height, depth) {
        Some(size) => size,
        None => 0,
    }
}

/// `x` halved `mip` times, rounding down each time: the side of mip level
/// `mip` of a texture whose largest level has the side `x`.
pub open spec fn spec_mip_side(x: nat, mip: nat) -> nat
    decreases mip,
{
    if mip == 0 {
        x
    } else {
        spec_mip_side(x, (mip - 1) as nat) / 2
    }
}

/// The size in texels of one image of a mip level.
pub struct MipExtent {
    pub width: usize,
    pub height: usize,
    pub depth: usize,
}

/// The size of the images of mip level `mip`. The sides that the kind names
/// are halved from level to level; the others are one.
pub open spec fn spec_mip_extent(kind: GpuTextureKind, mip: nat) -> (nat, nat, nat) {
    match kind {
        GpuTextureKind::Line { length } => (spec_mip_side(length as nat, mip), 1, 1),
        GpuTextureKind::Rectangle { width, height } => (
            spec_mip_side(width as nat, mip),
            spec_mip_side(height as nat, mip),
            1,
        ),
        GpuTextureKind::Cube { width, height } => (
            spec_mip_side(width as nat, mip),
            spec_mip_side(height as nat, mip),
            1,
        ),
        GpuTextureKind::Volume { width, height, depth } => (
            spec_mip_side(width as nat, mip),
            spec_mip_side(height as nat, mip),
            spec_mip_side(depth as nat, mip),
        ),
    }
}

/// The number of bytes of mip level `mip`: the bytes of one of its images
/// times the number of images that a level holds.
pub open spec fn spec_mip_level_size_bytes(
    kind: GpuTextureKind,
    pixel_kind: PixelKind,
    mip: nat,
) -> nat {
    let (width, height, depth) = spec_mip_extent(kind, mip);
    kind.spec_faces() * spec_image_3d_size_bytes(pixel_kind, width, height, depth)
}

/// The number of mip levels that texel data is laid out for, when
/// `mip_count` levels are asked for: at least one, and no more than a side
/// has bits, since every side has shrunk to nothing by then.
pub open spec fn spec_mip_levels(mip_count: usize) -> nat {
    if mip_count == 0 {
        1
    } else if mip_count > usize::BITS {
        usize::BITS as nat
    } else {
        mip_count as nat
    }
}

/// The number of bytes of the first `levels` mip levels together: where
/// level `levels` starts in the texel data.
pub open spec fn spec_mip_offset(kind: GpuTextureKind, pixel_kind: PixelKind, levels: nat) -> nat
    decreases levels,
{
    if levels == 0 {
        0
    } else {
        spec_mip_offset(kind, pixel_kind, (levels - 1) as nat) + spec_mip_level_size_bytes(
            kind,
            pixel_kind,
            (levels - 1) as nat,
        )
    }
}

/// The number of bytes of texel data that a texture of the given kind, pixel
/// format and mip count takes.
pub open spec fn spec_texture_data_size(
    kind: GpuTextureKind,
    pixel_kind: PixelKind,
    mip_count: usize,
) -> nat {
    spec_mip_offset(kind, pixel_kind, spec_mip_levels(mip_count))
}

/// Where the levels start never decreases from level to level.
pub proof fn lemma_mip_offset_monotonic(
    kind: GpuTextureKind,
    pixel_kind: PixelKind,
    a: nat,
    b: nat,
)
    requires
        a <= b,
    ensures
        spec_mip_offset(kind, pixel_kind, a) <= spec_mip_offset(kind, pixel_kind, b),
    decreases b,
{
    if a < b {
        lemma_mip_offset_monotonic(kind, pixel_kind, a, (b - 1) as nat);
    }
}

/// Where one mip level lies in the texel data of a texture.
#[derive(Clone, Copy, Debug, PartialEq, Eq, Structural)]
pub struct MipLevel {
    /// Width of the level's images, in texels.
    pub width: usize,
    /// Height of the level's images, in texels.
    pub height: usize,
    /// Depth of the level's images, in texels.
    pub depth: usize,
    /// The byte at which the level starts.
    pub offset: usize,
    /// The number of bytes of one image of the level.
    pub image_size: usize,
    /// The number of bytes of the level: `image_size` for each of its
    /// images.
    pub size: usize,
}

/// Whether `level` describes mip level `mip` of a texture of the given kind
/// and pixel format.
pub open spec fn is_mip_level(
    level: MipLevel,
    kind: GpuTextureKind,
    pixel_kind: PixelKind,
    mip: nat,
) -> bool {
    let (width, height, depth) = spec_mip_extent(kind, mip);
    &&& level.width == width
    &&& level.height == height
    &&& level.depth == depth
    &&& level.offset == spec_mip_offset(kind, pixel_kind, mip)
    &&& level.image_size == spec_image_3d_size_bytes(pixel_kind, width, height, depth)
    &&& level.size == spec_mip_level_size_bytes(kind, pixel_kind, mip)
}

/// The size of the largest mip level.
fn base_extent(kind: GpuTextureKind) -> (extent: MipExtent)
    ensures
        (extent.width as nat, extent.height as nat, extent.depth as nat) == spec_mip_extent(
            kind,
            0,
        ),
{
    match kind {
        GpuTextureKind::Line { length } => MipExtent { width: length, height: 1, depth: 1 },
        GpuTextureKind::Rectangle { width, height } => MipExtent { width, height, depth: 1 },
        GpuTextureKind::Cube { width, height } => MipExtent { width, height, depth: 1 },
        GpuTextureKind::Volume { width, height, depth } => MipExtent { width, height, depth },
    }
}

/// The size of the mip level after the one of size `extent`.
fn next_extent(kind: GpuTextureKind, extent: MipExtent, Ghost(mip): Ghost<nat>) -> (next:
    MipExtent)
    requires
        (extent.width as nat, extent.height as nat, extent.depth as nat) == spec_mip_extent(
            kind,
            mip,
        ),
    ensures
        (next.width as nat, next.height as nat, next.depth as nat) == spec_mip_extent(
            kind,
            mip + 1,
        ),
{
    match kind {
        GpuTextureKind::Line { .. } => MipExtent {
            width: extent.width / 2,
            height: 1,
            depth: 1,
        },
        GpuTextureKind::Rectangle { .. } => MipExtent {
            width: extent.width / 2,
            height: extent.height / 2,
            depth: 1,
        },
        GpuTextureKind::Cube { .. } => MipExtent {
            width: extent.width / 2,
            height: extent.height / 2,
            depth: 1,
        },
        GpuTextureKind::Volume { .. } => MipExtent {
            width: extent.width / 2,
            height: extent.height / 2,
            depth: extent.depth / 2,
        },
    }
}

/// The number of mip levels that texel data is laid out for.
pub fn mip_levels(mip_count: usize) -> (levels: usize)
    ensures
        levels == spec_mip_levels(mip_count),
        1 <= levels <= usize::BITS,
{
    if mip_count == 0 {
        1
    } else if mip_count > usize::BITS as usize {
        usize::BITS as usize
    } else {
        mip_count
    }
}

/// Lays out the texel data of a texture: one entry per mip level, largest
/// level first, each with the size of its images and the byte at which it
/// starts. `None` when the data would not fit the machine word.
pub fn mip_chain_layout(kind: GpuTextureKind, pixel_kind: PixelKind, mip_count: usize) -> (layout:
    Option<Vec<MipLevel>>)
    ensures
        match layout {
            Some(levels) => {
                &&& spec_texture_data_size(kind, pixel_kind, mip_count) <= usize::MAX
                &&& levels.len() == spec_mip_levels(mip_count)
                &&& forall|mip: int|
                    0 <= mip < levels.len() ==> is_mip_level(
                        #[trigger] levels[mip],
                        kind,
                        pixel_kind,
                        mip as nat,
                    )
            },
            None => spec_texture_data_size(kind, pixel_kind, mip_count) > usize::MAX,
        },
{
    let count = mip_levels(mip_count);
    let faces = kind.faces();
    let mut levels: Vec<MipLevel> = Vec::new();
    let mut extent = base_extent(kind);
    let mut offset: usize = 0;
    let mut mip: usize = 0;
    while mip < count
        invariant
            mip <= count,
            count == spec_mip_levels(mip_count),
            faces == kind.spec_faces(),
            levels.len() == mip,
            (extent.width as nat, extent.height as nat, extent.depth as nat) == spec_mip_extent(
                kind,
                mip as nat,
            ),
            offset == spec_mip_offset(kind, pixel_kind, mip as nat),
            forall|m: int|
                0 <= m < levels.len() ==> is_mip_level(
                    #[trigger] levels[m],
                    kind,
                    pixel_kind,
                    m as nat,
                ),
        decreases count - mip,
    {
        proof {
            lemma_mip_offset_monotonic(
                kind,
                pixel_kind,
                (mip + 1) as nat,
                spec_mip_levels(mip_count),
            );
        }
        let ghost image = spec_image_3d_size_bytes(
            pixel_kind,
            extent.width as nat,
            extent.height as nat,
            extent.depth as nat,
        );
        let image_size = match checked_image_size_bytes(
            pixel_kind,
            extent.width,
            extent.height,
            extent.depth,
        ) {
            Some(image_size) => image_size,
            None => {
                assert(faces * image >= image) by (nonlinear_arith)
                    requires
                        faces >= 1,
                        image >= 0,
                ;
                return None;
            },
        };
        let size = match faces.checked_mul(image_size) {
            Some(size) => size,
            None => {
                return None;
            },
        };
        let end = match offset.checked_add(size) {
            Some(end) => end,
            None => {
                return None;
            },
        };
        levels.push(
            MipLevel {
                width: extent.width,
                height: extent.height,
                depth: extent.depth,
                offset,
                image_size,
                size,
            },
        );
        extent = next_extent(kind, extent, Ghost(mip as nat));
        offset = end;
        mip += 1;
    }
    Some(levels)
}

/// The number of bytes of texel data that a texture of the given kind, pixel
/// format and mip count takes; `None` when that number does not fit the
/// machine word.
pub fn texture_data_size(kind: GpuTextureKind, pixel_kind: PixelKind, mip_count: usize) -> (size:
    Option<usize>)
    ensures
        match size {
            Some(s) => s == spec_texture_data_size(kind, pixel_kind, mip_count),
            None => spec_texture_data_size(kind, pixel_kind, mip_count) > usize::MAX,
        },
{
    match mip_chain_layout(kind, pixel_kind, mip_count) {
        Some(levels) => {
            let last = levels[levels.len() - 1];
            assert(is_mip_level(last, kind, pixel_kind, (levels.len() - 1) as nat));
            Some(last.offset + last.size)
        },
        None => None,
    }
}

/// Checks texel data of `data_len` bytes against the texture that it is
/// meant for, and returns the layout of the mip levels in it.
///
/// A texture can be made without data (`data_len` is `None`) unless its
/// format is block-compressed. Data that is given has exactly the size that
/// kind, pixel format and mip count ask for.
pub fn check_texture_data(
    kind: GpuTextureKind,
    pixel_kind: PixelKind,
    mip_count: usize,
    data_len: Option<usize>,
) -> (checked: Result<Vec<MipLevel>, FrameworkError>)
    ensures
        match checked {
            Ok(levels) => {
                &&& spec_texture_data_size(kind, pixel_kind, mip_count) <= usize::MAX
                &&& data_len is Some ==> data_len->0 == spec_texture_data_size(
                    kind,
                    pixel_kind,
                    mip_count,
                )
                &&& data_len is None ==> !pixel_kind.spec_is_compressed()
                &&& levels.len() == spec_mip_levels(mip_count)
                &&& forall|mip: int|
                    0 <= mip < levels.len() ==> is_mip_level(
                        #[trigger] levels[mip],
                        kind,
                        pixel_kind,
                        mip as nat,
                    )
            },
            Err(e) => {
                if spec_texture_data_size(kind, pixel_kind, mip_count) > usize::MAX {
                    e == FrameworkError::TextureDataTooLarge
                } else if data_len is Some && data_len->0 != spec_texture_data_size(
                    kind,
                    pixel_kind,
                    mip_count,
                ) {
                    e == (FrameworkError::InvalidTextureData {
                        expected_data_size: spec_texture_data_size(
                            kind,
                            pixel_kind,
                            mip_count,
                        ) as usize,
                        actual_data_size: data_len->0,
                    })
                } else {
                    &&& data_len is None
                    &&& pixel_kind.spec_is_compressed()
                    &&& e == FrameworkError::EmptyTextureData
                }
            },
        },
{
    let levels = match mip_chain_layout(kind, pixel_kind, mip_count) {
        Some(levels) => levels,
        None => {
            return Err(FrameworkError::TextureDataTooLarge);
        },
    };
    let last = levels[levels.len() - 1];
    assert(is_mip_level(last, kind, pixel_kind, (levels.len() - 1) as nat));
    let expected = last.offset + last.size;
    match data_len {
        Some(actual) => {
            if actual != expected {
                return Err(
                    FrameworkError::InvalidTextureData {
                        expected_data_size: expected,
                        actual_data_size: actual,
                    },
                );
            }
        },
        None => {
            if pixel_kind.is_compressed() {
                return Err(FrameworkError::EmptyTextureData);
            }
        },
    }
    Ok(levels)
}

} // verus!
