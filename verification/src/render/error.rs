//! The ways in which the rendering layer refuses its input.

use vstd::prelude::*;

verus! {

/// Why an operation of the rendering layer did not take place.
#[derive(Clone, Copy, Debug, PartialEq, Eq, Structural)]
pub enum FrameworkError {
    /// The texel data does not have the size that the texture's kind, pixel
    /// format and mip count ask for.
    InvalidTextureData { expected_data_size: usize, actual_data_size: usize },
    /// A block-compressed texture was given no texel data.
    EmptyTextureData,
    /// The texel data that the texture asks for is larger than any buffer.
    TextureDataTooLarge,
    /// The attributes of a vertex buffer take more room than one of its
    /// elements has.
    InvalidAttributeDescriptor,
    /// A draw call names elements that the buffer does not hold.
    InvalidElementRange { start: usize, end: usize, total: usize },
    /// The pixel-format number does not name a format.
    InvalidTextureKind { id: u32 },
}

} // verus!
