//! The parts of the pipeline state that are plain values.

use vstd::prelude::*;

verus! {

/// Which colour channels a draw call writes.
#[derive(Clone, Copy, Debug, PartialEq, Eq, Structural, Hash)]
pub struct ColorMask {
    pub red: bool,
    pub green: bool,
    pub blue: bool,
    pub alpha: bool,
}

impl Default for ColorMask {
    fn default() -> (mask: ColorMask)
        ensures
            mask == (ColorMask { red: true, green: true, blue: true, alpha: true }),
    {
        ColorMask { red: true, green: true, blue: true, alpha: true }
    }
}

impl ColorMask {
    /// The mask that treats every channel as `value` says.
    pub fn all(value: bool) -> (mask: ColorMask)
        ensures
            mask == (ColorMask { red: value, green: value, blue: value, alpha: value }),
    {
        ColorMask { red: value, green: value, blue: value, alpha: value }
    }
}

/// When a fragment passes a depth or stencil test.
#[derive(Clone, Copy, Debug, PartialEq, Eq, Structural, Hash)]
pub enum CompareFunc {
    /// Never passes.
    Never,
    /// Passes if the incoming value is less than the stored value.
    Less,
    /// Passes if the incoming value is equal to the stored value.
    Equal,
    /// Passes if the incoming value is less than or equal to the stored value.
    LessOrEqual,
    /// Passes if the incoming value is greater than the stored value.
    Greater,
    /// Passes if the incoming value is not equal to the stored value.
    NotEqual,
    /// Passes if the incoming value is greater than or equal to the stored
    /// value.
    GreaterOrEqual,
    /// Always passes.
    Always,
}

impl Default for CompareFunc {
    fn default() -> (func: CompareFunc)
        ensures
            func == CompareFunc::LessOrEqual,
    {
        Self::LessOrEqual
    }
}

/// Which faces are culled.
#[derive(Clone, Copy, Debug, PartialEq, Eq, Structural, Hash)]
pub enum CullFace {
    Back,
    Front,
}

impl Default for CullFace {
    fn default() -> (face: CullFace)
        ensures
            face == CullFace::Back,
    {
        Self::Back
    }
}

/// A factor of the blend equation.
#[derive(Clone, Copy, Debug, PartialEq, Eq, Structural, Hash)]
pub enum BlendFactor {
    Zero,
    One,
    SrcColor,
    OneMinusSrcColor,
    DstColor,
    OneMinusDstColor,
    SrcAlpha,
    OneMinusSrcAlpha,
    DstAlpha,
    OneMinusDstAlpha,
    ConstantColor,
    OneMinusConstantColor,
    ConstantAlpha,
    OneMinusConstantAlpha,
    SrcAlphaSaturate,
    Src1Color,
    OneMinusSrc1Color,
    Src1Alpha,
    OneMinusSrc1Alpha,
}

impl Default for BlendFactor {
    fn default() -> (factor: BlendFactor)
        ensures
            factor == BlendFactor::Zero,
    {
        Self::Zero
    }
}

/// The factors by which the source and the destination colour are blended.
#[derive(Clone, Copy, Debug, PartialEq, Eq, Structural, Hash)]
pub struct BlendFunc {
    pub sfactor: BlendFactor,
    pub dfactor: BlendFactor,
}

impl Default for BlendFunc {
    fn default() -> (func: BlendFunc)
        ensures
            func == (BlendFunc { sfactor: BlendFactor::One, dfactor: BlendFactor::Zero }),
    {
        Self { sfactor: BlendFactor::One, dfactor: BlendFactor::Zero }
    }
}

} // verus!
