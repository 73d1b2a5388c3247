//! Render pipelines: blend state, primitive topology, and the
//! color-write mask flag set.

use vstd::prelude::*;

use crate::misc::NSUInteger;

verus! {

/// A single color-channel write-enable bit.
#[derive(Clone, Copy, PartialEq, Eq, Structural, Debug)]
pub enum MTLColorWriteMask {
    Red,
    Green,
    Blue,
    Alpha,
}

impl MTLColorWriteMask {
    /// The wire integer the foreign framework assigns to this variant.
    pub open spec fn wire_spec(self) -> u64 {
        match self {
            MTLColorWriteMask::Red => 8,
            MTLColorWriteMask::Green => 4,
            MTLColorWriteMask::Blue => 2,
            MTLColorWriteMask::Alpha => 1,
        }
    }

    /// The variant a wire integer stands for, if any.
    pub open spec fn from_wire_spec(w: u64) -> Option<MTLColorWriteMask> {
        if w == 8 {
            Some(MTLColorWriteMask::Red)
        } else if w == 4 {
            Some(MTLColorWriteMask::Green)
        } else if w == 2 {
            Some(MTLColorWriteMask::Blue)
        } else if w == 1 {
            Some(MTLColorWriteMask::Alpha)
        } else {
            None
        }
    }

    /// This variant's wire integer.
    pub fn to_wire(self) -> (w: u64)
        ensures
            w == self.wire_spec(),
    {
        match self {
            MTLColorWriteMask::Red => 8,
            MTLColorWriteMask::Green => 4,
            MTLColorWriteMask::Blue => 2,
            MTLColorWriteMask::Alpha => 1,
        }
    }

    /// The variant a wire integer stands for, if any.
    pub fn from_wire(w: u64) -> (r: Option<MTLColorWriteMask>)
        ensures
            r == Self::from_wire_spec(w),
    {
        if w == 8 {
            Some(MTLColorWriteMask::Red)
        } else if w == 4 {
            Some(MTLColorWriteMask::Green)
        } else if w == 2 {
            Some(MTLColorWriteMask::Blue)
        } else if w == 1 {
            Some(MTLColorWriteMask::Alpha)
        } else {
            None
        }
    }

    /// Converting a variant to its wire integer and back yields the
    /// original variant.
    pub proof fn lemma_wire_round_trip(self)
        ensures
            Self::from_wire_spec(self.wire_spec()) == Some(self),
    {
    }

    /// A wire integer that decodes to a variant is exactly that
    /// variant's wire integer.
    pub proof fn lemma_wire_inverse(w: u64)
        ensures
            Self::from_wire_spec(w) matches Some(v) ==> v.wire_spec() == w,
    {
    }
}

/// How source and destination values are combined when blending.
#[derive(Clone, Copy, PartialEq, Eq, Structural, Debug)]
pub enum MTLBlendOperation {
    Add,
    Subtract,
    ReverseSubtract,
    Min,
    Max,
}

impl MTLBlendOperation {
    /// The wire integer the foreign framework assigns to this variant.
    pub open spec fn wire_spec(self) -> u64 {
        match self {
            MTLBlendOperation::Add => 0,
            MTLBlendOperation::Subtract => 1,
            MTLBlendOperation::ReverseSubtract => 2,
            MTLBlendOperation::Min => 3,
            MTLBlendOperation::Max => 4,
        }
    }

    /// The variant a wire integer stands for, if any.
    pub open spec fn from_wire_spec(w: u64) -> Option<MTLBlendOperation> {
        if w == 0 {
            Some(MTLBlendOperation::Add)
        } else if w == 1 {
            Some(MTLBlendOperation::Subtract)
        } else if w == 2 {
            Some(MTLBlendOperation::ReverseSubtract)
        } else if w == 3 {
            Some(MTLBlendOperation::Min)
        } else if w == 4 {
            Some(MTLBlendOperation::Max)
        } else {
            None
        }
    }

    /// This variant's wire integer.
    pub fn to_wire(self) -> (w: u64)
        ensures
            w == self.wire_spec(),
    {
        match self {
            MTLBlendOperation::Add => 0,
            MTLBlendOperation::Subtract => 1,
            MTLBlendOperation::ReverseSubtract => 2,
            MTLBlendOperation::Min => 3,
            MTLBlendOperation::Max => 4,
        }
    }

    /// The variant a wire integer stands for, if any.
    pub fn from_wire(w: u64) -> (r: Option<MTLBlendOperation>)
        ensures
            r == Self::from_wire_spec(w),
    {
        if w == 0 {
            Some(MTLBlendOperation::Add)
        } else if w == 1 {
            Some(MTLBlendOperation::Subtract)
        } else if w == 2 {
            Some(MTLBlendOperation::ReverseSubtract)
        } else if w == 3 {
            Some(MTLBlendOperation::Min)
        } else if w == 4 {
            Some(MTLBlendOperation::Max)
        } else {
            None
        }
    }

    /// Converting a variant to its wire integer and back yields the
    /// original variant.
    pub proof fn lemma_wire_round_trip(self)
        ensures
            Self::from_wire_spec(self.wire_spec()) == Some(self),
    {
    }

    /// A wire integer that decodes to a variant is exactly that
    /// variant's wire integer.
    pub proof fn lemma_wire_inverse(w: u64)
        ensures
            Self::from_wire_spec(w) matches Some(v) ==> v.wire_spec() == w,
    {
    }
}

/// The factor a blend operation scales its operand by.
#[derive(Clone, Copy, PartialEq, Eq, Structural, Debug)]
pub enum MTLBlendFactor {
    Zero,
    One,
    SourceColor,
    OneMinusSourceColor,
    SourceAlpha,
    OneMinusSourceAlpha,
    DestinationColor,
    OneMinusDestinationColor,
    DestinationAlpha,
    OneMinusDestinationAlpha,
    SourceAlphaSaturated,
    BlendColor,
    OneMinusBlendColor,
    BlendAlpha,
    OneMinusBlendAlpha,
    Source1Color,
    OneMinusSource1Color,
    Source1Alpha,
    OneMinusSource1Alpha,
}

impl MTLBlendFactor {
    /// The wire integer the foreign framework assigns to this variant.
    pub open spec fn wire_spec(self) -> u64 {
        match self {
            MTLBlendFactor::Zero => 0,
            MTLBlendFactor::One => 1,
            MTLBlendFactor::SourceColor => 2,
            MTLBlendFactor::OneMinusSourceColor => 3,
            MTLBlendFactor::SourceAlpha => 4,
            MTLBlendFactor::OneMinusSourceAlpha => 5,
            MTLBlendFactor::DestinationColor => 6,
            MTLBlendFactor::OneMinusDestinationColor => 7,
            MTLBlendFactor::DestinationAlpha => 8,
            MTLBlendFactor::OneMinusDestinationAlpha => 9,
            MTLBlendFactor::SourceAlphaSaturated => 10,
            MTLBlendFactor::BlendColor => 11,
            MTLBlendFactor::OneMinusBlendColor => 12,
            MTLBlendFactor::BlendAlpha => 13,
            MTLBlendFactor::OneMinusBlendAlpha => 14,
            MTLBlendFactor::Source1Color => 15,
            MTLBlendFactor::OneMinusSource1Color => 16,
            MTLBlendFactor::Source1Alpha => 17,
            MTLBlendFactor::OneMinusSource1Alpha => 18,
        }
    }

    /// The variant a wire integer stands for, if any.
    pub open spec fn from_wire_spec(w: u64) -> Option<MTLBlendFactor> {
        if w == 0 {
            Some(MTLBlendFactor::Zero)
        } else if w == 1 {
            Some(MTLBlendFactor::One)
        } else if w == 2 {
            Some(MTLBlendFactor::SourceColor)
        } else if w == 3 {
            Some(MTLBlendFactor::OneMinusSourceColor)
        } else if w == 4 {
            Some(MTLBlendFactor::SourceAlpha)
        } else if w == 5 {
            Some(MTLBlendFactor::OneMinusSourceAlpha)
        } else if w == 6 {
            Some(MTLBlendFactor::DestinationColor)
        } else if w == 7 {
            Some(MTLBlendFactor::OneMinusDestinationColor)
        } else if w == 8 {
            Some(MTLBlendFactor::DestinationAlpha)
        } else if w == 9 {
            Some(MTLBlendFactor::OneMinusDestinationAlpha)
        } else if w == 10 {
            Some(MTLBlendFactor::SourceAlphaSaturated)
        } else if w == 11 {
            Some(MTLBlendFactor::BlendColor)
        } else if w == 12 {
            Some(MTLBlendFactor::OneMinusBlendColor)
        } else if w == 13 {
            Some(MTLBlendFactor::BlendAlpha)
        } else if w == 14 {
            Some(MTLBlendFactor::OneMinusBlendAlpha)
        } else if w == 15 {
            Some(MTLBlendFactor::Source1Color)
        } else if w == 16 {
            Some(MTLBlendFactor::OneMinusSource1Color)
        } else if w == 17 {
            Some(MTLBlendFactor::Source1Alpha)
        } else if w == 18 {
            Some(MTLBlendFactor::OneMinusSource1Alpha)
        } else {
            None
        }
    }

    /// This variant's wire integer.
    pub fn to_wire(self) -> (w: u64)
        ensures
            w == self.wire_spec(),
    {
        match self {
            MTLBlendFactor::Zero => 0,
            MTLBlendFactor::One => 1,
            MTLBlendFactor::SourceColor => 2,
            MTLBlendFactor::OneMinusSourceColor => 3,
            MTLBlendFactor::SourceAlpha => 4,
            MTLBlendFactor::OneMinusSourceAlpha => 5,
            MTLBlendFactor::DestinationColor => 6,
            MTLBlendFactor::OneMinusDestinationColor => 7,
            MTLBlendFactor::DestinationAlpha => 8,
            MTLBlendFactor::OneMinusDestinationAlpha => 9,
            MTLBlendFactor::SourceAlphaSaturated => 10,
            MTLBlendFactor::BlendColor => 11,
            MTLBlendFactor::OneMinusBlendColor => 12,
            MTLBlendFactor::BlendAlpha => 13,
            MTLBlendFactor::OneMinusBlendAlpha => 14,
            MTLBlendFactor::Source1Color => 15,
            MTLBlendFactor::OneMinusSource1Color => 16,
            MTLBlendFactor::Source1Alpha => 17,
            MTLBlendFactor::OneMinusSource1Alpha => 18,
        }
    }

    /// The variant a wire integer stands for, if any.
    pub fn from_wire(w: u64) -> (r: Option<MTLBlendFactor>)
        ensures
            r == Self::from_wire_spec(w),
    {
        if w == 0 {
            Some(MTLBlendFactor::Zero)
        } else if w == 1 {
            Some(MTLBlendFactor::One)
        } else if w == 2 {
            Some(MTLBlendFactor::SourceColor)
        } else if w == 3 {
            Some(MTLBlendFactor::OneMinusSourceColor)
        } else if w == 4 {
            Some(MTLBlendFactor::SourceAlpha)
        } else if w == 5 {
            Some(MTLBlendFactor::OneMinusSourceAlpha)
        } else if w == 6 {
            Some(MTLBlendFactor::DestinationColor)
        } else if w == 7 {
            Some(MTLBlendFactor::OneMinusDestinationColor)
        } else if w == 8 {
            Some(MTLBlendFactor::DestinationAlpha)
        } else if w == 9 {
            Some(MTLBlendFactor::OneMinusDestinationAlpha)
        } else if w == 10 {
            Some(MTLBlendFactor::SourceAlphaSaturated)
        } else if w == 11 {
            Some(MTLBlendFactor::BlendColor)
        } else if w == 12 {
            Some(MTLBlendFactor::OneMinusBlendColor)
        } else if w == 13 {
            Some(MTLBlendFactor::BlendAlpha)
        } else if w == 14 {
            Some(MTLBlendFactor::OneMinusBlendAlpha)
        } else if w == 15 {
            Some(MTLBlendFactor::Source1Color)
        } else if w == 16 {
            Some(MTLBlendFactor::OneMinusSource1Color)
        } else if w == 17 {
            Some(MTLBlendFactor::Source1Alpha)
        } else if w == 18 {
            Some(MTLBlendFactor::OneMinusSource1Alpha)
        } else {
            None
        }
    }

    /// Converting a variant to its wire integer and back yields the
    /// original variant.
    pub proof fn lemma_wire_round_trip(self)
        ensures
            Self::from_wire_spec(self.wire_spec()) == Some(self),
    {
    }

    /// A wire integer that decodes to a variant is exactly that
    /// variant's wire integer.
    pub proof fn lemma_wire_inverse(w: u64)
        ensures
            Self::from_wire_spec(w) matches Some(v) ==> v.wire_spec() == w,
    {
    }
}

/// The class of primitive a render pipeline draws.
#[derive(Clone, Copy, PartialEq, Eq, Structural, Debug)]
pub enum MTLPrimitiveTopologyClass {
    Unspecified,
    Point,
    Line,
    Triangle,
}

impl MTLPrimitiveTopologyClass {
    /// The wire integer the foreign framework assigns to this variant.
    pub open spec fn wire_spec(self) -> u64 {
        match self {
            MTLPrimitiveTopologyClass::Unspecified => 0,
            MTLPrimitiveTopologyClass::Point => 1,
            MTLPrimitiveTopologyClass::Line => 2,
            MTLPrimitiveTopologyClass::Triangle => 3,
        }
    }

    /// The variant a wire integer stands for, if any.
    pub open spec fn from_wire_spec(w: u64) -> Option<MTLPrimitiveTopologyClass> {
        if w == 0 {
            Some(MTLPrimitiveTopologyClass::Unspecified)
        } else if w == 1 {
            Some(MTLPrimitiveTopologyClass::Point)
        } else if w == 2 {
            Some(MTLPrimitiveTopologyClass::Line)
        } else if w == 3 {
            Some(MTLPrimitiveTopologyClass::Triangle)
        } else {
            None
        }
    }

    /// This variant's wire integer.
    pub fn to_wire(self) -> (w: u64)
        ensures
            w == self.wire_spec(),
    {
        match self {
            MTLPrimitiveTopologyClass::Unspecified => 0,
            MTLPrimitiveTopologyClass::Point => 1,
            MTLPrimitiveTopologyClass::Line => 2,
            MTLPrimitiveTopologyClass::Triangle => 3,
        }
    }

    /// The variant a wire integer stands for, if any.
    pub fn from_wire(w: u64) -> (r: Option<MTLPrimitiveTopologyClass>)
        ensures
            r == Self::from_wire_spec(w),
    {
        if w == 0 {
            Some(MTLPrimitiveTopologyClass::Unspecified)
        } else if w == 1 {
            Some(MTLPrimitiveTopologyClass::Point)
        } else if w == 2 {
            Some(MTLPrimitiveTopologyClass::Line)
        } else if w == 3 {
            Some(MTLPrimitiveTopologyClass::Triangle)
        } else {
            None
        }
    }

    /// Converting a variant to its wire integer and back yields the
    /// original variant.
    pub proof fn lemma_wire_round_trip(self)
        ensures
            Self::from_wire_spec(self.wire_spec()) == Some(self),
    {
    }

    /// A wire integer that decodes to a variant is exactly that
    /// variant's wire integer.
    pub proof fn lemma_wire_inverse(w: u64)
        ensures
            Self::from_wire_spec(w) matches Some(v) ==> v.wire_spec() == w,
    {
    }
}

/// A set of color-channel write-enable bits, composed from named flags
/// and handed to the foreign ABI as one wire integer.
#[derive(Clone, Copy, PartialEq, Eq, Structural, Debug)]
pub struct MTLColorWriteMaskSet {
    bits: NSUInteger,
}

impl MTLColorWriteMaskSet {
    /// The composed wire bits.
    pub closed spec fn bits_spec(self) -> u64 {
        self.bits
    }

    /// The empty mask: no channel is written.
    pub fn none() -> (s: MTLColorWriteMaskSet)
        ensures
            s.bits_spec() == 0,
    {
        MTLColorWriteMaskSet { bits: 0 }
    }

    /// The mask with the given channel's bit also raised.
    pub fn with(self, flag: MTLColorWriteMask) -> (s: MTLColorWriteMaskSet)
        ensures
            s.bits_spec() == self.bits_spec() | flag.wire_spec(),
    {
        MTLColorWriteMaskSet { bits: self.bits | flag.to_wire() }
    }

    /// Whether the given channel's bit is raised.
    pub fn contains(self, flag: MTLColorWriteMask) -> (b: bool)
        ensures
            b == ((self.bits_spec() & flag.wire_spec()) != 0),
    {
        (self.bits & flag.to_wire()) != 0
    }

    /// The composed wire bits, as passed at the call boundary.
    pub fn bits(self) -> (w: NSUInteger)
        ensures
            w == self.bits_spec(),
    {
        self.bits
    }
}

} // verus!
