//! Samplers: the wire encodings of the sampler descriptor's enumerated
//! options.

use vstd::prelude::*;

verus! {

/// How texture coordinates outside the unit range are resolved.
#[derive(Clone, Copy, PartialEq, Eq, Structural, Debug)]
pub enum MTLSamplerAddressMode {
    ClampToEdge,
    MirrorClampToEdge,
    Repeat,
    MirrorRepeat,
    ClampToZero,
    ClampToBorderColor,
}

impl MTLSamplerAddressMode {
    /// The wire integer the foreign framework assigns to this variant.
    pub open spec fn wire_spec(self) -> u64 {
        match self {
            MTLSamplerAddressMode::ClampToEdge => 0,
            MTLSamplerAddressMode::MirrorClampToEdge => 1,
            MTLSamplerAddressMode::Repeat => 2,
            MTLSamplerAddressMode::MirrorRepeat => 3,
            MTLSamplerAddressMode::ClampToZero => 4,
            MTLSamplerAddressMode::ClampToBorderColor => 5,
        }
    }

    /// The variant a wire integer stands for, if any.
    pub open spec fn from_wire_spec(w: u64) -> Option<MTLSamplerAddressMode> {
        if w == 0 {
            Some(MTLSamplerAddressMode::ClampToEdge)
        } else if w == 1 {
            Some(MTLSamplerAddressMode::MirrorClampToEdge)
        } else if w == 2 {
            Some(MTLSamplerAddressMode::Repeat)
        } else if w == 3 {
            Some(MTLSamplerAddressMode::MirrorRepeat)
        } else if w == 4 {
            Some(MTLSamplerAddressMode::ClampToZero)
        } else if w == 5 {
            Some(MTLSamplerAddressMode::ClampToBorderColor)
        } else {
            None
        }
    }

    /// This variant's wire integer.
    pub fn to_wire(self) -> (w: u64)
        ensures
            w == self.wire_spec(),
    {
        match self {
            MTLSamplerAddressMode::ClampToEdge => 0,
            MTLSamplerAddressMode::MirrorClampToEdge => 1,
            MTLSamplerAddressMode::Repeat => 2,
            MTLSamplerAddressMode::MirrorRepeat => 3,
            MTLSamplerAddressMode::ClampToZero => 4,
            MTLSamplerAddressMode::ClampToBorderColor => 5,
        }
    }

    /// The variant a wire integer stands for, if any.
    pub fn from_wire(w: u64) -> (r: Option<MTLSamplerAddressMode>)
        ensures
            r == Self::from_wire_spec(w),
    {
        if w == 0 {
            Some(MTLSamplerAddressMode::ClampToEdge)
        } else if w == 1 {
            Some(MTLSamplerAddressMode::MirrorClampToEdge)
        } else if w == 2 {
            Some(MTLSamplerAddressMode::Repeat)
        } else if w == 3 {
            Some(MTLSamplerAddressMode::MirrorRepeat)
        } else if w == 4 {
            Some(MTLSamplerAddressMode::ClampToZero)
        } else if w == 5 {
            Some(MTLSamplerAddressMode::ClampToBorderColor)
        } else {
            None
        }
    }

    /// Converting a variant to its wire integer and back yields the
    /// original variant.
    pub proof fn lemma_wire_round_trip(self)
        ensures
            Self::from_wire_spec(self.wire_spec()) == Some(self),
    {
    }

    /// A wire integer that decodes to a variant is exactly that
    /// variant's wire integer.
    pub proof fn lemma_wire_inverse(w: u64)
        ensures
            Self::from_wire_spec(w) matches Some(v) ==> v.wire_spec() == w,
    {
    }
}

/// The color sampled for out-of-range coordinates when clamping to a border.
#[derive(Clone, Copy, PartialEq, Eq, Structural, Debug)]
pub enum MTLSamplerBorderColor {
    TransparentBlack,
    OpaqueBlack,
    OpaqueWhite,
}

impl MTLSamplerBorderColor {
    /// The wire integer the foreign framework assigns to this variant.
    pub open spec fn wire_spec(self) -> u64 {
        match self {
            MTLSamplerBorderColor::TransparentBlack => 0,
            MTLSamplerBorderColor::OpaqueBlack => 1,
            MTLSamplerBorderColor::OpaqueWhite => 2,
        }
    }

    /// The variant a wire integer stands for, if any.
    pub open spec fn from_wire_spec(w: u64) -> Option<MTLSamplerBorderColor> {
        if w == 0 {
            Some(MTLSamplerBorderColor::TransparentBlack)
        } else if w == 1 {
            Some(MTLSamplerBorderColor::OpaqueBlack)
        } else if w == 2 {
            Some(MTLSamplerBorderColor::OpaqueWhite)
        } else {
            None
        }
    }

    /// This variant's wire integer.
    pub fn to_wire(self) -> (w: u64)
        ensures
            w == self.wire_spec(),
    {
        match self {
            MTLSamplerBorderColor::TransparentBlack => 0,
            MTLSamplerBorderColor::OpaqueBlack => 1,
            MTLSamplerBorderColor::OpaqueWhite => 2,
        }
    }

    /// The variant a wire integer stands for, if any.
    pub fn from_wire(w: u64) -> (r: Option<MTLSamplerBorderColor>)
        ensures
            r == Self::from_wire_spec(w),
    {
        if w == 0 {
            Some(MTLSamplerBorderColor::TransparentBlack)
        } else if w == 1 {
            Some(MTLSamplerBorderColor::OpaqueBlack)
        } else if w == 2 {
            Some(MTLSamplerBorderColor::OpaqueWhite)
        } else {
            None
        }
    }

    /// Converting a variant to its wire integer and back yields the
    /// original variant.
    pub proof fn lemma_wire_round_trip(self)
        ensures
            Self::from_wire_spec(self.wire_spec()) == Some(self),
    {
    }

    /// A wire integer that decodes to a variant is exactly that
    /// variant's wire integer.
    pub proof fn lemma_wire_inverse(w: u64)
        ensures
            Self::from_wire_spec(w) matches Some(v) ==> v.wire_spec() == w,
    {
    }
}

/// How a sampled texture is filtered when minified or magnified.
#[derive(Clone, Copy, PartialEq, Eq, Structural, Debug)]
pub enum MTLSamplerMinMagFilter {
    Nearest,
    Linear,
}

impl MTLSamplerMinMagFilter {
    /// The wire integer the foreign framework assigns to this variant.
    pub open spec fn wire_spec(self) -> u64 {
        match self {
            MTLSamplerMinMagFilter::Nearest => 0,
            MTLSamplerMinMagFilter::Linear => 1,
        }
    }

    /// The variant a wire integer stands for, if any.
    pub open spec fn from_wire_spec(w: u64) -> Option<MTLSamplerMinMagFilter> {
        if w == 0 {
            Some(MTLSamplerMinMagFilter::Nearest)
        } else if w == 1 {
            Some(MTLSamplerMinMagFilter::Linear)
        } else {
            None
        }
    }

    /// This variant's wire integer.
    pub fn to_wire(self) -> (w: u64)
        ensures
            w == self.wire_spec(),
    {
        match self {
            MTLSamplerMinMagFilter::Nearest => 0,
            MTLSamplerMinMagFilter::Linear => 1,
        }
    }

    /// The variant a wire integer stands for, if any.
    pub fn from_wire(w: u64) -> (r: Option<MTLSamplerMinMagFilter>)
        ensures
            r == Self::from_wire_spec(w),
    {
        if w == 0 {
            Some(MTLSamplerMinMagFilter::Nearest)
        } else if w == 1 {
            Some(MTLSamplerMinMagFilter::Linear)
        } else {
            None
        }
    }

    /// Converting a variant to its wire integer and back yields the
    /// original variant.
    pub proof fn lemma_wire_round_trip(self)
        ensures
            Self::from_wire_spec(self.wire_spec()) == Some(self),
    {
    }

    /// A wire integer that decodes to a variant is exactly that
    /// variant's wire integer.
    pub proof fn lemma_wire_inverse(w: u64)
        ensures
            Self::from_wire_spec(w) matches Some(v) ==> v.wire_spec() == w,
    {
    }
}

} // verus!
