//! Render and compute command encoders: the wire encodings of the
//! enumerated options an encoder takes, the scissor rectangle, and the
//! render-pass attachment actions.

use vstd::prelude::*;

use crate::misc::NSUInteger;

verus! {

/// What happens to an attachment's contents at the start of a render pass.
#[derive(Clone, Copy, PartialEq, Eq, Structural, Debug)]
pub enum MTLLoadAction {
    DontCare,
    Load,
    Clear,
}

impl MTLLoadAction {
    /// The wire integer the foreign framework assigns to this variant.
    pub open spec fn wire_spec(self) -> u64 {
        match self {
            MTLLoadAction::DontCare => 0,
            MTLLoadAction::Load => 1,
            MTLLoadAction::Clear => 2,
        }
    }

    /// The variant a wire integer stands for, if any.
    pub open spec fn from_wire_spec(w: u64) -> Option<MTLLoadAction> {
        if w == 0 {
            Some(MTLLoadAction::DontCare)
        } else if w == 1 {
            Some(MTLLoadAction::Load)
        } else if w == 2 {
            Some(MTLLoadAction::Clear)
        } else {
            None
        }
    }

    /// This variant's wire integer.
    pub fn to_wire(self) -> (w: u64)
        ensures
            w == self.wire_spec(),
    {
        match self {
            MTLLoadAction::DontCare => 0,
            MTLLoadAction::Load => 1,
            MTLLoadAction::Clear => 2,
        }
    }

    /// The variant a wire integer stands for, if any.
    pub fn from_wire(w: u64) -> (r: Option<MTLLoadAction>)
        ensures
            r == Self::from_wire_spec(w),
    {
        if w == 0 {
            Some(MTLLoadAction::DontCare)
        } else if w == 1 {
            Some(MTLLoadAction::Load)
        } else if w == 2 {
            Some(MTLLoadAction::Clear)
        } else {
            None
        }
    }

    /// Converting a variant to its wire integer and back yields the
    /// original variant.
    pub proof fn lemma_wire_round_trip(self)
        ensures
            Self::from_wire_spec(self.wire_spec()) == Some(self),
    {
    }

    /// A wire integer that decodes to a variant is exactly that
    /// variant's wire integer.
    pub proof fn lemma_wire_inverse(w: u64)
        ensures
            Self::from_wire_spec(w) matches Some(v) ==> v.wire_spec() == w,
    {
    }
}

/// What happens to an attachment's contents at the end of a render pass.
#[derive(Clone, Copy, PartialEq, Eq, Structural, Debug)]
pub enum MTLStoreAction {
    DontCare,
    Store,
    MultisampleResolve,
    StoreAndMultisampleResolve,
    Unknown,
    CustomSampleDepthStore,
}

impl MTLStoreAction {
    /// The wire integer the foreign framework assigns to this variant.
    pub open spec fn wire_spec(self) -> u64 {
        match self {
            MTLStoreAction::DontCare => 0,
            MTLStoreAction::Store => 1,
            MTLStoreAction::MultisampleResolve => 2,
            MTLStoreAction::StoreAndMultisampleResolve => 3,
            MTLStoreAction::Unknown => 4,
            MTLStoreAction::CustomSampleDepthStore => 5,
        }
    }

    /// The variant a wire integer stands for, if any.
    pub open spec fn from_wire_spec(w: u64) -> Option<MTLStoreAction> {
        if w == 0 {
            Some(MTLStoreAction::DontCare)
        } else if w == 1 {
            Some(MTLStoreAction::Store)
        } else if w == 2 {
            Some(MTLStoreAction::MultisampleResolve)
        } else if w == 3 {
            Some(MTLStoreAction::StoreAndMultisampleResolve)
        } else if w == 4 {
            Some(MTLStoreAction::Unknown)
        } else if w == 5 {
            Some(MTLStoreAction::CustomSampleDepthStore)
        } else {
            None
        }
    }

    /// This variant's wire integer.
    pub fn to_wire(self) -> (w: u64)
        ensures
            w == self.wire_spec(),
    {
        match self {
            MTLStoreAction::DontCare => 0,
            MTLStoreAction::Store => 1,
            MTLStoreAction::MultisampleResolve => 2,
            MTLStoreAction::StoreAndMultisampleResolve => 3,
            MTLStoreAction::Unknown => 4,
            MTLStoreAction::CustomSampleDepthStore => 5,
        }
    }

    /// The variant a wire integer stands for, if any.
    pub fn from_wire(w: u64) -> (r: Option<MTLStoreAction>)
        ensures
            r == Self::from_wire_spec(w),
    {
        if w == 0 {
            Some(MTLStoreAction::DontCare)
        } else if w == 1 {
            Some(MTLStoreAction::Store)
        } else if w == 2 {
            Some(MTLStoreAction::MultisampleResolve)
        } else if w == 3 {
            Some(MTLStoreAction::StoreAndMultisampleResolve)
        } else if w == 4 {
            Some(MTLStoreAction::Unknown)
        } else if w == 5 {
            Some(MTLStoreAction::CustomSampleDepthStore)
        } else {
            None
        }
    }

    /// Converting a variant to its wire integer and back yields the
    /// original variant.
    pub proof fn lemma_wire_round_trip(self)
        ensures
            Self::from_wire_spec(self.wire_spec()) == Some(self),
    {
    }

    /// A wire integer that decodes to a variant is exactly that
    /// variant's wire integer.
    pub proof fn lemma_wire_inverse(w: u64)
        ensures
            Self::from_wire_spec(w) matches Some(v) ==> v.wire_spec() == w,
    {
    }
}

/// Options refining a store action.
#[derive(Clone, Copy, PartialEq, Eq, Structural, Debug)]
pub enum MTLStoreActionOptions {
    NoOptions,
    CustomSamplePositions,
}

impl MTLStoreActionOptions {
    /// The wire integer the foreign framework assigns to this variant.
    pub open spec fn wire_spec(self) -> u64 {
        match self {
            MTLStoreActionOptions::NoOptions => 0,
            MTLStoreActionOptions::CustomSamplePositions => 1,
        }
    }

    /// The variant a wire integer stands for, if any.
    pub open spec fn from_wire_spec(w: u64) -> Option<MTLStoreActionOptions> {
        if w == 0 {
            Some(MTLStoreActionOptions::NoOptions)
        } else if w == 1 {
            Some(MTLStoreActionOptions::CustomSamplePositions)
        } else {
            None
        }
    }

    /// This variant's wire integer.
    pub fn to_wire(self) -> (w: u64)
        ensures
            w == self.wire_spec(),
    {
        match self {
            MTLStoreActionOptions::NoOptions => 0,
            MTLStoreActionOptions::CustomSamplePositions => 1,
        }
    }

    /// The variant a wire integer stands for, if any.
    pub fn from_wire(w: u64) -> (r: Option<MTLStoreActionOptions>)
        ensures
            r == Self::from_wire_spec(w),
    {
        if w == 0 {
            Some(MTLStoreActionOptions::NoOptions)
        } else if w == 1 {
            Some(MTLStoreActionOptions::CustomSamplePositions)
        } else {
            None
        }
    }

    /// Converting a variant to its wire integer and back yields the
    /// original variant.
    pub proof fn lemma_wire_round_trip(self)
        ensures
            Self::from_wire_spec(self.wire_spec()) == Some(self),
    {
    }

    /// A wire integer that decodes to a variant is exactly that
    /// variant's wire integer.
    pub proof fn lemma_wire_inverse(w: u64)
        ensures
            Self::from_wire_spec(w) matches Some(v) ==> v.wire_spec() == w,
    {
    }
}

/// How multisample depth values are resolved to a single value.
#[derive(Clone, Copy, PartialEq, Eq, Structural, Debug)]
pub enum MTLMultisampleDepthResolveFilter {
    Sample0,
    FilterMin,
    FilterMax,
}

impl MTLMultisampleDepthResolveFilter {
    /// The wire integer the foreign framework assigns to this variant.
    pub open spec fn wire_spec(self) -> u64 {
        match self {
            MTLMultisampleDepthResolveFilter::Sample0 => 0,
            MTLMultisampleDepthResolveFilter::FilterMin => 1,
            MTLMultisampleDepthResolveFilter::FilterMax => 2,
        }
    }

    /// The variant a wire integer stands for, if any.
    pub open spec fn from_wire_spec(w: u64) -> Option<MTLMultisampleDepthResolveFilter> {
        if w == 0 {
            Some(MTLMultisampleDepthResolveFilter::Sample0)
        } else if w == 1 {
            Some(MTLMultisampleDepthResolveFilter::FilterMin)
        } else if w == 2 {
            Some(MTLMultisampleDepthResolveFilter::FilterMax)
        } else {
            None
        }
    }

    /// This variant's wire integer.
    pub fn to_wire(self) -> (w: u64)
        ensures
            w == self.wire_spec(),
    {
        match self {
            MTLMultisampleDepthResolveFilter::Sample0 => 0,
            MTLMultisampleDepthResolveFilter::FilterMin => 1,
            MTLMultisampleDepthResolveFilter::FilterMax => 2,
        }
    }

    /// The variant a wire integer stands for, if any.
    pub fn from_wire(w: u64) -> (r: Option<MTLMultisampleDepthResolveFilter>)
        ensures
            r == Self::from_wire_spec(w),
    {
        if w == 0 {
            Some(MTLMultisampleDepthResolveFilter::Sample0)
        } else if w == 1 {
            Some(MTLMultisampleDepthResolveFilter::FilterMin)
        } else if w == 2 {
            Some(MTLMultisampleDepthResolveFilter::FilterMax)
        } else {
            None
        }
    }

    /// Converting a variant to its wire integer and back yields the
    /// original variant.
    pub proof fn lemma_wire_round_trip(self)
        ensures
            Self::from_wire_spec(self.wire_spec()) == Some(self),
    {
    }

    /// A wire integer that decodes to a variant is exactly that
    /// variant's wire integer.
    pub proof fn lemma_wire_inverse(w: u64)
        ensures
            Self::from_wire_spec(w) matches Some(v) ==> v.wire_spec() == w,
    {
    }
}

/// Whether triangles are rasterized filled or as wireframe lines.
#[derive(Clone, Copy, PartialEq, Eq, Structural, Debug)]
pub enum MTLTriangleFillMode {
    Fill,
    Lines,
}

impl MTLTriangleFillMode {
    /// The wire integer the foreign framework assigns to this variant.
    pub open spec fn wire_spec(self) -> u64 {
        match self {
            MTLTriangleFillMode::Fill => 0,
            MTLTriangleFillMode::Lines => 1,
        }
    }

    /// The variant a wire integer stands for, if any.
    pub open spec fn from_wire_spec(w: u64) -> Option<MTLTriangleFillMode> {
        if w == 0 {
            Some(MTLTriangleFillMode::Fill)
        } else if w == 1 {
            Some(MTLTriangleFillMode::Lines)
        } else {
            None
        }
    }

    /// This variant's wire integer.
    pub fn to_wire(self) -> (w: u64)
        ensures
            w == self.wire_spec(),
    {
        match self {
            MTLTriangleFillMode::Fill => 0,
            MTLTriangleFillMode::Lines => 1,
        }
    }

    /// The variant a wire integer stands for, if any.
    pub fn from_wire(w: u64) -> (r: Option<MTLTriangleFillMode>)
        ensures
            r == Self::from_wire_spec(w),
    {
        if w == 0 {
            Some(MTLTriangleFillMode::Fill)
        } else if w == 1 {
            Some(MTLTriangleFillMode::Lines)
        } else {
            None
        }
    }

    /// Converting a variant to its wire integer and back yields the
    /// original variant.
    pub proof fn lemma_wire_round_trip(self)
        ensures
            Self::from_wire_spec(self.wire_spec()) == Some(self),
    {
    }

    /// A wire integer that decodes to a variant is exactly that
    /// variant's wire integer.
    pub proof fn lemma_wire_inverse(w: u64)
        ensures
            Self::from_wire_spec(w) matches Some(v) ==> v.wire_spec() == w,
    {
    }
}

/// Which vertex winding marks a front-facing primitive.
#[derive(Clone, Copy, PartialEq, Eq, Structural, Debug)]
pub enum MTLWinding {
    Clockwise,
    CounterClockwise,
}

impl MTLWinding {
    /// The wire integer the foreign framework assigns to this variant.
    pub open spec fn wire_spec(self) -> u64 {
        match self {
            MTLWinding::Clockwise => 0,
            MTLWinding::CounterClockwise => 1,
        }
    }

    /// The variant a wire integer stands for, if any.
    pub open spec fn from_wire_spec(w: u64) -> Option<MTLWinding> {
        if w == 0 {
            Some(MTLWinding::Clockwise)
        } else if w == 1 {
            Some(MTLWinding::CounterClockwise)
        } else {
            None
        }
    }

    /// This variant's wire integer.
    pub fn to_wire(self) -> (w: u64)
        ensures
            w == self.wire_spec(),
    {
        match self {
            MTLWinding::Clockwise => 0,
            MTLWinding::CounterClockwise => 1,
        }
    }

    /// The variant a wire integer stands for, if any.
    pub fn from_wire(w: u64) -> (r: Option<MTLWinding>)
        ensures
            r == Self::from_wire_spec(w),
    {
        if w == 0 {
            Some(MTLWinding::Clockwise)
        } else if w == 1 {
            Some(MTLWinding::CounterClockwise)
        } else {
            None
        }
    }

    /// Converting a variant to its wire integer and back yields the
    /// original variant.
    pub proof fn lemma_wire_round_trip(self)
        ensures
            Self::from_wire_spec(self.wire_spec()) == Some(self),
    {
    }

    /// A wire integer that decodes to a variant is exactly that
    /// variant's wire integer.
    pub proof fn lemma_wire_inverse(w: u64)
        ensures
            Self::from_wire_spec(w) matches Some(v) ==> v.wire_spec() == w,
    {
    }
}

/// Which primitive facing, if any, is culled.
#[derive(Clone, Copy, PartialEq, Eq, Structural, Debug)]
pub enum MTLCullMode {
    NoCulling,
    Front,
    Back,
}

impl MTLCullMode {
    /// The wire integer the foreign framework assigns to this variant.
    pub open spec fn wire_spec(self) -> u64 {
        match self {
            MTLCullMode::NoCulling => 0,
            MTLCullMode::Front => 1,
            MTLCullMode::Back => 2,
        }
    }

    /// The variant a wire integer stands for, if any.
    pub open spec fn from_wire_spec(w: u64) -> Option<MTLCullMode> {
        if w == 0 {
            Some(MTLCullMode::NoCulling)
        } else if w == 1 {
            Some(MTLCullMode::Front)
        } else if w == 2 {
            Some(MTLCullMode::Back)
        } else {
            None
        }
    }

    /// This variant's wire integer.
    pub fn to_wire(self) -> (w: u64)
        ensures
            w == self.wire_spec(),
    {
        match self {
            MTLCullMode::NoCulling => 0,
            MTLCullMode::Front => 1,
            MTLCullMode::Back => 2,
        }
    }

    /// The variant a wire integer stands for, if any.
    pub fn from_wire(w: u64) -> (r: Option<MTLCullMode>)
        ensures
            r == Self::from_wire_spec(w),
    {
        if w == 0 {
            Some(MTLCullMode::NoCulling)
        } else if w == 1 {
            Some(MTLCullMode::Front)
        } else if w == 2 {
            Some(MTLCullMode::Back)
        } else {
            None
        }
    }

    /// Converting a variant to its wire integer and back yields the
    /// original variant.
    pub proof fn lemma_wire_round_trip(self)
        ensures
            Self::from_wire_spec(self.wire_spec()) == Some(self),
    {
    }

    /// A wire integer that decodes to a variant is exactly that
    /// variant's wire integer.
    pub proof fn lemma_wire_inverse(w: u64)
        ensures
            Self::from_wire_spec(w) matches Some(v) ==> v.wire_spec() == w,
    {
    }
}

/// Whether depth values outside the clip range are clipped or clamped.
#[derive(Clone, Copy, PartialEq, Eq, Structural, Debug)]
pub enum MTLDepthClipMode {
    Clip,
    Clamp,
}

impl MTLDepthClipMode {
    /// The wire integer the foreign framework assigns to this variant.
    pub open spec fn wire_spec(self) -> u64 {
        match self {
            MTLDepthClipMode::Clip => 0,
            MTLDepthClipMode::Clamp => 1,
        }
    }

    /// The variant a wire integer stands for, if any.
    pub open spec fn from_wire_spec(w: u64) -> Option<MTLDepthClipMode> {
        if w == 0 {
            Some(MTLDepthClipMode::Clip)
        } else if w == 1 {
            Some(MTLDepthClipMode::Clamp)
        } else {
            None
        }
    }

    /// This variant's wire integer.
    pub fn to_wire(self) -> (w: u64)
        ensures
            w == self.wire_spec(),
    {
        match self {
            MTLDepthClipMode::Clip => 0,
            MTLDepthClipMode::Clamp => 1,
        }
    }

    /// The variant a wire integer stands for, if any.
    pub fn from_wire(w: u64) -> (r: Option<MTLDepthClipMode>)
        ensures
            r == Self::from_wire_spec(w),
    {
        if w == 0 {
            Some(MTLDepthClipMode::Clip)
        } else if w == 1 {
            Some(MTLDepthClipMode::Clamp)
        } else {
            None
        }
    }

    /// Converting a variant to its wire integer and back yields the
    /// original variant.
    pub proof fn lemma_wire_round_trip(self)
        ensures
            Self::from_wire_spec(self.wire_spec()) == Some(self),
    {
    }

    /// A wire integer that decodes to a variant is exactly that
    /// variant's wire integer.
    pub proof fn lemma_wire_inverse(w: u64)
        ensures
            Self::from_wire_spec(w) matches Some(v) ==> v.wire_spec() == w,
    {
    }
}

/// A scissor rectangle, in the exact field order and widths the foreign
/// ABI expects.
#[derive(Clone, Copy, PartialEq, Eq, Structural, Debug)]
pub struct MTLScissorRect {
    pub width: NSUInteger,
    pub height: NSUInteger,
    pub x: NSUInteger,
    pub y: NSUInteger,
}

} // verus!
