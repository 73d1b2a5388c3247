//! Depth/stencil state: the wire encoding of the stencil operations.

use vstd::prelude::*;

verus! {

/// What a stencil test failure or pass does to the stored stencil value.
#[derive(Clone, Copy, PartialEq, Eq, Structural, Debug)]
pub enum MTLStencilOperation {
    Keep,
    Zero,
    Replace,
    IncrementClamp,
    DecrementClamp,
    Invert,
    IncrementWrap,
    DecrementWrap,
}

impl MTLStencilOperation {
    /// The wire integer the foreign framework assigns to this variant.
    pub open spec fn wire_spec(self) -> u64 {
        match self {
            MTLStencilOperation::Keep => 0,
            MTLStencilOperation::Zero => 1,
            MTLStencilOperation::Replace => 2,
            MTLStencilOperation::IncrementClamp => 3,
            MTLStencilOperation::DecrementClamp => 4,
            MTLStencilOperation::Invert => 5,
            MTLStencilOperation::IncrementWrap => 6,
            MTLStencilOperation::DecrementWrap => 7,
        }
    }

    /// The variant a wire integer stands for, if any.
    pub open spec fn from_wire_spec(w: u64) -> Option<MTLStencilOperation> {
        if w == 0 {
            Some(MTLStencilOperation::Keep)
        } else if w == 1 {
            Some(MTLStencilOperation::Zero)
        } else if w == 2 {
            Some(MTLStencilOperation::Replace)
        } else if w == 3 {
            Some(MTLStencilOperation::IncrementClamp)
        } else if w == 4 {
            Some(MTLStencilOperation::DecrementClamp)
        } else if w == 5 {
            Some(MTLStencilOperation::Invert)
        } else if w == 6 {
            Some(MTLStencilOperation::IncrementWrap)
        } else if w == 7 {
            Some(MTLStencilOperation::DecrementWrap)
        } else {
            None
        }
    }

    /// This variant's wire integer.
    pub fn to_wire(self) -> (w: u64)
        ensures
            w == self.wire_spec(),
    {
        match self {
            MTLStencilOperation::Keep => 0,
            MTLStencilOperation::Zero => 1,
            MTLStencilOperation::Replace => 2,
            MTLStencilOperation::IncrementClamp => 3,
            MTLStencilOperation::DecrementClamp => 4,
            MTLStencilOperation::Invert => 5,
            MTLStencilOperation::IncrementWrap => 6,
            MTLStencilOperation::DecrementWrap => 7,
        }
    }

    /// The variant a wire integer stands for, if any.
    pub fn from_wire(w: u64) -> (r: Option<MTLStencilOperation>)
        ensures
            r == Self::from_wire_spec(w),
    {
        if w == 0 {
            Some(MTLStencilOperation::Keep)
        } else if w == 1 {
            Some(MTLStencilOperation::Zero)
        } else if w == 2 {
            Some(MTLStencilOperation::Replace)
        } else if w == 3 {
            Some(MTLStencilOperation::IncrementClamp)
        } else if w == 4 {
            Some(MTLStencilOperation::DecrementClamp)
        } else if w == 5 {
            Some(MTLStencilOperation::Invert)
        } else if w == 6 {
            Some(MTLStencilOperation::IncrementWrap)
        } else if w == 7 {
            Some(MTLStencilOperation::DecrementWrap)
        } else {
            None
        }
    }

    /// Converting a variant to its wire integer and back yields the
    /// original variant.
    pub proof fn lemma_wire_round_trip(self)
        ensures
            Self::from_wire_spec(self.wire_spec()) == Some(self),
    {
    }

    /// A wire integer that decodes to a variant is exactly that
    /// variant's wire integer.
    pub proof fn lemma_wire_inverse(w: u64)
        ensures
            Self::from_wire_spec(w) matches Some(v) ==> v.wire_spec() == w,
    {
    }
}

} // verus!
