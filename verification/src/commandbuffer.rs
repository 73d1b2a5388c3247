//! Command buffers: the lifecycle states the foreign runtime reports for
//! a buffer of encoded GPU work.
//!
//! A command buffer is an opaque foreign object; what the bridge handles
//! of it is the wire encoding of its status, and the optional error object
//! it hands back after execution (an absence-style null when the buffer
//! completed without error).

use vstd::prelude::*;

verus! {

/// Where a command buffer stands in its lifecycle.
#[derive(Clone, Copy, PartialEq, Eq, Structural, Debug)]
pub enum MTLCommandBufferStatus {
    NotEnqueued,
    Enqueued,
    Committed,
    Scheduled,
    Completed,
    Error,
}

impl MTLCommandBufferStatus {
    /// The wire integer the foreign framework assigns to this variant.
    pub open spec fn wire_spec(self) -> u64 {
        match self {
            MTLCommandBufferStatus::NotEnqueued => 0,
            MTLCommandBufferStatus::Enqueued => 1,
            MTLCommandBufferStatus::Committed => 2,
            MTLCommandBufferStatus::Scheduled => 3,
            MTLCommandBufferStatus::Completed => 4,
            MTLCommandBufferStatus::Error => 5,
        }
    }

    /// The variant a wire integer stands for, if any.
    pub open spec fn from_wire_spec(w: u64) -> Option<MTLCommandBufferStatus> {
        if w == 0 {
            Some(MTLCommandBufferStatus::NotEnqueued)
        } else if w == 1 {
            Some(MTLCommandBufferStatus::Enqueued)
        } else if w == 2 {
            Some(MTLCommandBufferStatus::Committed)
        } else if w == 3 {
            Some(MTLCommandBufferStatus::Scheduled)
        } else if w == 4 {
            Some(MTLCommandBufferStatus::Completed)
        } else if w == 5 {
            Some(MTLCommandBufferStatus::Error)
        } else {
            None
        }
    }

    /// This variant's wire integer.
    pub fn to_wire(self) -> (w: u64)
        ensures
            w == self.wire_spec(),
    {
        match self {
            MTLCommandBufferStatus::NotEnqueued => 0,
            MTLCommandBufferStatus::Enqueued => 1,
            MTLCommandBufferStatus::Committed => 2,
            MTLCommandBufferStatus::Scheduled => 3,
            MTLCommandBufferStatus::Completed => 4,
            MTLCommandBufferStatus::Error => 5,
        }
    }

    /// The variant a wire integer stands for, if any.
    pub fn from_wire(w: u64) -> (r: Option<MTLCommandBufferStatus>)
        ensures
            r == Self::from_wire_spec(w),
    {
        if w == 0 {
            Some(MTLCommandBufferStatus::NotEnqueued)
        } else if w == 1 {
            Some(MTLCommandBufferStatus::Enqueued)
        } else if w == 2 {
            Some(MTLCommandBufferStatus::Committed)
        } else if w == 3 {
            Some(MTLCommandBufferStatus::Scheduled)
        } else if w == 4 {
            Some(MTLCommandBufferStatus::Completed)
        } else if w == 5 {
            Some(MTLCommandBufferStatus::Error)
        } else {
            None
        }
    }

    /// Converting a variant to its wire integer and back yields the
    /// original variant.
    pub proof fn lemma_wire_round_trip(self)
        ensures
            Self::from_wire_spec(self.wire_spec()) == Some(self),
    {
    }

    /// A wire integer that decodes to a variant is exactly that
    /// variant's wire integer.
    pub proof fn lemma_wire_inverse(w: u64)
        ensures
            Self::from_wire_spec(w) matches Some(v) ==> v.wire_spec() == w,
    {
    }
}

} // verus!
