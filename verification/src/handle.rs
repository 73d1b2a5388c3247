//! Typed owning handles over raw foreign references.
//!
//! A foreign reference is an opaque address into the foreign runtime's
//! reference-counted heap; the address `0` is the null reference, which some
//! foreign operations use to signal "no object". A [`Handle`] wraps exactly
//! one non-null reference and stands for exactly one outstanding retain on
//! it.
//!
//! Handles are move-only: duplicating one is an explicit operation that
//! takes its own retain ([`crate::runtime::Runtime::duplicate`]), and the
//! one retain a handle stands for is given back exactly once, by the call
//! that consumes the handle ([`crate::runtime::Runtime::release_handle`]).

use vstd::prelude::*;

verus! {

/// The null foreign reference.
pub const NULL_REFERENCE: usize = 0;

/// A typed wrapper holding exactly one foreign reference.
///
/// Invariant (caller-maintained at construction): the wrapped reference is
/// non-null and already carries one retain attributable to this handle.
/// The type has no `Clone` and no `Copy`, so the retain can be given back
/// at most once: the releasing operation takes the handle by value.
pub struct Handle {
    raw: usize,
}

impl Handle {
    /// The foreign reference this handle wraps.
    pub closed spec fn reference(self) -> usize {
        self.raw
    }

    /// A handle is well formed when it wraps a non-null reference.
    pub open spec fn wf(self) -> bool {
        self.reference() != NULL_REFERENCE
    }

    /// Constructs a handle from a foreign reference.
    ///
    /// The reference must be non-null and must already carry a retain
    /// attributable to the new handle; the latter is the caller's
    /// responsibility and cannot be checked here, exactly as with an
    /// incorrectly declared foreign function signature.
    pub fn wrap(reference: usize) -> (h: Handle)
        requires
            reference != NULL_REFERENCE,
        ensures
            h.reference() == reference,
    {
        Handle { raw: reference }
    }

    /// Constructs a handle from a foreign reference that is allowed to be
    /// null, for foreign operations that signal absence by a null result.
    ///
    /// The null reference yields `None`; any other reference yields a
    /// handle wrapping exactly that reference.
    pub fn optional_wrap(reference: usize) -> (r: Option<Handle>)
        ensures
            reference == NULL_REFERENCE <==> r is None,
            r matches Some(h) ==> h.reference() == reference,
    {
        if reference == NULL_REFERENCE {
            None
        } else {
            Some(Handle { raw: reference })
        }
    }

    /// Returns the raw foreign reference for use in forwarding calls.
    ///
    /// Ownership is not transferred: the caller must not independently
    /// release the returned reference.
    pub fn unwrap_reference(&self) -> (r: usize)
        ensures
            r == self.reference(),
    {
        self.raw
    }
}

} // verus!
