//! Classification of construction results that arrive as an
//! object-reference/diagnostic-reference pair.
//!
//! Shader compilation and pipeline-state creation return two references:
//! a possibly-null object and a possibly-null diagnostic. The bridge wraps
//! whichever is non-null and keeps both, so the caller can tell pure
//! success, success with a warning, and hard failure apart and choose its
//! own policy for the middle case.

use vstd::prelude::*;

use crate::handle::{Handle, NULL_REFERENCE};
use crate::runtime::{released, Runtime};

verus! {

/// What a diagnostic-producing construction yielded: the produced object,
/// the diagnostic, or both. The three cases are distinct variants, so no
/// caller can confuse a usable-with-warning result with either pure case.
pub enum ConstructionOutcome {
    /// Pure success: an object and no diagnostic.
    Success { object: Handle },
    /// The foreign operation produced a usable object and a diagnostic.
    SuccessWithDiagnostic { object: Handle, diagnostic: Handle },
    /// Hard failure: no object, only a diagnostic.
    Failure { diagnostic: Handle },
}

/// Wraps whichever of the two references a diagnostic-producing
/// construction returned is non-null. At least one of the two must be
/// non-null: a foreign operation of this shape that returns neither an
/// object nor a diagnostic has broken its own contract.
pub fn classify_construction(object: usize, diagnostic: usize) -> (r: ConstructionOutcome)
    requires
        object != NULL_REFERENCE || diagnostic != NULL_REFERENCE,
    ensures
        r is Success <==> object != NULL_REFERENCE && diagnostic == NULL_REFERENCE,
        r is SuccessWithDiagnostic <==> object != NULL_REFERENCE && diagnostic != NULL_REFERENCE,
        r is Failure <==> object == NULL_REFERENCE && diagnostic != NULL_REFERENCE,
        r matches ConstructionOutcome::Success { object: h } ==> h.reference() == object,
        r matches ConstructionOutcome::SuccessWithDiagnostic { object: h, diagnostic: d }
            ==> h.reference() == object && d.reference() == diagnostic,
        r matches ConstructionOutcome::Failure { diagnostic: d } ==> d.reference() == diagnostic,
{
    if object != NULL_REFERENCE {
        if diagnostic == NULL_REFERENCE {
            ConstructionOutcome::Success { object: Handle::wrap(object) }
        } else {
            ConstructionOutcome::SuccessWithDiagnostic {
                object: Handle::wrap(object),
                diagnostic: Handle::wrap(diagnostic),
            }
        }
    } else {
        ConstructionOutcome::Failure { diagnostic: Handle::wrap(diagnostic) }
    }
}

impl Runtime {
    /// The strict caller policy: any diagnostic is treated as failure.
    /// When a usable object came along with the diagnostic, the object's
    /// one retain is given back before the diagnostic is surfaced, so the
    /// strict path leaks nothing.
    pub fn strict_construction_result(&mut self, outcome: ConstructionOutcome) -> (r: Result<
        Handle,
        Handle,
    >)
        requires
            old(self).wf(),
            outcome matches ConstructionOutcome::SuccessWithDiagnostic { object, .. } ==> old(
                self,
            ).is_live(object.reference()),
        ensures
            final(self).wf(),
            outcome matches ConstructionOutcome::Success { object } ==> r == Ok::<Handle, Handle>(
                object,
            ) && final(self).counts() == old(self).counts(),
            outcome matches ConstructionOutcome::SuccessWithDiagnostic { object, diagnostic } ==> r
                == Err::<Handle, Handle>(diagnostic) && final(self).counts() == released(
                old(self).counts(),
                object.reference() - 1,
            ),
            outcome matches ConstructionOutcome::Failure { diagnostic } ==> r == Err::<
                Handle,
                Handle,
            >(diagnostic) && final(self).counts() == old(self).counts(),
            final(self).object_count() == old(self).object_count(),
            final(self).data_seq() == old(self).data_seq(),
    {
        match outcome {
            ConstructionOutcome::Success { object } => Ok(object),
            ConstructionOutcome::SuccessWithDiagnostic { object, diagnostic } => {
                self.release_handle(object);
                Err(diagnostic)
            },
            ConstructionOutcome::Failure { diagnostic } => Err(diagnostic),
        }
    }
}

} // verus!
