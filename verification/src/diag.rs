//! Diagnostics: the errors this pipeline emits itself, and the terminating
//! failures its collaborators hand back, carried in one shape so that a
//! single sink can collect them all.

use vstd::prelude::*;

use crate::ty::Span;

verus! {

/// One diagnostic.  The first three are produced by this pipeline; `Collab`
/// carries a terminating failure from one of the checker's collaborators
/// (name resolution, pattern validation, expansion, assignability), with an
/// opaque code identifying it.
#[derive(Clone, Copy, PartialEq, Eq, Structural, Debug)]
pub enum Diag {
    /// A required parameter follows an optional one.
    ParamOrder { span: Span },
    /// A type parameter had neither a supplied argument nor a default;
    /// `any` was substituted.
    ImplicitAny { span: Span },
    /// A non-void return type was declared but the body never returns.
    ReturnRequired { span: Span },
    /// A failure propagated from a collaborator.
    Collab { span: Span, code: u64 },
}

} // verus!
