//! The function-signature stage of a structurally-typed checker: it
//! validates parameter-list shape, reconciles declared and inferred return
//! types, fills defaulted generic type arguments, and rewrites resolved
//! return types so the enclosing function's own type parameters are
//! recognized again.  Collaborator verdicts (name resolution, pattern
//! validation, expansion, statement-level inference, assignability) enter
//! as values; every decision taken on them is verified.

pub mod diag;
pub mod entry;
pub mod ledger;
pub mod qualify;
pub mod subst;
pub mod ty;
pub mod validate;
