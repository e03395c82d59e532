//! The function entry point: runs the validator, then the two
//! post-processing passes over the produced return type (type-parameter
//! back-substitution and tuple-element widening), and never fails outward —
//! a terminating failure is reported to the sink and `any` is produced.

use vstd::prelude::*;

use crate::diag::Diag;
use crate::ledger::Ledger;
use crate::subst::back_substitute;
use crate::subst::rw;
use crate::ty::ElemV;
use crate::ty::KwKind;
use crate::ty::TupleElem;
use crate::ty::Ty;
use crate::ty::TyV;
use crate::ty::any_ty;
use crate::ty::copy_ty;
use crate::ty::elems_view;
use crate::ty::lemma_elems_view;
use crate::ty::opt_tps_view;
use crate::ty::ty_view;
use crate::validate::CollabOutcome;
use crate::validate::FnInput;
use crate::validate::FnSig;
use crate::validate::validate_function;
use crate::validate::validate_spec;

verus! {

/// Widening of one tuple element: a literal `undefined` or `null` element
/// type is too narrow to be a useful inference result and becomes `any` at
/// the element's span.
pub open spec fn widen_elem(e: ElemV) -> ElemV {
    match e.ty {
        TyV::Keyword { kind, .. } => if kind == KwKind::Undefined || kind == KwKind::Null {
            ElemV { span: e.span, label: e.label, ty: TyV::Keyword { span: e.span, kind: KwKind::Any } }
        } else {
            e
        },
        _ => e,
    }
}

pub open spec fn widen_elems(s: Seq<ElemV>) -> Seq<ElemV> {
    Seq::new(s.len(), |i: int| widen_elem(s[i]))
}

/// Widening of a produced return type: only a tuple is touched, each of its
/// elements as `widen_elem` says.
pub open spec fn widen_tuple(t: TyV) -> TyV {
    match t {
        TyV::Tuple { span, elems } => TyV::Tuple { span, elems: widen_elems(elems) },
        _ => t,
    }
}

/// Whether a type is the literal `undefined` or `null` keyword.
fn is_undef_or_null(t: &Ty) -> (r: bool)
    ensures
        r == (match t@ {
            TyV::Keyword { kind, .. } => kind == KwKind::Undefined || kind == KwKind::Null,
            _ => false,
        }),
{
    match t {
        Ty::Keyword { kind, .. } => match kind {
            KwKind::Undefined => true,
            KwKind::Null => true,
            _ => false,
        },
        _ => false,
    }
}

/// Applies tuple-element widening, as `widen_tuple` describes.
pub fn widen_tuple_ty(t: &Ty) -> (r: Ty)
    ensures
        r@ == widen_tuple(t@),
{
    match t {
        Ty::Tuple { span, elems } => {
            proof {
                lemma_elems_view(elems@);
            }
            let mut out: Vec<TupleElem> = Vec::new();
            let n = elems.len();
            for i in 0..n
                invariant
                    n == elems@.len(),
                    out@.len() == i,
                    elems_view(elems@).len() == n,
                    forall|k: int| 0 <= k < n ==> elems_view(elems@)[k] == (ElemV {
                        span: elems@[k].span,
                        label: elems@[k].label,
                        ty: ty_view(elems@[k].ty),
                    }),
                    forall|k: int|
                        0 <= k < i ==> out@[k].span == elems@[k].span && out@[k].label
                            == elems@[k].label && ty_view(out@[k].ty) == widen_elem(
                            elems_view(elems@)[k],
                        ).ty,
                decreases n - i,
            {
                let e = &elems[i];
                if is_undef_or_null(&e.ty) {
                    out.push(TupleElem { span: e.span, label: e.label, ty: any_ty(e.span) });
                } else {
                    out.push(TupleElem { span: e.span, label: e.label, ty: copy_ty(&e.ty) });
                }
            }
            let q = Ty::Tuple { span: *span, elems: out };
            proof {
                lemma_elems_view(q->Tuple_elems@);
                assert(elems_view(q->Tuple_elems@) =~= widen_elems(elems_view(elems@)));
            }
            q
        }
        _ => copy_ty(t),
    }
}

/// One checker session's state, as this pipeline touches it: the
/// single-slot re-entrancy guard for the function being declared, whether
/// compiler-builtin sources are being validated, the mutation ledger, and
/// the diagnostic sink.
pub struct Session {
    /// Set while a named function is being validated, to support
    /// self-reference during inference; must be clear on entry.
    pub declaring_fn: Option<u64>,
    /// Compiler-builtin sources skip parameter-type expansion.
    pub is_builtin: bool,
    pub ledger: Ledger,
    pub sink: Vec<Diag>,
}

/// The type `visit_fn` produces: the validated function type with its
/// return type back-substituted and tuple-widened, or `any` after a
/// terminating failure.
pub open spec fn visit_outcome_ty(f: FnInput, c: CollabOutcome, builtin: bool) -> TyV {
    let verdict = validate_spec(f, c, builtin);
    match verdict.sig {
        Result::Ok(sv) => {
            let ret1 = match sv.type_params {
                Option::Some(tps) => rw(sv.ret_ty, tps),
                Option::None => sv.ret_ty,
            };
            TyV::Func {
                span: sv.span,
                params: sv.params,
                type_params: sv.type_params,
                ret_ty: Box::new(widen_tuple(ret1)),
            }
        }
        Result::Err(_) => TyV::Keyword { span: f.span, kind: KwKind::Any },
    }
}

/// The diagnostics `visit_fn` appends: the validator's, and after a
/// terminating failure that failure itself.
pub open spec fn visit_sink_diags(f: FnInput, c: CollabOutcome, builtin: bool) -> Seq<Diag> {
    let verdict = validate_spec(f, c, builtin);
    match verdict.sig {
        Result::Ok(_) => verdict.diags,
        Result::Err(d) => verdict.diags + seq![d],
    }
}

/// The ledger after `visit_fn`: the validator's write-once offer applied.
pub open spec fn visit_ledger(f: FnInput, c: CollabOutcome, builtin: bool, l0: Map<u64, TyV>) -> Map<
    u64,
    TyV,
> {
    match validate_spec(f, c, builtin).record {
        Option::Some(w) => if l0.contains_key(f.node_id) {
            l0
        } else {
            l0.insert(f.node_id, w)
        },
        Option::None => l0,
    }
}

/// Validates a function node and post-processes its type: the return type
/// is rewritten so references to the function's own type parameters become
/// parameter references, then tuple elements are widened.  A terminating
/// failure is reported to the sink and yields `any`, so the caller never
/// observes a hard failure.  For a named function the single-slot
/// `declaring_fn` guard is held for the duration and is clear again on
/// exit.
pub fn visit_fn(sess: &mut Session, name: Option<u64>, f: &FnInput, c: CollabOutcome) -> (r: Ty)
    requires
        name is Some ==> old(sess).declaring_fn is None,
    ensures
        r@ == visit_outcome_ty(*f, c, old(sess).is_builtin),
        final(sess).sink@ == old(sess).sink@ + visit_sink_diags(*f, c, old(sess).is_builtin),
        final(sess).ledger@ == visit_ledger(*f, c, old(sess).is_builtin, old(sess).ledger@),
        final(sess).declaring_fn == old(sess).declaring_fn,
        final(sess).is_builtin == old(sess).is_builtin,
{
    if name.is_some() {
        sess.declaring_fn = name;
    }
    let vr = validate_function(f, c, sess.is_builtin, &mut sess.ledger, &mut sess.sink);
    let out = match vr {
        Result::Ok(sig) => {
            let FnSig { span, params, type_params, ret_ty } = sig;
            let ret1 = match &type_params {
                Option::Some(tps) => back_substitute(&ret_ty, tps),
                Option::None => ret_ty,
            };
            let ret2 = widen_tuple_ty(&ret1);
            let q = Ty::Func { span, params, type_params, ret_ty: Box::new(ret2) };
            proof {
                assert(q@ matches TyV::Func { type_params: qt, .. } && qt == opt_tps_view(
                    q->Func_type_params,
                ));
            }
            q
        }
        Result::Err(d) => {
            sess.sink.push(d);
            any_ty(f.span)
        }
    };
    if name.is_some() {
        sess.declaring_fn = Option::None;
    }
    out
}

/// The front door for a named function declaration: validates and
/// post-processes as `visit_fn`, holding the `declaring_fn` guard under the
/// declared name.  The produced type is returned for the caller to register
/// as a variable binding in the enclosing scope; scope registration itself
/// belongs to the name-resolution collaborator.
pub fn validate_fn_decl(sess: &mut Session, ident: u64, f: &FnInput, c: CollabOutcome) -> (r: Ty)
    requires
        old(sess).declaring_fn is None,
    ensures
        r@ == visit_outcome_ty(*f, c, old(sess).is_builtin),
        final(sess).sink@ == old(sess).sink@ + visit_sink_diags(*f, c, old(sess).is_builtin),
        final(sess).ledger@ == visit_ledger(*f, c, old(sess).is_builtin, old(sess).ledger@),
        final(sess).declaring_fn == old(sess).declaring_fn,
        final(sess).is_builtin == old(sess).is_builtin,
{
    visit_fn(sess, Option::Some(ident), f, c)
}

/// The front door for a function expression, named or not: validates and
/// post-processes as `visit_fn`; the produced type is handed back to the
/// expression-evaluation caller.
pub fn validate_fn_expr(sess: &mut Session, ident: Option<u64>, f: &FnInput, c: CollabOutcome) -> (r:
    Ty)
    requires
        ident is Some ==> old(sess).declaring_fn is None,
    ensures
        r@ == visit_outcome_ty(*f, c, old(sess).is_builtin),
        final(sess).sink@ == old(sess).sink@ + visit_sink_diags(*f, c, old(sess).is_builtin),
        final(sess).ledger@ == visit_ledger(*f, c, old(sess).is_builtin, old(sess).ledger@),
        final(sess).declaring_fn == old(sess).declaring_fn,
        final(sess).is_builtin == old(sess).is_builtin,
{
    visit_fn(sess, ident, f, c)
}

} // verus!
