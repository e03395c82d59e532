//! The function-signature validator: parameter-list shape checking,
//! declared-return-type normalization, reconciliation of declared and
//! inferred return types, and the mutation-ledger write.  Collaborator
//! verdicts (type-parameter validation, pattern validation, expansion,
//! statement-level inference, assignability) enter as values; this module
//! holds every decision taken on them.

use vstd::prelude::*;

use crate::diag::Diag;
use crate::ledger::Ledger;
use crate::qualify::qualified;
use crate::qualify::qualify_diags;
use crate::qualify::qualify_ref_type_args;
use crate::ty::FnParam;
use crate::ty::KwKind;
use crate::ty::PatShape;
use crate::ty::Span;
use crate::ty::Ty;
use crate::ty::TyV;
use crate::ty::TpV;
use crate::ty::TypeParam;
use crate::ty::ParamV;
use crate::ty::any_ty;
use crate::ty::copy_opt_tys;
use crate::ty::copy_ty;
use crate::ty::opt_tys_view;
use crate::ty::tp_view;
use crate::ty::lemma_params_view;
use crate::ty::lemma_tys_view;
use crate::ty::opt_tps_view;
use crate::ty::params_view;
use crate::ty::ty_view;
use crate::ty::tys_view;

verus! {

/// A parameter as the shape check reads it: its location and pattern shape.
#[derive(Clone, Copy, PartialEq, Eq, Structural, Debug)]
pub struct RawParam {
    pub span: Span,
    pub pat: PatShape,
}

/// Whether the parameter is an identifier marked optional.
pub open spec fn is_optional_ident(p: RawParam) -> bool {
    p.pat == (PatShape::Ident { optional: true })
}

/// What may follow an optional parameter: another optional identifier or a
/// rest parameter.
pub open spec fn allowed_after_optional(p: RawParam) -> bool {
    is_optional_ident(p) || p.pat == PatShape::Rest
}

/// Whether some parameter before position `j` is an optional identifier.
pub open spec fn has_optional_before(s: Seq<RawParam>, j: int) -> bool {
    exists|i: int| 0 <= i < j && is_optional_ident(s[i])
}

/// Whether parameter `j` breaks the ordering rule: an optional identifier
/// stands before it, and it is neither optional nor rest.
pub open spec fn order_violation(s: Seq<RawParam>, j: int) -> bool {
    has_optional_before(s, j) && !allowed_after_optional(s[j])
}

/// The ordering diagnostics for parameters `[0, n)`, in order: one per
/// violating position, at that parameter's span.
pub open spec fn order_diags_upto(s: Seq<RawParam>, n: int) -> Seq<Diag>
    decreases n,
{
    if n <= 0 {
        Seq::empty()
    } else {
        order_diags_upto(s, n - 1) + (if order_violation(s, n - 1) {
            seq![(Diag::ParamOrder { span: s[n - 1].span })]
        } else {
            Seq::empty()
        })
    }
}

/// The ordering diagnostics for the whole parameter list.
pub open spec fn param_order_diags(s: Seq<RawParam>) -> Seq<Diag> {
    order_diags_upto(s, s.len() as int)
}

/// The number of violating positions in `[0, n)`.
pub open spec fn order_violation_count(s: Seq<RawParam>, n: int) -> int
    decreases n,
{
    if n <= 0 {
        0
    } else {
        order_violation_count(s, n - 1) + (if order_violation(s, n - 1) {
            1int
        } else {
            0int
        })
    }
}

/// The shape check reports exactly one ordering diagnostic per violating
/// position, and none at all when no position violates the rule.
pub proof fn lemma_param_order_exact(s: Seq<RawParam>)
    ensures
        param_order_diags(s).len() == order_violation_count(s, s.len() as int),
        param_order_diags(s).len() == 0 <==> (forall|j: int|
            0 <= j < s.len() ==> !order_violation(s, j)),
{
    lemma_order_upto(s, s.len() as int);
}

proof fn lemma_order_upto(s: Seq<RawParam>, n: int)
    requires
        n <= s.len(),
    ensures
        order_diags_upto(s, n).len() == order_violation_count(s, n),
        order_violation_count(s, n) >= 0,
        order_violation_count(s, n) == 0 <==> (forall|j: int| 0 <= j < n ==> !order_violation(s, j)),
    decreases n,
{
    if n > 0 {
        lemma_order_upto(s, n - 1);
    }
}

/// Walks the parameter list once and reports each ordering violation, as
/// `param_order_diags` describes.
pub fn check_param_order(params: &Vec<RawParam>, sink: &mut Vec<Diag>)
    ensures
        final(sink)@ == old(sink)@ + param_order_diags(params@),
{
    let mut has_optional = false;
    let n = params.len();
    proof {
        assert(sink@ =~= old(sink)@ + order_diags_upto(params@, 0));
    }
    for i in 0..n
        invariant
            n == params@.len(),
            has_optional == has_optional_before(params@, i as int),
            sink@ == old(sink)@ + order_diags_upto(params@, i as int),
        decreases n - i,
    {
        let p = params[i];
        if has_optional {
            match p.pat {
                PatShape::Ident { optional: true } => {}
                PatShape::Rest => {}
                _ => {
                    sink.push(Diag::ParamOrder { span: p.span });
                }
            }
        }
        proof {
            assert(order_violation(params@, i as int) ==> has_optional_before(
                params@,
                i as int,
            ));
        }
        match p.pat {
            PatShape::Ident { optional } => {
                if optional {
                    has_optional = true;
                }
            }
            _ => {}
        }
        proof {
            if is_optional_ident(params@[i as int]) {
                assert(has_optional_before(params@, (i + 1) as int));
            }
            if has_optional_before(params@, (i + 1) as int) {
                let w = choose|w: int| 0 <= w < i + 1 && is_optional_ident(params@[w]);
                if w < i {
                    assert(has_optional_before(params@, i as int));
                }
            }
        }
    }
    proof {
        assert(final(sink)@ =~= old(sink)@ + param_order_diags(params@));
    }
}

/// The raw function node, reduced to what the validator itself reads.
pub struct FnInput {
    pub span: Span,
    /// The node identity the mutation ledger is keyed by.
    pub node_id: u64,
    /// The parameter patterns, for the shape check.
    pub params: Vec<RawParam>,
    /// Passed to the statement-level inference collaborator; the validator
    /// takes no decision on them itself.
    pub is_async: bool,
    pub is_generator: bool,
    /// Whether the node has a body; an overload signature has none.
    pub has_body: bool,
}

/// The canonical function type the validator produces.
#[derive(PartialEq, Eq, Debug)]
pub struct FnSig {
    pub span: Span,
    pub params: Vec<FnParam>,
    pub type_params: Option<Vec<TypeParam>>,
    pub ret_ty: Ty,
}

/// Mathematical view of a `FnSig`.
#[verifier::ext_equal]
pub struct FnSigV {
    pub span: Span,
    pub params: Seq<ParamV>,
    pub type_params: Option<Seq<TpV>>,
    pub ret_ty: TyV,
}

impl View for FnSig {
    type V = FnSigV;

    open spec fn view(&self) -> FnSigV {
        FnSigV {
            span: self.span,
            params: params_view(self.params@),
            type_params: opt_tps_view(self.type_params),
            ret_ty: ty_view(self.ret_ty),
        }
    }
}

/// The collaborator verdicts one validation consumes, each as the
/// collaborator handed it back: `Err` is a terminating failure.
pub struct CollabOutcome {
    /// Validation of the declared type-parameter list.
    pub type_params: Result<Option<Vec<TypeParam>>, Diag>,
    /// Pattern validation of each parameter, in declaration mode.
    pub params: Result<Vec<FnParam>, Diag>,
    /// Full expansion of each validated parameter's type, in order;
    /// consulted only outside compiler-builtin sources.
    pub expanded_params: Result<Vec<Ty>, Diag>,
    /// Validation of the written return-type annotation, if any.
    pub declared_ret: Result<Option<Ty>, Diag>,
    /// Statement-level return inference over the body: `None` means the body
    /// never returns; consulted only when the node has a body.
    pub inferred_ret: Result<Option<Ty>, Diag>,
    /// Resolution of the inferred return type's name; consulted only when
    /// the inferred return type is a reference.
    pub resolved_inferred: Result<Ty, Diag>,
    /// Full expansion of the declared return type; consulted only when both
    /// a declared and an inferred return type exist.
    pub expanded_declared: Result<Ty, Diag>,
    /// The assignability collaborator's verdict on the expanded declared
    /// type against the inferred one; consulted in the same case.
    pub assign_ok: Result<(), Diag>,
}

/// The source location a type carries.
pub open spec fn span_of(t: TyV) -> Span {
    match t {
        TyV::Keyword { span, .. } => span,
        TyV::Ref { span, .. } => span,
        TyV::Tuple { span, .. } => span,
        TyV::Func { span, .. } => span,
        TyV::Class { span, .. } => span,
        TyV::ClassInstance { span, .. } => span,
        TyV::Alias { span, .. } => span,
        TyV::Interface { span, .. } => span,
        TyV::Param(p) => p.span,
    }
}

/// Normalization of a declared return type: a bare class type means "an
/// instance of that class", and a named reference is marked
/// expansion-prevented so its defaults are not inlined before
/// reconciliation.
pub open spec fn normalize_declared(d: TyV) -> TyV {
    match d {
        TyV::Class { span, .. } => TyV::ClassInstance {
            span,
            of: Box::new(d),
            type_args: Option::None,
        },
        TyV::Ref { span, name, type_args, no_expand } => TyV::Ref {
            span,
            name,
            type_args,
            no_expand: true,
        },
        _ => d,
    }
}

/// Declared return types that do not demand a return statement.
pub open spec fn ret_exempt(d: TyV) -> bool {
    match d {
        TyV::Keyword { kind, .. } => kind == KwKind::Any || kind == KwKind::Void || kind
            == KwKind::Never,
        _ => false,
    }
}

/// The validated parameters with each type replaced by its expansion.
pub open spec fn with_expanded_tys(ps: Seq<ParamV>, tys: Seq<TyV>) -> Seq<ParamV> {
    Seq::new(
        ps.len(),
        |i: int|
            ParamV {
                span: ps[i].span,
                pat: ps[i].pat,
                ty: if 0 <= i < tys.len() {
                    tys[i]
                } else {
                    ps[i].ty
                },
            },
    )
}

/// Everything one validation decides: the signature or the terminating
/// failure, the diagnostics appended to the sink in order, and the return
/// type offered to the mutation ledger (only when no annotation was
/// written).
#[verifier::ext_equal]
pub struct VerdictV {
    pub sig: Result<FnSigV, Diag>,
    pub diags: Seq<Diag>,
    pub record: Option<TyV>,
}

pub open spec fn err_verdict(d: Diag, diags: Seq<Diag>) -> VerdictV {
    VerdictV { sig: Result::Err(d), diags, record: Option::None }
}

/// Reconciliation once an inferred return type exists: with a declared type,
/// its expansion and the assignability verdict are consulted and the
/// declared type is kept; with none, the inferred type is the result and is
/// offered to the ledger.
pub open spec fn reconcile_spec(
    f: FnInput,
    c: CollabOutcome,
    diags: Seq<Diag>,
    tpsv: Option<Seq<TpV>>,
    paramsv: Seq<ParamV>,
    declared: Option<TyV>,
    t: TyV,
) -> VerdictV {
    match declared {
        Option::Some(d) => {
            if c.expanded_declared is Err {
                err_verdict(c.expanded_declared->Err_0, diags)
            } else if c.assign_ok is Err {
                err_verdict(c.assign_ok->Err_0, diags)
            } else {
                VerdictV {
                    sig: Result::Ok(
                        FnSigV { span: f.span, params: paramsv, type_params: tpsv, ret_ty: d },
                    ),
                    diags,
                    record: Option::None,
                }
            }
        }
        Option::None => VerdictV {
            sig: Result::Ok(
                FnSigV { span: f.span, params: paramsv, type_params: tpsv, ret_ty: t },
            ),
            diags,
            record: Option::Some(t),
        },
    }
}

/// The branch for an inferred return type: an inferred reference is first
/// qualified against its resolution.
pub open spec fn infer_some_spec(
    f: FnInput,
    c: CollabOutcome,
    base: Seq<Diag>,
    tpsv: Option<Seq<TpV>>,
    paramsv: Seq<ParamV>,
    declared: Option<TyV>,
    t: TyV,
) -> VerdictV {
    if t is Ref {
        if c.resolved_inferred is Err {
            err_verdict(c.resolved_inferred->Err_0, base)
        } else {
            let rres = ty_view(c.resolved_inferred->Ok_0);
            reconcile_spec(
                f,
                c,
                base + qualify_diags(t, rres),
                tpsv,
                paramsv,
                declared,
                qualified(t, rres),
            )
        }
    } else {
        reconcile_spec(f, c, base, tpsv, paramsv, declared, t)
    }
}

/// The branch for a body that never returns: `void` is the effective return
/// type whatever was declared; a declared type other than `any`, `void` or
/// `never` draws a return-required diagnostic at its span.
pub open spec fn infer_none_spec(
    f: FnInput,
    base: Seq<Diag>,
    tpsv: Option<Seq<TpV>>,
    paramsv: Seq<ParamV>,
    declared: Option<TyV>,
) -> VerdictV {
    let sp = match declared {
        Option::Some(d) => span_of(d),
        Option::None => f.span,
    };
    let void_v = TyV::Keyword { span: sp, kind: KwKind::Void };
    let rr = match declared {
        Option::Some(d) => if ret_exempt(d) {
            Seq::<Diag>::empty()
        } else {
            seq![(Diag::ReturnRequired { span: sp })]
        },
        Option::None => Seq::<Diag>::empty(),
    };
    VerdictV {
        sig: Result::Ok(
            FnSigV { span: f.span, params: paramsv, type_params: tpsv, ret_ty: void_v },
        ),
        diags: base + rr,
        record: if declared is None {
            Option::Some(void_v)
        } else {
            Option::None
        },
    }
}

/// The return-type stage, once parameters and the declared annotation are
/// settled.
pub open spec fn validate_ret_spec(
    f: FnInput,
    c: CollabOutcome,
    base: Seq<Diag>,
    tpsv: Option<Seq<TpV>>,
    paramsv: Seq<ParamV>,
    declared: Option<TyV>,
) -> VerdictV {
    if !f.has_body {
        let ret = match declared {
            Option::Some(d) => d,
            Option::None => TyV::Keyword { span: f.span, kind: KwKind::Any },
        };
        VerdictV {
            sig: Result::Ok(
                FnSigV { span: f.span, params: paramsv, type_params: tpsv, ret_ty: ret },
            ),
            diags: base,
            record: if declared is None {
                Option::Some(TyV::Keyword { span: f.span, kind: KwKind::Any })
            } else {
                Option::None
            },
        }
    } else if c.inferred_ret is Err {
        err_verdict(c.inferred_ret->Err_0, base)
    } else {
        match c.inferred_ret->Ok_0 {
            Option::Some(t0) => infer_some_spec(f, c, base, tpsv, paramsv, declared, ty_view(t0)),
            Option::None => infer_none_spec(f, base, tpsv, paramsv, declared),
        }
    }
}

/// What `validate_function` decides, in full: which collaborator failure
/// terminates it, the produced signature, the diagnostics, and the ledger
/// offer.
pub open spec fn validate_spec(f: FnInput, c: CollabOutcome, builtin: bool) -> VerdictV {
    let base = param_order_diags(f.params@);
    if c.type_params is Err {
        err_verdict(c.type_params->Err_0, base)
    } else if c.params is Err {
        err_verdict(c.params->Err_0, base)
    } else if !builtin && c.expanded_params is Err {
        err_verdict(c.expanded_params->Err_0, base)
    } else if c.declared_ret is Err {
        err_verdict(c.declared_ret->Err_0, base)
    } else {
        let tpsv = opt_tps_view(c.type_params->Ok_0);
        let params0 = params_view(c.params->Ok_0@);
        let paramsv = if builtin {
            params0
        } else {
            with_expanded_tys(params0, tys_view(c.expanded_params->Ok_0@))
        };
        let declared = match c.declared_ret->Ok_0 {
            Option::Some(d) => Option::Some(normalize_declared(ty_view(d))),
            Option::None => Option::<TyV>::None,
        };
        validate_ret_spec(f, c, base, tpsv, paramsv, declared)
    }
}

/// The validated parameters with each type replaced by its expansion, as
/// `with_expanded_tys` describes.
fn merge_expanded(prm: &Vec<FnParam>, exp: &Vec<Ty>) -> (r: Vec<FnParam>)
    ensures
        params_view(r@) == with_expanded_tys(params_view(prm@), tys_view(exp@)),
{
    proof {
        lemma_params_view(prm@);
        lemma_tys_view(exp@);
    }
    let mut out: Vec<FnParam> = Vec::new();
    let n = prm.len();
    for i in 0..n
        invariant
            n == prm@.len(),
            out@.len() == i,
            params_view(prm@).len() == n,
            tys_view(exp@).len() == exp@.len(),
            forall|k: int| 0 <= k < n ==> params_view(prm@)[k] == (ParamV {
                span: prm@[k].span,
                pat: prm@[k].pat,
                ty: ty_view(prm@[k].ty),
            }),
            forall|k: int| 0 <= k < exp@.len() ==> tys_view(exp@)[k] == ty_view(exp@[k]),
            forall|k: int|
                0 <= k < i ==> out@[k].span == prm@[k].span && out@[k].pat == prm@[k].pat
                    && ty_view(out@[k].ty) == with_expanded_tys(
                    params_view(prm@),
                    tys_view(exp@),
                )[k].ty,
        decreases n - i,
    {
        let p = &prm[i];
        let t = if i < exp.len() {
            copy_ty(&exp[i])
        } else {
            copy_ty(&p.ty)
        };
        out.push(FnParam { span: p.span, pat: p.pat, ty: t });
    }
    proof {
        lemma_params_view(out@);
        assert(params_view(out@) =~= with_expanded_tys(params_view(prm@), tys_view(exp@)));
    }
    out
}

/// Normalizes a declared return type, as `normalize_declared` describes.
fn normalize_declared_ty(d: &Ty) -> (r: Ty)
    ensures
        r@ == normalize_declared(d@),
{
    match d {
        Ty::Class { span, .. } => {
            let cls = copy_ty(d);
            let q = Ty::ClassInstance { span: *span, of: Box::new(cls), type_args: Option::None };
            proof {
                assert(q@ matches TyV::ClassInstance { type_args: ta, .. } && ta
                    == opt_tys_view(Option::<Vec<Ty>>::None));
            }
            q
        }
        Ty::Ref { span, name, type_args, no_expand } => {
            let q = Ty::Ref {
                span: *span,
                name: *name,
                type_args: copy_opt_tys(type_args),
                no_expand: true,
            };
            q
        }
        _ => copy_ty(d),
    }
}

/// Whether a type is a named reference.
fn is_ref_ty(t: &Ty) -> (r: bool)
    ensures
        r == (t@ is Ref),
{
    match t {
        Ty::Ref { .. } => true,
        _ => false,
    }
}

/// The source location a type carries, as `span_of` describes.
pub fn span_of_ty(t: &Ty) -> (r: Span)
    ensures
        r == span_of(t@),
{
    match t {
        Ty::Keyword { span, .. } => *span,
        Ty::Ref { span, .. } => *span,
        Ty::Tuple { span, .. } => *span,
        Ty::Func { span, .. } => *span,
        Ty::Class { span, .. } => *span,
        Ty::ClassInstance { span, .. } => *span,
        Ty::Alias { span, .. } => *span,
        Ty::Interface { span, .. } => *span,
        Ty::Param(p) => {
            proof {
                assert(t@ == TyV::Param(tp_view(*p)));
            }
            p.span
        }
    }
}

/// Whether a declared return type is exempt from the return-required rule.
fn ret_exempt_ty(t: &Ty) -> (r: bool)
    ensures
        r == ret_exempt(t@),
{
    match t {
        Ty::Keyword { kind, .. } => match kind {
            KwKind::Any => true,
            KwKind::Void => true,
            KwKind::Never => true,
            _ => false,
        },
        _ => false,
    }
}

/// Validates one function node against its collaborators' verdicts:
/// parameter shape diagnostics first, then each terminating failure in
/// consultation order, then return-type inference, qualification and
/// reconciliation, with the ledger written when no annotation exists.
/// `validate_spec` states every decision.
pub fn validate_function(
    f: &FnInput,
    c: CollabOutcome,
    builtin: bool,
    ledger: &mut Ledger,
    sink: &mut Vec<Diag>,
) -> (r: Result<FnSig, Diag>)
    ensures
        ({
            let verdict = validate_spec(*f, c, builtin);
            &&& (match (r, verdict.sig) {
                (Result::Ok(sig), Result::Ok(sv)) => sig@ == sv,
                (Result::Err(d), Result::Err(dv)) => d == dv,
                _ => false,
            })
            &&& final(sink)@ == old(sink)@ + verdict.diags
            &&& final(ledger)@ == (match verdict.record {
                Option::Some(w) => if old(ledger)@.contains_key(f.node_id) {
                    old(ledger)@
                } else {
                    old(ledger)@.insert(f.node_id, w)
                },
                Option::None => old(ledger)@,
            })
        }),
{
    check_param_order(&f.params, sink);
    let tp_list = match c.type_params {
        Result::Ok(v) => v,
        Result::Err(d) => {
            return Result::Err(d);
        }
    };
    let prm = match c.params {
        Result::Ok(v) => v,
        Result::Err(d) => {
            return Result::Err(d);
        }
    };
    let params: Vec<FnParam> = if !builtin {
        let exp = match c.expanded_params {
            Result::Ok(v) => v,
            Result::Err(d) => {
                return Result::Err(d);
            }
        };
        merge_expanded(&prm, &exp)
    } else {
        prm
    };
    let declared_raw = match c.declared_ret {
        Result::Ok(v) => v,
        Result::Err(d) => {
            return Result::Err(d);
        }
    };
    let declared: Option<Ty> = match declared_raw {
        Option::Some(d) => Option::Some(normalize_declared_ty(&d)),
        Option::None => Option::None,
    };
    if !f.has_body {
        match declared {
            Option::Some(d) => {
                return Result::Ok(
                    FnSig { span: f.span, params, type_params: tp_list, ret_ty: d },
                );
            }
            Option::None => {
                let a = any_ty(f.span);
                ledger.record_if_absent(f.node_id, any_ty(f.span));
                return Result::Ok(
                    FnSig { span: f.span, params, type_params: tp_list, ret_ty: a },
                );
            }
        }
    }
    let inferred = match c.inferred_ret {
        Result::Ok(v) => v,
        Result::Err(d) => {
            return Result::Err(d);
        }
    };
    match inferred {
        Option::Some(t0) => {
            let t: Ty = if is_ref_ty(&t0) {
                let resolved = match &c.resolved_inferred {
                    Result::Ok(v) => v,
                    Result::Err(d) => {
                        return Result::Err(*d);
                    }
                };
                qualify_ref_type_args(&t0, resolved, sink)
            } else {
                t0
            };
            match declared {
                Option::Some(d) => {
                    match &c.expanded_declared {
                        Result::Ok(_) => {}
                        Result::Err(e) => {
                            return Result::Err(*e);
                        }
                    }
                    match &c.assign_ok {
                        Result::Ok(_) => {}
                        Result::Err(e) => {
                            return Result::Err(*e);
                        }
                    }
                    Result::Ok(FnSig { span: f.span, params, type_params: tp_list, ret_ty: d })
                }
                Option::None => {
                    ledger.record_if_absent(f.node_id, copy_ty(&t));
                    Result::Ok(FnSig { span: f.span, params, type_params: tp_list, ret_ty: t })
                }
            }
        }
        Option::None => {
            let sp = match &declared {
                Option::Some(d) => span_of_ty(d),
                Option::None => f.span,
            };
            match &declared {
                Option::Some(d) => {
                    if !ret_exempt_ty(d) {
                        sink.push(Diag::ReturnRequired { span: sp });
                    }
                }
                Option::None => {}
            }
            let void_ty = Ty::Keyword { span: sp, kind: KwKind::Void };
            if declared.is_none() {
                ledger.record_if_absent(f.node_id, Ty::Keyword { span: sp, kind: KwKind::Void });
            }
            Result::Ok(FnSig { span: f.span, params, type_params: tp_list, ret_ty: void_ty })
        }
    }
}

} // verus!
