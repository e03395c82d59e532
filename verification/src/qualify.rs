//! The generic reference qualifier: given a named reference and the
//! declaration its name resolves to, appends a default type argument for
//! every omitted trailing type parameter, substituting `any` (with an
//! implicit-any diagnostic) where no default exists.

use vstd::prelude::*;

use crate::diag::Diag;
use crate::ty::KwKind;
use crate::ty::Ty;
use crate::ty::TyV;
use crate::ty::TpV;
use crate::ty::TypeParam;
use crate::ty::any_ty;
use crate::ty::copy_ty;
use crate::ty::copy_tys;
use crate::ty::opt_tys_view;
use crate::ty::opt_tps_view;
use crate::ty::lemma_tps_view;
use crate::ty::lemma_tys_view;
use crate::ty::tp_view;
use crate::ty::tps_view;
use crate::ty::ty_view;
use crate::ty::tys_view;

verus! {

/// The type-parameter list the qualifier extracts from a resolved
/// declaration: only alias, interface and class declarations carry one.
pub open spec fn decl_type_params(t: TyV) -> Option<Seq<TpV>> {
    match t {
        TyV::Alias { type_params, .. } => type_params,
        TyV::Interface { type_params, .. } => type_params,
        TyV::Class { type_params, .. } => type_params,
        _ => Option::None,
    }
}

/// The argument a type parameter contributes when omitted: its default, or
/// `any` at the parameter's declaration span.
pub open spec fn default_or_any(p: TpV) -> TyV {
    match p.default {
        Option::Some(d) => *d,
        Option::None => TyV::Keyword { span: p.span, kind: KwKind::Any },
    }
}

/// The supplied arguments extended with one entry per declared parameter in
/// `[args.len(), b)`.
pub open spec fn filled_args(args: Seq<TyV>, tps: Seq<TpV>, b: int) -> Seq<TyV>
    decreases b,
{
    if b <= args.len() {
        args
    } else {
        filled_args(args, tps, b - 1) + seq![default_or_any(tps[b - 1])]
    }
}

/// The implicit-any diagnostics emitted while filling parameters `[a, b)`:
/// one per parameter in that range with no default, in order.
pub open spec fn fill_diags(tps: Seq<TpV>, a: int, b: int) -> Seq<Diag>
    decreases b - a,
{
    if b <= a {
        Seq::empty()
    } else {
        fill_diags(tps, a, b - 1) + (if tps[b - 1].default is None {
            seq![(Diag::ImplicitAny { span: tps[b - 1].span })]
        } else {
            Seq::empty()
        })
    }
}

/// The number of type arguments already supplied by a reference.
pub open spec fn arg_count(r: TyV) -> int {
    match r {
        TyV::Ref { type_args: Option::Some(args), .. } => args.len() as int,
        _ => 0,
    }
}

/// Whether the qualifier rewrites `r` against `resolved`: the resolved
/// declaration must carry type parameters and the reference must supply
/// fewer arguments than declared.
pub open spec fn under_supplied(r: TyV, resolved: TyV) -> bool {
    match decl_type_params(resolved) {
        Option::Some(tps) => arg_count(r) < tps.len(),
        Option::None => false,
    }
}

/// The qualified reference: the supplied arguments extended to the declared
/// parameter count, and the result marked expansion-prevented.
pub open spec fn qualified(r: TyV, resolved: TyV) -> TyV {
    if under_supplied(r, resolved) {
        let tps = decl_type_params(resolved)->Some_0;
        match r {
            TyV::Ref { span, name, type_args, no_expand } => TyV::Ref {
                span,
                name,
                type_args: Option::Some(
                    filled_args(
                        match type_args {
                            Option::Some(args) => args,
                            Option::None => Seq::empty(),
                        },
                        tps,
                        tps.len() as int,
                    ),
                ),
                no_expand: true,
            },
            _ => r,
        }
    } else {
        r
    }
}

/// The diagnostics qualification emits: implicit-any for every filled
/// parameter with no default.
pub open spec fn qualify_diags(r: TyV, resolved: TyV) -> Seq<Diag> {
    if under_supplied(r, resolved) {
        let tps = decl_type_params(resolved)->Some_0;
        fill_diags(tps, arg_count(r), tps.len() as int)
    } else {
        Seq::empty()
    }
}

/// Extracts the type-parameter list of a resolved declaration, as
/// `decl_type_params` describes.
fn decl_tps<'a>(t: &'a Ty) -> (r: Option<&'a Vec<TypeParam>>)
    ensures
        match r {
            Option::Some(v) => decl_type_params(t@) == Option::Some(tps_view(v@)),
            Option::None => decl_type_params(t@) matches Option::None,
        },
{
    match t {
        Ty::Alias { type_params, .. } => opt_tps_ref(type_params),
        Ty::Interface { type_params, .. } => opt_tps_ref(type_params),
        Ty::Class { type_params, .. } => opt_tps_ref(type_params),
        _ => Option::None,
    }
}

fn opt_tps_ref<'a>(o: &'a Option<Vec<TypeParam>>) -> (r: Option<&'a Vec<TypeParam>>)
    ensures
        match r {
            Option::Some(v) => opt_tps_view(*o) == Option::Some(tps_view(v@)),
            Option::None => opt_tps_view(*o) is None,
        },
{
    match o {
        Option::Some(v) => Option::Some(v),
        Option::None => Option::None,
    }
}

/// The number of type arguments in an optional argument list.
fn opt_args_len(o: &Option<Vec<Ty>>) -> (n: usize)
    ensures
        n as int == (match opt_tys_view(*o) {
            Option::Some(s) => s.len() as int,
            Option::None => 0,
        }),
{
    match o {
        Option::Some(v) => {
            proof {
                lemma_tys_view(v@);
            }
            v.len()
        }
        Option::None => 0,
    }
}

/// The supplied argument list, duplicated, or an empty one.
fn args_or_empty(o: &Option<Vec<Ty>>) -> (r: Vec<Ty>)
    ensures
        tys_view(r@) == (match opt_tys_view(*o) {
            Option::Some(s) => s,
            Option::None => Seq::<TyV>::empty(),
        }),
{
    match o {
        Option::Some(v) => copy_tys(v),
        Option::None => Vec::new(),
    }
}

/// Fills the type arguments of the reference `r` using the declaration its
/// name resolved to: for every declared parameter beyond those supplied, the
/// parameter's default is appended, or `any` with an implicit-any diagnostic
/// pushed to `sink`.  A reference that is fully supplied, or whose
/// resolution carries no type parameters, is returned unchanged.
pub fn qualify_ref_type_args(r: &Ty, resolved: &Ty, sink: &mut Vec<Diag>) -> (q: Ty)
    requires
        *r matches Ty::Ref { .. },
    ensures
        q@ == qualified(r@, resolved@),
        final(sink)@ == old(sink)@ + qualify_diags(r@, resolved@),
{
    let tps_opt = decl_tps(resolved);
    let tps: &Vec<TypeParam> = match tps_opt {
        Option::Some(v) => v,
        Option::None => {
            proof {
                assert(sink@ =~= sink@ + qualify_diags(r@, resolved@));
            }
            return copy_ty(r);
        }
    };
    proof {
        lemma_tps_view(tps@);
    }
    match r {
        Ty::Ref { span, name, type_args, no_expand } => {
            let argc = opt_args_len(type_args);
            proof {
                assert(r@ matches TyV::Ref { .. });
                assert(arg_count(r@) == argc as int);
            }
            if tps.len() <= argc {
                proof {
                    assert(!under_supplied(r@, resolved@));
                    assert(sink@ =~= sink@ + qualify_diags(r@, resolved@));
                }
                return copy_ty(r);
            }
            let mut args: Vec<Ty> = args_or_empty(type_args);
            let ghost orig_args = tys_view(args@);
            proof {
                assert(tys_view(args@) =~= filled_args(orig_args, tps_view(tps@), argc as int));
                assert(sink@ =~= old(sink)@ + fill_diags(tps_view(tps@), argc as int, argc as int));
            }
            let n = tps.len();
            let mut k = argc;
            while k < n
                invariant
                    argc <= k <= n,
                    n == tps@.len(),
                    tps_view(tps@).len() == n,
                    forall|j: int| 0 <= j < n ==> tps_view(tps@)[j] == tp_view(tps@[j]),
                    tys_view(args@) == filled_args(orig_args, tps_view(tps@), k as int),
                    sink@ == old(sink)@ + fill_diags(tps_view(tps@), argc as int, k as int),
                    orig_args.len() == argc,
                decreases n - k,
            {
                let ghost old_args = args@;
                let ghost old_sink = sink@;
                match &tps[k].default {
                    Option::Some(d) => {
                        args.push(copy_ty(d));
                        proof {
                            assert(tp_view(tps@[k as int]).default is Some);
                            assert(ty_view(args@.last()) == default_or_any(
                                tps_view(tps@)[k as int],
                            ));
                        }
                    }
                    Option::None => {
                        let sp = tps[k].span;
                        sink.push(Diag::ImplicitAny { span: sp });
                        args.push(any_ty(sp));
                        proof {
                            assert(tp_view(tps@[k as int]).default is None);
                            assert(ty_view(args@.last()) == default_or_any(
                                tps_view(tps@)[k as int],
                            ));
                            assert(sink@ =~= old_sink + seq![
                                (Diag::ImplicitAny { span: tps_view(tps@)[k as int].span }),
                            ]);
                        }
                    }
                }
                proof {
                    lemma_tys_view(old_args);
                    lemma_tys_view(args@);
                    assert(args@.drop_last() =~= old_args);
                    assert(tys_view(args@) =~= tys_view(old_args) + seq![
                        ty_view(args@.last()),
                    ]);
                    assert(sink@ =~= old(sink)@ + fill_diags(
                        tps_view(tps@),
                        argc as int,
                        (k + 1) as int,
                    ));
                }
                k = k + 1;
            }
            let ghost final_args = tys_view(args@);
            proof {
                assert(final_args == filled_args(orig_args, tps_view(tps@), n as int));
                assert(opt_tys_view(Option::Some(args)) == Option::Some(final_args));
            }
            let q = Ty::Ref {
                span: *span,
                name: *name,
                type_args: Option::Some(args),
                no_expand: true,
            };
            proof {
                assert(under_supplied(r@, resolved@));
                assert(r@ matches TyV::Ref { type_args: rta, .. } && rta == opt_tys_view(
                    *type_args,
                ));
                assert((match opt_tys_view(*type_args) {
                    Option::Some(a) => a,
                    Option::None => Seq::<TyV>::empty(),
                }) == orig_args);
                assert(decl_type_params(resolved@) == Option::Some(tps_view(tps@)));
                assert(q@ matches TyV::Ref { type_args: qa, .. } && qa == Option::Some(
                    final_args,
                ));
                assert(n as int == tps_view(tps@).len() as int);
                assert(qualified(r@, resolved@) matches TyV::Ref { type_args: sa, .. }
                    && sa == Option::Some(
                    filled_args(orig_args, tps_view(tps@), tps_view(tps@).len() as int),
                ));
                assert(q@ =~= qualified(r@, resolved@));
            }
            q
        }
        _ => {
            proof {
                assert(false);
            }
            copy_ty(r)
        }
    }
}

} // verus!
