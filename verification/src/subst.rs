//! Type-parameter back-substitution: a bottom-up rewrite over a resolved type
//! tree that collapses an unqualified named reference whose name matches one
//! of the enclosing function's type parameters into a direct reference to
//! that parameter.

use vstd::prelude::*;

use crate::ty::FnParam;
use crate::ty::TupleElem;
use crate::ty::Ty;
use crate::ty::TyV;
use crate::ty::TypeParam;
use crate::ty::ElemV;
use crate::ty::ParamV;
use crate::ty::TpV;
use crate::ty::copy_tp;
use crate::ty::copy_opt_tps;
use crate::ty::lemma_tys_view;
use crate::ty::lemma_elems_view;
use crate::ty::lemma_params_view;
use crate::ty::lemma_tps_view;
use crate::ty::opt_tys_view;
use crate::ty::tp_view;
use crate::ty::tps_view;
use crate::ty::ty_view;
use crate::ty::tys_view;
use crate::ty::elems_view;
use crate::ty::params_view;

verus! {

/// The first type parameter in `ps` whose name is `name`, if any.
pub open spec fn lookup_tp(ps: Seq<TpV>, name: u64) -> Option<TpV>
    decreases ps.len(),
{
    if ps.len() == 0 {
        Option::None
    } else if ps[0].name == name {
        Option::Some(ps[0])
    } else {
        lookup_tp(ps.subrange(1, ps.len() as int), name)
    }
}

/// The back-substitution rewrite: children first, then the node itself; an
/// unqualified reference whose name matches a parameter becomes that
/// parameter.  Type-parameter declaration lists carried by a node are
/// metadata, not children, and pass through untouched.
pub open spec fn rw(t: TyV, ps: Seq<TpV>) -> TyV
    decreases t,
{
    match t {
        TyV::Keyword { .. } => t,
        TyV::Ref { span, name, type_args, no_expand } => match type_args {
            Option::None => match lookup_tp(ps, name) {
                Option::Some(p) => TyV::Param(p),
                Option::None => t,
            },
            Option::Some(args) => TyV::Ref {
                span,
                name,
                no_expand,
                type_args: Option::Some(rw_seq(args, ps)),
            },
        },
        TyV::Tuple { span, elems } => TyV::Tuple { span, elems: rw_elems(elems, ps) },
        TyV::Func { span, params, type_params, ret_ty } => TyV::Func {
            span,
            params: rw_params(params, ps),
            type_params,
            ret_ty: Box::new(rw(*ret_ty, ps)),
        },
        TyV::Class { .. } => t,
        TyV::ClassInstance { span, of, type_args } => TyV::ClassInstance {
            span,
            of: Box::new(rw(*of, ps)),
            type_args: match type_args {
                Option::Some(args) => Option::Some(rw_seq(args, ps)),
                Option::None => Option::None,
            },
        },
        TyV::Alias { span, type_params, to } => TyV::Alias {
            span,
            type_params,
            to: Box::new(rw(*to, ps)),
        },
        TyV::Interface { .. } => t,
        TyV::Param(_) => t,
    }
}

pub open spec fn rw_seq(s: Seq<TyV>, ps: Seq<TpV>) -> Seq<TyV>
    decreases s,
{
    if s.len() == 0 {
        Seq::empty()
    } else {
        seq![rw(s[0], ps)] + rw_seq(s.subrange(1, s.len() as int), ps)
    }
}

pub open spec fn rw_elems(s: Seq<ElemV>, ps: Seq<TpV>) -> Seq<ElemV>
    decreases s,
{
    if s.len() == 0 {
        Seq::empty()
    } else {
        seq![ElemV { span: s[0].span, label: s[0].label, ty: rw(s[0].ty, ps) }]
            + rw_elems(s.subrange(1, s.len() as int), ps)
    }
}

pub open spec fn rw_params(s: Seq<ParamV>, ps: Seq<TpV>) -> Seq<ParamV>
    decreases s,
{
    if s.len() == 0 {
        Seq::empty()
    } else {
        seq![ParamV { span: s[0].span, pat: s[0].pat, ty: rw(s[0].ty, ps) }]
            + rw_params(s.subrange(1, s.len() as int), ps)
    }
}

/// `rw_seq` maps the sequence element by element.
pub proof fn lemma_rw_seq(s: Seq<TyV>, ps: Seq<TpV>)
    ensures
        rw_seq(s, ps).len() == s.len(),
        forall|i: int| 0 <= i < s.len() ==> rw_seq(s, ps)[i] == rw(s[i], ps),
    decreases s.len(),
{
    if s.len() > 0 {
        lemma_rw_seq(s.subrange(1, s.len() as int), ps);
    }
}

/// `rw_elems` maps the sequence element by element.
pub proof fn lemma_rw_elems(s: Seq<ElemV>, ps: Seq<TpV>)
    ensures
        rw_elems(s, ps).len() == s.len(),
        forall|i: int|
            0 <= i < s.len() ==> rw_elems(s, ps)[i] == (ElemV {
                span: s[i].span,
                label: s[i].label,
                ty: rw(s[i].ty, ps),
            }),
    decreases s.len(),
{
    if s.len() > 0 {
        lemma_rw_elems(s.subrange(1, s.len() as int), ps);
    }
}

/// `rw_params` maps the sequence element by element.
pub proof fn lemma_rw_params(s: Seq<ParamV>, ps: Seq<TpV>)
    ensures
        rw_params(s, ps).len() == s.len(),
        forall|i: int|
            0 <= i < s.len() ==> rw_params(s, ps)[i] == (ParamV {
                span: s[i].span,
                pat: s[i].pat,
                ty: rw(s[i].ty, ps),
            }),
    decreases s.len(),
{
    if s.len() > 0 {
        lemma_rw_params(s.subrange(1, s.len() as int), ps);
    }
}

/// Back-substitution is idempotent: a second run over an already rewritten
/// tree changes nothing.
pub proof fn lemma_rw_idempotent(t: TyV, ps: Seq<TpV>)
    ensures
        rw(rw(t, ps), ps) == rw(t, ps),
    decreases t,
{
    match t {
        TyV::Keyword { .. } => {}
        TyV::Ref { span, name, type_args, no_expand } => match type_args {
            Option::None => {}
            Option::Some(args) => {
                lemma_rw_seq_idempotent(args, ps);
            }
        },
        TyV::Tuple { span, elems } => {
            lemma_rw_elems_idempotent(elems, ps);
        }
        TyV::Func { span, params, type_params, ret_ty } => {
            lemma_rw_params_idempotent(params, ps);
            lemma_rw_idempotent(*ret_ty, ps);
        }
        TyV::Class { .. } => {}
        TyV::ClassInstance { span, of, type_args } => {
            lemma_rw_idempotent(*of, ps);
            match type_args {
                Option::Some(args) => {
                    lemma_rw_seq_idempotent(args, ps);
                }
                Option::None => {}
            }
        }
        TyV::Alias { span, type_params, to } => {
            lemma_rw_idempotent(*to, ps);
        }
        TyV::Interface { .. } => {}
        TyV::Param(_) => {}
    }
}

pub proof fn lemma_rw_seq_idempotent(s: Seq<TyV>, ps: Seq<TpV>)
    ensures
        rw_seq(rw_seq(s, ps), ps) == rw_seq(s, ps),
    decreases s,
{
    lemma_rw_seq(s, ps);
    lemma_rw_seq(rw_seq(s, ps), ps);
    assert forall|i: int| 0 <= i < s.len() implies rw_seq(rw_seq(s, ps), ps)[i] == rw_seq(
        s,
        ps,
    )[i] by {
        lemma_rw_idempotent(s[i], ps);
    }
    assert(rw_seq(rw_seq(s, ps), ps) =~= rw_seq(s, ps));
}

pub proof fn lemma_rw_elems_idempotent(s: Seq<ElemV>, ps: Seq<TpV>)
    ensures
        rw_elems(rw_elems(s, ps), ps) == rw_elems(s, ps),
    decreases s,
{
    lemma_rw_elems(s, ps);
    lemma_rw_elems(rw_elems(s, ps), ps);
    assert forall|i: int| 0 <= i < s.len() implies rw_elems(rw_elems(s, ps), ps)[i] == rw_elems(
        s,
        ps,
    )[i] by {
        lemma_rw_idempotent(s[i].ty, ps);
    }
    assert(rw_elems(rw_elems(s, ps), ps) =~= rw_elems(s, ps));
}

pub proof fn lemma_rw_params_idempotent(s: Seq<ParamV>, ps: Seq<TpV>)
    ensures
        rw_params(rw_params(s, ps), ps) == rw_params(s, ps),
    decreases s,
{
    lemma_rw_params(s, ps);
    lemma_rw_params(rw_params(s, ps), ps);
    assert forall|i: int| 0 <= i < s.len() implies rw_params(rw_params(s, ps), ps)[i] == rw_params(
        s,
        ps,
    )[i] by {
        lemma_rw_idempotent(s[i].ty, ps);
    }
    assert(rw_params(rw_params(s, ps), ps) =~= rw_params(s, ps));
}

/// With no type parameters the rewrite changes nothing.
pub proof fn lemma_rw_empty(t: TyV)
    ensures
        rw(t, Seq::<TpV>::empty()) == t,
    decreases t,
{
    let ps = Seq::<TpV>::empty();
    match t {
        TyV::Keyword { .. } => {}
        TyV::Ref { span, name, type_args, no_expand } => match type_args {
            Option::None => {}
            Option::Some(args) => {
                lemma_rw_seq_empty(args);
                assert(t =~= rw(t, ps));
            }
        },
        TyV::Tuple { span, elems } => {
            lemma_rw_elems_empty(elems);
            assert(t =~= rw(t, ps));
        }
        TyV::Func { span, params, type_params, ret_ty } => {
            lemma_rw_params_empty(params);
            lemma_rw_empty(*ret_ty);
            assert(t =~= rw(t, ps));
        }
        TyV::Class { .. } => {}
        TyV::ClassInstance { span, of, type_args } => {
            lemma_rw_empty(*of);
            match type_args {
                Option::Some(args) => {
                    lemma_rw_seq_empty(args);
                }
                Option::None => {}
            }
            assert(t =~= rw(t, ps));
        }
        TyV::Alias { span, type_params, to } => {
            lemma_rw_empty(*to);
            assert(t =~= rw(t, ps));
        }
        TyV::Interface { .. } => {}
        TyV::Param(_) => {}
    }
}

proof fn lemma_rw_seq_empty(s: Seq<TyV>)
    ensures
        rw_seq(s, Seq::<TpV>::empty()) == s,
    decreases s,
{
    lemma_rw_seq(s, Seq::<TpV>::empty());
    assert forall|i: int| 0 <= i < s.len() implies rw_seq(s, Seq::<TpV>::empty())[i] == s[i] by {
        lemma_rw_empty(s[i]);
    }
    assert(rw_seq(s, Seq::<TpV>::empty()) =~= s);
}

proof fn lemma_rw_elems_empty(s: Seq<ElemV>)
    ensures
        rw_elems(s, Seq::<TpV>::empty()) == s,
    decreases s,
{
    lemma_rw_elems(s, Seq::<TpV>::empty());
    assert forall|i: int| 0 <= i < s.len() implies rw_elems(s, Seq::<TpV>::empty())[i] == s[i] by {
        lemma_rw_empty(s[i].ty);
        assert(rw_elems(s, Seq::<TpV>::empty())[i] =~= s[i]);
    }
    assert(rw_elems(s, Seq::<TpV>::empty()) =~= s);
}

proof fn lemma_rw_params_empty(s: Seq<ParamV>)
    ensures
        rw_params(s, Seq::<TpV>::empty()) == s,
    decreases s,
{
    lemma_rw_params(s, Seq::<TpV>::empty());
    assert forall|i: int| 0 <= i < s.len() implies rw_params(s, Seq::<TpV>::empty())[i] == s[i] by {
        lemma_rw_empty(s[i].ty);
        assert(rw_params(s, Seq::<TpV>::empty())[i] =~= s[i]);
    }
    assert(rw_params(s, Seq::<TpV>::empty()) =~= s);
}

/// Finds the first type parameter named `name`, as `lookup_tp` does.
fn find_tp<'a>(ps: &'a Vec<TypeParam>, name: u64) -> (r: Option<&'a TypeParam>)
    ensures
        match r {
            Option::Some(p) => lookup_tp(tps_view(ps@), name) == Option::Some(tp_view(*p)),
            Option::None => lookup_tp(tps_view(ps@), name) == Option::<TpV>::None,
        },
{
    proof {
        lemma_tps_view(ps@);
        assert(tps_view(ps@).subrange(0, ps@.len() as int) =~= tps_view(ps@));
    }
    let n = ps.len();
    for i in 0..n
        invariant
            n == ps@.len(),
            tps_view(ps@).len() == n,
            forall|k: int| 0 <= k < n ==> tps_view(ps@)[k] == tp_view(ps@[k]),
            forall|k: int| 0 <= k < i ==> ps@[k].name != name,
            lookup_tp(tps_view(ps@), name) == lookup_tp(
                tps_view(ps@).subrange(i as int, n as int),
                name,
            ),
        decreases n - i,
    {
        if ps[i].name == name {
            proof {
                let tail = tps_view(ps@).subrange(i as int, n as int);
                assert(tail[0] == tp_view(ps@[i as int]));
            }
            return Option::Some(&ps[i]);
        }
        proof {
            let tail = tps_view(ps@).subrange(i as int, n as int);
            assert(tail[0] == tp_view(ps@[i as int]));
            assert(tail.subrange(1, tail.len() as int) =~= tps_view(ps@).subrange(
                i + 1,
                n as int,
            ));
        }
    }
    proof {
        assert(tps_view(ps@).subrange(n as int, n as int) =~= Seq::<TpV>::empty());
    }
    Option::None
}

/// Runs the back-substitution rewrite over a type tree, replacing each
/// unqualified reference whose name matches one of `ps` with that parameter.
pub fn back_substitute(t: &Ty, ps: &Vec<TypeParam>) -> (r: Ty)
    ensures
        r@ == rw(t@, tps_view(ps@)),
    decreases *t,
{
    match t {
        Ty::Keyword { span, kind } => Ty::Keyword { span: *span, kind: *kind },
        Ty::Ref { span, name, type_args, no_expand } => {
            if type_args.is_some() {
                Ty::Ref {
                    span: *span,
                    name: *name,
                    type_args: back_sub_opt_args(type_args, ps),
                    no_expand: *no_expand,
                }
            } else {
                match find_tp(ps, *name) {
                    Option::Some(p) => Ty::Param(copy_tp(p)),
                    Option::None => Ty::Ref {
                        span: *span,
                        name: *name,
                        type_args: Option::None,
                        no_expand: *no_expand,
                    },
                }
            }
        },
        Ty::Tuple { span, elems } => Ty::Tuple {
            span: *span,
            elems: back_substitute_elems(elems, ps),
        },
        Ty::Func { span, params, type_params, ret_ty } => Ty::Func {
            span: *span,
            params: back_substitute_params(params, ps),
            type_params: copy_opt_tps(type_params),
            ret_ty: Box::new(back_substitute(ret_ty, ps)),
        },
        Ty::Class { span, name, type_params } => Ty::Class {
            span: *span,
            name: *name,
            type_params: copy_opt_tps(type_params),
        },
        Ty::ClassInstance { span, of, type_args } => Ty::ClassInstance {
            span: *span,
            of: Box::new(back_substitute(of, ps)),
            type_args: back_sub_opt_args(type_args, ps),
        },
        Ty::Alias { span, type_params, to } => Ty::Alias {
            span: *span,
            type_params: copy_opt_tps(type_params),
            to: Box::new(back_substitute(to, ps)),
        },
        Ty::Interface { span, name, type_params } => Ty::Interface {
            span: *span,
            name: *name,
            type_params: copy_opt_tps(type_params),
        },
        Ty::Param(p) => Ty::Param(copy_tp(p)),
    }
}

fn back_sub_opt_args(o: &Option<Vec<Ty>>, ps: &Vec<TypeParam>) -> (r: Option<Vec<Ty>>)
    ensures
        opt_tys_view(r) == (match opt_tys_view(*o) {
            Option::Some(s) => Option::Some(rw_seq(s, tps_view(ps@))),
            Option::None => Option::<Seq<TyV>>::None,
        }),
    decreases *o,
{
    match o {
        Option::Some(v) => Option::Some(back_substitute_list(v, ps)),
        Option::None => Option::None,
    }
}

fn back_substitute_list(v: &Vec<Ty>, ps: &Vec<TypeParam>) -> (r: Vec<Ty>)
    ensures
        tys_view(r@) == rw_seq(tys_view(v@), tps_view(ps@)),
    decreases v@,
{
    let mut out: Vec<Ty> = Vec::new();
    let n = v.len();
    for i in 0..n
        invariant
            n == v@.len(),
            out@.len() == i,
            forall|k: int|
                0 <= k < i ==> ty_view(out@[k]) == rw(ty_view(v@[k]), tps_view(ps@)),
        decreases n - i,
    {
        out.push(back_substitute(&v[i], ps));
    }
    proof {
        lemma_tys_view(out@);
        lemma_tys_view(v@);
        lemma_rw_seq(tys_view(v@), tps_view(ps@));
        assert(tys_view(out@) =~= rw_seq(tys_view(v@), tps_view(ps@)));
    }
    out
}

fn back_substitute_elems(v: &Vec<TupleElem>, ps: &Vec<TypeParam>) -> (r: Vec<TupleElem>)
    ensures
        elems_view(r@) == rw_elems(elems_view(v@), tps_view(ps@)),
    decreases v@,
{
    let mut out: Vec<TupleElem> = Vec::new();
    let n = v.len();
    for i in 0..n
        invariant
            n == v@.len(),
            out@.len() == i,
            forall|k: int|
                0 <= k < i ==> out@[k].span == v@[k].span && out@[k].label == v@[k].label
                    && ty_view(out@[k].ty) == rw(ty_view(v@[k].ty), tps_view(ps@)),
        decreases n - i,
    {
        let e = &v[i];
        out.push(TupleElem { span: e.span, label: e.label, ty: back_substitute(&e.ty, ps) });
    }
    proof {
        lemma_elems_view(out@);
        lemma_elems_view(v@);
        lemma_rw_elems(elems_view(v@), tps_view(ps@));
        assert(elems_view(out@) =~= rw_elems(elems_view(v@), tps_view(ps@)));
    }
    out
}

fn back_substitute_params(v: &Vec<FnParam>, ps: &Vec<TypeParam>) -> (r: Vec<FnParam>)
    ensures
        params_view(r@) == rw_params(params_view(v@), tps_view(ps@)),
    decreases v@,
{
    let mut out: Vec<FnParam> = Vec::new();
    let n = v.len();
    for i in 0..n
        invariant
            n == v@.len(),
            out@.len() == i,
            forall|k: int|
                0 <= k < i ==> out@[k].span == v@[k].span && out@[k].pat == v@[k].pat
                    && ty_view(out@[k].ty) == rw(ty_view(v@[k].ty), tps_view(ps@)),
        decreases n - i,
    {
        let p = &v[i];
        out.push(FnParam { span: p.span, pat: p.pat, ty: back_substitute(&p.ty, ps) });
    }
    proof {
        lemma_params_view(out@);
        lemma_params_view(v@);
        lemma_rw_params(params_view(v@), tps_view(ps@));
        assert(params_view(out@) =~= rw_params(params_view(v@), tps_view(ps@)));
    }
    out
}

} // verus!
