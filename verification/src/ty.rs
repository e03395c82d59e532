//! The type model: the tagged union of types that the signature pipeline
//! manipulates, together with its mathematical view.

use vstd::prelude::*;

verus! {

/// A source location, as a half-open byte range.
#[derive(Clone, Copy, PartialEq, Eq, Structural, Debug)]
pub struct Span {
    pub lo: u32,
    pub hi: u32,
}

/// The keyword (built-in) types the pipeline distinguishes.
#[derive(Clone, Copy, PartialEq, Eq, Structural, Debug)]
pub enum KwKind {
    Any,
    Void,
    Never,
    Undefined,
    Null,
    Str,
    Num,
    Bool,
}

/// A declared type parameter, e.g. `T extends C = D`.
#[derive(PartialEq, Eq, Debug)]
pub struct TypeParam {
    pub span: Span,
    /// Interned symbol of the parameter's name.
    pub name: u64,
    pub constraint: Option<Box<Ty>>,
    pub default: Option<Box<Ty>>,
}

/// One element of a tuple type, optionally labelled.
#[derive(PartialEq, Eq, Debug)]
pub struct TupleElem {
    pub span: Span,
    pub label: Option<u64>,
    pub ty: Ty,
}

/// The shape of a parameter's pattern, as far as ordering checks read it.
#[derive(Clone, Copy, PartialEq, Eq, Structural, Debug)]
pub enum PatShape {
    /// A plain identifier, possibly marked optional (`x?`).
    Ident { optional: bool },
    /// A rest parameter (`...xs`).
    Rest,
    /// Any other (destructuring) pattern.
    Other,
}

/// A validated function parameter: its pattern shape and its type.
#[derive(PartialEq, Eq, Debug)]
pub struct FnParam {
    pub span: Span,
    pub pat: PatShape,
    pub ty: Ty,
}

/// The tagged union of types this pipeline touches.
#[derive(PartialEq, Eq, Debug)]
pub enum Ty {
    /// A built-in keyword type.
    Keyword { span: Span, kind: KwKind },
    /// A named reference to a declaration.  `type_args: None` means the
    /// reference is unqualified (no argument list written); `no_expand` is set
    /// when a later normalization stage must not inline the referenced alias
    /// body before defaults are attached.
    Ref { span: Span, name: u64, type_args: Option<Vec<Ty>>, no_expand: bool },
    Tuple { span: Span, elems: Vec<TupleElem> },
    Func { span: Span, params: Vec<FnParam>, type_params: Option<Vec<TypeParam>>, ret_ty: Box<Ty> },
    Class { span: Span, name: u64, type_params: Option<Vec<TypeParam>> },
    /// "An instance of that class": a class type used in value position.
    ClassInstance { span: Span, of: Box<Ty>, type_args: Option<Vec<Ty>> },
    Alias { span: Span, type_params: Option<Vec<TypeParam>>, to: Box<Ty> },
    Interface { span: Span, name: u64, type_params: Option<Vec<TypeParam>> },
    /// A direct occurrence of a bound type parameter.
    Param(TypeParam),
}

/// Mathematical view of a `TypeParam`.
#[verifier::ext_equal]
pub struct TpV {
    pub span: Span,
    pub name: u64,
    pub constraint: Option<Box<TyV>>,
    pub default: Option<Box<TyV>>,
}

/// Mathematical view of a `TupleElem`.
#[verifier::ext_equal]
pub struct ElemV {
    pub span: Span,
    pub label: Option<u64>,
    pub ty: TyV,
}

/// Mathematical view of a `FnParam`.
#[verifier::ext_equal]
pub struct ParamV {
    pub span: Span,
    pub pat: PatShape,
    pub ty: TyV,
}

/// Mathematical view of a type tree.
#[verifier::ext_equal]
pub enum TyV {
    Keyword { span: Span, kind: KwKind },
    Ref { span: Span, name: u64, type_args: Option<Seq<TyV>>, no_expand: bool },
    Tuple { span: Span, elems: Seq<ElemV> },
    Func { span: Span, params: Seq<ParamV>, type_params: Option<Seq<TpV>>, ret_ty: Box<TyV> },
    Class { span: Span, name: u64, type_params: Option<Seq<TpV>> },
    ClassInstance { span: Span, of: Box<TyV>, type_args: Option<Seq<TyV>> },
    Alias { span: Span, type_params: Option<Seq<TpV>>, to: Box<TyV> },
    Interface { span: Span, name: u64, type_params: Option<Seq<TpV>> },
    Param(TpV),
}

pub open spec fn ty_view(t: Ty) -> TyV
    decreases t,
{
    match t {
        Ty::Keyword { span, kind } => TyV::Keyword { span, kind },
        Ty::Ref { span, name, type_args, no_expand } => TyV::Ref {
            span,
            name,
            no_expand,
            type_args: opt_tys_view(type_args),
        },
        Ty::Tuple { span, elems } => TyV::Tuple { span, elems: elems_view(elems@) },
        Ty::Func { span, params, type_params, ret_ty } => TyV::Func {
            span,
            params: params_view(params@),
            type_params: opt_tps_view(type_params),
            ret_ty: Box::new(ty_view(*ret_ty)),
        },
        Ty::Class { span, name, type_params } => TyV::Class {
            span,
            name,
            type_params: opt_tps_view(type_params),
        },
        Ty::ClassInstance { span, of, type_args } => TyV::ClassInstance {
            span,
            of: Box::new(ty_view(*of)),
            type_args: opt_tys_view(type_args),
        },
        Ty::Alias { span, type_params, to } => TyV::Alias {
            span,
            type_params: opt_tps_view(type_params),
            to: Box::new(ty_view(*to)),
        },
        Ty::Interface { span, name, type_params } => TyV::Interface {
            span,
            name,
            type_params: opt_tps_view(type_params),
        },
        Ty::Param(p) => TyV::Param(tp_view(p)),
    }
}

pub open spec fn opt_tys_view(o: Option<Vec<Ty>>) -> Option<Seq<TyV>>
    decreases o,
{
    match o {
        Option::Some(v) => Option::Some(tys_view(v@)),
        Option::None => Option::None,
    }
}

pub open spec fn tys_view(s: Seq<Ty>) -> Seq<TyV>
    decreases s,
{
    if s.len() == 0 {
        Seq::empty()
    } else {
        seq![ty_view(s[0])] + tys_view(s.subrange(1, s.len() as int))
    }
}

pub open spec fn elems_view(s: Seq<TupleElem>) -> Seq<ElemV>
    decreases s,
{
    if s.len() == 0 {
        Seq::empty()
    } else {
        seq![ElemV { span: s[0].span, label: s[0].label, ty: ty_view(s[0].ty) }]
            + elems_view(s.subrange(1, s.len() as int))
    }
}

pub open spec fn params_view(s: Seq<FnParam>) -> Seq<ParamV>
    decreases s,
{
    if s.len() == 0 {
        Seq::empty()
    } else {
        seq![ParamV { span: s[0].span, pat: s[0].pat, ty: ty_view(s[0].ty) }]
            + params_view(s.subrange(1, s.len() as int))
    }
}

pub open spec fn tp_view(p: TypeParam) -> TpV
    decreases p,
{
    TpV {
        span: p.span,
        name: p.name,
        constraint: match p.constraint {
            Option::Some(c) => Option::Some(Box::new(ty_view(*c))),
            Option::None => Option::None,
        },
        default: match p.default {
            Option::Some(d) => Option::Some(Box::new(ty_view(*d))),
            Option::None => Option::None,
        },
    }
}

pub open spec fn tps_view(s: Seq<TypeParam>) -> Seq<TpV>
    decreases s,
{
    if s.len() == 0 {
        Seq::empty()
    } else {
        seq![tp_view(s[0])] + tps_view(s.subrange(1, s.len() as int))
    }
}

pub open spec fn opt_tps_view(o: Option<Vec<TypeParam>>) -> Option<Seq<TpV>>
    decreases o,
{
    match o {
        Option::Some(v) => Option::Some(tps_view(v@)),
        Option::None => Option::None,
    }
}

impl View for Ty {
    type V = TyV;

    open spec fn view(&self) -> TyV {
        ty_view(*self)
    }
}

impl View for TypeParam {
    type V = TpV;

    open spec fn view(&self) -> TpV {
        tp_view(*self)
    }
}

/// `tys_view` maps the sequence element by element.
pub proof fn lemma_tys_view(s: Seq<Ty>)
    ensures
        tys_view(s).len() == s.len(),
        forall|i: int| 0 <= i < s.len() ==> tys_view(s)[i] == ty_view(s[i]),
    decreases s.len(),
{
    if s.len() > 0 {
        lemma_tys_view(s.subrange(1, s.len() as int));
    }
}

/// `elems_view` maps the sequence element by element.
pub proof fn lemma_elems_view(s: Seq<TupleElem>)
    ensures
        elems_view(s).len() == s.len(),
        forall|i: int|
            0 <= i < s.len() ==> elems_view(s)[i] == (ElemV {
                span: s[i].span,
                label: s[i].label,
                ty: ty_view(s[i].ty),
            }),
    decreases s.len(),
{
    if s.len() > 0 {
        lemma_elems_view(s.subrange(1, s.len() as int));
    }
}

/// `params_view` maps the sequence element by element.
pub proof fn lemma_params_view(s: Seq<FnParam>)
    ensures
        params_view(s).len() == s.len(),
        forall|i: int|
            0 <= i < s.len() ==> params_view(s)[i] == (ParamV {
                span: s[i].span,
                pat: s[i].pat,
                ty: ty_view(s[i].ty),
            }),
    decreases s.len(),
{
    if s.len() > 0 {
        lemma_params_view(s.subrange(1, s.len() as int));
    }
}

/// `tps_view` maps the sequence element by element.
pub proof fn lemma_tps_view(s: Seq<TypeParam>)
    ensures
        tps_view(s).len() == s.len(),
        forall|i: int| 0 <= i < s.len() ==> tps_view(s)[i] == tp_view(s[i]),
    decreases s.len(),
{
    if s.len() > 0 {
        lemma_tps_view(s.subrange(1, s.len() as int));
    }
}

/// Duplicates a type tree; the copy has the same view as the original.
pub fn copy_ty(t: &Ty) -> (r: Ty)
    ensures
        r@ == t@,
    decreases *t,
{
    match t {
        Ty::Keyword { span, kind } => Ty::Keyword { span: *span, kind: *kind },
        Ty::Ref { span, name, type_args, no_expand } => Ty::Ref {
            span: *span,
            name: *name,
            type_args: copy_opt_tys(type_args),
            no_expand: *no_expand,
        },
        Ty::Tuple { span, elems } => Ty::Tuple { span: *span, elems: copy_elems(elems) },
        Ty::Func { span, params, type_params, ret_ty } => Ty::Func {
            span: *span,
            params: copy_params(params),
            type_params: copy_opt_tps(type_params),
            ret_ty: Box::new(copy_ty(ret_ty)),
        },
        Ty::Class { span, name, type_params } => Ty::Class {
            span: *span,
            name: *name,
            type_params: copy_opt_tps(type_params),
        },
        Ty::ClassInstance { span, of, type_args } => Ty::ClassInstance {
            span: *span,
            of: Box::new(copy_ty(of)),
            type_args: copy_opt_tys(type_args),
        },
        Ty::Alias { span, type_params, to } => Ty::Alias {
            span: *span,
            type_params: copy_opt_tps(type_params),
            to: Box::new(copy_ty(to)),
        },
        Ty::Interface { span, name, type_params } => Ty::Interface {
            span: *span,
            name: *name,
            type_params: copy_opt_tps(type_params),
        },
        Ty::Param(p) => Ty::Param(copy_tp(p)),
    }
}

pub fn copy_opt_tys(o: &Option<Vec<Ty>>) -> (r: Option<Vec<Ty>>)
    ensures
        opt_tys_view(r) == opt_tys_view(*o),
    decreases *o,
{
    match o {
        Option::Some(v) => Option::Some(copy_tys(v)),
        Option::None => Option::None,
    }
}

pub fn copy_tys(v: &Vec<Ty>) -> (r: Vec<Ty>)
    ensures
        tys_view(r@) == tys_view(v@),
    decreases v@,
{
    let mut out: Vec<Ty> = Vec::new();
    let n = v.len();
    for i in 0..n
        invariant
            n == v@.len(),
            out@.len() == i,
            forall|k: int| 0 <= k < i ==> ty_view(out@[k]) == ty_view(v@[k]),
        decreases n - i,
    {
        out.push(copy_ty(&v[i]));
    }
    proof {
        lemma_tys_view(out@);
        lemma_tys_view(v@);
        assert(tys_view(out@) =~= tys_view(v@));
    }
    out
}

pub fn copy_elems(v: &Vec<TupleElem>) -> (r: Vec<TupleElem>)
    ensures
        elems_view(r@) == elems_view(v@),
    decreases v@,
{
    let mut out: Vec<TupleElem> = Vec::new();
    let n = v.len();
    for i in 0..n
        invariant
            n == v@.len(),
            out@.len() == i,
            forall|k: int|
                0 <= k < i ==> out@[k].span == v@[k].span && out@[k].label == v@[k].label
                    && ty_view(out@[k].ty) == ty_view(v@[k].ty),
        decreases n - i,
    {
        let e = &v[i];
        out.push(TupleElem { span: e.span, label: e.label, ty: copy_ty(&e.ty) });
    }
    proof {
        lemma_elems_view(out@);
        lemma_elems_view(v@);
        assert(elems_view(out@) =~= elems_view(v@));
    }
    out
}

pub fn copy_params(v: &Vec<FnParam>) -> (r: Vec<FnParam>)
    ensures
        params_view(r@) == params_view(v@),
    decreases v@,
{
    let mut out: Vec<FnParam> = Vec::new();
    let n = v.len();
    for i in 0..n
        invariant
            n == v@.len(),
            out@.len() == i,
            forall|k: int|
                0 <= k < i ==> out@[k].span == v@[k].span && out@[k].pat == v@[k].pat
                    && ty_view(out@[k].ty) == ty_view(v@[k].ty),
        decreases n - i,
    {
        let p = &v[i];
        out.push(FnParam { span: p.span, pat: p.pat, ty: copy_ty(&p.ty) });
    }
    proof {
        lemma_params_view(out@);
        lemma_params_view(v@);
        assert(params_view(out@) =~= params_view(v@));
    }
    out
}

pub fn copy_tp(p: &TypeParam) -> (r: TypeParam)
    ensures
        tp_view(r) == tp_view(*p),
    decreases *p,
{
    TypeParam {
        span: p.span,
        name: p.name,
        constraint: match &p.constraint {
            Option::Some(c) => Option::Some(Box::new(copy_ty(c))),
            Option::None => Option::None,
        },
        default: match &p.default {
            Option::Some(d) => Option::Some(Box::new(copy_ty(d))),
            Option::None => Option::None,
        },
    }
}

pub fn copy_tps(v: &Vec<TypeParam>) -> (r: Vec<TypeParam>)
    ensures
        tps_view(r@) == tps_view(v@),
    decreases v@,
{
    let mut out: Vec<TypeParam> = Vec::new();
    let n = v.len();
    for i in 0..n
        invariant
            n == v@.len(),
            out@.len() == i,
            forall|k: int| 0 <= k < i ==> tp_view(out@[k]) == tp_view(v@[k]),
        decreases n - i,
    {
        out.push(copy_tp(&v[i]));
    }
    proof {
        lemma_tps_view(out@);
        lemma_tps_view(v@);
        assert(tps_view(out@) =~= tps_view(v@));
    }
    out
}

pub fn copy_opt_tps(o: &Option<Vec<TypeParam>>) -> (r: Option<Vec<TypeParam>>)
    ensures
        opt_tps_view(r) == opt_tps_view(*o),
    decreases *o,
{
    match o {
        Option::Some(v) => Option::Some(copy_tps(v)),
        Option::None => Option::None,
    }
}

/// The `any` keyword type at a given location, the pipeline's universal
/// fallback.
pub fn any_ty(span: Span) -> (r: Ty)
    ensures
        r@ == (TyV::Keyword { span, kind: KwKind::Any }),
{
    Ty::Keyword { span, kind: KwKind::Any }
}

} // verus!
