use sigcheck::diag::Diag;
use sigcheck::entry::{validate_fn_decl, validate_fn_expr, visit_fn, widen_tuple_ty, Session};
use sigcheck::ledger::Ledger;
use sigcheck::qualify::qualify_ref_type_args;
use sigcheck::subst::back_substitute;
use sigcheck::ty::{any_ty, copy_ty, FnParam, KwKind, PatShape, Span, TupleElem, Ty, TypeParam};
use sigcheck::validate::{
    check_param_order, span_of_ty, validate_function, CollabOutcome, FnInput, RawParam,
};

fn sp(n: u32) -> Span {
    Span { lo: n, hi: n + 1 }
}

fn kw(n: u32, kind: KwKind) -> Ty {
    Ty::Keyword { span: sp(n), kind }
}

fn unqualified_ref(n: u32, name: u64) -> Ty {
    Ty::Ref { span: sp(n), name, type_args: None, no_expand: false }
}

fn tparam(n: u32, name: u64, default: Option<Ty>) -> TypeParam {
    TypeParam { span: sp(n), name, constraint: None, default: default.map(Box::new) }
}

fn opt_ident(n: u32) -> RawParam {
    RawParam { span: sp(n), pat: PatShape::Ident { optional: true } }
}

fn req_ident(n: u32) -> RawParam {
    RawParam { span: sp(n), pat: PatShape::Ident { optional: false } }
}

fn rest_param(n: u32) -> RawParam {
    RawParam { span: sp(n), pat: PatShape::Rest }
}

fn fn_input(n: u32, node_id: u64, params: Vec<RawParam>, has_body: bool) -> FnInput {
    FnInput { span: sp(n), node_id, params, is_async: false, is_generator: false, has_body }
}

/// Collaborator verdicts for a trivial function: everything succeeds and
/// nothing interesting comes back.
fn plain_collab() -> CollabOutcome {
    CollabOutcome {
        type_params: Ok(None),
        params: Ok(vec![]),
        expanded_params: Ok(vec![]),
        declared_ret: Ok(None),
        inferred_ret: Ok(None),
        resolved_inferred: Ok(kw(0, KwKind::Any)),
        expanded_declared: Ok(kw(0, KwKind::Any)),
        assign_ok: Ok(()),
    }
}

fn new_session() -> Session {
    Session { declaring_fn: None, is_builtin: false, ledger: Ledger::new(), sink: Vec::new() }
}

// ---- parameter ordering ----

#[test]
fn required_after_optional_reports_once() {
    // function f(a?: number, b: string)
    let params = vec![opt_ident(1), req_ident(2)];
    let mut sink = Vec::new();
    check_param_order(&params, &mut sink);
    assert_eq!(sink, vec![Diag::ParamOrder { span: sp(2) }]);
}

#[test]
fn optional_then_optional_or_rest_is_clean() {
    let params = vec![opt_ident(1), opt_ident(2), rest_param(3)];
    let mut sink = Vec::new();
    check_param_order(&params, &mut sink);
    assert_eq!(sink, Vec::new());
}

#[test]
fn required_before_optional_is_clean() {
    let params = vec![req_ident(1), opt_ident(2)];
    let mut sink = Vec::new();
    check_param_order(&params, &mut sink);
    assert_eq!(sink, Vec::new());
}

#[test]
fn each_later_violation_reported_independently() {
    let params = vec![opt_ident(1), req_ident(2), rest_param(3)];
    // a rest parameter does not end the optional region: a later required
    // identifier still violates the rule
    let params2 = vec![opt_ident(1), req_ident(2), req_ident(3)];
    let mut sink = Vec::new();
    check_param_order(&params, &mut sink);
    assert_eq!(sink, vec![Diag::ParamOrder { span: sp(2) }]);
    let mut sink2 = Vec::new();
    check_param_order(&params2, &mut sink2);
    assert_eq!(
        sink2,
        vec![Diag::ParamOrder { span: sp(2) }, Diag::ParamOrder { span: sp(3) }]
    );
}

#[test]
fn destructuring_after_optional_violates() {
    let params = vec![opt_ident(1), RawParam { span: sp(2), pat: PatShape::Other }];
    let mut sink = Vec::new();
    check_param_order(&params, &mut sink);
    assert_eq!(sink, vec![Diag::ParamOrder { span: sp(2) }]);
}

// ---- generic reference qualification ----

/// A declaration `<T, U = Foo>`: `T` at span 10 with no default, `U` at
/// span 11 defaulting to the reference `Foo`.
fn two_param_alias() -> Ty {
    Ty::Alias {
        span: sp(9),
        type_params: Some(vec![
            tparam(10, 100, None),
            tparam(11, 101, Some(unqualified_ref(12, 700))),
        ]),
        to: Box::new(kw(9, KwKind::Any)),
    }
}

#[test]
fn qualify_fills_any_and_default_for_zero_args() {
    let r = unqualified_ref(1, 55);
    let resolved = two_param_alias();
    let mut sink = Vec::new();
    let q = qualify_ref_type_args(&r, &resolved, &mut sink);
    assert_eq!(
        q,
        Ty::Ref {
            span: sp(1),
            name: 55,
            type_args: Some(vec![kw(10, KwKind::Any), unqualified_ref(12, 700)]),
            no_expand: true,
        }
    );
    assert_eq!(sink, vec![Diag::ImplicitAny { span: sp(10) }]);
}

#[test]
fn qualify_fills_only_missing_default() {
    let r = Ty::Ref {
        span: sp(1),
        name: 55,
        type_args: Some(vec![unqualified_ref(2, 800)]),
        no_expand: false,
    };
    let resolved = two_param_alias();
    let mut sink = Vec::new();
    let q = qualify_ref_type_args(&r, &resolved, &mut sink);
    assert_eq!(
        q,
        Ty::Ref {
            span: sp(1),
            name: 55,
            type_args: Some(vec![unqualified_ref(2, 800), unqualified_ref(12, 700)]),
            no_expand: true,
        }
    );
    assert_eq!(sink, Vec::new());
}

#[test]
fn qualify_leaves_fully_supplied_reference_alone() {
    let r = Ty::Ref {
        span: sp(1),
        name: 55,
        type_args: Some(vec![unqualified_ref(2, 800), unqualified_ref(3, 801)]),
        no_expand: false,
    };
    let resolved = two_param_alias();
    let mut sink = Vec::new();
    let q = qualify_ref_type_args(&r, &resolved, &mut sink);
    assert_eq!(q, r);
    assert_eq!(sink, Vec::new());
}

#[test]
fn qualify_ignores_resolution_without_type_params() {
    let r = unqualified_ref(1, 55);
    let resolved = Ty::Interface { span: sp(9), name: 9, type_params: None };
    let mut sink = Vec::new();
    let q = qualify_ref_type_args(&r, &resolved, &mut sink);
    assert_eq!(q, r);
    assert_eq!(sink, Vec::new());
}

// ---- back-substitution ----

#[test]
fn back_substitution_replaces_matching_unqualified_ref() {
    let ps = vec![tparam(5, 100, None)];
    let t = unqualified_ref(1, 100);
    let b = back_substitute(&t, &ps);
    assert_eq!(b, Ty::Param(tparam(5, 100, None)));
}

#[test]
fn back_substitution_skips_qualified_and_foreign_refs() {
    let ps = vec![tparam(5, 100, None)];
    let qualified = Ty::Ref {
        span: sp(1),
        name: 100,
        type_args: Some(vec![kw(2, KwKind::Num)]),
        no_expand: false,
    };
    assert_eq!(back_substitute(&qualified, &ps), qualified);
    let foreign = unqualified_ref(1, 999);
    assert_eq!(back_substitute(&foreign, &ps), foreign);
}

#[test]
fn back_substitution_descends_into_children() {
    let ps = vec![tparam(5, 100, None)];
    let t = Ty::Tuple {
        span: sp(1),
        elems: vec![
            TupleElem { span: sp(2), label: None, ty: unqualified_ref(2, 100) },
            TupleElem { span: sp(3), label: Some(4), ty: kw(3, KwKind::Str) },
        ],
    };
    let b = back_substitute(&t, &ps);
    assert_eq!(
        b,
        Ty::Tuple {
            span: sp(1),
            elems: vec![
                TupleElem { span: sp(2), label: None, ty: Ty::Param(tparam(5, 100, None)) },
                TupleElem { span: sp(3), label: Some(4), ty: kw(3, KwKind::Str) },
            ],
        }
    );
}

#[test]
fn back_substitution_twice_equals_once() {
    let ps = vec![tparam(5, 100, None), tparam(6, 101, Some(kw(7, KwKind::Num)))];
    let t = Ty::ClassInstance {
        span: sp(1),
        of: Box::new(unqualified_ref(2, 100)),
        type_args: Some(vec![
            unqualified_ref(3, 101),
            Ty::Alias { span: sp(4), type_params: None, to: Box::new(unqualified_ref(5, 100)) },
        ]),
    };
    let once = back_substitute(&t, &ps);
    let twice = back_substitute(&once, &ps);
    assert_eq!(twice, once);
}

// ---- tree plumbing ----

#[test]
fn copy_preserves_the_tree() {
    let t = Ty::Func {
        span: sp(1),
        params: vec![FnParam {
            span: sp(2),
            pat: PatShape::Ident { optional: false },
            ty: unqualified_ref(2, 100),
        }],
        type_params: Some(vec![tparam(3, 100, None)]),
        ret_ty: Box::new(kw(4, KwKind::Str)),
    };
    assert_eq!(copy_ty(&t), t);
}

#[test]
fn span_of_reads_every_variant() {
    assert_eq!(span_of_ty(&kw(3, KwKind::Void)), sp(3));
    assert_eq!(span_of_ty(&Ty::Param(tparam(8, 1, None))), sp(8));
    assert_eq!(span_of_ty(&unqualified_ref(5, 9)), sp(5));
}

#[test]
fn widening_touches_only_undefined_and_null_elements() {
    let t = Ty::Tuple {
        span: sp(1),
        elems: vec![
            TupleElem { span: sp(2), label: None, ty: kw(20, KwKind::Undefined) },
            TupleElem { span: sp(3), label: None, ty: kw(30, KwKind::Null) },
            TupleElem { span: sp(4), label: None, ty: kw(40, KwKind::Num) },
        ],
    };
    let w = widen_tuple_ty(&t);
    assert_eq!(
        w,
        Ty::Tuple {
            span: sp(1),
            elems: vec![
                TupleElem { span: sp(2), label: None, ty: kw(2, KwKind::Any) },
                TupleElem { span: sp(3), label: None, ty: kw(3, KwKind::Any) },
                TupleElem { span: sp(4), label: None, ty: kw(40, KwKind::Num) },
            ],
        }
    );
    // a non-tuple return type passes through untouched
    assert_eq!(widen_tuple_ty(&kw(9, KwKind::Str)), kw(9, KwKind::Str));
}

// ---- the mutation ledger ----

#[test]
fn ledger_keeps_the_first_recorded_type() {
    let mut ledger = Ledger::new();
    assert!(!ledger.contains(7));
    assert_eq!(ledger.get(7), None);
    ledger.record_if_absent(7, kw(1, KwKind::Num));
    ledger.record_if_absent(7, kw(2, KwKind::Str));
    assert!(ledger.contains(7));
    assert_eq!(ledger.get(7), Some(&kw(1, KwKind::Num)));
    ledger.record_if_absent(8, kw(3, KwKind::Void));
    assert_eq!(ledger.get(8), Some(&kw(3, KwKind::Void)));
    assert_eq!(ledger.get(7), Some(&kw(1, KwKind::Num)));
}

// ---- the validator and entry point ----

#[test]
fn identity_function_keeps_its_own_type_parameter() {
    // function f<T>(x: T): T { return x; }
    let t_param = tparam(10, 100, None);
    let f = fn_input(1, 1, vec![req_ident(2)], true);
    let c = CollabOutcome {
        type_params: Ok(Some(vec![tparam(10, 100, None)])),
        params: Ok(vec![FnParam {
            span: sp(2),
            pat: PatShape::Ident { optional: false },
            ty: unqualified_ref(2, 100),
        }]),
        expanded_params: Ok(vec![unqualified_ref(2, 100)]),
        declared_ret: Ok(Some(unqualified_ref(3, 100))),
        inferred_ret: Ok(Some(unqualified_ref(4, 100))),
        // the name resolves to nothing generic, so qualification is a no-op
        resolved_inferred: Ok(Ty::Interface { span: sp(9), name: 9, type_params: None }),
        expanded_declared: Ok(kw(0, KwKind::Any)),
        assign_ok: Ok(()),
    };
    let mut sess = new_session();
    let ty = visit_fn(&mut sess, Some(77), &f, c);
    match ty {
        Ty::Func { ref ret_ty, .. } => {
            assert_eq!(**ret_ty, Ty::Param(t_param));
        }
        other => panic!("expected a function type, got {:?}", other),
    }
    assert_eq!(sess.sink, Vec::new());
    assert_eq!(sess.declaring_fn, None);
    // an annotation was written, so the ledger stays empty
    assert!(!sess.ledger.contains(1));
}

#[test]
fn inferred_tuple_widens_undefined_but_keeps_number() {
    // function f() { return [undefined, 1]; }
    let f = fn_input(1, 11, vec![], true);
    let inferred = Ty::Tuple {
        span: sp(5),
        elems: vec![
            TupleElem { span: sp(6), label: None, ty: kw(60, KwKind::Undefined) },
            TupleElem { span: sp(7), label: None, ty: kw(70, KwKind::Num) },
        ],
    };
    let c = CollabOutcome { inferred_ret: Ok(Some(copy_ty(&inferred))), ..plain_collab() };
    let mut sess = new_session();
    let ty = visit_fn(&mut sess, None, &f, c);
    match ty {
        Ty::Func { ref ret_ty, .. } => {
            assert_eq!(
                **ret_ty,
                Ty::Tuple {
                    span: sp(5),
                    elems: vec![
                        TupleElem { span: sp(6), label: None, ty: kw(6, KwKind::Any) },
                        TupleElem { span: sp(7), label: None, ty: kw(70, KwKind::Num) },
                    ],
                }
            );
        }
        other => panic!("expected a function type, got {:?}", other),
    }
    // the ledger records the inferred type as it stood before widening
    assert_eq!(sess.ledger.get(11), Some(&inferred));
}

#[test]
fn missing_return_with_string_annotation_diagnosed_as_void() {
    // function f(): string { }
    let f = fn_input(1, 21, vec![], true);
    let c = CollabOutcome {
        declared_ret: Ok(Some(kw(5, KwKind::Str))),
        inferred_ret: Ok(None),
        ..plain_collab()
    };
    let mut ledger = Ledger::new();
    let mut sink = Vec::new();
    let r = validate_function(&f, c, false, &mut ledger, &mut sink);
    let sig = r.expect("validation succeeds");
    assert_eq!(sig.ret_ty, kw(5, KwKind::Void));
    assert_eq!(sink, vec![Diag::ReturnRequired { span: sp(5) }]);
    // the annotation was written, so nothing is recorded
    assert!(!ledger.contains(21));
}

#[test]
fn missing_return_with_any_annotation_is_silent() {
    // function f(): any { }
    let f = fn_input(1, 22, vec![], true);
    let c = CollabOutcome {
        declared_ret: Ok(Some(kw(5, KwKind::Any))),
        inferred_ret: Ok(None),
        ..plain_collab()
    };
    let mut ledger = Ledger::new();
    let mut sink = Vec::new();
    let r = validate_function(&f, c, false, &mut ledger, &mut sink);
    let sig = r.expect("validation succeeds");
    assert_eq!(sig.ret_ty, kw(5, KwKind::Void));
    assert_eq!(sink, Vec::new());
}

#[test]
fn missing_return_without_annotation_records_void() {
    // function f() { }
    let f = fn_input(1, 23, vec![], true);
    let c = CollabOutcome { inferred_ret: Ok(None), ..plain_collab() };
    let mut ledger = Ledger::new();
    let mut sink = Vec::new();
    let r = validate_function(&f, c, false, &mut ledger, &mut sink);
    let sig = r.expect("validation succeeds");
    assert_eq!(sig.ret_ty, kw(1, KwKind::Void));
    assert_eq!(sink, Vec::new());
    assert_eq!(ledger.get(23), Some(&kw(1, KwKind::Void)));
}

#[test]
fn declared_string_against_inferred_number_fails_at_the_return() {
    // function f(): string { return 1; }: the assignability collaborator
    // rejects, pointing at the return expression
    let f = fn_input(1, 31, vec![], true);
    let failure = Diag::Collab { span: sp(8), code: 2322 };
    let c = CollabOutcome {
        declared_ret: Ok(Some(kw(5, KwKind::Str))),
        inferred_ret: Ok(Some(kw(8, KwKind::Num))),
        assign_ok: Err(failure),
        ..plain_collab()
    };
    let mut ledger = Ledger::new();
    let mut sink = Vec::new();
    let r = validate_function(&f, c, false, &mut ledger, &mut sink);
    assert_eq!(r, Err(failure));
    assert_eq!(sink, Vec::new());
    assert!(!ledger.contains(31));
}

#[test]
fn entry_point_turns_a_failure_into_any() {
    let f = fn_input(1, 41, vec![], true);
    let failure = Diag::Collab { span: sp(8), code: 2322 };
    let c = CollabOutcome {
        declared_ret: Ok(Some(kw(5, KwKind::Str))),
        inferred_ret: Ok(Some(kw(8, KwKind::Num))),
        assign_ok: Err(failure),
        ..plain_collab()
    };
    let mut sess = new_session();
    let ty = validate_fn_decl(&mut sess, 900, &f, c);
    assert_eq!(ty, any_ty(sp(1)));
    assert_eq!(sess.sink, vec![failure]);
    assert_eq!(sess.declaring_fn, None);
}

#[test]
fn overload_signature_without_body_infers_any() {
    let f = fn_input(1, 51, vec![], false);
    let c = plain_collab();
    let mut sess = new_session();
    let ty = validate_fn_expr(&mut sess, None, &f, c);
    match ty {
        Ty::Func { ref ret_ty, .. } => assert_eq!(**ret_ty, kw(1, KwKind::Any)),
        other => panic!("expected a function type, got {:?}", other),
    }
    assert_eq!(sess.ledger.get(51), Some(&kw(1, KwKind::Any)));
}

#[test]
fn declared_class_return_becomes_an_instance() {
    let f = fn_input(1, 61, vec![], true);
    let cls = Ty::Class { span: sp(5), name: 500, type_params: None };
    let c = CollabOutcome {
        declared_ret: Ok(Some(Ty::Class { span: sp(5), name: 500, type_params: None })),
        inferred_ret: Ok(Some(Ty::ClassInstance {
            span: sp(8),
            of: Box::new(Ty::Class { span: sp(5), name: 500, type_params: None }),
            type_args: None,
        })),
        ..plain_collab()
    };
    let mut ledger = Ledger::new();
    let mut sink = Vec::new();
    let r = validate_function(&f, c, false, &mut ledger, &mut sink);
    let sig = r.expect("validation succeeds");
    assert_eq!(
        sig.ret_ty,
        Ty::ClassInstance { span: sp(5), of: Box::new(cls), type_args: None }
    );
}

#[test]
fn inferred_reference_is_qualified_in_the_validator() {
    // the inferred return type is a bare generic reference; its resolution
    // declares <T, U = Foo>, so the result carries [any, Foo] and one
    // implicit-any diagnostic
    let f = fn_input(1, 71, vec![], true);
    let c = CollabOutcome {
        inferred_ret: Ok(Some(unqualified_ref(4, 55))),
        resolved_inferred: Ok(two_param_alias()),
        ..plain_collab()
    };
    let mut ledger = Ledger::new();
    let mut sink = Vec::new();
    let r = validate_function(&f, c, false, &mut ledger, &mut sink);
    let sig = r.expect("validation succeeds");
    let expected = Ty::Ref {
        span: sp(4),
        name: 55,
        type_args: Some(vec![kw(10, KwKind::Any), unqualified_ref(12, 700)]),
        no_expand: true,
    };
    assert_eq!(sig.ret_ty, expected);
    assert_eq!(sink, vec![Diag::ImplicitAny { span: sp(10) }]);
    assert_eq!(ledger.get(71), Some(&expected));
}

#[test]
fn collaborator_failures_propagate_in_consultation_order() {
    let failure = Diag::Collab { span: sp(2), code: 1 };
    let f = fn_input(1, 81, vec![], true);
    let c = CollabOutcome { type_params: Err(failure), ..plain_collab() };
    let mut ledger = Ledger::new();
    let mut sink = Vec::new();
    assert_eq!(validate_function(&f, c, false, &mut ledger, &mut sink), Err(failure));

    let c2 = CollabOutcome {
        type_params: Err(Diag::Collab { span: sp(2), code: 1 }),
        params: Err(Diag::Collab { span: sp(3), code: 2 }),
        ..plain_collab()
    };
    // the type-parameter failure is consulted first
    assert_eq!(
        validate_function(&f, c2, false, &mut ledger, &mut sink),
        Err(Diag::Collab { span: sp(2), code: 1 })
    );
    // param-order diagnostics reported before the failure stay in the sink
    let f2 = fn_input(1, 82, vec![opt_ident(1), req_ident(2)], true);
    let c3 = CollabOutcome { params: Err(Diag::Collab { span: sp(3), code: 2 }), ..plain_collab() };
    let mut sink3 = Vec::new();
    assert_eq!(
        validate_function(&f2, c3, false, &mut ledger, &mut sink3),
        Err(Diag::Collab { span: sp(3), code: 2 })
    );
    assert_eq!(sink3, vec![Diag::ParamOrder { span: sp(2) }]);
}

#[test]
fn builtin_sources_skip_parameter_expansion() {
    let f = fn_input(1, 91, vec![req_ident(2)], true);
    let raw_param = FnParam {
        span: sp(2),
        pat: PatShape::Ident { optional: false },
        ty: unqualified_ref(2, 300),
    };
    let c = CollabOutcome {
        params: Ok(vec![FnParam {
            span: sp(2),
            pat: PatShape::Ident { optional: false },
            ty: unqualified_ref(2, 300),
        }]),
        expanded_params: Err(Diag::Collab { span: sp(2), code: 3 }),
        inferred_ret: Ok(None),
        ..plain_collab()
    };
    let mut ledger = Ledger::new();
    let mut sink = Vec::new();
    // under is_builtin the expansion outcome is never consulted
    let r = validate_function(&f, c, true, &mut ledger, &mut sink);
    let sig = r.expect("validation succeeds");
    assert_eq!(sig.params, vec![raw_param]);
}

#[test]
fn expanded_parameter_types_replace_the_validated_ones() {
    let f = fn_input(1, 92, vec![req_ident(2)], true);
    let c = CollabOutcome {
        params: Ok(vec![FnParam {
            span: sp(2),
            pat: PatShape::Ident { optional: false },
            ty: unqualified_ref(2, 300),
        }]),
        expanded_params: Ok(vec![kw(2, KwKind::Num)]),
        inferred_ret: Ok(None),
        ..plain_collab()
    };
    let mut ledger = Ledger::new();
    let mut sink = Vec::new();
    let r = validate_function(&f, c, false, &mut ledger, &mut sink);
    let sig = r.expect("validation succeeds");
    assert_eq!(
        sig.params,
        vec![FnParam {
            span: sp(2),
            pat: PatShape::Ident { optional: false },
            ty: kw(2, KwKind::Num),
        }]
    );
}

#[test]
fn qualify_reads_class_declarations_too() {
    let r = unqualified_ref(1, 55);
    let resolved = Ty::Class {
        span: sp(9),
        name: 500,
        type_params: Some(vec![tparam(10, 100, None), tparam(11, 101, None)]),
    };
    let mut sink = Vec::new();
    let q = qualify_ref_type_args(&r, &resolved, &mut sink);
    assert_eq!(
        q,
        Ty::Ref {
            span: sp(1),
            name: 55,
            type_args: Some(vec![kw(10, KwKind::Any), kw(11, KwKind::Any)]),
            no_expand: true,
        }
    );
    assert_eq!(
        sink,
        vec![Diag::ImplicitAny { span: sp(10) }, Diag::ImplicitAny { span: sp(11) }]
    );
}

#[test]
fn unnamed_expression_leaves_the_guard_alone() {
    let f = fn_input(1, 95, vec![], true);
    let c = CollabOutcome { inferred_ret: Ok(None), ..plain_collab() };
    let mut sess = new_session();
    sess.declaring_fn = Some(3);
    let ty = validate_fn_expr(&mut sess, None, &f, c);
    assert!(matches!(ty, Ty::Func { .. }));
    assert_eq!(sess.declaring_fn, Some(3));
}
