use terbium_analyzer::analyzers::{AnalyzerKind, AnalyzerSet};
use terbium_analyzer::ast::{Body, Expr, Node, Operator, Spanned, Target};
use terbium_analyzer::diag::AnalyzerMessageKind;
use terbium_analyzer::scope::Context;
use terbium_analyzer::span::Span;
use terbium_analyzer::types::{PrimitiveType, Type};
use terbium_analyzer::walker::{infer_type, run_analysis, Fault};

fn span(start: usize, end: usize) -> Span {
    Span::new(0, start, end)
}

fn sp<T>(node: T, s: Span) -> Spanned<T> {
    Spanned::new(node, s)
}

fn int_lit(s: Span) -> Spanned<Expr> {
    sp(Expr::Integer(0), s)
}

fn declare(name: &str, is_mut: bool, is_const: bool, s: Span) -> Spanned<Node> {
    sp(
        Node::Declare {
            targets: vec![sp(Target::Ident(name.to_string()), s)],
            is_mut,
            is_const,
            value: Box::new(int_lit(s)),
        },
        s,
    )
}

fn assign(name: &str, s: Span) -> Spanned<Node> {
    sp(
        Node::Assign {
            targets: vec![sp(Target::Ident(name.to_string()), s)],
            value: Box::new(int_lit(s)),
        },
        s,
    )
}

fn module(nodes: Vec<Spanned<Node>>) -> Context {
    Context::new(Node::Module(nodes))
}

fn only(kind: AnalyzerKind) -> AnalyzerSet {
    let mut set = AnalyzerSet::none();
    match kind {
        AnalyzerKind::NonSnakeCase => set.non_snake_case = true,
        AnalyzerKind::UnusedVariables => set.unused_variables = true,
        AnalyzerKind::UnnecessaryMutVariables => set.unnecessary_mut_variables = true,
        AnalyzerKind::GlobalMutableVariables => set.global_mutable_variables = true,
        _ => panic!("extend the helper for this category"),
    }
    set
}

#[test]
fn unnecessary_mut_reported_once_at_scope_exit() {
    let decl_span = span(0, 14);
    let ctx = module(vec![declare("x", true, false, decl_span)]);
    let msgs = run_analysis(&only(AnalyzerKind::UnnecessaryMutVariables), ctx).expect("no fault");
    assert_eq!(msgs.len(), 1);
    assert_eq!(
        msgs[0].kind,
        AnalyzerMessageKind::Alert(AnalyzerKind::UnnecessaryMutVariables)
    );
    assert_eq!(msgs[0].message, "variable was unneedingly declared as mutable");
    assert_eq!(msgs[0].labels[0].span, decl_span);
    assert_eq!(
        msgs[0].labels[0].message,
        "variable \"x\" declared mutable here, but it is never mutated"
    );
}

#[test]
fn const_shadowed_in_nested_scope_is_reported() {
    let outer_span = span(0, 12);
    let inner_span = span(20, 30);
    let nested = sp(
        Expr::If {
            condition: Box::new(sp(Expr::Bool(true), span(15, 19))),
            body: sp(Body(vec![declare("y", false, false, inner_span)], false), span(14, 31)),
            else_if_bodies: vec![],
            else_body: None,
        },
        span(13, 31),
    );
    let ctx = module(vec![
        declare("y", false, true, outer_span),
        sp(Node::Expr(nested), span(13, 31)),
    ]);
    let msgs = run_analysis(&AnalyzerSet::all(), ctx).expect("no fault");
    let redecl: Vec<_> = msgs
        .iter()
        .filter(|m| {
            m.kind == AnalyzerMessageKind::Alert(AnalyzerKind::RedeclaredConstVariables)
        })
        .collect();
    assert_eq!(redecl.len(), 1);
    // The first label references the outer declaration's span.
    assert_eq!(redecl[0].labels[0].span, outer_span);
    assert_eq!(
        redecl[0].labels[0].message,
        "variable \"y\" declared as `const` here"
    );
}

#[test]
fn assigning_an_undeclared_name_is_a_diagnostic_not_a_fault() {
    let ctx = module(vec![assign("ghost_name", span(0, 10))]);
    let msgs = run_analysis(&AnalyzerSet::all(), ctx).expect("the run must complete");
    assert_eq!(msgs.len(), 1);
    assert_eq!(
        msgs[0].kind,
        AnalyzerMessageKind::Alert(AnalyzerKind::UnresolvedIdentifiers)
    );
    assert_eq!(msgs[0].message, "identifier could not be resolved");
}

#[test]
fn top_level_mut_reported_independently_of_usage() {
    let decl_span = span(0, 20);
    let usage = sp(
        Node::Expr(sp(Expr::Ident("counter".to_string()), span(21, 28))),
        span(21, 28),
    );
    let ctx = module(vec![declare("counter", true, false, decl_span), usage]);
    let msgs = run_analysis(&only(AnalyzerKind::GlobalMutableVariables), ctx).expect("no fault");
    assert_eq!(msgs.len(), 1);
    assert_eq!(
        msgs[0].kind,
        AnalyzerMessageKind::Alert(AnalyzerKind::GlobalMutableVariables)
    );
    assert_eq!(msgs[0].span, decl_span);
    assert_eq!(msgs[0].message, "mutable declaration found in the global scope");
}

#[test]
fn underscore_prefixed_unused_binding_is_exempt() {
    let ctx = module(vec![declare("_unused", false, false, span(0, 16))]);
    let msgs = run_analysis(&only(AnalyzerKind::UnusedVariables), ctx).expect("no fault");
    assert_eq!(msgs.len(), 0);
}

#[test]
fn unused_binding_without_underscore_is_reported() {
    let ctx = module(vec![declare("unused", false, false, span(0, 15))]);
    let msgs = run_analysis(&only(AnalyzerKind::UnusedVariables), ctx).expect("no fault");
    assert_eq!(msgs.len(), 1);
    assert_eq!(msgs[0].message, "variable is declared but never used");
    assert_eq!(
        msgs[0].help.as_deref(),
        Some("remove the declaration, or prefix with an underscore: \"_unused\"")
    );
}

#[test]
fn reassigning_an_immutable_binding_is_reported() {
    let ctx = module(vec![
        declare("x", false, false, span(0, 10)),
        assign("x", span(11, 16)),
    ]);
    let msgs = run_analysis(&AnalyzerSet::all(), ctx).expect("no fault");
    let hit = msgs
        .iter()
        .find(|m| {
            m.kind == AnalyzerMessageKind::Alert(AnalyzerKind::ReassignedImmutableVariables)
        })
        .expect("reassignment reported");
    assert_eq!(hit.message, "cannot reassign to immutable variable");
}

#[test]
fn reassigning_a_const_binding_names_const_in_the_message() {
    let ctx = module(vec![
        declare("x", false, true, span(0, 10)),
        assign("x", span(11, 16)),
    ]);
    let msgs = run_analysis(&AnalyzerSet::all(), ctx).expect("no fault");
    let hit = msgs
        .iter()
        .find(|m| {
            m.kind == AnalyzerMessageKind::Alert(AnalyzerKind::ReassignedImmutableVariables)
        })
        .expect("reassignment reported");
    assert_eq!(hit.message, "cannot reassign to variable declared as `const`");
    assert_eq!(
        hit.help.as_deref(),
        Some("make variable mutable by declaring with `let mut` instead")
    );
}

#[test]
fn non_snake_case_suggests_the_converted_name() {
    let ctx = module(vec![declare("camelCase", false, false, span(0, 18))]);
    let msgs = run_analysis(&only(AnalyzerKind::NonSnakeCase), ctx).expect("no fault");
    assert_eq!(msgs.len(), 1);
    assert_eq!(msgs[0].message, "non-type identifier names should be snake_case");
    assert_eq!(msgs[0].help.as_deref(), Some("rename to \"camel_case\""));
}

#[test]
fn unresolved_identifier_offers_a_near_miss() {
    let decl_span = span(0, 20);
    let use_span = span(21, 36);
    let usage = sp(
        Node::Expr(sp(Expr::Ident("calculate_total".to_string()), use_span)),
        use_span,
    );
    let ctx = module(vec![declare("calculate_totals", false, false, decl_span), usage]);
    let msgs = run_analysis(&AnalyzerSet::all(), ctx).expect("no fault");
    let hit = msgs
        .iter()
        .find(|m| m.kind == AnalyzerMessageKind::Alert(AnalyzerKind::UnresolvedIdentifiers))
        .expect("unresolved reported");
    assert_eq!(hit.labels.len(), 2);
    assert_eq!(
        hit.labels[1].message,
        "perhaps you meant \"calculate_totals\", which was declared here"
    );
    assert_eq!(hit.labels[1].span, decl_span);
    assert!(!hit.labels[1].emphasis);
}

#[test]
fn declaration_without_targets_is_a_fault() {
    let bad = sp(
        Node::Declare {
            targets: vec![],
            is_mut: false,
            is_const: false,
            value: Box::new(int_lit(span(0, 1))),
        },
        span(0, 1),
    );
    let ctx = module(vec![bad]);
    assert_eq!(
        run_analysis(&AnalyzerSet::all(), ctx),
        Err(Fault::MultipleDeclareTargets)
    );
}

#[test]
fn declaration_with_two_targets_is_a_fault() {
    let bad = sp(
        Node::Declare {
            targets: vec![
                sp(Target::Ident("a".to_string()), span(0, 1)),
                sp(Target::Ident("b".to_string()), span(2, 3)),
            ],
            is_mut: false,
            is_const: false,
            value: Box::new(int_lit(span(0, 3))),
        },
        span(0, 3),
    );
    let ctx = module(vec![bad]);
    assert_eq!(
        run_analysis(&AnalyzerSet::all(), ctx),
        Err(Fault::MultipleDeclareTargets)
    );
}

#[test]
fn conflicting_modifiers_are_a_fault() {
    let ctx = module(vec![declare("x", true, true, span(0, 5))]);
    assert_eq!(
        run_analysis(&AnalyzerSet::all(), ctx),
        Err(Fault::ConflictingModifiers)
    );
}

#[test]
fn destructuring_assignment_target_is_a_fault() {
    let bad = sp(
        Node::Assign {
            targets: vec![sp(
                Target::Array(vec![sp(Target::Ident("a".to_string()), span(1, 2))]),
                span(0, 3),
            )],
            value: Box::new(int_lit(span(4, 5))),
        },
        span(0, 5),
    );
    let ctx = module(vec![bad]);
    assert_eq!(
        run_analysis(&AnalyzerSet::all(), ctx),
        Err(Fault::ArrayAssignTarget)
    );
}

#[test]
fn assignment_without_targets_is_a_fault() {
    let bad = sp(
        Node::Assign { targets: vec![], value: Box::new(int_lit(span(0, 1))) },
        span(0, 1),
    );
    let ctx = module(vec![bad]);
    assert_eq!(
        run_analysis(&AnalyzerSet::all(), ctx),
        Err(Fault::MultipleAssignTargets)
    );
}

#[test]
fn array_destructuring_declaration_declares_every_name() {
    let decl = sp(
        Node::Declare {
            targets: vec![sp(
                Target::Array(vec![
                    sp(Target::Ident("a".to_string()), span(1, 2)),
                    sp(Target::Ident("b".to_string()), span(3, 4)),
                ]),
                span(0, 5),
            )],
            is_mut: false,
            is_const: false,
            value: Box::new(int_lit(span(6, 7))),
        },
        span(0, 7),
    );
    let ctx = module(vec![decl]);
    let msgs = run_analysis(&only(AnalyzerKind::UnusedVariables), ctx).expect("no fault");
    // Both names are declared and unused; each entry carries the span
    // of the whole declaration.
    assert_eq!(msgs.len(), 2);
    assert_eq!(
        msgs[0].labels[0].message,
        "variable \"a\" is declared here, but it is never used"
    );
    assert_eq!(
        msgs[1].labels[0].message,
        "variable \"b\" is declared here, but it is never used"
    );
    assert_eq!(msgs[0].labels[0].span, span(0, 7));
}

#[test]
fn while_body_has_its_own_scope() {
    let inner = declare("loop_local", false, false, span(10, 20));
    let w = sp(
        Expr::While {
            condition: Box::new(sp(Expr::Bool(true), span(6, 9))),
            body: vec![inner],
        },
        span(0, 21),
    );
    let ctx = module(vec![sp(Node::Expr(w), span(0, 21))]);
    let msgs = run_analysis(&only(AnalyzerKind::UnusedVariables), ctx).expect("no fault");
    assert_eq!(msgs.len(), 1);
    assert_eq!(msgs[0].labels[0].span, span(10, 20));
}

#[test]
fn infer_maps_literals_to_primitives() {
    let ctx = module(vec![]);
    let mut msgs = Vec::new();
    let t = infer_type(&ctx, &mut msgs, &int_lit(span(0, 1))).expect("inferable");
    assert_eq!(t, Type::Primitive(PrimitiveType::Int));
    let t = infer_type(&ctx, &mut msgs, &sp(Expr::Float, span(0, 1))).expect("inferable");
    assert_eq!(t, Type::Primitive(PrimitiveType::Float));
    let t = infer_type(&ctx, &mut msgs, &sp(Expr::String("s".to_string()), span(0, 1)))
        .expect("inferable");
    assert_eq!(t, Type::Primitive(PrimitiveType::String));
    let t = infer_type(&ctx, &mut msgs, &sp(Expr::Bool(false), span(0, 1))).expect("inferable");
    assert_eq!(t, Type::Primitive(PrimitiveType::Bool));
    assert_eq!(msgs.len(), 0);
}

#[test]
fn infer_degrades_to_unknown_on_unsupported_operator() {
    let ctx = module(vec![]);
    let mut msgs = Vec::new();
    let e = sp(
        Expr::BinaryExpr {
            operator: sp(Operator::Sub, span(2, 3)),
            lhs: Box::new(sp(Expr::String("a".to_string()), span(0, 1))),
            rhs: Box::new(sp(Expr::String("b".to_string()), span(4, 5))),
        },
        span(0, 5),
    );
    let t = infer_type(&ctx, &mut msgs, &e).expect("no fault");
    assert_eq!(t, Type::Unknown);
    assert_eq!(msgs.len(), 1);
    assert_eq!(
        msgs[0].kind,
        AnalyzerMessageKind::Alert(AnalyzerKind::UnsupportedOperators)
    );
    assert_eq!(msgs[0].message, "these types do not support \"-\" operator");
    assert_eq!(
        msgs[0].labels[2].message,
        "cannot use operator \"-\" on string and string"
    );
}

#[test]
fn infer_on_an_identifier_is_an_inference_fault() {
    let ctx = module(vec![]);
    let mut msgs = Vec::new();
    let e = sp(Expr::Ident("x".to_string()), span(0, 1));
    assert_eq!(infer_type(&ctx, &mut msgs, &e), Err(Fault::UnsupportedInference));
}

#[test]
fn if_with_agreeing_branches_takes_their_type() {
    let ctx = module(vec![]);
    let mut msgs = Vec::new();
    let body_span = span(4, 8);
    let else_span = span(9, 13);
    let mk = |s: Span| {
        sp(
            Body(vec![sp(Node::Expr(sp(Expr::Integer(1), s)), s)], true),
            s,
        )
    };
    let e = sp(
        Expr::If {
            condition: Box::new(sp(Expr::Bool(true), span(0, 3))),
            body: mk(body_span),
            else_if_bodies: vec![],
            else_body: Some(mk(else_span)),
        },
        span(0, 13),
    );
    let t = infer_type(&ctx, &mut msgs, &e).expect("no fault");
    assert_eq!(t, Type::Primitive(PrimitiveType::Int));
    assert_eq!(msgs.len(), 0);
}

#[test]
fn if_with_disagreeing_else_is_unbalanced() {
    let ctx = module(vec![]);
    let mut msgs = Vec::new();
    let body_span = span(4, 8);
    let else_span = span(9, 13);
    let int_body = sp(
        Body(
            vec![sp(Node::Expr(sp(Expr::Integer(1), body_span)), body_span)],
            true,
        ),
        body_span,
    );
    let str_body = sp(
        Body(
            vec![sp(
                Node::Expr(sp(Expr::String("s".to_string()), else_span)),
                else_span,
            )],
            true,
        ),
        else_span,
    );
    let e = sp(
        Expr::If {
            condition: Box::new(sp(Expr::Bool(true), span(0, 3))),
            body: int_body,
            else_if_bodies: vec![],
            else_body: Some(str_body),
        },
        span(0, 13),
    );
    let t = infer_type(&ctx, &mut msgs, &e).expect("no fault");
    assert_eq!(t, Type::Unknown);
    assert_eq!(msgs.len(), 1);
    assert_eq!(
        msgs[0].kind,
        AnalyzerMessageKind::Alert(AnalyzerKind::UnbalancedIfStatements)
    );
    assert_eq!(msgs[0].labels[0].message, "this resolves to int");
    assert_eq!(
        msgs[0].labels[1].message,
        "this resolves to string, which is incompatible with int"
    );
}

#[test]
fn value_if_without_else_becomes_nullable() {
    let ctx = module(vec![]);
    let mut msgs = Vec::new();
    let body_span = span(4, 8);
    let int_body = sp(
        Body(
            vec![sp(Node::Expr(sp(Expr::Integer(1), body_span)), body_span)],
            true,
        ),
        body_span,
    );
    let e = sp(
        Expr::If {
            condition: Box::new(sp(Expr::Bool(true), span(0, 3))),
            body: int_body,
            else_if_bodies: vec![],
            else_body: None,
        },
        span(0, 8),
    );
    let t = infer_type(&ctx, &mut msgs, &e).expect("no fault");
    assert_eq!(
        t,
        Type::Union(
            Box::new(Type::Primitive(PrimitiveType::Int)),
            Box::new(Type::Null)
        )
    );
    assert_eq!(msgs.len(), 1);
    assert_eq!(
        msgs[0].kind,
        AnalyzerMessageKind::Alert(AnalyzerKind::UnbalancedIfStatements)
    );
    assert_eq!(msgs[0].labels[0].message, "this resolves to int, which is not null");
}

#[test]
fn severity_and_code_formulas() {
    assert_eq!(AnalyzerKind::NonSnakeCase.severity(), 1);
    assert_eq!(AnalyzerKind::UnusedVariables.severity(), 2);
    assert_eq!(AnalyzerKind::UnbalancedIfStatements.severity(), 3);
    assert_eq!(AnalyzerKind::GlobalMutableVariables.severity(), 4);
    assert_eq!(AnalyzerKind::UnresolvedIdentifiers.severity(), 0);
    assert_eq!(AnalyzerKind::NonSnakeCase.code(), 0);
    assert_eq!(AnalyzerKind::UnresolvedIdentifiers.code(), 1);
    assert_eq!(AnalyzerKind::UninferableTypes.code(), 6);
    assert!(AnalyzerKind::NonSnakeCase.is_warning());
    assert!(!AnalyzerKind::NonSnakeCase.is_error());
    assert!(AnalyzerKind::RedeclaredConstVariables.is_error());
    assert_eq!(AnalyzerKind::UnresolvedIdentifiers.warn_level(), None);
    assert_eq!(AnalyzerKind::UnusedVariables.warn_level(), Some(2));
}

#[test]
fn analyzer_sets_combine_as_documented() {
    let all = AnalyzerSet::all();
    let none = AnalyzerSet::none();
    assert!(all.contains(&AnalyzerKind::NonAscii));
    assert!(!none.contains(&AnalyzerKind::NonAscii));
    let mut disabled = AnalyzerSet::none();
    disabled.unused_variables = true;
    let set = AnalyzerSet::from_disabled(&disabled);
    assert!(!set.contains(&AnalyzerKind::UnusedVariables));
    assert!(set.contains(&AnalyzerKind::NonSnakeCase));
    let mut allowed = AnalyzerSet::none();
    allowed.unused_variables = true;
    let set = AnalyzerSet::from_allowed_disabled(&allowed, &disabled);
    // Disabling takes precedence over allowing.
    assert!(!set.contains(&AnalyzerKind::UnusedVariables));
    assert!(set.contains(&AnalyzerKind::IncompatibleTypes));
    assert!(AnalyzerSet::default().contains(&AnalyzerKind::UninferableTypes));
}

#[test]
fn kind_names_round_trip() {
    let kinds = [
        AnalyzerKind::NonSnakeCase,
        AnalyzerKind::NonPascalCase,
        AnalyzerKind::NonAscii,
        AnalyzerKind::UnusedVariables,
        AnalyzerKind::UnnecessaryMutVariables,
        AnalyzerKind::GlobalMutableVariables,
        AnalyzerKind::UnbalancedIfStatements,
        AnalyzerKind::UnresolvedIdentifiers,
        AnalyzerKind::RedeclaredConstVariables,
        AnalyzerKind::ReassignedImmutableVariables,
        AnalyzerKind::UnsupportedOperators,
        AnalyzerKind::IncompatibleTypes,
        AnalyzerKind::UninferableTypes,
    ];
    for k in kinds {
        assert_eq!(AnalyzerKind::from_name(k.name()), Some(k));
    }
    assert_eq!(AnalyzerKind::name(&AnalyzerKind::NonSnakeCase), "non-snake-case");
    assert_eq!(AnalyzerKind::from_name("no-such-analyzer"), None);
}
