use vstd::prelude::*;
use crate::analyzers::{AnalyzerKind, AnalyzerSet};
use crate::ast::{Body, Expr, Node, Spanned, Target};
use crate::diag::{
    msg_global_mutable_variable, msg_non_snake_case, msg_redeclared_const_variable,
    msg_reassigned_immutable_variable, msg_unresolved_identifier, view_msgs, AnalyzerMessage,
    AnalyzerMessageV,
};
use crate::scope::{
    scope_store, spec_close_match, spec_exit_msgs, spec_lookup, spec_touch, view_scopes,
    Context, EntryV, MockScopeEntry, ScopeEntryModifier,
};
use crate::span::Span;
use crate::text::spec_snake_case;
use crate::types::{Type, TypeV};

verus! {

/// An internal condition the analyzer cannot proceed past: a coverage
/// gap of the walker, not a property of the analyzed program.  A fault
/// aborts the analysis run; it is kept apart from the diagnostics,
/// which describe the analyzed program and never halt the walk.
#[derive(Copy, Clone, Debug, PartialEq, Eq, Structural)]
pub enum Fault {
    /// A declaration with zero or several simultaneous targets.
    MultipleDeclareTargets,
    /// An assignment with zero or several simultaneous targets.
    MultipleAssignTargets,
    /// An assignment whose target is a destructuring pattern.
    ArrayAssignTarget,
    /// A declaration marked both `mut` and `const`: an invariant the
    /// parser is to uphold, fatal to the run when broken.
    ConflictingModifiers,
    /// An expression kind that type inference does not cover.
    UnsupportedInference,
}

// ---------------------------------------------------------------------
// The walk, as a function on the model
// ---------------------------------------------------------------------

/// The scope-stack updates and diagnostics of visiting one expression.
/// Referencing an identifier marks its binding used, or reports an
/// unresolved identifier with a near-miss suggestion; `if` and `while`
/// visit their conditions unscoped and each body inside a fresh scope;
/// operators visit their operands; every other expression is a no-op.
pub open spec fn walk_expr(
    a: AnalyzerSet,
    se: Spanned<Expr>,
    ss: Seq<Seq<EntryV>>,
    ms: Seq<AnalyzerMessageV>,
) -> Result<(Seq<Seq<EntryV>>, Seq<AnalyzerMessageV>), Fault>
    decreases se, 0int,
{
    match se.node {
        Expr::Ident(s) => {
            if spec_lookup(ss, s@) is Some {
                Ok((spec_touch(ss, s@, true, false), ms))
            } else {
                Ok(
                    (
                        ss,
                        ms.push(msg_unresolved_identifier(s@, spec_close_match(ss, s@), se.span)),
                    ),
                )
            }
        },
        Expr::If { condition, body, else_if_bodies, else_body } => {
            match walk_expr(a, *condition, ss, ms) {
                Err(f) => Err(f),
                Ok((ss1, ms1)) => match walk_body_scoped(a, body, ss1, ms1) {
                    Err(f) => Err(f),
                    Ok((ss2, ms2)) => match walk_branches(
                        a,
                        else_if_bodies@,
                        else_if_bodies@.len() as int,
                        ss2,
                        ms2,
                    ) {
                        Err(f) => Err(f),
                        Ok((ss3, ms3)) => match else_body {
                            Some(b) => walk_body_scoped(a, b, ss3, ms3),
                            None => Ok((ss3, ms3)),
                        },
                    },
                },
            }
        },
        Expr::While { condition, body } => {
            match walk_expr(a, *condition, ss, ms) {
                Err(f) => Err(f),
                Ok((ss1, ms1)) => walk_stmts_scoped(a, body@, ss1, ms1),
            }
        },
        Expr::UnaryExpr { operator: _, value } => walk_expr(a, *value, ss, ms),
        Expr::BinaryExpr { operator: _, lhs, rhs } => {
            match walk_expr(a, *lhs, ss, ms) {
                Err(f) => Err(f),
                Ok((ss1, ms1)) => walk_expr(a, *rhs, ss1, ms1),
            }
        },
        _ => Ok((ss, ms)),
    }
}

/// Visits the statements of a body inside a fresh scope; closing the
/// scope appends its unused and unnecessary-mutable diagnostics.
pub open spec fn walk_body_scoped(
    a: AnalyzerSet,
    b: Spanned<Body>,
    ss: Seq<Seq<EntryV>>,
    ms: Seq<AnalyzerMessageV>,
) -> Result<(Seq<Seq<EntryV>>, Seq<AnalyzerMessageV>), Fault>
    decreases b, 0int,
{
    match walk_nodes(
        a,
        b.node.0@,
        b.node.0@.len() as int,
        ss.push(Seq::empty()),
        ms,
    ) {
        Err(f) => Err(f),
        Ok((ss1, ms1)) => Ok((ss1.drop_last(), ms1 + spec_exit_msgs(ss1.last(), a))),
    }
}

/// Visits a statement list inside a fresh scope, as `walk_body_scoped`
/// does for a body.
pub open spec fn walk_stmts_scoped(
    a: AnalyzerSet,
    nodes: Seq<Spanned<Node>>,
    ss: Seq<Seq<EntryV>>,
    ms: Seq<AnalyzerMessageV>,
) -> Result<(Seq<Seq<EntryV>>, Seq<AnalyzerMessageV>), Fault>
    decreases nodes, nodes.len() + 1,
{
    match walk_nodes(a, nodes, nodes.len() as int, ss.push(Seq::empty()), ms) {
        Err(f) => Err(f),
        Ok((ss1, ms1)) => Ok((ss1.drop_last(), ms1 + spec_exit_msgs(ss1.last(), a))),
    }
}

/// Visits the first `n` of the `else if` branches in order: each
/// condition unscoped, then the branch body in a fresh scope.
pub open spec fn walk_branches(
    a: AnalyzerSet,
    pairs: Seq<(Spanned<Expr>, Spanned<Body>)>,
    n: int,
    ss: Seq<Seq<EntryV>>,
    ms: Seq<AnalyzerMessageV>,
) -> Result<(Seq<Seq<EntryV>>, Seq<AnalyzerMessageV>), Fault>
    decreases pairs, n,
        when n <= pairs.len()
{
    if n <= 0 {
        Ok((ss, ms))
    } else {
        match walk_branches(a, pairs, n - 1, ss, ms) {
            Err(f) => Err(f),
            Ok((ss1, ms1)) => match walk_expr(a, pairs[n - 1].0, ss1, ms1) {
                Err(f) => Err(f),
                Ok((ss2, ms2)) => walk_body_scoped(a, pairs[n - 1].1, ss2, ms2),
            },
        }
    }
}

/// Visits the first `n` statements of a list, in order.
pub open spec fn walk_nodes(
    a: AnalyzerSet,
    nodes: Seq<Spanned<Node>>,
    n: int,
    ss: Seq<Seq<EntryV>>,
    ms: Seq<AnalyzerMessageV>,
) -> Result<(Seq<Seq<EntryV>>, Seq<AnalyzerMessageV>), Fault>
    decreases nodes, n,
        when n <= nodes.len()
{
    if n <= 0 {
        Ok((ss, ms))
    } else {
        match walk_nodes(a, nodes, n - 1, ss, ms) {
            Err(f) => Err(f),
            Ok((ss1, ms1)) => walk_node(a, nodes[n - 1], ss1, ms1),
        }
    }
}

/// Destructures a declaration target, collecting the declared
/// `(name, span)` pairs in order and reporting each name that shadows
/// a `const` binding.
pub open spec fn collect_target(
    t: Target,
    ss: Seq<Seq<EntryV>>,
    tgt_span: Span,
    span: Span,
    ms: Seq<AnalyzerMessageV>,
    acc: Seq<(Seq<char>, Span)>,
) -> (Seq<AnalyzerMessageV>, Seq<(Seq<char>, Span)>)
    decreases t, 0int,
{
    match t {
        Target::Ident(s) => {
            let ms1 = match spec_lookup(ss, s@) {
                Some(e) => if e.modifier == ScopeEntryModifier::Const {
                    ms.push(msg_redeclared_const_variable(s@, e.span, span))
                } else {
                    ms
                },
                None => ms,
            };
            (ms1, acc.push((s@, tgt_span)))
        },
        Target::Array(ts) => collect_targets(ts@, ts@.len() as int, ss, span, ms, acc),
    }
}

pub open spec fn collect_targets(
    ts: Seq<Spanned<Target>>,
    n: int,
    ss: Seq<Seq<EntryV>>,
    span: Span,
    ms: Seq<AnalyzerMessageV>,
    acc: Seq<(Seq<char>, Span)>,
) -> (Seq<AnalyzerMessageV>, Seq<(Seq<char>, Span)>)
    decreases ts, n,
        when n <= ts.len()
{
    if n <= 0 {
        (ms, acc)
    } else {
        let (ms1, acc1) = collect_targets(ts, n - 1, ss, span, ms, acc);
        collect_target(ts[n - 1].node, ss, ts[n - 1].span, span, ms1, acc1)
    }
}

/// Declares the first `n` collected names in the innermost scope, in
/// order, reporting each name that is not snake_case; every entry
/// starts unresolved, unused and unmutated.
pub open spec fn store_deferred(
    a: AnalyzerSet,
    names: Seq<(Seq<char>, Span)>,
    n: int,
    modifier: ScopeEntryModifier,
    span: Span,
    ss: Seq<Seq<EntryV>>,
    ms: Seq<AnalyzerMessageV>,
) -> (Seq<Seq<EntryV>>, Seq<AnalyzerMessageV>)
    decreases n,
{
    if n <= 0 {
        (ss, ms)
    } else {
        let (ss1, ms1) = store_deferred(a, names, n - 1, modifier, span, ss, ms);
        let name = names[n - 1].0;
        let ms2 = if a.spec_contains(AnalyzerKind::NonSnakeCase) && name != spec_snake_case(
            name,
        ) {
            ms1.push(msg_non_snake_case(name, spec_snake_case(name), names[n - 1].1))
        } else {
            ms1
        };
        let entry = EntryV {
            name,
            ty: TypeV::Unknown,
            modifier,
            used: false,
            mutated: false,
            span,
        };
        let ss2 = ss1.update(ss1.len() - 1, scope_store(ss1.last(), entry));
        (ss2, ms2)
    }
}

/// The scope-stack updates and diagnostics of visiting one statement.
/// A module visits its statements in order.  A declaration with
/// exactly one target resolves its modifier, reports a top-level `mut`
/// binding, destructures the target and declares every collected
/// name; any other target count, and both modifiers at once, are
/// faults.  An assignment to a single identifier marks its binding
/// mutated and reports assignment to an immutable or `const` binding,
/// or reports an unresolved identifier; a destructuring target is a
/// fault.  An expression statement visits the expression.
pub open spec fn walk_node(
    a: AnalyzerSet,
    sn: Spanned<Node>,
    ss: Seq<Seq<EntryV>>,
    ms: Seq<AnalyzerMessageV>,
) -> Result<(Seq<Seq<EntryV>>, Seq<AnalyzerMessageV>), Fault>
    decreases sn, 0int,
{
    match sn.node {
        Node::Module(nodes) => walk_nodes(a, nodes@, nodes@.len() as int, ss, ms),
        Node::Declare { targets, is_mut, is_const, value: _ } => {
            if targets@.len() != 1 {
                Err(Fault::MultipleDeclareTargets)
            } else if is_mut && is_const {
                Err(Fault::ConflictingModifiers)
            } else {
                let modifier = if is_mut {
                    ScopeEntryModifier::Mut
                } else if is_const {
                    ScopeEntryModifier::Const
                } else {
                    ScopeEntryModifier::Plain
                };
                let ms1 = if a.spec_contains(AnalyzerKind::GlobalMutableVariables) && ss.len()
                    == 1 && modifier == ScopeEntryModifier::Mut {
                    ms.push(msg_global_mutable_variable(sn.span))
                } else {
                    ms
                };
                let (ms2, names) = collect_target(
                    targets@[0].node,
                    ss,
                    targets@[0].span,
                    sn.span,
                    ms1,
                    Seq::empty(),
                );
                Ok(store_deferred(a, names, names.len() as int, modifier, sn.span, ss, ms2))
            }
        },
        Node::Assign { targets, value: _ } => {
            if targets@.len() != 1 {
                Err(Fault::MultipleAssignTargets)
            } else {
                match targets@[0].node {
                    Target::Ident(s) => match spec_lookup(ss, s@) {
                        Some(e) => {
                            let ss1 = spec_touch(ss, s@, false, true);
                            let ms1 = if e.modifier != ScopeEntryModifier::Mut {
                                ms.push(
                                    msg_reassigned_immutable_variable(
                                        s@,
                                        e.span,
                                        sn.span,
                                        e.modifier == ScopeEntryModifier::Const,
                                    ),
                                )
                            } else {
                                ms
                            };
                            Ok((ss1, ms1))
                        },
                        None => Ok(
                            (
                                ss,
                                ms.push(
                                    msg_unresolved_identifier(
                                        s@,
                                        spec_close_match(ss, s@),
                                        targets@[0].span,
                                    ),
                                ),
                            ),
                        ),
                    },
                    Target::Array(_) => Err(Fault::ArrayAssignTarget),
                }
            }
        },
        Node::Expr(e) => walk_expr(a, e, ss, ms),
    }
}

// ---------------------------------------------------------------------
// Lemmas about the walk
// ---------------------------------------------------------------------

/// A fault while visiting a statement list is final: every longer
/// prefix yields the same fault.
pub proof fn lemma_walk_nodes_absorb(
    a: AnalyzerSet,
    nodes: Seq<Spanned<Node>>,
    k: int,
    n: int,
    ss: Seq<Seq<EntryV>>,
    ms: Seq<AnalyzerMessageV>,
)
    requires
        0 <= k <= n <= nodes.len(),
        walk_nodes(a, nodes, k, ss, ms) is Err,
    ensures
        walk_nodes(a, nodes, n, ss, ms) == walk_nodes(a, nodes, k, ss, ms),
    decreases n - k,
{
    if n > k {
        lemma_walk_nodes_absorb(a, nodes, k, n - 1, ss, ms);
    }
}

/// A fault while visiting the `else if` branches is final in the same
/// way.
pub proof fn lemma_walk_branches_absorb(
    a: AnalyzerSet,
    pairs: Seq<(Spanned<Expr>, Spanned<Body>)>,
    k: int,
    n: int,
    ss: Seq<Seq<EntryV>>,
    ms: Seq<AnalyzerMessageV>,
)
    requires
        0 <= k <= n <= pairs.len(),
        walk_branches(a, pairs, k, ss, ms) is Err,
    ensures
        walk_branches(a, pairs, n, ss, ms) == walk_branches(a, pairs, k, ss, ms),
    decreases n - k,
{
    if n > k {
        lemma_walk_branches_absorb(a, pairs, k, n - 1, ss, ms);
    }
}

// ---------------------------------------------------------------------
// The executable walk
// ---------------------------------------------------------------------

pub open spec fn view_pairs(s: Seq<(String, Span)>) -> Seq<(Seq<char>, Span)>
    decreases s,
{
    if s.len() == 0 {
        Seq::empty()
    } else {
        seq![(s[0].0@, s[0].1)] + view_pairs(s.skip(1))
    }
}

/// The view of a sequence of name/span pairs is pointwise.
pub proof fn lemma_view_pairs_index(s: Seq<(String, Span)>)
    ensures
        view_pairs(s).len() == s.len(),
        forall|i: int| 0 <= i < s.len() ==> view_pairs(s)[i] == (s[i].0@, s[i].1),
    decreases s,
{
    if s.len() > 0 {
        lemma_view_pairs_index(s.skip(1));
        assert(forall|i: int|
            1 <= i < s.len() ==> view_pairs(s)[i] == view_pairs(s.skip(1))[i - 1]);
        assert(forall|i: int| 1 <= i < s.len() ==> s.skip(1)[i - 1] == s[i]);
    }
}

/// Visits a statement list inside a fresh scope: opens a scope, walks
/// the statements in order, and closes the scope again, which appends
/// its end-of-scope diagnostics.
fn visit_nodes_scoped(
    analyzers: &AnalyzerSet,
    ctx: &mut Context,
    messages: &mut Vec<AnalyzerMessage>,
    nodes: &Vec<Spanned<Node>>,
) -> (r: Result<(), Fault>)
    requires
        old(ctx).scopes@.len() >= 1,
    ensures
        final(ctx).ast == old(ctx).ast,
        ({
            let res = walk_stmts_scoped(
                *analyzers,
                nodes@,
                view_scopes(old(ctx).scopes@),
                view_msgs(old(messages)@),
            );
            match res {
                Ok(pair) => r is Ok && view_scopes(final(ctx).scopes@) == pair.0 && view_msgs(
                    final(messages)@,
                ) == pair.1 && final(ctx).scopes@.len() == old(ctx).scopes@.len(),
                Err(f) => r == Err::<(), Fault>(f),
            }
        }),
    decreases *nodes, 1int,
{
    let ghost ss0 = view_scopes(ctx.scopes@);
    let ghost ms0 = view_msgs(messages@);
    ctx.enter_scope();
    let ghost ssin = view_scopes(ctx.scopes@);
    let mut k: usize = 0;
    while k < nodes.len()
        invariant
            k <= nodes@.len(),
            ctx.ast == old(ctx).ast,
            old(ctx).scopes@.len() >= 1,
            ctx.scopes@.len() == old(ctx).scopes@.len() + 1,
            ss0 == view_scopes(old(ctx).scopes@),
            ms0 == view_msgs(old(messages)@),
            ssin == ss0.push(Seq::<EntryV>::empty()),
            walk_nodes(*analyzers, nodes@, k as int, ssin, ms0) == Ok::<
                (Seq<Seq<EntryV>>, Seq<AnalyzerMessageV>),
                Fault,
            >((view_scopes(ctx.scopes@), view_msgs(messages@))),
        decreases nodes@.len() - k,
    {
        let ghost k0 = k as int;
        match visit_node(analyzers, ctx, messages, &nodes[k]) {
            Err(f) => {
                proof {
                    lemma_walk_nodes_absorb(
                        *analyzers,
                        nodes@,
                        k0 + 1,
                        nodes@.len() as int,
                        ssin,
                        ms0,
                    );
                }
                return Err(f);
            },
            Ok(u) => {
                let _ = u;
            },
        }
        k = k + 1;
    }
    let ghost ss_end = view_scopes(ctx.scopes@);
    let ghost ms_end = view_msgs(messages@);
    let ghost scopes_before = ctx.scopes@;
    ctx.exit_scope(analyzers, messages);
    proof {
        crate::scope::lemma_view_scopes_drop_last(scopes_before);
    }
    Ok(())
}

/// Analyzes one expression: the executable counterpart of
/// `walk_expr`, against whose result its outcome is stated.
#[verifier::loop_isolation(false)]
#[verifier::rlimit(100)]
pub fn visit_expr(
    analyzers: &AnalyzerSet,
    ctx: &mut Context,
    messages: &mut Vec<AnalyzerMessage>,
    expr: &Spanned<Expr>,
) -> (r: Result<(), Fault>)
    requires
        old(ctx).scopes@.len() >= 1,
    ensures
        final(ctx).ast == old(ctx).ast,
        ({
            let res = walk_expr(
                *analyzers,
                *expr,
                view_scopes(old(ctx).scopes@),
                view_msgs(old(messages)@),
            );
            match res {
                Ok(pair) => r is Ok && view_scopes(final(ctx).scopes@) == pair.0 && view_msgs(
                    final(messages)@,
                ) == pair.1 && final(ctx).scopes@.len() == old(ctx).scopes@.len(),
                Err(f) => r == Err::<(), Fault>(f),
            }
        }),
    decreases *expr, 0int,
{
    match &expr.node {
        Expr::Ident(s) => {
            proof {
                crate::scope::lemma_lookup_properties(view_scopes(ctx.scopes@), s@);
            }
            let found = ctx.mark_used(s);
            if !found {
                let cm = ctx.close_var_match(s.as_str());
                let ghost before = messages@;
                let m = AnalyzerMessage::unresolved_identifier(s.as_str(), cm, expr.span);
                messages.push(m);
                proof {
                    crate::diag::lemma_view_msgs_push(before, m);
                }
            }
            proof {
                let res = walk_expr(*analyzers, *expr, view_scopes(old(ctx).scopes@), view_msgs(old(messages)@));
                assert(res is Ok);
                assert(res->Ok_0.0 == view_scopes(ctx.scopes@));
                assert(res->Ok_0.1 == view_msgs(messages@));
            }
            Ok(())
        },
        Expr::If { condition, body, else_if_bodies, else_body } => {
            let ghost a = *analyzers;
            match visit_expr(analyzers, ctx, messages, condition) {
                Err(f) => {
                    return Err(f);
                },
                Ok(_) => {},
            }
            let ghost ss1 = view_scopes(ctx.scopes@);
            let ghost ms1 = view_msgs(messages@);
            proof {
                assert(walk_body_scoped(a, *body, ss1, ms1) == walk_stmts_scoped(
                    a,
                    body.node.0@,
                    ss1,
                    ms1,
                ));
            }
            match visit_nodes_scoped(analyzers, ctx, messages, &body.node.0) {
                Err(f) => {
                    return Err(f);
                },
                Ok(_) => {},
            }
            let ghost ss2 = view_scopes(ctx.scopes@);
            let ghost ms2 = view_msgs(messages@);
            let mut k: usize = 0;
            while k < else_if_bodies.len()
                invariant
                    k <= else_if_bodies@.len(),
                    ctx.ast == old(ctx).ast,
                    ctx.scopes@.len() == old(ctx).scopes@.len(),
                    walk_branches(a, else_if_bodies@, k as int, ss2, ms2) == Ok::<
                        (Seq<Seq<EntryV>>, Seq<AnalyzerMessageV>),
                        Fault,
                    >((view_scopes(ctx.scopes@), view_msgs(messages@))),
                decreases else_if_bodies@.len() - k,
            {
                let ghost k0 = k as int;
                match visit_expr(analyzers, ctx, messages, &else_if_bodies[k].0) {
                    Err(f) => {
                        proof {
                            lemma_walk_branches_absorb(
                                a,
                                else_if_bodies@,
                                k0 + 1,
                                else_if_bodies@.len() as int,
                                ss2,
                                ms2,
                            );
                        }
                        return Err(f);
                    },
                    Ok(_) => {},
                }
                proof {
                    assert(walk_body_scoped(
                        a,
                        else_if_bodies@[k0].1,
                        view_scopes(ctx.scopes@),
                        view_msgs(messages@),
                    ) == walk_stmts_scoped(
                        a,
                        else_if_bodies@[k0].1.node.0@,
                        view_scopes(ctx.scopes@),
                        view_msgs(messages@),
                    ));
                }
                match visit_nodes_scoped(analyzers, ctx, messages, &else_if_bodies[k].1.node.0) {
                    Err(f) => {
                        proof {
                            lemma_walk_branches_absorb(
                                a,
                                else_if_bodies@,
                                k0 + 1,
                                else_if_bodies@.len() as int,
                                ss2,
                                ms2,
                            );
                        }
                        return Err(f);
                    },
                    Ok(_) => {},
                }
                k = k + 1;
            }
            match else_body {
                Some(b) => {
                    let ghost ss3 = view_scopes(ctx.scopes@);
                    let ghost ms3 = view_msgs(messages@);
                    proof {
                        assert(walk_body_scoped(a, *b, ss3, ms3) == walk_stmts_scoped(
                            a,
                            b.node.0@,
                            ss3,
                            ms3,
                        ));
                    }
                    let rr = visit_nodes_scoped(analyzers, ctx, messages, &b.node.0);
                    proof {
                        let res = walk_expr(*analyzers, *expr, view_scopes(old(ctx).scopes@), view_msgs(old(messages)@));
                        assert(rr is Ok ==> res is Ok && res->Ok_0.0 == view_scopes(ctx.scopes@) && res->Ok_0.1 == view_msgs(messages@));
                        assert(rr is Err ==> res == Err::<(Seq<Seq<EntryV>>, Seq<AnalyzerMessageV>), Fault>(rr->Err_0));
                    }
                    rr
                },
                None => {
                    proof {
                        let res = walk_expr(*analyzers, *expr, view_scopes(old(ctx).scopes@), view_msgs(old(messages)@));
                        assert(res is Ok);
                        assert(res->Ok_0.0 == view_scopes(ctx.scopes@));
                        assert(res->Ok_0.1 == view_msgs(messages@));
                    }
                    Ok(())
                },
            }
        },
        Expr::While { condition, body } => {
            match visit_expr(analyzers, ctx, messages, condition) {
                Err(f) => {
                    return Err(f);
                },
                Ok(_) => {},
            }
            let ghost ssw = view_scopes(ctx.scopes@);
            let ghost msw = view_msgs(messages@);
            let rr = visit_nodes_scoped(analyzers, ctx, messages, body);
            proof {
                let res = walk_expr(*analyzers, *expr, view_scopes(old(ctx).scopes@), view_msgs(old(messages)@));
                assert(rr is Ok ==> res is Ok && res->Ok_0.0 == view_scopes(ctx.scopes@) && res->Ok_0.1 == view_msgs(messages@));
                assert(rr is Err ==> res == Err::<(Seq<Seq<EntryV>>, Seq<AnalyzerMessageV>), Fault>(rr->Err_0));
            }
            rr
        },
        Expr::UnaryExpr { operator: _, value } => visit_expr(analyzers, ctx, messages, value),
        Expr::BinaryExpr { operator: _, lhs, rhs } => {
            match visit_expr(analyzers, ctx, messages, lhs) {
                Err(f) => {
                    return Err(f);
                },
                Ok(_) => {},
            }
            visit_expr(analyzers, ctx, messages, rhs)
        },
        _ => {
            proof {
                let res = walk_expr(*analyzers, *expr, view_scopes(old(ctx).scopes@), view_msgs(old(messages)@));
                assert(res is Ok);
                assert(res->Ok_0.0 == view_scopes(ctx.scopes@));
                assert(res->Ok_0.1 == view_msgs(messages@));
            }
            Ok(())
        },
    }
}

/// Destructures one declaration target, reporting const shadowing and
/// collecting the declared names: the executable counterpart of
/// `collect_target`.
#[verifier::loop_isolation(false)]
fn collect_target_exec(
    ctx: &Context,
    messages: &mut Vec<AnalyzerMessage>,
    target: &Target,
    span: Span,
    tgt_span: Span,
    deferred: &mut Vec<(String, Span)>,
) -> (r: ())
    ensures
        ({
            let res = collect_target(
                *target,
                view_scopes(ctx.scopes@),
                tgt_span,
                span,
                view_msgs(old(messages)@),
                view_pairs(old(deferred)@),
            );
            view_msgs(final(messages)@) == res.0 && view_pairs(final(deferred)@) == res.1
        }),
    decreases *target,
{
    match target {
        Target::Ident(s) => {
            match ctx.lookup_var(s) {
                Some(e) => {
                    if e.is_const() {
                        let ghost before = messages@;
                        let m = AnalyzerMessage::redeclared_const_variable(
                            s.as_str(),
                            e.span,
                            span,
                        );
                        messages.push(m);
                        proof {
                            crate::diag::lemma_view_msgs_push(before, m);
                        }
                    }
                },
                None => {},
            }
            let ghost dbefore = deferred@;
            deferred.push((s.clone(), tgt_span));
            proof {
                lemma_view_pairs_index(dbefore);
                lemma_view_pairs_index(deferred@);
                assert(view_pairs(deferred@) =~~= view_pairs(dbefore).push((s@, tgt_span)));
            }
        },
        Target::Array(ts) => {
            let ghost ss = view_scopes(ctx.scopes@);
            let ghost ms0 = view_msgs(messages@);
            let ghost acc0 = view_pairs(deferred@);
            let mut k: usize = 0;
            while k < ts.len()
                invariant
                    k <= ts@.len(),
                    collect_targets(ts@, k as int, ss, span, ms0, acc0) == (
                        view_msgs(messages@),
                        view_pairs(deferred@),
                    ),
                decreases ts@.len() - k,
            {
                collect_target_exec(ctx, messages, &ts[k].node, span, ts[k].span, deferred);
                k = k + 1;
            }
        },
    }
}

/// Analyzes one statement: the executable counterpart of `walk_node`,
/// against whose result its outcome is stated.
#[verifier::loop_isolation(false)]
#[verifier::rlimit(100)]
pub fn visit_node(
    analyzers: &AnalyzerSet,
    ctx: &mut Context,
    messages: &mut Vec<AnalyzerMessage>,
    node: &Spanned<Node>,
) -> (r: Result<(), Fault>)
    requires
        old(ctx).scopes@.len() >= 1,
    ensures
        final(ctx).ast == old(ctx).ast,
        ({
            let res = walk_node(
                *analyzers,
                *node,
                view_scopes(old(ctx).scopes@),
                view_msgs(old(messages)@),
            );
            match res {
                Ok(pair) => r is Ok && view_scopes(final(ctx).scopes@) == pair.0 && view_msgs(
                    final(messages)@,
                ) == pair.1 && final(ctx).scopes@.len() == old(ctx).scopes@.len(),
                Err(f) => r == Err::<(), Fault>(f),
            }
        }),
    decreases *node, 2int,
{
    match &node.node {
        Node::Module(nodes) => {
            let ghost a = *analyzers;
            let ghost ss0 = view_scopes(ctx.scopes@);
            let ghost ms0 = view_msgs(messages@);
            let mut k: usize = 0;
            while k < nodes.len()
                invariant
                    k <= nodes@.len(),
                    ctx.ast == old(ctx).ast,
                    ctx.scopes@.len() == old(ctx).scopes@.len(),
                    walk_nodes(a, nodes@, k as int, ss0, ms0) == Ok::<
                        (Seq<Seq<EntryV>>, Seq<AnalyzerMessageV>),
                        Fault,
                    >((view_scopes(ctx.scopes@), view_msgs(messages@))),
                decreases nodes@.len() - k,
            {
                let ghost k0 = k as int;
                match visit_node(analyzers, ctx, messages, &nodes[k]) {
                    Err(f) => {
                        proof {
                            lemma_walk_nodes_absorb(a, nodes@, k0 + 1, nodes@.len() as int, ss0, ms0);
                        }
                        return Err(f);
                    },
                    Ok(_) => {},
                }
                k = k + 1;
            }
            proof {
                let res = walk_node(*analyzers, *node, view_scopes(old(ctx).scopes@), view_msgs(old(messages)@));
                assert(res is Ok);
                assert(res->Ok_0.0 == view_scopes(ctx.scopes@));
                assert(res->Ok_0.1 == view_msgs(messages@));
            }
            Ok(())
        },
        Node::Declare { targets, is_mut, is_const, value: _ } => {
            if targets.len() != 1 {
                return Err(Fault::MultipleDeclareTargets);
            }
            if *is_mut && *is_const {
                return Err(Fault::ConflictingModifiers);
            }
            let modifier = if *is_mut {
                ScopeEntryModifier::Mut
            } else if *is_const {
                ScopeEntryModifier::Const
            } else {
                ScopeEntryModifier::Plain
            };
            let ghost a = *analyzers;
            let ghost ss0 = view_scopes(ctx.scopes@);
            proof {
                crate::scope::lemma_view_scopes_index(ctx.scopes@);
            }
            let gk = AnalyzerKind::GlobalMutableVariables;
            if analyzers.contains(&gk) && ctx.is_top_level() && modifier
                == ScopeEntryModifier::Mut {
                let ghost before = messages@;
                let m = AnalyzerMessage::global_mutable_variable(node.span);
                messages.push(m);
                proof {
                    crate::diag::lemma_view_msgs_push(before, m);
                }
            }
            let ghost ms1 = view_msgs(messages@);
            let mut deferred: Vec<(String, Span)> = Vec::new();
            proof {
                assert(view_pairs(deferred@) =~~= Seq::<(Seq<char>, Span)>::empty());
            }
            collect_target_exec(
                ctx,
                messages,
                &targets[0].node,
                node.span,
                targets[0].span,
                &mut deferred,
            );
            let ghost ms2 = view_msgs(messages@);
            let ghost namesv = view_pairs(deferred@);
            proof {
                lemma_view_pairs_index(deferred@);
            }
            let mut k: usize = 0;
            while k < deferred.len()
                invariant
                    k <= deferred@.len(),
                    ctx.ast == old(ctx).ast,
                    ctx.scopes@.len() == old(ctx).scopes@.len(),
                    store_deferred(a, namesv, k as int, modifier, node.span, ss0, ms2) == (
                        view_scopes(ctx.scopes@),
                        view_msgs(messages@),
                    ),
                decreases deferred@.len() - k,
            {
                let name = &deferred[k].0;
                let tspan = deferred[k].1;
                let nk = AnalyzerKind::NonSnakeCase;
                if analyzers.contains(&nk) {
                    let snake = crate::text::to_snake_case(name.as_str());
                    if !(*name == snake) {
                        let ghost before = messages@;
                        let m = AnalyzerMessage::non_snake_case(name.as_str(), snake, tspan);
                        messages.push(m);
                        proof {
                            crate::diag::lemma_view_msgs_push(before, m);
                        }
                    }
                }
                let entry = MockScopeEntry::new(
                    name.clone(),
                    crate::types::Type::Unknown,
                    modifier,
                    node.span,
                );
                proof {
                    crate::scope::lemma_view_scopes_index(ctx.scopes@);
                }
                ctx.store_var(name.clone(), entry);
                k = k + 1;
                proof {
                    assert(store_deferred(a, namesv, k as int, modifier, node.span, ss0, ms2)
                        == (view_scopes(ctx.scopes@), view_msgs(messages@)));
                }
            }
            proof {
                let res = walk_node(*analyzers, *node, view_scopes(old(ctx).scopes@), view_msgs(old(messages)@));
                assert(res is Ok);
                assert(res->Ok_0.0 == view_scopes(ctx.scopes@));
                assert(res->Ok_0.1 == view_msgs(messages@));
            }
            Ok(())
        },
        Node::Assign { targets, value: _ } => {
            if targets.len() != 1 {
                return Err(Fault::MultipleAssignTargets);
            }
            match &targets[0].node {
                Target::Ident(s) => {
                    proof {
                        crate::scope::lemma_lookup_properties(view_scopes(ctx.scopes@), s@);
                    }
                    match ctx.mark_assigned(s) {
                        Some(found) => {
                            if !(found.0 == ScopeEntryModifier::Mut) {
                                let was_const = found.0 == ScopeEntryModifier::Const;
                                let ghost before = messages@;
                                let m = AnalyzerMessage::reassigned_immutable_variable(
                                    s.as_str(),
                                    found.1,
                                    node.span,
                                    was_const,
                                );
                                messages.push(m);
                                proof {
                                    crate::diag::lemma_view_msgs_push(before, m);
                                }
                            }
                            proof {
                                let res = walk_node(*analyzers, *node, view_scopes(old(ctx).scopes@), view_msgs(old(messages)@));
                                assert(res is Ok);
                                assert(res->Ok_0.0 == view_scopes(ctx.scopes@));
                                assert(res->Ok_0.1 == view_msgs(messages@));
                            }
                            Ok(())
                        },
                        None => {
                            let cm = ctx.close_var_match(s.as_str());
                            let ghost before = messages@;
                            let m = AnalyzerMessage::unresolved_identifier(
                                s.as_str(),
                                cm,
                                targets[0].span,
                            );
                            messages.push(m);
                            proof {
                                crate::diag::lemma_view_msgs_push(before, m);
                                let res = walk_node(*analyzers, *node, view_scopes(old(ctx).scopes@), view_msgs(old(messages)@));
                                assert(res is Ok);
                                assert(res->Ok_0.0 == view_scopes(ctx.scopes@));
                                assert(res->Ok_0.1 == view_msgs(messages@));
                            }
                            Ok(())
                        },
                    }
                },
                Target::Array(_) => Err(Fault::ArrayAssignTarget),
            }
        },
        Node::Expr(e) => visit_expr(analyzers, ctx, messages, e),
    }
}

/// Analyzes the whole tree held by the context: walks it from a fresh
/// message list, then closes the top-level scope, which appends its
/// end-of-scope diagnostics.  Returns the ordered diagnostic list, or
/// the fault that aborted the run.
pub fn run_analysis(analyzers: &AnalyzerSet, ctx: Context) -> (r: Result<
    Vec<AnalyzerMessage>,
    Fault,
>)
    requires
        ctx.scopes@.len() >= 1,
    ensures
        ({
            let res = walk_node(
                *analyzers,
                Spanned { node: ctx.ast, span: Span { src: 0, start: 0, end: 0 } },
                view_scopes(ctx.scopes@),
                Seq::empty(),
            );
            match (r, res) {
                (Ok(msgs), Ok(pair)) => view_msgs(msgs@) == pair.1 + spec_exit_msgs(
                    pair.0.last(),
                    *analyzers,
                ),
                (Err(e), Err(f)) => e == f,
                _ => false,
            }
        }),
{
    let mut messages: Vec<AnalyzerMessage> = Vec::new();
    proof {
        assert(view_msgs(messages@) =~~= Seq::<AnalyzerMessageV>::empty());
    }
    let Context { ast, scopes, cache } = ctx;
    let mut inner = Context { ast: Node::Module(Vec::new()), scopes, cache };
    let sn = Spanned::new(ast, Span::new(0, 0, 0));
    match visit_node(analyzers, &mut inner, &mut messages, &sn) {
        Err(f) => {
            return Err(f);
        },
        Ok(_) => {},
    }
    inner.exit_scope(analyzers, &mut messages);
    Ok(messages)
}

// ---------------------------------------------------------------------
// Type inference
// ---------------------------------------------------------------------

/// The compatibility used when reconciling the branches of an
/// if-expression: two types are compatible when they flatten to the
/// same type, and the absorbing `Unknown` accumulator is compatible
/// with everything.
pub open spec fn branch_compatible(acc: TypeV, t: TypeV) -> bool {
    acc == TypeV::Unknown || crate::types::spec_flatten(acc) == crate::types::spec_flatten(t)
}

/// The type one branch body contributes when the if-expression is
/// used as a value: the inferred type of its final expression when the
/// body syntactically returns it, else `Null`.
pub open spec fn spec_branch_type(b: Spanned<Body>, ms: Seq<AnalyzerMessageV>) -> Result<
    (TypeV, Seq<AnalyzerMessageV>),
    Fault,
>
    decreases b, 3int,
{
    if b.node.1 && b.node.0@.len() > 0 && (b.node.0@.last().node is Expr) {
        spec_infer(b.node.0@.last().node->Expr_0, ms)
    } else {
        Ok((TypeV::Null, ms))
    }
}

/// Reconciles the first `n` `else if` branches against the running
/// accumulator: a compatible branch leaves it unchanged; the first
/// incompatible branch is reported against the first branch and turns
/// the accumulator to `Unknown`, which absorbs the rest.
pub open spec fn spec_infer_branches(
    pairs: Seq<(Spanned<Expr>, Spanned<Body>)>,
    n: int,
    if_span: Span,
    first_span: Span,
    target: TypeV,
    acc: TypeV,
    ms: Seq<AnalyzerMessageV>,
) -> Result<(TypeV, Seq<AnalyzerMessageV>), Fault>
    decreases pairs, n,
        when n <= pairs.len()
{
    if n <= 0 {
        Ok((acc, ms))
    } else {
        match spec_infer_branches(pairs, n - 1, if_span, first_span, target, acc, ms) {
            Err(f) => Err(f),
            Ok((acc1, ms1)) => match spec_branch_type(pairs[n - 1].1, ms1) {
                Err(f) => Err(f),
                Ok((bt, ms2)) => if branch_compatible(acc1, bt) {
                    Ok((acc1, ms2))
                } else {
                    Ok(
                        (
                            TypeV::Unknown,
                            ms2.push(
                                crate::diag::msg_unbalanced_if_statement(
                                    if_span,
                                    first_span,
                                    crate::types::spec_display(target),
                                    pairs[n - 1].1.span,
                                    crate::types::spec_display(bt),
                                ),
                            ),
                        ),
                    )
                },
            },
        }
    }
}

/// The inferred type of an expression, with the diagnostics emitted on
/// the way.  Literals map to their primitive types; operators consult
/// the type algebra and degrade to `Unknown` with an
/// unsupported-operator diagnostic instead of aborting; the branches
/// of a value-producing if-expression are reconciled, a missing
/// `else` beside a non-`Null` branch type making the result nullable
/// with an unbalanced-if diagnostic.  Expression kinds outside
/// inference's coverage are faults.
pub open spec fn spec_infer(se: Spanned<Expr>, ms: Seq<AnalyzerMessageV>) -> Result<
    (TypeV, Seq<AnalyzerMessageV>),
    Fault,
>
    decreases se, 4int,
{
    match se.node {
        Expr::Integer(_) => Ok((TypeV::Primitive(crate::types::PrimitiveType::Int), ms)),
        Expr::Float => Ok((TypeV::Primitive(crate::types::PrimitiveType::Float), ms)),
        Expr::String(_) => Ok((TypeV::Primitive(crate::types::PrimitiveType::String), ms)),
        Expr::Bool(_) => Ok((TypeV::Primitive(crate::types::PrimitiveType::Bool), ms)),
        Expr::UnaryExpr { operator, value } => match spec_infer(*value, ms) {
            Err(f) => Err(f),
            Ok((t, ms1)) => match crate::types::spec_unary_outcome(t, operator.node) {
                Some(ty) => Ok((ty, ms1)),
                None => Ok(
                    (
                        TypeV::Unknown,
                        ms1.push(
                            crate::diag::msg_unsupported_unary_operator(
                                se.span,
                                crate::types::spec_display(t),
                                value.span,
                                operator.node,
                                operator.span,
                            ),
                        ),
                    ),
                ),
            },
        },
        Expr::BinaryExpr { operator, lhs, rhs } => match spec_infer(*lhs, ms) {
            Err(f) => Err(f),
            Ok((lt, ms1)) => match spec_infer(*rhs, ms1) {
                Err(f) => Err(f),
                Ok((rt, ms2)) => match crate::types::spec_binary_outcome(lt, operator.node, rt) {
                    Some(ty) => Ok((ty, ms2)),
                    None => Ok(
                        (
                            TypeV::Unknown,
                            ms2.push(
                                crate::diag::msg_unsupported_binary_operator(
                                    se.span,
                                    crate::types::spec_display(lt),
                                    lhs.span,
                                    crate::types::spec_display(rt),
                                    rhs.span,
                                    operator.node,
                                    operator.span,
                                ),
                            ),
                        ),
                    ),
                },
            },
        },
        Expr::If { condition: _, body, else_if_bodies, else_body } => {
            match spec_branch_type(body, ms) {
                Err(f) => Err(f),
                Ok((t0, ms1)) => match spec_infer_branches(
                    else_if_bodies@,
                    else_if_bodies@.len() as int,
                    se.span,
                    body.span,
                    t0,
                    t0,
                    ms1,
                ) {
                    Err(f) => Err(f),
                    Ok((acc, ms2)) => match else_body {
                        Some(b) => match spec_branch_type(b, ms2) {
                            Err(f) => Err(f),
                            Ok((bt, ms3)) => if branch_compatible(acc, bt) {
                                Ok((acc, ms3))
                            } else {
                                Ok(
                                    (
                                        TypeV::Unknown,
                                        ms3.push(
                                            crate::diag::msg_unbalanced_if_statement(
                                                se.span,
                                                body.span,
                                                crate::types::spec_display(t0),
                                                b.span,
                                                crate::types::spec_display(bt),
                                            ),
                                        ),
                                    ),
                                )
                            },
                        },
                        None => if acc == TypeV::Unknown || crate::types::spec_flatten(acc)
                            == TypeV::Null {
                            Ok((acc, ms2))
                        } else {
                            Ok(
                                (
                                    TypeV::Union(Box::new(acc), Box::new(TypeV::Null)),
                                    ms2.push(
                                        crate::diag::msg_unbalanced_if_statement_no_else(
                                            se.span,
                                            body.span,
                                            crate::types::spec_display(acc),
                                        ),
                                    ),
                                ),
                            )
                        },
                    },
                },
            }
        },
        _ => Err(Fault::UnsupportedInference),
    }
}

/// Law: assigning to an identifier that no scope declares never
/// faults; the walk completes having appended exactly one
/// unresolved-identifier diagnostic, with its near-miss suggestion,
/// and leaves every scope unchanged.
pub proof fn lemma_assign_unresolved_completes(
    a: AnalyzerSet,
    targets: Vec<Spanned<Target>>,
    value: Box<Spanned<Expr>>,
    span: Span,
    name: String,
    ss: Seq<Seq<EntryV>>,
    ms: Seq<AnalyzerMessageV>,
)
    requires
        targets@.len() == 1,
        targets@[0].node == Target::Ident(name),
        spec_lookup(ss, name@) is None,
    ensures
        walk_node(a, Spanned { node: Node::Assign { targets, value }, span }, ss, ms) == Ok::<
            (Seq<Seq<EntryV>>, Seq<AnalyzerMessageV>),
            Fault,
        >(
            (
                ss,
                ms.push(
                    msg_unresolved_identifier(
                        name@,
                        spec_close_match(ss, name@),
                        targets@[0].span,
                    ),
                ),
            ),
        ),
{
}

/// A fault while reconciling the `else if` branches is final.
pub proof fn lemma_infer_branches_absorb(
    pairs: Seq<(Spanned<Expr>, Spanned<Body>)>,
    k: int,
    n: int,
    if_span: Span,
    first_span: Span,
    target: TypeV,
    acc: TypeV,
    ms: Seq<AnalyzerMessageV>,
)
    requires
        0 <= k <= n <= pairs.len(),
        spec_infer_branches(pairs, k, if_span, first_span, target, acc, ms) is Err,
    ensures
        spec_infer_branches(pairs, n, if_span, first_span, target, acc, ms)
            == spec_infer_branches(pairs, k, if_span, first_span, target, acc, ms),
    decreases n - k,
{
    if n > k {
        lemma_infer_branches_absorb(pairs, k, n - 1, if_span, first_span, target, acc, ms);
    }
}

/// The type one branch body contributes: the executable counterpart
/// of `spec_branch_type`.
#[verifier::loop_isolation(false)]
fn infer_branch_type(
    ctx: &Context,
    messages: &mut Vec<AnalyzerMessage>,
    b: &Spanned<Body>,
) -> (r: Result<Type, Fault>)
    ensures
        ({
            let res = spec_branch_type(*b, view_msgs(old(messages)@));
            match res {
                Ok(pair) => r is Ok && (match r {
                    Ok(t) => t@ == pair.0,
                    Err(_) => false,
                }) && view_msgs(final(messages)@) == pair.1,
                Err(f) => r == Err::<Type, Fault>(f),
            }
        }),
    decreases *b, 3int,
{
    if b.node.1 && b.node.0.len() > 0 {
        let last = &b.node.0[b.node.0.len() - 1];
        match &last.node {
            Node::Expr(e) => infer_type(ctx, messages, e),
            _ => Ok(Type::Null),
        }
    } else {
        Ok(Type::Null)
    }
}

/// Infers the type of an expression: the executable counterpart of
/// `spec_infer`, against whose result its outcome is stated.
#[verifier::loop_isolation(false)]
#[verifier::rlimit(100)]
pub fn infer_type(
    ctx: &Context,
    messages: &mut Vec<AnalyzerMessage>,
    expr: &Spanned<Expr>,
) -> (r: Result<Type, Fault>)
    ensures
        ({
            let res = spec_infer(*expr, view_msgs(old(messages)@));
            match res {
                Ok(pair) => r is Ok && (match r {
                    Ok(t) => t@ == pair.0,
                    Err(_) => false,
                }) && view_msgs(final(messages)@) == pair.1,
                Err(f) => r == Err::<Type, Fault>(f),
            }
        }),
    decreases *expr, 4int,
{
    match &expr.node {
        Expr::Integer(_) => Ok(Type::Primitive(crate::types::PrimitiveType::Int)),
        Expr::Float => Ok(Type::Primitive(crate::types::PrimitiveType::Float)),
        Expr::String(_) => Ok(Type::Primitive(crate::types::PrimitiveType::String)),
        Expr::Bool(_) => Ok(Type::Primitive(crate::types::PrimitiveType::Bool)),
        Expr::UnaryExpr { operator, value } => {
            let t = match infer_type(ctx, messages, value) {
                Err(f) => {
                    return Err(f);
                },
                Ok(t) => t,
            };
            match t.get_unary_op_outcome(operator.node) {
                Some(ty) => Ok(ty),
                None => {
                    let ghost before = messages@;
                    let m = AnalyzerMessage::unsupported_unary_operator(
                        expr.span,
                        t.to_display_string(),
                        value.span,
                        operator.node,
                        operator.span,
                    );
                    messages.push(m);
                    proof {
                        crate::diag::lemma_view_msgs_push(before, m);
                    }
                    Ok(Type::Unknown)
                },
            }
        },
        Expr::BinaryExpr { operator, lhs, rhs } => {
            let lt = match infer_type(ctx, messages, lhs) {
                Err(f) => {
                    return Err(f);
                },
                Ok(t) => t,
            };
            let rt = match infer_type(ctx, messages, rhs) {
                Err(f) => {
                    return Err(f);
                },
                Ok(t) => t,
            };
            match lt.get_binary_op_outcome(operator.node, &rt) {
                Some(ty) => Ok(ty),
                None => {
                    let ghost before = messages@;
                    let m = AnalyzerMessage::unsupported_binary_operator(
                        expr.span,
                        lt.to_display_string(),
                        lhs.span,
                        rt.to_display_string(),
                        rhs.span,
                        operator.node,
                        operator.span,
                    );
                    messages.push(m);
                    proof {
                        crate::diag::lemma_view_msgs_push(before, m);
                    }
                    Ok(Type::Unknown)
                },
            }
        },
        Expr::If { condition: _, body: _, else_if_bodies: _, else_body: _ } => infer_if(
            ctx,
            messages,
            expr,
        ),
        _ => Err(Fault::UnsupportedInference),
    }
}

/// Reconciles the branches of a value-producing if-expression: the
/// `if` part of `infer_type`, split out and stated against the same
/// `spec_infer` result.
#[verifier::loop_isolation(false)]
#[verifier::rlimit(100)]
fn infer_if(
    ctx: &Context,
    messages: &mut Vec<AnalyzerMessage>,
    expr: &Spanned<Expr>,
) -> (r: Result<Type, Fault>)
    requires
        expr.node is If,
    ensures
        ({
            let res = spec_infer(*expr, view_msgs(old(messages)@));
            match res {
                Ok(pair) => r is Ok && (match r {
                    Ok(t) => t@ == pair.0,
                    Err(_) => false,
                }) && view_msgs(final(messages)@) == pair.1,
                Err(f) => r == Err::<Type, Fault>(f),
            }
        }),
    decreases *expr, 3int,
{
    match &expr.node {
        Expr::If { condition: _, body, else_if_bodies, else_body } => {
            let target = match infer_branch_type(ctx, messages, body) {
                Err(f) => {
                    return Err(f);
                },
                Ok(t) => t,
            };
            let ghost tv = target@;
            let ghost ms1 = view_msgs(messages@);
            let mut acc = target.clone();
            let mut k: usize = 0;
            while k < else_if_bodies.len()
                invariant
                    k <= else_if_bodies@.len(),
                    spec_infer_branches(
                        else_if_bodies@,
                        k as int,
                        expr.span,
                        body.span,
                        tv,
                        tv,
                        ms1,
                    ) == Ok::<(TypeV, Seq<AnalyzerMessageV>), Fault>(
                        (acc@, view_msgs(messages@)),
                    ),
                decreases else_if_bodies@.len() - k,
            {
                let ghost k0 = k as int;
                let bt = match infer_branch_type(ctx, messages, &else_if_bodies[k].1) {
                    Err(f) => {
                        proof {
                            lemma_infer_branches_absorb(
                                else_if_bodies@,
                                k0 + 1,
                                else_if_bodies@.len() as int,
                                expr.span,
                                body.span,
                                tv,
                                tv,
                                ms1,
                            );
                        }
                        return Err(f);
                    },
                    Ok(t) => t,
                };
                let compatible = acc.structural_eq(&Type::Unknown) || acc.clone().flatten()
                    .structural_eq(&bt.clone().flatten());
                if !compatible {
                    let ghost before = messages@;
                    let m = AnalyzerMessage::unbalanced_if_statement(
                        expr.span,
                        body.span,
                        target.to_display_string(),
                        else_if_bodies[k].1.span,
                        bt.to_display_string(),
                    );
                    messages.push(m);
                    proof {
                        crate::diag::lemma_view_msgs_push(before, m);
                    }
                    acc = Type::Unknown;
                }
                k = k + 1;
            }
            match else_body {
                Some(b) => {
                    let bt = match infer_branch_type(ctx, messages, b) {
                        Err(f) => {
                            return Err(f);
                        },
                        Ok(t) => t,
                    };
                    let compatible = acc.structural_eq(&Type::Unknown) || acc.clone().flatten()
                        .structural_eq(&bt.clone().flatten());
                    if compatible {
                        Ok(acc)
                    } else {
                        let ghost before = messages@;
                        let m = AnalyzerMessage::unbalanced_if_statement(
                            expr.span,
                            body.span,
                            target.to_display_string(),
                            b.span,
                            bt.to_display_string(),
                        );
                        messages.push(m);
                        proof {
                            crate::diag::lemma_view_msgs_push(before, m);
                        }
                        Ok(Type::Unknown)
                    }
                },
                None => {
                    let nullish = acc.structural_eq(&Type::Unknown) || acc.clone().flatten()
                        .structural_eq(&Type::Null);
                    if nullish {
                        Ok(acc)
                    } else {
                        let ghost before = messages@;
                        let m = AnalyzerMessage::unbalanced_if_statement_no_else(
                            expr.span,
                            body.span,
                            acc.to_display_string(),
                        );
                        messages.push(m);
                        proof {
                            crate::diag::lemma_view_msgs_push(before, m);
                        }
                        Ok(Type::Union(Box::new(acc), Box::new(Type::Null)))
                    }
                },
            }
        },
        _ => unreached(),
    }
}

} // verus!
