use terbium_analyzer::ast::Node;
use terbium_analyzer::scope::{Context, MockScopeEntry, ScopeEntryModifier};
use terbium_analyzer::span::Span;
use terbium_analyzer::text::{get_levenshtein_distance, to_snake_case};
use terbium_analyzer::types::Type;

fn span(start: usize, end: usize) -> Span {
    Span::new(0, start, end)
}

fn entry(name: &str, modifier: ScopeEntryModifier, sp: Span) -> MockScopeEntry {
    MockScopeEntry::new(name.to_string(), Type::Unknown, modifier, sp)
}

fn empty_context() -> Context {
    Context::new(Node::Module(Vec::new()))
}

#[test]
fn levenshtein_distance_exact_values() {
    assert_eq!(get_levenshtein_distance("kitten", "sitting"), 3);
    assert_eq!(get_levenshtein_distance("", "abc"), 3);
    assert_eq!(get_levenshtein_distance("abc", ""), 3);
    assert_eq!(get_levenshtein_distance("abc", "abc"), 0);
    assert_eq!(get_levenshtein_distance("flaw", "lawn"), 2);
}

#[test]
fn snake_case_conversion_exact_values() {
    assert_eq!(to_snake_case("calculateTotal"), "calculate_total");
    assert_eq!(to_snake_case("already_snake"), "already_snake");
    assert_eq!(to_snake_case("XYz"), "xyz");
    assert_eq!(to_snake_case("Has_Under"), "has_under");
    assert_eq!(to_snake_case(""), "");
}

#[test]
fn close_match_finds_near_miss_within_threshold() {
    let mut ctx = empty_context();
    let sp = span(3, 20);
    ctx.store_var(
        "calculate_totals".to_string(),
        entry("calculate_totals", ScopeEntryModifier::Plain, sp),
    );
    // Distance 1, threshold for a 15-character query is
    // max(2, round(15 * 0.14)) = 2.
    let found = ctx.close_var_match("calculate_total");
    assert_eq!(found, Some(("calculate_totals".to_string(), sp)));
}

#[test]
fn close_match_respects_the_threshold() {
    let mut ctx = empty_context();
    ctx.store_var(
        "wxyz".to_string(),
        entry("wxyz", ScopeEntryModifier::Plain, span(0, 4)),
    );
    // Distance 4 is above the minimum threshold of 2.
    assert_eq!(ctx.close_var_match("abcd"), None);
    // Short names still tolerate two edits.
    let sp = span(5, 7);
    ctx.store_var("cd".to_string(), entry("cd", ScopeEntryModifier::Plain, sp));
    assert_eq!(ctx.close_var_match("ab"), Some(("cd".to_string(), sp)));
}

#[test]
fn lookup_prefers_the_innermost_scope() {
    let mut ctx = empty_context();
    ctx.store_var(
        "x".to_string(),
        entry("x", ScopeEntryModifier::Const, span(0, 1)),
    );
    ctx.enter_scope();
    ctx.store_var(
        "x".to_string(),
        entry("x", ScopeEntryModifier::Mut, span(2, 3)),
    );
    let found = ctx.lookup_var(&"x".to_string()).expect("x resolves");
    assert_eq!(found.modifier, ScopeEntryModifier::Mut);
    assert!(found.is_mut());
    ctx.exit_scope(
        &terbium_analyzer::analyzers::AnalyzerSet::none(),
        &mut Vec::new(),
    );
    let found = ctx.lookup_var(&"x".to_string()).expect("outer x resolves");
    assert_eq!(found.modifier, ScopeEntryModifier::Const);
    assert!(found.is_const());
}

#[test]
fn redeclaration_overwrites_within_one_scope() {
    let mut ctx = empty_context();
    ctx.store_var(
        "x".to_string(),
        entry("x", ScopeEntryModifier::Mut, span(0, 1)),
    );
    ctx.store_var(
        "x".to_string(),
        entry("x", ScopeEntryModifier::Const, span(4, 5)),
    );
    assert_eq!(ctx.locals().0.len(), 1);
    let found = ctx.locals().lookup("x").expect("x is declared");
    assert_eq!(found.modifier, ScopeEntryModifier::Const);
    assert_eq!(found.span, span(4, 5));
}

#[test]
fn fresh_entries_are_unused_and_unmutated() {
    let e = entry("fresh", ScopeEntryModifier::Plain, span(0, 5));
    assert!(e.is_let());
    assert!(!e.is_mut());
    assert!(!e.is_const());
    assert!(!e.is_mutated());
    assert!(!e.used);
}

#[test]
fn mark_used_and_mark_assigned_update_the_entry() {
    let mut ctx = empty_context();
    ctx.store_var(
        "x".to_string(),
        entry("x", ScopeEntryModifier::Plain, span(0, 1)),
    );
    assert!(ctx.mark_used(&"x".to_string()));
    assert!(!ctx.mark_used(&"missing".to_string()));
    let found = ctx.mark_assigned(&"x".to_string()).expect("x resolves");
    assert_eq!(found, (ScopeEntryModifier::Plain, span(0, 1)));
    assert_eq!(ctx.mark_assigned(&"missing".to_string()), None);
    let e = ctx.lookup_var(&"x".to_string()).expect("x resolves");
    assert!(e.used);
    assert!(e.is_mutated());
}

#[test]
fn top_level_tracking_follows_the_stack() {
    let mut ctx = empty_context();
    assert!(ctx.is_top_level());
    ctx.enter_scope();
    assert!(!ctx.is_top_level());
    ctx.exit_scope(
        &terbium_analyzer::analyzers::AnalyzerSet::none(),
        &mut Vec::new(),
    );
    assert!(ctx.is_top_level());
}
