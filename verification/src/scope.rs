use vstd::prelude::*;
use crate::span::Span;
use crate::types::{Type, TypeV, view_type};

verus! {

/// The mutability modifier of a declared binding: none (a plain
/// `let`), `mut`, or `const`.
#[derive(Copy, Clone, Debug, PartialEq, Eq, Structural)]
pub enum ScopeEntryModifier {
    /// A plain `let` binding without modifier.
    Plain,
    Mut,
    Const,
}

/// One declared binding: its name, inferred type, mutability modifier,
/// whether it has been read and whether it has been reassigned, and
/// the span of its declaration.
#[derive(Debug, PartialEq)]
pub struct MockScopeEntry {
    pub name: String,
    pub ty: Type,
    pub modifier: ScopeEntryModifier,
    pub used: bool,
    pub mutated: bool,
    pub span: Span,
}

/// The model of a `MockScopeEntry`.
#[verifier::ext_equal]
pub struct EntryV {
    pub name: Seq<char>,
    pub ty: TypeV,
    pub modifier: ScopeEntryModifier,
    pub used: bool,
    pub mutated: bool,
    pub span: Span,
}

impl View for MockScopeEntry {
    type V = EntryV;

    open spec fn view(&self) -> EntryV {
        EntryV {
            name: self.name@,
            ty: view_type(self.ty),
            modifier: self.modifier,
            used: self.used,
            mutated: self.mutated,
            span: self.span,
        }
    }
}

impl MockScopeEntry {
    /// A fresh entry: not yet used, not yet mutated.
    pub fn new(name: String, ty: Type, modifier: ScopeEntryModifier, span: Span)
        -> (r: MockScopeEntry)
        ensures
            r@ == (EntryV {
                name: name@,
                ty: ty@,
                modifier,
                used: false,
                mutated: false,
                span,
            }),
    {
        MockScopeEntry { name, ty, modifier, used: false, mutated: false, span }
    }

    /// Whether the binding is a plain `let` without modifier.
    pub fn is_let(&self) -> (r: bool)
        ensures
            r == (self.modifier == ScopeEntryModifier::Plain),
    {
        self.modifier == ScopeEntryModifier::Plain
    }

    /// Whether the binding was declared `mut`.
    pub fn is_mut(&self) -> (r: bool)
        ensures
            r == (self.modifier == ScopeEntryModifier::Mut),
    {
        self.modifier == ScopeEntryModifier::Mut
    }

    /// Whether the binding was declared `const`.
    pub fn is_const(&self) -> (r: bool)
        ensures
            r == (self.modifier == ScopeEntryModifier::Const),
    {
        self.modifier == ScopeEntryModifier::Const
    }

    /// Whether the binding has been reassigned since its declaration.
    pub fn is_mutated(&self) -> (r: bool)
        ensures
            r == self.mutated,
    {
        self.mutated
    }
}

pub open spec fn view_entries(s: Seq<MockScopeEntry>) -> Seq<EntryV>
    decreases s,
{
    if s.len() == 0 {
        Seq::empty()
    } else {
        seq![s[0]@] + view_entries(s.skip(1))
    }
}

/// The view of a sequence of entries is the sequence of their views.
pub proof fn lemma_view_entries_index(s: Seq<MockScopeEntry>)
    ensures
        view_entries(s).len() == s.len(),
        forall|i: int| 0 <= i < s.len() ==> view_entries(s)[i] == s[i]@,
    decreases s,
{
    if s.len() > 0 {
        lemma_view_entries_index(s.skip(1));
        assert(forall|i: int|
            1 <= i < s.len() ==> view_entries(s)[i] == view_entries(s.skip(1))[i - 1]);
        assert(forall|i: int| 1 <= i < s.len() ==> s.skip(1)[i - 1] == s[i]);
    }
}

/// One lexical scope: the declared bindings, in declaration order.
/// Redeclaring a name replaces its entry, so names stay unique;
/// lookups return the first entry with the given name.
#[derive(Debug)]
pub struct MockScope(pub Vec<MockScopeEntry>);

impl View for MockScope {
    type V = Seq<EntryV>;

    open spec fn view(&self) -> Seq<EntryV> {
        view_entries(self.0@)
    }
}

/// The first entry with the given name, if any.
pub open spec fn find_entry(s: Seq<EntryV>, name: Seq<char>) -> Option<EntryV>
    decreases s,
{
    if s.len() == 0 {
        None
    } else if s[0].name == name {
        Some(s[0])
    } else {
        find_entry(s.skip(1), name)
    }
}

/// The index of the first entry with the given name, or -1.
pub open spec fn find_index(s: Seq<EntryV>, name: Seq<char>) -> int
    decreases s,
{
    if s.len() == 0 {
        -1
    } else if s[0].name == name {
        0
    } else if find_index(s.skip(1), name) == -1 {
        -1
    } else {
        1 + find_index(s.skip(1), name)
    }
}

/// How `find_entry` and `find_index` relate: the index is in range
/// exactly when an entry is found, it points at the found entry, and
/// no earlier entry carries the name.
pub proof fn lemma_find_properties(s: Seq<EntryV>, name: Seq<char>)
    ensures
        find_entry(s, name) is Some <==> 0 <= find_index(s, name) < s.len(),
        find_entry(s, name) is None <==> find_index(s, name) == -1,
        find_entry(s, name) is Some ==> {
            &&& s[find_index(s, name)].name == name
            &&& find_entry(s, name) == Some(s[find_index(s, name)])
            &&& forall|i: int| 0 <= i < find_index(s, name) ==> s[i].name != name
        },
    decreases s,
{
    if s.len() > 0 && s[0].name != name {
        lemma_find_properties(s.skip(1), name);
        if find_entry(s, name) is Some {
            let k = find_index(s.skip(1), name);
            assert(s.skip(1)[k] == s[1 + k]);
            assert forall|i: int| 1 <= i < 1 + k implies s[i].name != name by {
                assert(s.skip(1)[i - 1] == s[i]);
            }
        }
    }
}

impl MockScope {
    /// An empty scope.
    pub fn new() -> (r: MockScope)
        ensures
            r@ == Seq::<EntryV>::empty(),
    {
        MockScope(Vec::new())
    }

    /// The index of the first entry with the given name.
    fn position_of(&self, name: &str) -> (r: Option<usize>)
        ensures
            match r {
                Some(j) => find_index(self@, name@) == j as int && (j as int) < self@.len(),
                None => find_index(self@, name@) == -1,
            },
    {
        let owned: String = name.to_owned();
        let ghost sv = self@;
        proof {
            lemma_view_entries_index(self.0@);
            assert(sv.skip(0) =~= sv);
        }
        let mut j: usize = 0;
        while j < self.0.len()
            invariant
                j <= self.0@.len(),
                owned@ == name@,
                sv == view_entries(self.0@),
                sv.len() == self.0@.len(),
                forall|i: int| 0 <= i < self.0@.len() ==> sv[i] == self.0@[i]@,
                find_index(sv, name@) == if find_index(sv.skip(j as int), name@) == -1 {
                    -1int
                } else {
                    j + find_index(sv.skip(j as int), name@)
                },
            decreases self.0@.len() - j,
        {
            let ghost j0 = j as int;
            let hit = self.0[j].name == owned;
            proof {
                lemma_find_properties(sv.skip(j0 + 1), name@);
                assert(sv.skip(j0)[0] == sv[j0]);
                assert(sv.skip(j0).skip(1) =~= sv.skip(j0 + 1));
                assert(find_index(sv.skip(j0), name@) == (if sv[j0].name == name@ {
                    0int
                } else if find_index(sv.skip(j0 + 1), name@) == -1 {
                    -1int
                } else {
                    1 + find_index(sv.skip(j0 + 1), name@)
                }));
            }
            if hit {
                return Some(j);
            }
            j = j + 1;
        }
        proof {
            assert(sv.skip(j as int).len() == 0);
        }
        None
    }

    /// The first entry declared under the given name, if any.
    pub fn lookup(&self, name: &str) -> (r: Option<&MockScopeEntry>)
        ensures
            match r {
                Some(e) => find_entry(self@, name@) == Some(e@),
                None => find_entry(self@, name@) is None,
            },
    {
        proof {
            lemma_find_properties(self@, name@);
            lemma_view_entries_index(self.0@);
        }
        match self.position_of(name) {
            Some(j) => Some(&self.0[j]),
            None => None,
        }
    }
}

pub open spec fn view_scopes(s: Seq<MockScope>) -> Seq<Seq<EntryV>>
    decreases s,
{
    if s.len() == 0 {
        Seq::empty()
    } else {
        seq![s[0]@] + view_scopes(s.skip(1))
    }
}

/// The view of a sequence of scopes is the sequence of their views.
pub proof fn lemma_view_scopes_index(s: Seq<MockScope>)
    ensures
        view_scopes(s).len() == s.len(),
        forall|i: int| 0 <= i < s.len() ==> view_scopes(s)[i] == s[i]@,
    decreases s,
{
    if s.len() > 0 {
        lemma_view_scopes_index(s.skip(1));
        assert(forall|i: int|
            1 <= i < s.len() ==> view_scopes(s)[i] == view_scopes(s.skip(1))[i - 1]);
        assert(forall|i: int| 1 <= i < s.len() ==> s.skip(1)[i - 1] == s[i]);
    }
}

/// Dropping the last scope drops the last view.
pub proof fn lemma_view_scopes_drop_last(s: Seq<MockScope>)
    requires
        s.len() >= 1,
    ensures
        view_scopes(s.drop_last()) == view_scopes(s).drop_last(),
{
    lemma_view_scopes_index(s);
    lemma_view_scopes_index(s.drop_last());
    assert(view_scopes(s.drop_last()) =~~= view_scopes(s).drop_last());
}

/// The binding a name resolves to: scopes are searched from the
/// innermost (last) outwards, and within a scope the first entry with
/// the name is taken.  Inner declarations shadow outer ones.
pub open spec fn spec_lookup(ss: Seq<Seq<EntryV>>, name: Seq<char>) -> Option<EntryV>
    decreases ss,
{
    if ss.len() == 0 {
        None
    } else if find_entry(ss.last(), name) is Some {
        find_entry(ss.last(), name)
    } else {
        spec_lookup(ss.drop_last(), name)
    }
}

/// The index of the innermost scope that holds the name, or -1.
pub open spec fn top_scope_index(ss: Seq<Seq<EntryV>>, name: Seq<char>) -> int
    decreases ss,
{
    if ss.len() == 0 {
        -1
    } else if find_entry(ss.last(), name) is Some {
        ss.len() - 1
    } else {
        top_scope_index(ss.drop_last(), name)
    }
}

/// How `spec_lookup` and `top_scope_index` relate.
pub proof fn lemma_lookup_properties(ss: Seq<Seq<EntryV>>, name: Seq<char>)
    ensures
        spec_lookup(ss, name) is Some <==> 0 <= top_scope_index(ss, name) < ss.len(),
        spec_lookup(ss, name) is None <==> top_scope_index(ss, name) == -1,
        spec_lookup(ss, name) is Some ==> spec_lookup(ss, name) == find_entry(
            ss[top_scope_index(ss, name)],
            name,
        ),
    decreases ss,
{
    if ss.len() > 0 && find_entry(ss.last(), name) is None {
        lemma_lookup_properties(ss.drop_last(), name);
        let t = top_scope_index(ss.drop_last(), name);
        if 0 <= t {
            assert(ss.drop_last()[t] == ss[t]);
        }
    }
}

/// One entry after a reference (`read`) or an assignment (`written`)
/// to it has been recorded.
pub open spec fn touched_entry(e: EntryV, read: bool, written: bool) -> EntryV {
    EntryV {
        used: e.used || read,
        mutated: e.mutated || written,
        ..e
    }
}

/// A scope after recording a reference or assignment to `name`.
pub open spec fn touch_scope(s: Seq<EntryV>, name: Seq<char>, read: bool, written: bool)
    -> Seq<EntryV> {
    s.update(find_index(s, name), touched_entry(s[find_index(s, name)], read, written))
}

/// The scope stack after recording a reference or assignment to the
/// binding `name` resolves to; unchanged when the name resolves to
/// nothing.
pub open spec fn spec_touch(
    ss: Seq<Seq<EntryV>>,
    name: Seq<char>,
    read: bool,
    written: bool,
) -> Seq<Seq<EntryV>> {
    let t = top_scope_index(ss, name);
    if t == -1 {
        ss
    } else {
        ss.update(t, touch_scope(ss[t], name, read, written))
    }
}

/// The threshold under which an edit distance counts as a near miss
/// for a query of the given length: `max(2, round(0.14 × len))`, in
/// exact integer arithmetic.
pub open spec fn spec_threshold(len: nat) -> nat {
    let r = (14 * len + 50) / 100;
    if r >= 2 {
        r
    } else {
        2
    }
}

/// The first near-miss entry of a scope for the query, if any: its
/// name and declaration span.
pub open spec fn scope_close_match(s: Seq<EntryV>, name: Seq<char>) -> Option<(Seq<char>, Span)>
    decreases s,
{
    if s.len() == 0 {
        None
    } else if crate::text::spec_levenshtein(name, s[0].name) <= spec_threshold(name.len()) {
        Some((s[0].name, s[0].span))
    } else {
        scope_close_match(s.skip(1), name)
    }
}

/// The first near-miss for the query over the whole scope stack,
/// searched from the innermost scope outwards.
pub open spec fn spec_close_match(ss: Seq<Seq<EntryV>>, name: Seq<char>)
    -> Option<(Seq<char>, Span)>
    decreases ss,
{
    if ss.len() == 0 {
        None
    } else if scope_close_match(ss.last(), name) is Some {
        scope_close_match(ss.last(), name)
    } else {
        spec_close_match(ss.drop_last(), name)
    }
}

impl Default for MockScope {
    /// An empty scope.
    fn default() -> (r: MockScope)
        ensures
            r@ == Seq::<EntryV>::empty(),
    {
        MockScope::new()
    }
}

// ---------------------------------------------------------------------
// Diagnostics emitted when a scope closes
// ---------------------------------------------------------------------

/// The diagnostics one retained entry contributes when its scope
/// closes: an unnecessary-mutable finding for a `mut` binding never
/// mutated, then an unused-variable finding for a binding never read
/// whose name does not start with the intentionally-unused prefix
/// `_`; each gated on its category being enabled.
pub open spec fn entry_exit_msgs(e: EntryV, a: crate::analyzers::AnalyzerSet)
    -> Seq<crate::diag::AnalyzerMessageV> {
    (if a.spec_contains(crate::analyzers::AnalyzerKind::UnnecessaryMutVariables) && e.modifier
        == ScopeEntryModifier::Mut && !e.mutated {
        seq![crate::diag::msg_unnecessary_mut_variable(e.name, e.span)]
    } else {
        Seq::empty()
    }) + (if a.spec_contains(crate::analyzers::AnalyzerKind::UnusedVariables) && !e.used && !(
    e.name.len() > 0 && e.name[0] == '_') {
        seq![crate::diag::msg_unused_variable(e.name, e.span)]
    } else {
        Seq::empty()
    })
}

pub open spec fn exit_msgs_upto(
    s: Seq<EntryV>,
    a: crate::analyzers::AnalyzerSet,
    n: int,
) -> Seq<crate::diag::AnalyzerMessageV>
    decreases n,
{
    if n <= 0 {
        Seq::empty()
    } else {
        exit_msgs_upto(s, a, n - 1) + entry_exit_msgs(s[n - 1], a)
    }
}

/// The diagnostics a whole scope contributes when it closes, entry by
/// entry in declaration order.
pub open spec fn spec_exit_msgs(s: Seq<EntryV>, a: crate::analyzers::AnalyzerSet)
    -> Seq<crate::diag::AnalyzerMessageV> {
    exit_msgs_upto(s, a, s.len() as int)
}

// ---------------------------------------------------------------------
// The analysis context
// ---------------------------------------------------------------------

/// The state of one analysis run: the syntax tree under analysis and
/// the stack of lexical scopes, the first scope being the top level
/// and the last the innermost active one.
pub struct Context {
    pub ast: crate::ast::Node,
    pub scopes: Vec<MockScope>,
    /// The source texts of the unit, keyed by source identifier; held
    /// for the rendering backend, never read by the analysis itself.
    pub cache: Vec<(u32, String)>,
}

impl Context {
    /// A fresh context for the given tree, with one empty top-level
    /// scope.
    pub fn new(ast: crate::ast::Node) -> (r: Context)
        ensures
            r.ast == ast,
            r.scopes@.len() == 1,
            view_scopes(r.scopes@) == seq![Seq::<EntryV>::empty()],
            r.cache@.len() == 0,
    {
        Self::with_sources(ast, Vec::new())
    }

    /// A fresh context that also carries the unit's source texts for
    /// later rendering.
    pub fn with_sources(ast: crate::ast::Node, cache: Vec<(u32, String)>) -> (r: Context)
        ensures
            r.ast == ast,
            r.scopes@.len() == 1,
            view_scopes(r.scopes@) == seq![Seq::<EntryV>::empty()],
            r.cache == cache,
    {
        let mut scopes: Vec<MockScope> = Vec::new();
        scopes.push(MockScope::new());
        proof {
            lemma_view_scopes_index(scopes@);
            assert(view_scopes(scopes@) =~~= seq![Seq::<EntryV>::empty()]);
        }
        Context { ast, scopes, cache }
    }

    /// The source texts held for rendering.
    pub fn cache(&self) -> (r: &Vec<(u32, String)>)
        ensures
            *r == self.cache,
    {
        &self.cache
    }

    /// Whether the innermost scope is the top-level scope.
    pub fn is_top_level(&self) -> (r: bool)
        ensures
            r == (self.scopes@.len() == 1),
    {
        self.scopes.len() == 1
    }

    /// The innermost active scope.
    pub fn locals(&self) -> (r: &MockScope)
        requires
            self.scopes@.len() >= 1,
        ensures
            *r == self.scopes@[self.scopes@.len() - 1],
    {
        &self.scopes[self.scopes.len() - 1]
    }

    /// Declares (or redeclares) a binding in the innermost scope: a
    /// binding of the same name there is replaced, any other binding
    /// is kept, and a new name is appended.
    pub fn store_var(&mut self, name: String, entry: MockScopeEntry)
        requires
            old(self).scopes@.len() >= 1,
            name@ == entry.name@,
        ensures
            final(self).ast == old(self).ast,
            final(self).scopes@.len() == old(self).scopes@.len(),
            view_scopes(final(self).scopes@) == view_scopes(old(self).scopes@).update(
                old(self).scopes@.len() - 1,
                scope_store(view_scopes(old(self).scopes@).last(), entry@),
            ),
    {
        let ghost ovs = view_scopes(self.scopes@);
        proof {
            lemma_view_scopes_index(self.scopes@);
        }
        let li = self.scopes.len() - 1;
        let ghost oscope = self.scopes@[li as int]@;
        match self.scopes[li].position_of(name.as_str()) {
            Some(j) => {
                proof {
                    lemma_view_entries_index(self.scopes@[li as int].0@);
                }
                self.scopes[li].0[j] = entry;
                proof {
                    lemma_view_entries_index(self.scopes@[li as int].0@);
                    lemma_view_scopes_index(self.scopes@);
                    assert(self.scopes@[li as int]@ =~~= scope_store(oscope, entry@));
                    assert(view_scopes(self.scopes@) =~~= ovs.update(
                        li as int,
                        scope_store(oscope, entry@),
                    ));
                }
            },
            None => {
                proof {
                    lemma_view_entries_index(self.scopes@[li as int].0@);
                }
                self.scopes[li].0.push(entry);
                proof {
                    lemma_view_entries_index(self.scopes@[li as int].0@);
                    lemma_view_scopes_index(self.scopes@);
                    assert(self.scopes@[li as int]@ =~~= scope_store(oscope, entry@));
                    assert(view_scopes(self.scopes@) =~~= ovs.update(
                        li as int,
                        scope_store(oscope, entry@),
                    ));
                }
            },
        }
    }

    /// The binding a name resolves to, searching the scopes from the
    /// innermost outwards.
    pub fn lookup_var(&self, name: &String) -> (r: Option<&MockScopeEntry>)
        ensures
            match r {
                Some(e) => spec_lookup(view_scopes(self.scopes@), name@) == Some(e@),
                None => spec_lookup(view_scopes(self.scopes@), name@) is None,
            },
    {
        let ghost ovs = view_scopes(self.scopes@);
        proof {
            lemma_view_scopes_index(self.scopes@);
            assert(ovs.take(self.scopes@.len() as int) =~= ovs);
        }
        let mut si = self.scopes.len();
        while si > 0
            invariant
                si <= self.scopes@.len(),
                ovs == view_scopes(self.scopes@),
                ovs.len() == self.scopes@.len(),
                forall|i: int| 0 <= i < ovs.len() ==> ovs[i] == self.scopes@[i]@,
                spec_lookup(ovs, name@) == spec_lookup(ovs.take(si as int), name@),
            decreases si,
        {
            si = si - 1;
            let ghost pre = ovs.take(si as int + 1);
            proof {
                assert(pre.last() == ovs[si as int]);
                assert(pre.drop_last() =~= ovs.take(si as int));
            }
            match self.scopes[si].lookup(name.as_str()) {
                Some(e) => {
                    return Some(e);
                },
                None => {},
            }
        }
        proof {
            assert(ovs.take(0).len() == 0);
        }
        None
    }

    /// Records that the binding `name` resolves to was read
    /// (`read`) or assigned (`written`), and reports the found
    /// binding's modifier and declaration span; reports `None` and
    /// changes nothing when the name resolves to no binding.
    fn touch_var(&mut self, name: &str, read: bool, written: bool)
        -> (r: Option<(ScopeEntryModifier, Span)>)
        ensures
            final(self).ast == old(self).ast,
            final(self).scopes@.len() == old(self).scopes@.len(),
            view_scopes(final(self).scopes@) == spec_touch(
                view_scopes(old(self).scopes@),
                name@,
                read,
                written,
            ),
            match r {
                Some(pair) => match spec_lookup(view_scopes(old(self).scopes@), name@) {
                    Some(e) => pair.0 == e.modifier && pair.1 == e.span,
                    None => false,
                },
                None => spec_lookup(view_scopes(old(self).scopes@), name@) is None,
            },
    {
        let ghost ovs = view_scopes(self.scopes@);
        proof {
            lemma_view_scopes_index(self.scopes@);
            assert(ovs.take(self.scopes@.len() as int) =~= ovs);
        }
        let mut si = self.scopes.len();
        while si > 0
            invariant
                si <= self.scopes@.len(),
                *self == *old(self),
                ovs == view_scopes(self.scopes@),
                ovs.len() == self.scopes@.len(),
                forall|i: int| 0 <= i < ovs.len() ==> ovs[i] == self.scopes@[i]@,
                spec_lookup(ovs, name@) == spec_lookup(ovs.take(si as int), name@),
                top_scope_index(ovs, name@) == top_scope_index(ovs.take(si as int), name@),
            decreases si,
        {
            si = si - 1;
            let ghost pre = ovs.take(si as int + 1);
            proof {
                assert(pre.last() == ovs[si as int]);
                assert(pre.drop_last() =~= ovs.take(si as int));
            }
            match self.scopes[si].position_of(name) {
                Some(j) => {
                    proof {
                        lemma_find_properties(ovs[si as int], name@);
                        lemma_view_entries_index(self.scopes@[si as int].0@);
                    }
                    let m = self.scopes[si].0[j].modifier;
                    let sp = self.scopes[si].0[j].span;
                    let ghost oentry = ovs[si as int][j as int];
                    if read {
                        self.scopes[si].0[j].used = true;
                    }
                    if written {
                        self.scopes[si].0[j].mutated = true;
                    }
                    proof {
                        lemma_view_entries_index(self.scopes@[si as int].0@);
                        lemma_view_scopes_index(self.scopes@);
                        assert(self.scopes@[si as int]@[j as int] =~~= touched_entry(
                            oentry,
                            read,
                            written,
                        ));
                        assert(self.scopes@[si as int]@ =~~= touch_scope(
                            ovs[si as int],
                            name@,
                            read,
                            written,
                        ));
                        assert(top_scope_index(ovs, name@) == si as int);
                        assert(view_scopes(self.scopes@) =~~= spec_touch(
                            ovs,
                            name@,
                            read,
                            written,
                        ));
                        assert(spec_lookup(ovs, name@) == Some(oentry));
                    }
                    return Some((m, sp));
                },
                None => {
                    proof {
                        lemma_find_properties(ovs[si as int], name@);
                    }
                },
            }
        }
        proof {
            assert(ovs.take(0).len() == 0);
        }
        None
    }

    /// Records that the binding `name` resolves to was read; reports
    /// whether a binding was found.
    pub fn mark_used(&mut self, name: &String) -> (found: bool)
        ensures
            final(self).ast == old(self).ast,
            final(self).scopes@.len() == old(self).scopes@.len(),
            view_scopes(final(self).scopes@) == spec_touch(
                view_scopes(old(self).scopes@),
                name@,
                true,
                false,
            ),
            found == (spec_lookup(view_scopes(old(self).scopes@), name@) is Some),
    {
        proof {
            lemma_lookup_properties(view_scopes(self.scopes@), name@);
        }
        match self.touch_var(name.as_str(), true, false) {
            Some(_) => true,
            None => false,
        }
    }

    /// Records that the binding `name` resolves to was assigned, and
    /// reports the found binding's modifier and declaration span;
    /// reports `None` and changes nothing when the name resolves to no
    /// binding.
    pub fn mark_assigned(&mut self, name: &String) -> (r: Option<(ScopeEntryModifier, Span)>)
        ensures
            final(self).ast == old(self).ast,
            final(self).scopes@.len() == old(self).scopes@.len(),
            view_scopes(final(self).scopes@) == spec_touch(
                view_scopes(old(self).scopes@),
                name@,
                false,
                true,
            ),
            match r {
                Some(pair) => match spec_lookup(view_scopes(old(self).scopes@), name@) {
                    Some(e) => pair.0 == e.modifier && pair.1 == e.span,
                    None => false,
                },
                None => spec_lookup(view_scopes(old(self).scopes@), name@) is None,
            },
    {
        self.touch_var(name.as_str(), false, true)
    }

    /// Opens a new innermost scope.
    pub fn enter_scope(&mut self)
        ensures
            final(self).ast == old(self).ast,
            final(self).scopes@.len() == old(self).scopes@.len() + 1,
            view_scopes(final(self).scopes@) == view_scopes(old(self).scopes@).push(
                Seq::<EntryV>::empty(),
            ),
    {
        let ghost ovs = view_scopes(self.scopes@);
        proof {
            lemma_view_scopes_index(self.scopes@);
        }
        self.scopes.push(MockScope::new());
        proof {
            lemma_view_scopes_index(self.scopes@);
            assert(view_scopes(self.scopes@) =~~= ovs.push(Seq::<EntryV>::empty()));
        }
    }

    /// Closes the innermost scope and, for every binding it retained,
    /// appends the gated unnecessary-mutable and unused-variable
    /// diagnostics, in declaration order.
    pub fn exit_scope(
        &mut self,
        analyzers: &crate::analyzers::AnalyzerSet,
        messages: &mut Vec<crate::diag::AnalyzerMessage>,
    )
        requires
            old(self).scopes@.len() >= 1,
        ensures
            final(self).ast == old(self).ast,
            final(self).scopes@ == old(self).scopes@.drop_last(),
            crate::diag::view_msgs(final(messages)@) == crate::diag::view_msgs(old(messages)@)
                + spec_exit_msgs(view_scopes(old(self).scopes@).last(), *analyzers),
    {
        proof {
            lemma_view_scopes_index(self.scopes@);
        }
        let popped = self.scopes.pop();
        let sc = match popped {
            Some(s) => s,
            None => unreached(),
        };
        let ghost scv = sc@;
        proof {
            lemma_view_entries_index(sc.0@);
        }
        let mut k: usize = 0;
        while k < sc.0.len()
            invariant
                k <= sc.0@.len(),
                scv == view_entries(sc.0@),
                scv.len() == sc.0@.len(),
                forall|i: int| 0 <= i < scv.len() ==> scv[i] == sc.0@[i]@,
                crate::diag::view_msgs(messages@) == crate::diag::view_msgs(old(messages)@)
                    + exit_msgs_upto(scv, *analyzers, k as int),
            decreases sc.0@.len() - k,
        {
            let e = &sc.0[k];
            let ghost ev = scv[k as int];
            let mut_kind = crate::analyzers::AnalyzerKind::UnnecessaryMutVariables;
            let unused_kind = crate::analyzers::AnalyzerKind::UnusedVariables;
            if analyzers.contains(&mut_kind) && e.is_mut() && !e.is_mutated() {
                let ghost before = messages@;
                let m = crate::diag::AnalyzerMessage::unnecessary_mut_variable(
                    e.name.as_str(),
                    e.span,
                );
                messages.push(m);
                proof {
                    crate::diag::lemma_view_msgs_push(before, m);
                }
            }
            let name_len = e.name.as_str().unicode_len();
            let underscored = name_len > 0 && e.name.as_str().get_char(0) == '_';
            if analyzers.contains(&unused_kind) && !e.used && !underscored {
                let ghost before = messages@;
                let m = crate::diag::AnalyzerMessage::unused_variable(e.name.as_str(), e.span);
                messages.push(m);
                proof {
                    crate::diag::lemma_view_msgs_push(before, m);
                }
            }
            k = k + 1;
            proof {
                assert(crate::diag::view_msgs(messages@) =~~= crate::diag::view_msgs(
                    old(messages)@,
                ) + exit_msgs_upto(scv, *analyzers, k as int));
            }
        }
    }

    /// The first near-miss for the query across all active scopes,
    /// searched from the innermost scope outwards: an entry whose name
    /// lies within the length-scaled edit-distance threshold of the
    /// query.
    pub fn close_var_match(&self, name: &str) -> (r: Option<(String, Span)>)
        ensures
            match r {
                Some(pair) => spec_close_match(view_scopes(self.scopes@), name@) == Some(
                    (pair.0@, pair.1),
                ),
                None => spec_close_match(view_scopes(self.scopes@), name@) is None,
            },
    {
        let ghost ovs = view_scopes(self.scopes@);
        proof {
            lemma_view_scopes_index(self.scopes@);
            assert(ovs.take(self.scopes@.len() as int) =~= ovs);
        }
        let qn = name.unicode_len();
        let threshold: u128 = (14u128 * (qn as u128) + 50) / 100;
        let threshold: u128 = if threshold >= 2 {
            threshold
        } else {
            2
        };
        let mut si = self.scopes.len();
        while si > 0
            invariant
                si <= self.scopes@.len(),
                qn == name@.len(),
                threshold == spec_threshold(name@.len()),
                ovs == view_scopes(self.scopes@),
                ovs.len() == self.scopes@.len(),
                forall|i: int| 0 <= i < ovs.len() ==> ovs[i] == self.scopes@[i]@,
                spec_close_match(ovs, name@) == spec_close_match(ovs.take(si as int), name@),
            decreases si,
        {
            si = si - 1;
            let ghost pre = ovs.take(si as int + 1);
            proof {
                assert(pre.last() == ovs[si as int]);
                assert(pre.drop_last() =~= ovs.take(si as int));
            }
            let scope = &self.scopes[si];
            let ghost sv = ovs[si as int];
            proof {
                lemma_view_entries_index(scope.0@);
                assert(sv.skip(0) =~= sv);
            }
            let mut j: usize = 0;
            while j < scope.0.len()
                invariant
                    j <= scope.0@.len(),
                    qn == name@.len(),
                    threshold == spec_threshold(name@.len()),
                    sv == view_entries(scope.0@),
                    sv.len() == scope.0@.len(),
                    forall|i: int| 0 <= i < sv.len() ==> sv[i] == scope.0@[i]@,
                    scope_close_match(sv, name@) == scope_close_match(
                        sv.skip(j as int),
                        name@,
                    ),
                    pre.len() >= 1,
                    pre.last() == sv,
                    ovs == view_scopes(self.scopes@),
                    spec_close_match(ovs, name@) == spec_close_match(pre, name@),
                decreases scope.0@.len() - j,
            {
                let ghost j0 = j as int;
                proof {
                    assert(sv.skip(j0)[0] == sv[j0]);
                    assert(sv.skip(j0).skip(1) =~= sv.skip(j0 + 1));
                }
                let e = &scope.0[j];
                let d = crate::text::get_levenshtein_distance(name, e.name.as_str());
                if (d as u128) <= threshold {
                    proof {
                        assert(scope_close_match(sv.skip(j0), name@) == Some(
                            (sv[j0].name, sv[j0].span),
                        ));
                        assert(scope_close_match(sv, name@) == Some((sv[j0].name, sv[j0].span)));
                        assert(spec_close_match(ovs, name@) == spec_close_match(pre, name@));
                        assert(spec_close_match(pre, name@) == scope_close_match(sv, name@));
                    }
                    let out = (e.name.clone(), e.span);
                    proof {
                        assert(out.0@ == sv[j0].name);
                        assert(out.1 == sv[j0].span);
                        assert(spec_close_match(ovs, name@) == Some((out.0@, out.1)));
                    }
                    return Some(out);
                }
                j = j + 1;
            }
            proof {
                assert(sv.skip(j as int).len() == 0);
            }
        }
        proof {
            assert(ovs.take(0).len() == 0);
        }
        None
    }
}

/// A scope after declaring `entry`: the first entry with the same
/// name is replaced, else the entry is appended.
pub open spec fn scope_store(s: Seq<EntryV>, e: EntryV) -> Seq<EntryV> {
    if find_index(s, e.name) >= 0 {
        s.update(find_index(s, e.name), e)
    } else {
        s.push(e)
    }
}

} // verus!
