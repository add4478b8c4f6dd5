use vstd::prelude::*;
use crate::analyzers::AnalyzerKind;
use crate::span::Span;

verus! {

/// Whether a message is informational or reports a finding of one
/// diagnostic category.
#[derive(Copy, Clone, Debug, PartialEq, Eq, Structural)]
pub enum AnalyzerMessageKind {
    Info,
    Alert(AnalyzerKind),
}

/// One annotated source span of a diagnostic: the span, the note to
/// print beside it, and whether it is the emphasised label (rendered in
/// the severity colour) or a secondary note.
#[derive(Clone, Debug, PartialEq, Eq)]
pub struct Label {
    pub span: Span,
    pub message: String,
    pub emphasis: bool,
}

/// The model of a `Label`.
#[verifier::ext_equal]
pub struct LabelV {
    pub span: Span,
    pub message: Seq<char>,
    pub emphasis: bool,
}

impl View for Label {
    type V = LabelV;

    open spec fn view(&self) -> LabelV {
        LabelV { span: self.span, message: self.message@, emphasis: self.emphasis }
    }
}

pub open spec fn view_labels(s: Seq<Label>) -> Seq<LabelV>
    decreases s,
{
    if s.len() == 0 {
        Seq::empty()
    } else {
        seq![s[0]@] + view_labels(s.skip(1))
    }
}

/// The view of a sequence of labels is the sequence of their views.
pub proof fn lemma_view_labels_index(s: Seq<Label>)
    ensures
        view_labels(s).len() == s.len(),
        forall|i: int| 0 <= i < s.len() ==> view_labels(s)[i] == s[i]@,
    decreases s,
{
    if s.len() > 0 {
        lemma_view_labels_index(s.skip(1));
        assert(forall|i: int|
            1 <= i < s.len() ==> view_labels(s)[i] == view_labels(s.skip(1))[i - 1]);
        assert(forall|i: int| 1 <= i < s.len() ==> s.skip(1)[i - 1] == s[i]);
    }
}

/// One reported finding: its category, the primary span, the primary
/// message, the ordered annotated spans, and an optional remediation
/// hint.  This is the structured payload from which a rendering
/// backend produces the human-readable report.
#[derive(Debug, PartialEq, Eq)]
pub struct AnalyzerMessage {
    pub kind: AnalyzerMessageKind,
    pub span: Span,
    pub message: String,
    pub labels: Vec<Label>,
    pub help: Option<String>,
}

/// The model of an `AnalyzerMessage`.
#[verifier::ext_equal]
pub struct AnalyzerMessageV {
    pub kind: AnalyzerMessageKind,
    pub span: Span,
    pub message: Seq<char>,
    pub labels: Seq<LabelV>,
    pub help: Option<Seq<char>>,
}

pub open spec fn view_help(h: Option<String>) -> Option<Seq<char>> {
    match h {
        Some(s) => Some(s@),
        None => None,
    }
}

impl View for AnalyzerMessage {
    type V = AnalyzerMessageV;

    open spec fn view(&self) -> AnalyzerMessageV {
        AnalyzerMessageV {
            kind: self.kind,
            span: self.span,
            message: self.message@,
            labels: view_labels(self.labels@),
            help: view_help(self.help),
        }
    }
}

impl AnalyzerMessage {
    /// Assembles a message from its parts.
    pub fn new(
        kind: AnalyzerMessageKind,
        span: Span,
        message: String,
        labels: Vec<Label>,
        help: Option<String>,
    ) -> (r: AnalyzerMessage)
        ensures
            r@ == (AnalyzerMessageV {
                kind,
                span,
                message: message@,
                labels: view_labels(labels@),
                help: view_help(help),
            }),
    {
        AnalyzerMessage { kind, span, message, labels, help }
    }
}

/// The model of the diagnostic for a binding whose name is not
/// snake_case, suggesting the converted form.
pub open spec fn msg_non_snake_case(name: Seq<char>, counterpart: Seq<char>, span: Span)
    -> AnalyzerMessageV {
    AnalyzerMessageV {
        kind: AnalyzerMessageKind::Alert(AnalyzerKind::NonSnakeCase),
        span,
        message: "non-type identifier names should be snake_case"@,
        labels: seq![
            LabelV {
                span,
                message: "\""@ + name + "\" is not snake_case"@,
                emphasis: true,
            },
        ],
        help: Some("rename to \""@ + counterpart + "\""@),
    }
}

impl AnalyzerMessage {
    /// The diagnostic for a binding whose name is not snake_case.
    pub fn non_snake_case(name: &str, counterpart: String, span: Span) -> (r: AnalyzerMessage)
        ensures
            r@ == msg_non_snake_case(name@, counterpart@, span),
    {
        let mut lmsg = "\"".to_owned();
        lmsg.append(name);
        lmsg.append("\" is not snake_case");
        let mut help = "rename to \"".to_owned();
        help.append(counterpart.as_str());
        help.append("\"");
        let mut labels: Vec<Label> = Vec::new();
        labels.push(Label { span, message: lmsg, emphasis: true });
        let r = AnalyzerMessage {
            kind: AnalyzerMessageKind::Alert(AnalyzerKind::NonSnakeCase),
            span,
            message: "non-type identifier names should be snake_case".to_owned(),
            labels,
            help: Some(help),
        };
        proof {
            lemma_view_labels_index(r.labels@);
            assert(r@ =~~= msg_non_snake_case(name@, counterpart@, span));
        }
        r
    }
}

pub open spec fn view_msgs(s: Seq<AnalyzerMessage>) -> Seq<AnalyzerMessageV>
    decreases s,
{
    if s.len() == 0 {
        Seq::empty()
    } else {
        seq![s[0]@] + view_msgs(s.skip(1))
    }
}

/// The view of a sequence of messages is the sequence of their views.
pub proof fn lemma_view_msgs_index(s: Seq<AnalyzerMessage>)
    ensures
        view_msgs(s).len() == s.len(),
        forall|i: int| 0 <= i < s.len() ==> view_msgs(s)[i] == s[i]@,
    decreases s,
{
    if s.len() > 0 {
        lemma_view_msgs_index(s.skip(1));
        assert(forall|i: int|
            1 <= i < s.len() ==> view_msgs(s)[i] == view_msgs(s.skip(1))[i - 1]);
        assert(forall|i: int| 1 <= i < s.len() ==> s.skip(1)[i - 1] == s[i]);
    }
}

/// Appending a message appends its view.
pub proof fn lemma_view_msgs_push(s: Seq<AnalyzerMessage>, m: AnalyzerMessage)
    ensures
        view_msgs(s.push(m)) == view_msgs(s).push(m@),
{
    lemma_view_msgs_index(s);
    lemma_view_msgs_index(s.push(m));
    assert(view_msgs(s.push(m)) =~~= view_msgs(s).push(m@));
}

/// The model of the diagnostic for a binding declared mutable but
/// never mutated.
pub open spec fn msg_unnecessary_mut_variable(name: Seq<char>, span: Span) -> AnalyzerMessageV {
    AnalyzerMessageV {
        kind: AnalyzerMessageKind::Alert(AnalyzerKind::UnnecessaryMutVariables),
        span,
        message: "variable was unneedingly declared as mutable"@,
        labels: seq![
            LabelV {
                span,
                message: "variable \""@ + name
                    + "\" declared mutable here, but it is never mutated"@,
                emphasis: true,
            },
        ],
        help: Some("make variable immutable by declaring with `let` instead"@),
    }
}

/// The model of the diagnostic for a binding that is never used.
pub open spec fn msg_unused_variable(name: Seq<char>, span: Span) -> AnalyzerMessageV {
    AnalyzerMessageV {
        kind: AnalyzerMessageKind::Alert(AnalyzerKind::UnusedVariables),
        span,
        message: "variable is declared but never used"@,
        labels: seq![
            LabelV {
                span,
                message: "variable \""@ + name + "\" is declared here, but it is never used"@,
                emphasis: true,
            },
        ],
        help: Some(
            "remove the declaration, or prefix with an underscore: \"_"@ + name + "\""@,
        ),
    }
}

/// The model of the diagnostic for a mutable declaration in the global
/// scope.
pub open spec fn msg_global_mutable_variable(span: Span) -> AnalyzerMessageV {
    AnalyzerMessageV {
        kind: AnalyzerMessageKind::Alert(AnalyzerKind::GlobalMutableVariables),
        span,
        message: "mutable declaration found in the global scope"@,
        labels: seq![
            LabelV {
                span,
                message: "variables declared here are accessible to the entire program"@,
                emphasis: true,
            },
        ],
        help: Some(
            "declare as immutable instead, or move the declaration into a non-global context such as inside of a function"@,
        ),
    }
}

/// The model of the diagnostic for a name that resolves to no binding,
/// with an optional near-miss suggestion.
pub open spec fn msg_unresolved_identifier(
    name: Seq<char>,
    close_match: Option<(Seq<char>, Span)>,
    span: Span,
) -> AnalyzerMessageV {
    AnalyzerMessageV {
        kind: AnalyzerMessageKind::Alert(AnalyzerKind::UnresolvedIdentifiers),
        span,
        message: "identifier could not be resolved"@,
        labels: match close_match {
            Some((other, other_span)) => seq![
                LabelV {
                    span,
                    message: "variable \""@ + name + "\" not found in this scope"@,
                    emphasis: true,
                },
                LabelV {
                    span: other_span,
                    message: "perhaps you meant \""@ + other + "\", which was declared here"@,
                    emphasis: false,
                },
            ],
            None => seq![
                LabelV {
                    span,
                    message: "variable \""@ + name + "\" not found in this scope"@,
                    emphasis: true,
                },
            ],
        },
        help: None,
    }
}

/// The view of an optional near-miss suggestion.
pub open spec fn view_close_match(c: Option<(String, Span)>) -> Option<(Seq<char>, Span)> {
    match c {
        Some((s, sp)) => Some((s@, sp)),
        None => None,
    }
}

/// The model of the diagnostic for redeclaring a `const` binding.
pub open spec fn msg_redeclared_const_variable(name: Seq<char>, decl_span: Span, span: Span)
    -> AnalyzerMessageV {
    AnalyzerMessageV {
        kind: AnalyzerMessageKind::Alert(AnalyzerKind::RedeclaredConstVariables),
        span,
        message: "cannot redeclare variable declared as `const`"@,
        labels: seq![
            LabelV {
                span: decl_span,
                message: "variable \""@ + name + "\" declared as `const` here"@,
                emphasis: true,
            },
            LabelV {
                span,
                message: "attempted to redeclare \""@ + name + "\" here"@,
                emphasis: true,
            },
        ],
        help: Some("declare with `let` instead"@),
    }
}

/// The model of the diagnostic for assigning to an immutable or
/// `const` binding.
pub open spec fn msg_reassigned_immutable_variable(
    name: Seq<char>,
    decl_span: Span,
    span: Span,
    was_const: bool,
) -> AnalyzerMessageV {
    AnalyzerMessageV {
        kind: AnalyzerMessageKind::Alert(AnalyzerKind::ReassignedImmutableVariables),
        span,
        message: "cannot reassign to "@ + if was_const {
            "variable declared as `const`"@
        } else {
            "immutable variable"@
        },
        labels: seq![
            LabelV {
                span: decl_span,
                message: "variable \""@ + name + "\" declared as "@ + (if was_const {
                    "`const`"@
                } else {
                    "immutable"@
                }) + " here"@,
                emphasis: false,
            },
            LabelV {
                span,
                message: "attempted to reassign to variable \""@ + name + "\" here"@,
                emphasis: true,
            },
        ],
        help: Some("make variable mutable by declaring with `let mut` instead"@),
    }
}

/// The model of the diagnostic for a unary operator a type does not
/// support.
pub open spec fn msg_unsupported_unary_operator(
    span: Span,
    val_ty: Seq<char>,
    val_span: Span,
    op: crate::ast::Operator,
    op_span: Span,
) -> AnalyzerMessageV {
    AnalyzerMessageV {
        kind: AnalyzerMessageKind::Alert(AnalyzerKind::UnsupportedOperators),
        span,
        message: "type does not support unary \""@ + crate::ast::spec_op_symbol(op)
            + "\" operator"@,
        labels: seq![
            LabelV { span: val_span, message: "this is of type "@ + val_ty, emphasis: false },
            LabelV {
                span: op_span,
                message: "cannot use operator \""@ + crate::ast::spec_op_symbol(op) + "\" on "@
                    + val_ty,
                emphasis: true,
            },
        ],
        help: Some("try casting to a supported type"@),
    }
}

/// The model of the diagnostic for a binary operator two types do not
/// support.
pub open spec fn msg_unsupported_binary_operator(
    span: Span,
    lhs_ty: Seq<char>,
    lhs_span: Span,
    rhs_ty: Seq<char>,
    rhs_span: Span,
    op: crate::ast::Operator,
    op_span: Span,
) -> AnalyzerMessageV {
    AnalyzerMessageV {
        kind: AnalyzerMessageKind::Alert(AnalyzerKind::UnsupportedOperators),
        span,
        message: "these types do not support \""@ + crate::ast::spec_op_symbol(op)
            + "\" operator"@,
        labels: seq![
            LabelV { span: lhs_span, message: "this is of type "@ + lhs_ty, emphasis: false },
            LabelV { span: rhs_span, message: "this is of type "@ + rhs_ty, emphasis: false },
            LabelV {
                span: op_span,
                message: "cannot use operator \""@ + crate::ast::spec_op_symbol(op) + "\" on "@
                    + lhs_ty + " and "@ + rhs_ty,
                emphasis: true,
            },
        ],
        help: Some("try casting to supported types"@),
    }
}

/// The model of the diagnostic for an if-expression whose branches
/// resolve to incompatible types.
pub open spec fn msg_unbalanced_if_statement(
    span: Span,
    first_span: Span,
    first_ty: Seq<char>,
    second_span: Span,
    second_ty: Seq<char>,
) -> AnalyzerMessageV {
    AnalyzerMessageV {
        kind: AnalyzerMessageKind::Alert(AnalyzerKind::UnbalancedIfStatements),
        span,
        message: "return types of if-statement are unbalanced"@,
        labels: seq![
            LabelV {
                span: first_span,
                message: "this resolves to "@ + first_ty,
                emphasis: false,
            },
            LabelV {
                span: second_span,
                message: "this resolves to "@ + second_ty + ", which is incompatible with "@
                    + first_ty,
                emphasis: true,
            },
        ],
        help: Some("try adding semicolons or balancing the types"@),
    }
}

/// The model of the diagnostic for a value-producing if-expression
/// without an `else` branch.
pub open spec fn msg_unbalanced_if_statement_no_else(
    span: Span,
    first_span: Span,
    first_ty: Seq<char>,
) -> AnalyzerMessageV {
    AnalyzerMessageV {
        kind: AnalyzerMessageKind::Alert(AnalyzerKind::UnbalancedIfStatements),
        span,
        message: "return types of if-statement are unbalanced"@,
        labels: seq![
            LabelV {
                span: first_span,
                message: "this resolves to "@ + first_ty + ", which is not null"@,
                emphasis: true,
            },
            LabelV {
                span,
                message: "note that the lack of an `else` causes the possibility of null"@,
                emphasis: true,
            },
        ],
        help: Some("try adding semicolons"@),
    }
}

impl AnalyzerMessage {
    /// The diagnostic for a binding declared mutable but never mutated.
    pub fn unnecessary_mut_variable(name: &str, span: Span) -> (r: AnalyzerMessage)
        ensures
            r@ == msg_unnecessary_mut_variable(name@, span),
    {
        let mut lmsg = "variable \"".to_owned();
        lmsg.append(name);
        lmsg.append("\" declared mutable here, but it is never mutated");
        let mut labels: Vec<Label> = Vec::new();
        labels.push(Label { span, message: lmsg, emphasis: true });
        let r = AnalyzerMessage {
            kind: AnalyzerMessageKind::Alert(AnalyzerKind::UnnecessaryMutVariables),
            span,
            message: "variable was unneedingly declared as mutable".to_owned(),
            labels,
            help: Some("make variable immutable by declaring with `let` instead".to_owned()),
        };
        proof {
            lemma_view_labels_index(r.labels@);
            assert(r@ =~~= msg_unnecessary_mut_variable(name@, span));
        }
        r
    }

    /// The diagnostic for a binding that is never used.
    pub fn unused_variable(name: &str, span: Span) -> (r: AnalyzerMessage)
        ensures
            r@ == msg_unused_variable(name@, span),
    {
        let mut lmsg = "variable \"".to_owned();
        lmsg.append(name);
        lmsg.append("\" is declared here, but it is never used");
        let mut help = "remove the declaration, or prefix with an underscore: \"_".to_owned();
        help.append(name);
        help.append("\"");
        let mut labels: Vec<Label> = Vec::new();
        labels.push(Label { span, message: lmsg, emphasis: true });
        let r = AnalyzerMessage {
            kind: AnalyzerMessageKind::Alert(AnalyzerKind::UnusedVariables),
            span,
            message: "variable is declared but never used".to_owned(),
            labels,
            help: Some(help),
        };
        proof {
            lemma_view_labels_index(r.labels@);
            assert(r@ =~~= msg_unused_variable(name@, span));
        }
        r
    }

    /// The diagnostic for a mutable declaration in the global scope.
    pub fn global_mutable_variable(span: Span) -> (r: AnalyzerMessage)
        ensures
            r@ == msg_global_mutable_variable(span),
    {
        let mut labels: Vec<Label> = Vec::new();
        labels.push(
            Label {
                span,
                message: "variables declared here are accessible to the entire program"
                    .to_owned(),
                emphasis: true,
            },
        );
        let r = AnalyzerMessage {
            kind: AnalyzerMessageKind::Alert(AnalyzerKind::GlobalMutableVariables),
            span,
            message: "mutable declaration found in the global scope".to_owned(),
            labels,
            help: Some(
                "declare as immutable instead, or move the declaration into a non-global context such as inside of a function".to_owned(),
            ),
        };
        proof {
            lemma_view_labels_index(r.labels@);
            assert(r@ =~~= msg_global_mutable_variable(span));
        }
        r
    }

    /// The diagnostic for a name that resolves to no binding, with an
    /// optional near-miss suggestion.
    pub fn unresolved_identifier(
        name: &str,
        close_match: Option<(String, Span)>,
        span: Span,
    ) -> (r: AnalyzerMessage)
        ensures
            r@ == msg_unresolved_identifier(name@, view_close_match(close_match), span),
    {
        let ghost cm = view_close_match(close_match);
        let mut lmsg = "variable \"".to_owned();
        lmsg.append(name);
        lmsg.append("\" not found in this scope");
        let mut labels: Vec<Label> = Vec::new();
        labels.push(Label { span, message: lmsg, emphasis: true });
        match close_match {
            Some((other, other_span)) => {
                let mut omsg = "perhaps you meant \"".to_owned();
                omsg.append(other.as_str());
                omsg.append("\", which was declared here");
                labels.push(Label { span: other_span, message: omsg, emphasis: false });
            },
            None => {},
        }
        let r = AnalyzerMessage {
            kind: AnalyzerMessageKind::Alert(AnalyzerKind::UnresolvedIdentifiers),
            span,
            message: "identifier could not be resolved".to_owned(),
            labels,
            help: None,
        };
        proof {
            lemma_view_labels_index(r.labels@);
            assert(r@ =~~= msg_unresolved_identifier(name@, cm, span));
        }
        r
    }

    /// The diagnostic for redeclaring a `const` binding.
    pub fn redeclared_const_variable(name: &str, decl_span: Span, span: Span)
        -> (r: AnalyzerMessage)
        ensures
            r@ == msg_redeclared_const_variable(name@, decl_span, span),
    {
        let mut first = "variable \"".to_owned();
        first.append(name);
        first.append("\" declared as `const` here");
        let mut second = "attempted to redeclare \"".to_owned();
        second.append(name);
        second.append("\" here");
        let mut labels: Vec<Label> = Vec::new();
        labels.push(Label { span: decl_span, message: first, emphasis: true });
        labels.push(Label { span, message: second, emphasis: true });
        let r = AnalyzerMessage {
            kind: AnalyzerMessageKind::Alert(AnalyzerKind::RedeclaredConstVariables),
            span,
            message: "cannot redeclare variable declared as `const`".to_owned(),
            labels,
            help: Some("declare with `let` instead".to_owned()),
        };
        proof {
            lemma_view_labels_index(r.labels@);
            assert(r@ =~~= msg_redeclared_const_variable(name@, decl_span, span));
        }
        r
    }

    /// The diagnostic for assigning to an immutable or `const`
    /// binding.
    pub fn reassigned_immutable_variable(
        name: &str,
        decl_span: Span,
        span: Span,
        was_const: bool,
    ) -> (r: AnalyzerMessage)
        ensures
            r@ == msg_reassigned_immutable_variable(name@, decl_span, span, was_const),
    {
        let mut message = "cannot reassign to ".to_owned();
        if was_const {
            message.append("variable declared as `const`");
        } else {
            message.append("immutable variable");
        }
        let mut first = "variable \"".to_owned();
        first.append(name);
        first.append("\" declared as ");
        if was_const {
            first.append("`const`");
        } else {
            first.append("immutable");
        }
        first.append(" here");
        let mut second = "attempted to reassign to variable \"".to_owned();
        second.append(name);
        second.append("\" here");
        let mut labels: Vec<Label> = Vec::new();
        labels.push(Label { span: decl_span, message: first, emphasis: false });
        labels.push(Label { span, message: second, emphasis: true });
        let r = AnalyzerMessage {
            kind: AnalyzerMessageKind::Alert(AnalyzerKind::ReassignedImmutableVariables),
            span,
            message,
            labels,
            help: Some("make variable mutable by declaring with `let mut` instead".to_owned()),
        };
        proof {
            lemma_view_labels_index(r.labels@);
            assert(r@ =~~= msg_reassigned_immutable_variable(name@, decl_span, span, was_const));
        }
        r
    }

    /// The diagnostic for a unary operator the operand's type does not
    /// support.
    pub fn unsupported_unary_operator(
        span: Span,
        val_ty: String,
        val_span: Span,
        op: crate::ast::Operator,
        op_span: Span,
    ) -> (r: AnalyzerMessage)
        ensures
            r@ == msg_unsupported_unary_operator(span, val_ty@, val_span, op, op_span),
    {
        let mut message = "type does not support unary \"".to_owned();
        message.append(op.symbol());
        message.append("\" operator");
        let mut first = "this is of type ".to_owned();
        first.append(val_ty.as_str());
        let mut second = "cannot use operator \"".to_owned();
        second.append(op.symbol());
        second.append("\" on ");
        second.append(val_ty.as_str());
        let mut labels: Vec<Label> = Vec::new();
        labels.push(Label { span: val_span, message: first, emphasis: false });
        labels.push(Label { span: op_span, message: second, emphasis: true });
        let r = AnalyzerMessage {
            kind: AnalyzerMessageKind::Alert(AnalyzerKind::UnsupportedOperators),
            span,
            message,
            labels,
            help: Some("try casting to a supported type".to_owned()),
        };
        proof {
            lemma_view_labels_index(r.labels@);
            assert(r@ =~~= msg_unsupported_unary_operator(span, val_ty@, val_span, op, op_span));
        }
        r
    }

    /// The diagnostic for a binary operator the operands' types do not
    /// support.
    pub fn unsupported_binary_operator(
        span: Span,
        lhs_ty: String,
        lhs_span: Span,
        rhs_ty: String,
        rhs_span: Span,
        op: crate::ast::Operator,
        op_span: Span,
    ) -> (r: AnalyzerMessage)
        ensures
            r@ == msg_unsupported_binary_operator(
                span,
                lhs_ty@,
                lhs_span,
                rhs_ty@,
                rhs_span,
                op,
                op_span,
            ),
    {
        let mut message = "these types do not support \"".to_owned();
        message.append(op.symbol());
        message.append("\" operator");
        let mut first = "this is of type ".to_owned();
        first.append(lhs_ty.as_str());
        let mut second = "this is of type ".to_owned();
        second.append(rhs_ty.as_str());
        let mut third = "cannot use operator \"".to_owned();
        third.append(op.symbol());
        third.append("\" on ");
        third.append(lhs_ty.as_str());
        third.append(" and ");
        third.append(rhs_ty.as_str());
        let mut labels: Vec<Label> = Vec::new();
        labels.push(Label { span: lhs_span, message: first, emphasis: false });
        labels.push(Label { span: rhs_span, message: second, emphasis: false });
        labels.push(Label { span: op_span, message: third, emphasis: true });
        let r = AnalyzerMessage {
            kind: AnalyzerMessageKind::Alert(AnalyzerKind::UnsupportedOperators),
            span,
            message,
            labels,
            help: Some("try casting to supported types".to_owned()),
        };
        proof {
            lemma_view_labels_index(r.labels@);
            assert(r@ =~~= msg_unsupported_binary_operator(
                span,
                lhs_ty@,
                lhs_span,
                rhs_ty@,
                rhs_span,
                op,
                op_span,
            ));
        }
        r
    }

    /// The diagnostic for an if-expression whose branches resolve to
    /// incompatible types.
    pub fn unbalanced_if_statement(
        span: Span,
        first_span: Span,
        first_ty: String,
        second_span: Span,
        second_ty: String,
    ) -> (r: AnalyzerMessage)
        ensures
            r@ == msg_unbalanced_if_statement(span, first_span, first_ty@, second_span, second_ty@),
    {
        let mut first = "this resolves to ".to_owned();
        first.append(first_ty.as_str());
        let mut second = "this resolves to ".to_owned();
        second.append(second_ty.as_str());
        second.append(", which is incompatible with ");
        second.append(first_ty.as_str());
        let mut labels: Vec<Label> = Vec::new();
        labels.push(Label { span: first_span, message: first, emphasis: false });
        labels.push(Label { span: second_span, message: second, emphasis: true });
        let r = AnalyzerMessage {
            kind: AnalyzerMessageKind::Alert(AnalyzerKind::UnbalancedIfStatements),
            span,
            message: "return types of if-statement are unbalanced".to_owned(),
            labels,
            help: Some("try adding semicolons or balancing the types".to_owned()),
        };
        proof {
            lemma_view_labels_index(r.labels@);
            assert(r@ =~~= msg_unbalanced_if_statement(
                span,
                first_span,
                first_ty@,
                second_span,
                second_ty@,
            ));
        }
        r
    }

    /// The diagnostic for a value-producing if-expression without an
    /// `else` branch.
    pub fn unbalanced_if_statement_no_else(
        span: Span,
        first_span: Span,
        first_ty: String,
    ) -> (r: AnalyzerMessage)
        ensures
            r@ == msg_unbalanced_if_statement_no_else(span, first_span, first_ty@),
    {
        let mut first = "this resolves to ".to_owned();
        first.append(first_ty.as_str());
        first.append(", which is not null");
        let mut labels: Vec<Label> = Vec::new();
        labels.push(Label { span: first_span, message: first, emphasis: true });
        labels.push(
            Label {
                span,
                message: "note that the lack of an `else` causes the possibility of null"
                    .to_owned(),
                emphasis: true,
            },
        );
        let r = AnalyzerMessage {
            kind: AnalyzerMessageKind::Alert(AnalyzerKind::UnbalancedIfStatements),
            span,
            message: "return types of if-statement are unbalanced".to_owned(),
            labels,
            help: Some("try adding semicolons".to_owned()),
        };
        proof {
            lemma_view_labels_index(r.labels@);
            assert(r@ =~~= msg_unbalanced_if_statement_no_else(span, first_span, first_ty@));
        }
        r
    }
}

} // verus!
