use vstd::prelude::*;
use crate::span::Span;

verus! {

/// The unary and binary operators of the analyzed language.
#[derive(Copy, Clone, Debug, PartialEq, Eq, Hash, Structural)]
pub enum Operator {
    Add,
    Sub,
    Mul,
    Div,
    Pow,
    Mod,
    BitOr,
    BitAnd,
    BitXor,
    BitLShift,
    BitRShift,
    Lt,
    Le,
    Gt,
    Ge,
    Eq,
    Ne,
    Or,
    And,
    Not,
    BitNot,
}

/// The source-text symbol of an operator.
pub open spec fn spec_op_symbol(op: Operator) -> Seq<char> {
    match op {
        Operator::Add => "+"@,
        Operator::Sub => "-"@,
        Operator::Mul => "*"@,
        Operator::Div => "/"@,
        Operator::Pow => "**"@,
        Operator::Mod => "%"@,
        Operator::BitOr => "|"@,
        Operator::BitAnd => "&"@,
        Operator::BitXor => "^"@,
        Operator::BitLShift => "<<"@,
        Operator::BitRShift => ">>"@,
        Operator::Lt => "<"@,
        Operator::Le => "<="@,
        Operator::Gt => ">"@,
        Operator::Ge => ">="@,
        Operator::Eq => "=="@,
        Operator::Ne => "!="@,
        Operator::Or => "||"@,
        Operator::And => "&&"@,
        Operator::Not => "!"@,
        Operator::BitNot => "~"@,
    }
}

impl Operator {
    /// The source-text symbol of the operator, as used in diagnostics.
    pub fn symbol(&self) -> (r: &'static str)
        ensures
            r@ == spec_op_symbol(*self),
    {
        match self {
            Operator::Add => "+",
            Operator::Sub => "-",
            Operator::Mul => "*",
            Operator::Div => "/",
            Operator::Pow => "**",
            Operator::Mod => "%",
            Operator::BitOr => "|",
            Operator::BitAnd => "&",
            Operator::BitXor => "^",
            Operator::BitLShift => "<<",
            Operator::BitRShift => ">>",
            Operator::Lt => "<",
            Operator::Le => "<=",
            Operator::Gt => ">",
            Operator::Ge => ">=",
            Operator::Eq => "==",
            Operator::Ne => "!=",
            Operator::Or => "||",
            Operator::And => "&&",
            Operator::Not => "!",
            Operator::BitNot => "~",
        }
    }
}

/// A syntax-tree item together with the span of source text it came
/// from.
#[derive(Clone, Debug, PartialEq)]
pub struct Spanned<T> {
    pub node: T,
    pub span: Span,
}

impl<T> Spanned<T> {
    pub fn new(node: T, span: Span) -> (s: Spanned<T>)
        ensures
            s.node == node,
            s.span == span,
    {
        Spanned { node, span }
    }
}

/// The target of a declaration or assignment: a plain identifier or a
/// nested array-destructuring pattern.
#[derive(Debug, PartialEq)]
pub enum Target {
    Ident(String),
    Array(Vec<Spanned<Target>>),
}

/// A block of statements; the flag records whether the block
/// syntactically returns its final expression as a value.
#[derive(Debug, PartialEq)]
pub struct Body(pub Vec<Spanned<Node>>, pub bool);

/// An expression of the analyzed language.  A float literal carries no
/// payload here: analysis reads only the kind of a literal, never its
/// value.
#[derive(Debug, PartialEq)]
pub enum Expr {
    Integer(i64),
    Float,
    String(String),
    Bool(bool),
    Ident(String),
    UnaryExpr { operator: Spanned<Operator>, value: Box<Spanned<Expr>> },
    BinaryExpr { operator: Spanned<Operator>, lhs: Box<Spanned<Expr>>, rhs: Box<Spanned<Expr>> },
    If {
        condition: Box<Spanned<Expr>>,
        body: Spanned<Body>,
        else_if_bodies: Vec<(Spanned<Expr>, Spanned<Body>)>,
        else_body: Option<Spanned<Body>>,
    },
    While { condition: Box<Spanned<Expr>>, body: Vec<Spanned<Node>> },
}

/// A statement-level node of the syntax tree.
#[derive(Debug, PartialEq)]
pub enum Node {
    Module(Vec<Spanned<Node>>),
    Declare {
        targets: Vec<Spanned<Target>>,
        is_mut: bool,
        is_const: bool,
        value: Box<Spanned<Expr>>,
    },
    Assign { targets: Vec<Spanned<Target>>, value: Box<Spanned<Expr>> },
    Expr(Spanned<Expr>),
}

} // verus!
