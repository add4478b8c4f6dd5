use vstd::prelude::*;
use crate::ast::Operator;

verus! {

// ---------------------------------------------------------------------
// The algebra of types
// ---------------------------------------------------------------------

/// The primitive types of the analyzed language.
#[derive(Copy, Clone, Debug, PartialEq, Eq, Hash, Structural)]
pub enum PrimitiveType {
    Int,
    Float,
    String,
    Bool,
}

/// Instructions on how to resolve a type whose resolution is postponed:
/// operators applied to a deferred type compose lazily instead of
/// failing immediately.
#[derive(Debug, PartialEq, Eq, Hash)]
pub enum DeferredType {
    /// A stable handle to a pending scope entry whose type is to be
    /// retrieved once it is resolved.
    TypeOf(usize),
    /// A substitute for a known type where a deferred type is required,
    /// e.g. when a binary operator combines a deferred and a known type.
    Known(Box<Type>),
    ApplyUnary(Operator, Box<DeferredType>),
    ApplyBinary(Operator, Box<DeferredType>, Box<DeferredType>),
}

/// A type of the analyzed language.
#[derive(Debug, PartialEq, Eq, Hash)]
pub enum Type {
    Primitive(PrimitiveType),
    Union(Box<Type>, Box<Type>),
    And(Box<Type>, Box<Type>),
    /// Element type and optional fixed length.
    Array(Box<Type>, Option<u32>),
    Tuple(Vec<Type>),
    Func(Vec<Type>, Box<Type>),
    Null,
    Any,
    /// Eventually will be resolved.
    Deferred(DeferredType),
    Unknown,
}

// ---------------------------------------------------------------------
// The mathematical model: the same algebra over `Seq`
// ---------------------------------------------------------------------

/// The model of a `DeferredType`.
#[verifier::ext_equal]
pub enum DeferredTypeV {
    TypeOf(usize),
    Known(Box<TypeV>),
    ApplyUnary(Operator, Box<DeferredTypeV>),
    ApplyBinary(Operator, Box<DeferredTypeV>, Box<DeferredTypeV>),
}

/// The model of a `Type`: the same tree with mathematical sequences in
/// place of vectors.
#[verifier::ext_equal]
pub enum TypeV {
    Primitive(PrimitiveType),
    Union(Box<TypeV>, Box<TypeV>),
    And(Box<TypeV>, Box<TypeV>),
    Array(Box<TypeV>, Option<u32>),
    Tuple(Seq<TypeV>),
    Func(Seq<TypeV>, Box<TypeV>),
    Null,
    Any,
    Deferred(DeferredTypeV),
    Unknown,
}

pub open spec fn view_type(t: Type) -> TypeV
    decreases t,
{
    match t {
        Type::Primitive(p) => TypeV::Primitive(p),
        Type::Union(a, b) => TypeV::Union(Box::new(view_type(*a)), Box::new(view_type(*b))),
        Type::And(a, b) => TypeV::And(Box::new(view_type(*a)), Box::new(view_type(*b))),
        Type::Array(e, n) => TypeV::Array(Box::new(view_type(*e)), n),
        Type::Tuple(v) => TypeV::Tuple(view_types(v@)),
        Type::Func(ps, r) => TypeV::Func(view_types(ps@), Box::new(view_type(*r))),
        Type::Null => TypeV::Null,
        Type::Any => TypeV::Any,
        Type::Deferred(d) => TypeV::Deferred(view_deferred(d)),
        Type::Unknown => TypeV::Unknown,
    }
}

pub open spec fn view_types(s: Seq<Type>) -> Seq<TypeV>
    decreases s,
{
    if s.len() == 0 {
        Seq::empty()
    } else {
        seq![view_type(s[0])] + view_types(s.skip(1))
    }
}

pub open spec fn view_deferred(d: DeferredType) -> DeferredTypeV
    decreases d,
{
    match d {
        DeferredType::TypeOf(h) => DeferredTypeV::TypeOf(h),
        DeferredType::Known(t) => DeferredTypeV::Known(Box::new(view_type(*t))),
        DeferredType::ApplyUnary(op, a) => DeferredTypeV::ApplyUnary(
            op,
            Box::new(view_deferred(*a)),
        ),
        DeferredType::ApplyBinary(op, a, b) => DeferredTypeV::ApplyBinary(
            op,
            Box::new(view_deferred(*a)),
            Box::new(view_deferred(*b)),
        ),
    }
}

impl View for Type {
    type V = TypeV;

    open spec fn view(&self) -> TypeV {
        view_type(*self)
    }
}

impl View for DeferredType {
    type V = DeferredTypeV;

    open spec fn view(&self) -> DeferredTypeV {
        view_deferred(*self)
    }
}

/// The view of a sequence of types is the sequence of their views.
pub proof fn lemma_view_types_index(s: Seq<Type>)
    ensures
        view_types(s).len() == s.len(),
        forall|i: int| 0 <= i < s.len() ==> view_types(s)[i] == view_type(s[i]),
    decreases s,
{
    if s.len() > 0 {
        lemma_view_types_index(s.skip(1));
        assert(forall|i: int|
            1 <= i < s.len() ==> view_types(s)[i] == view_types(s.skip(1))[i - 1]);
        assert(forall|i: int| 1 <= i < s.len() ==> s.skip(1)[i - 1] == s[i]);
    }
}

// ---------------------------------------------------------------------
// Operator outcome rules, on the model
// ---------------------------------------------------------------------

/// The arithmetic operators.
pub open spec fn is_arith_op(op: Operator) -> bool {
    op == Operator::Add || op == Operator::Sub || op == Operator::Mul || op == Operator::Div
        || op == Operator::Pow || op == Operator::Mod
}

/// The bitwise binary operators.
pub open spec fn is_bitwise_op(op: Operator) -> bool {
    op == Operator::BitOr || op == Operator::BitAnd || op == Operator::BitXor
        || op == Operator::BitLShift || op == Operator::BitRShift
}

/// The comparison operators.
pub open spec fn is_cmp_op(op: Operator) -> bool {
    op == Operator::Lt || op == Operator::Le || op == Operator::Gt || op == Operator::Ge
        || op == Operator::Eq || op == Operator::Ne
}

/// Outcome of a unary operator on a primitive type: logical not always
/// yields `Bool`; negation and unary plus preserve `Int` and `Float`;
/// bitwise not requires `Int`; everything else is unsupported.
pub open spec fn spec_unary_prim(p: PrimitiveType, op: Operator) -> Option<TypeV> {
    if op == Operator::Not {
        Some(TypeV::Primitive(PrimitiveType::Bool))
    } else if (op == Operator::Add || op == Operator::Sub) && (p == PrimitiveType::Int
        || p == PrimitiveType::Float) {
        Some(TypeV::Primitive(p))
    } else if op == Operator::BitNot && p == PrimitiveType::Int {
        Some(TypeV::Primitive(PrimitiveType::Int))
    } else {
        None
    }
}

/// Outcome of a binary operator on a primitive left operand:
/// arithmetic and bitwise operators on `Int`/`Int` yield `Int`;
/// arithmetic on an `Int`/`Float` mix yields `Float`; comparisons on
/// numbers yield `Bool`; `+` and `*` on two strings yield `String`.
pub open spec fn spec_binary_prim(p: PrimitiveType, op: Operator, other: TypeV) -> Option<TypeV> {
    if p == PrimitiveType::Int && (is_arith_op(op) || is_bitwise_op(op)) && other
        == TypeV::Primitive(PrimitiveType::Int) {
        Some(TypeV::Primitive(PrimitiveType::Int))
    } else if (p == PrimitiveType::Int || p == PrimitiveType::Float) && is_arith_op(op) && (other
        == TypeV::Primitive(PrimitiveType::Int) || other == TypeV::Primitive(
        PrimitiveType::Float,
    )) {
        Some(TypeV::Primitive(PrimitiveType::Float))
    } else if (p == PrimitiveType::Int || p == PrimitiveType::Float) && is_cmp_op(op) && (other
        == TypeV::Primitive(PrimitiveType::Int) || other == TypeV::Primitive(
        PrimitiveType::Float,
    )) {
        Some(TypeV::Primitive(PrimitiveType::Bool))
    } else if p == PrimitiveType::String && (op == Operator::Add || op == Operator::Mul) && other
        == TypeV::Primitive(PrimitiveType::String) {
        Some(TypeV::Primitive(PrimitiveType::String))
    } else {
        None
    }
}

/// Conservative combination for union operands: the operator must be
/// supported on both sides, and the second outcome is kept.
pub open spec fn and_outcome(a: Option<TypeV>, b: Option<TypeV>) -> Option<TypeV> {
    if a is Some && b is Some {
        b
    } else {
        None
    }
}

/// Permissive combination for intersection operands: the first
/// supported outcome is kept.
pub open spec fn or_outcome(a: Option<TypeV>, b: Option<TypeV>) -> Option<TypeV> {
    if a is Some {
        a
    } else {
        b
    }
}

/// The nesting depth of unions and intersections; the measure under
/// which the binary outcome rules recurse.
pub open spec fn comb_height(t: TypeV) -> nat
    decreases t,
{
    match t {
        TypeV::Union(a, b) => 1 + if comb_height(*a) >= comb_height(*b) {
            comb_height(*a)
        } else {
            comb_height(*b)
        },
        TypeV::And(a, b) => 1 + if comb_height(*a) >= comb_height(*b) {
            comb_height(*a)
        } else {
            comb_height(*b)
        },
        _ => 0,
    }
}

/// Outcome of a unary operator on a type, or `None` when unsupported:
/// a deferred operand always succeeds and stays deferred; a primitive
/// follows the primitive rules; a union requires both sides to
/// support the operator, an intersection either side; logical not on
/// any remaining type yields `Bool`; `Any` and `Unknown` absorb every
/// operator and return themselves.
pub open spec fn spec_unary_outcome(t: TypeV, op: Operator) -> Option<TypeV>
    decreases t,
{
    match t {
        TypeV::Deferred(d) => Some(
            TypeV::Deferred(DeferredTypeV::ApplyUnary(op, Box::new(d))),
        ),
        TypeV::Primitive(p) => spec_unary_prim(p, op),
        TypeV::Union(a, b) => and_outcome(spec_unary_outcome(*a, op), spec_unary_outcome(*b, op)),
        TypeV::And(a, b) => or_outcome(spec_unary_outcome(*a, op), spec_unary_outcome(*b, op)),
        _ => if op == Operator::Not {
            Some(TypeV::Primitive(PrimitiveType::Bool))
        } else if t == TypeV::Any || t == TypeV::Unknown {
            Some(t)
        } else {
            None
        },
    }
}

/// The fixed length of the concatenation of two arrays: the sum when
/// both lengths are fixed and the sum fits, else unbounded.
pub open spec fn spec_array_len_sum(a: Option<u32>, b: Option<u32>) -> Option<u32> {
    match (a, b) {
        (Some(x), Some(y)) => if x + y <= u32::MAX {
            Some((x + y) as u32)
        } else {
            None
        },
        _ => None,
    }
}

/// Outcome of a binary operator on two types, or `None` when
/// unsupported: two deferred operands stay deferred; `Any` and then
/// `Unknown` on either side short-circuit to that marker; a union on
/// either side requires both of its sides to support the operator; an
/// intersection on either side requires one; a primitive left operand
/// follows the primitive rules; `+` concatenates two arrays (the
/// element type becomes the union of the element types) and two
/// tuples.  A union or intersection on the right distributes with the
/// remaining operand moved to the left.
pub open spec fn spec_binary_outcome(l: TypeV, op: Operator, r: TypeV) -> Option<TypeV>
    decreases comb_height(l) + comb_height(r),
{
    if l is Deferred && r is Deferred {
        Some(
            TypeV::Deferred(
                DeferredTypeV::ApplyBinary(
                    op,
                    Box::new(l->Deferred_0),
                    Box::new(r->Deferred_0),
                ),
            ),
        )
    } else if l is Any || r is Any {
        Some(TypeV::Any)
    } else if l is Unknown || r is Unknown {
        Some(TypeV::Unknown)
    } else if l is Union {
        and_outcome(
            spec_binary_outcome(*l->Union_0, op, r),
            spec_binary_outcome(*l->Union_1, op, r),
        )
    } else if r is Union {
        and_outcome(
            spec_binary_outcome(*r->Union_0, op, l),
            spec_binary_outcome(*r->Union_1, op, l),
        )
    } else if l is And {
        or_outcome(
            spec_binary_outcome(*l->And_0, op, r),
            spec_binary_outcome(*l->And_1, op, r),
        )
    } else if r is And {
        or_outcome(
            spec_binary_outcome(*r->And_0, op, l),
            spec_binary_outcome(*r->And_1, op, l),
        )
    } else if l is Primitive {
        spec_binary_prim(l->Primitive_0, op, r)
    } else if l is Array && op == Operator::Add && r is Array {
        Some(
            TypeV::Array(
                Box::new(TypeV::Union(l->Array_0, r->Array_0)),
                spec_array_len_sum(l->Array_1, r->Array_1),
            ),
        )
    } else if l is Tuple && op == Operator::Add && r is Tuple {
        Some(TypeV::Tuple(l->Tuple_0 + r->Tuple_0))
    } else {
        None
    }
}

/// Collapses a union or intersection of two structurally equal types
/// into that type, recursively; any other type is unchanged.
pub open spec fn spec_flatten(t: TypeV) -> TypeV
    decreases t,
{
    match t {
        TypeV::Union(a, b) => if *a == *b {
            spec_flatten(*a)
        } else {
            t
        },
        TypeV::And(a, b) => if *a == *b {
            spec_flatten(*a)
        } else {
            t
        },
        _ => t,
    }
}

// ---------------------------------------------------------------------
// Executable operations on types
// ---------------------------------------------------------------------

/// The view of an optional type.
pub open spec fn view_option(o: Option<Type>) -> Option<TypeV> {
    match o {
        Some(t) => Some(view_type(t)),
        None => None,
    }
}

impl DeferredType {
    fn duplicate(&self) -> (r: DeferredType)
        ensures
            r@ == self@,
        decreases *self, 0int,
    {
        match self {
            DeferredType::TypeOf(h) => DeferredType::TypeOf(*h),
            DeferredType::Known(t) => DeferredType::Known(Box::new(t.duplicate())),
            DeferredType::ApplyUnary(op, a) => DeferredType::ApplyUnary(
                *op,
                Box::new(a.duplicate()),
            ),
            DeferredType::ApplyBinary(op, a, b) => DeferredType::ApplyBinary(
                *op,
                Box::new(a.duplicate()),
                Box::new(b.duplicate()),
            ),
        }
    }
}

impl Clone for DeferredType {
    fn clone(&self) -> (r: DeferredType)
        ensures
            r@ == self@,
    {
        self.duplicate()
    }
}

fn dup_types(v: &Vec<Type>) -> (r: Vec<Type>)
    ensures
        r@.len() == v@.len(),
        forall|i: int| 0 <= i < v@.len() ==> view_type(#[trigger] r@[i]) == view_type(v@[i]),
        view_types(r@) == view_types(v@),
    decreases *v, 1int,
{
    let mut out: Vec<Type> = Vec::new();
    let mut k: usize = 0;
    while k < v.len()
        invariant
            k <= v@.len(),
            out@.len() == k,
            forall|i: int| 0 <= i < k ==> view_type(#[trigger] out@[i]) == view_type(v@[i]),
        decreases v@.len() - k,
    {
        out.push(v[k].duplicate());
        k = k + 1;
    }
    proof {
        lemma_view_types_index(out@);
        lemma_view_types_index(v@);
        assert(view_types(out@) =~= view_types(v@));
    }
    out
}

impl Type {
    fn duplicate(&self) -> (r: Type)
        ensures
            r@ == self@,
        decreases *self, 2int,
    {
        match self {
            Type::Primitive(p) => Type::Primitive(*p),
            Type::Union(a, b) => Type::Union(Box::new(a.duplicate()), Box::new(b.duplicate())),
            Type::And(a, b) => Type::And(Box::new(a.duplicate()), Box::new(b.duplicate())),
            Type::Array(e, n) => Type::Array(
                Box::new(e.duplicate()),
                match n {
                    Some(x) => Some(*x),
                    None => None,
                },
            ),
            Type::Tuple(v) => Type::Tuple(dup_types(v)),
            Type::Func(ps, ret) => Type::Func(dup_types(ps), Box::new(ret.duplicate())),
            Type::Null => Type::Null,
            Type::Any => Type::Any,
            Type::Deferred(d) => Type::Deferred(d.duplicate()),
            Type::Unknown => Type::Unknown,
        }
    }
}

impl Clone for Type {
    fn clone(&self) -> (r: Type)
        ensures
            r@ == self@,
    {
        self.duplicate()
    }
}

fn eq_types(v: &Vec<Type>, w: &Vec<Type>) -> (r: bool)
    ensures
        r == (view_types(v@) == view_types(w@)),
    decreases *v, 1int,
{
    proof {
        lemma_view_types_index(v@);
        lemma_view_types_index(w@);
    }
    if v.len() != w.len() {
        return false;
    }
    let mut k: usize = 0;
    while k < v.len()
        invariant
            v@.len() == w@.len(),
            k <= v@.len(),
            forall|i: int| 0 <= i < k ==> view_type(#[trigger] v@[i]) == view_type(w@[i]),
        decreases v@.len() - k,
    {
        if !v[k].structural_eq(&w[k]) {
            proof {
                lemma_view_types_index(v@);
                lemma_view_types_index(w@);
                assert(view_types(v@)[k as int] != view_types(w@)[k as int]);
            }
            return false;
        }
        k = k + 1;
    }
    proof {
        lemma_view_types_index(v@);
        lemma_view_types_index(w@);
        assert(view_types(v@) =~= view_types(w@));
    }
    true
}

impl DeferredType {
    /// Deep structural equality, the equality of the models.
    pub fn structural_eq(&self, other: &DeferredType) -> (r: bool)
        ensures
            r == (self@ == other@),
        decreases *self, 0int,
    {
        match (self, other) {
            (DeferredType::TypeOf(a), DeferredType::TypeOf(b)) => a == b,
            (DeferredType::Known(a), DeferredType::Known(b)) => a.structural_eq(b),
            (DeferredType::ApplyUnary(opa, a), DeferredType::ApplyUnary(opb, b)) => *opa == *opb
                && a.structural_eq(b),
            (
                DeferredType::ApplyBinary(opa, a1, a2),
                DeferredType::ApplyBinary(opb, b1, b2),
            ) => *opa == *opb && a1.structural_eq(b1) && a2.structural_eq(b2),
            _ => false,
        }
    }
}

impl Type {
    /// Deep structural equality, the equality of the models.
    pub fn structural_eq(&self, other: &Type) -> (r: bool)
        ensures
            r == (self@ == other@),
        decreases *self, 2int,
    {
        match (self, other) {
            (Type::Primitive(p), Type::Primitive(q)) => p == q,
            (Type::Union(a1, a2), Type::Union(b1, b2)) => a1.structural_eq(b1)
                && a2.structural_eq(b2),
            (Type::And(a1, a2), Type::And(b1, b2)) => a1.structural_eq(b1) && a2.structural_eq(
                b2,
            ),
            (Type::Array(ea, la), Type::Array(eb, lb)) => ea.structural_eq(eb) && match (
                la,
                lb,
            ) {
                (Some(x), Some(y)) => x == y,
                (None, None) => true,
                _ => false,
            },
            (Type::Tuple(v), Type::Tuple(w)) => eq_types(v, w),
            (Type::Func(pa, ra), Type::Func(pb, rb)) => eq_types(pa, pb) && ra.structural_eq(rb),
            (Type::Null, Type::Null) => true,
            (Type::Any, Type::Any) => true,
            (Type::Deferred(a), Type::Deferred(b)) => a.structural_eq(b),
            (Type::Unknown, Type::Unknown) => true,
            _ => false,
        }
    }
}

impl PrimitiveType {
    /// The type produced by applying a unary operator to a value of
    /// this primitive type, or `None` when the operator is unsupported.
    pub fn get_unary_op_outcome(&self, op: Operator) -> (r: Option<Type>)
        ensures
            view_option(r) == spec_unary_prim(*self, op),
    {
        if matches!(op, Operator::Not) {
            Some(Type::Primitive(PrimitiveType::Bool))
        } else if matches!(op, Operator::Add | Operator::Sub) && matches!(
            self,
            PrimitiveType::Int | PrimitiveType::Float,
        ) {
            Some(Type::Primitive(*self))
        } else if matches!(op, Operator::BitNot) && matches!(self, PrimitiveType::Int) {
            Some(Type::Primitive(PrimitiveType::Int))
        } else {
            None
        }
    }

    /// The type produced by applying a binary operator to a value of
    /// this primitive type on the left and `other` on the right, or
    /// `None` when the combination is unsupported.
    pub fn get_binary_op_outcome(&self, op: Operator, other: &Type) -> (r: Option<Type>)
        ensures
            view_option(r) == spec_binary_prim(*self, op, other@),
    {
        let arith = matches!(
            op,
            Operator::Add | Operator::Sub | Operator::Mul | Operator::Div | Operator::Pow
                | Operator::Mod,
        );
        let bitwise = matches!(
            op,
            Operator::BitOr | Operator::BitAnd | Operator::BitXor | Operator::BitLShift
                | Operator::BitRShift,
        );
        let cmp = matches!(
            op,
            Operator::Lt | Operator::Le | Operator::Gt | Operator::Ge | Operator::Eq
                | Operator::Ne,
        );
        match other {
            Type::Primitive(q) => {
                if matches!(self, PrimitiveType::Int) && (arith || bitwise) && matches!(
                    q,
                    PrimitiveType::Int,
                ) {
                    Some(Type::Primitive(PrimitiveType::Int))
                } else if matches!(self, PrimitiveType::Int | PrimitiveType::Float) && arith
                    && matches!(q, PrimitiveType::Int | PrimitiveType::Float) {
                    Some(Type::Primitive(PrimitiveType::Float))
                } else if matches!(self, PrimitiveType::Int | PrimitiveType::Float) && cmp
                    && matches!(q, PrimitiveType::Int | PrimitiveType::Float) {
                    Some(Type::Primitive(PrimitiveType::Bool))
                } else if matches!(self, PrimitiveType::String) && matches!(
                    op,
                    Operator::Add | Operator::Mul,
                ) && matches!(q, PrimitiveType::String) {
                    Some(Type::Primitive(PrimitiveType::String))
                } else {
                    None
                }
            },
            _ => None,
        }
    }
}

impl Type {
    /// The type produced by applying a unary operator to a value of
    /// this type, or `None` when the operator is unsupported.
    pub fn get_unary_op_outcome(&self, op: Operator) -> (r: Option<Type>)
        ensures
            view_option(r) == spec_unary_outcome(self@, op),
        decreases *self,
    {
        match self {
            Type::Deferred(d) => {
                let dup = d.duplicate();
                let out = Type::Deferred(DeferredType::ApplyUnary(op, Box::new(dup)));
                proof {
                    assert(view_deferred(DeferredType::ApplyUnary(op, Box::new(dup)))
                        == DeferredTypeV::ApplyUnary(op, Box::new(view_deferred(dup))));
                    assert(view_type(out) == TypeV::Deferred(
                        DeferredTypeV::ApplyUnary(op, Box::new(view_deferred(*d))),
                    ));
                }
                Some(out)
            },
            Type::Primitive(p) => p.get_unary_op_outcome(op),
            Type::Union(a, b) => {
                let x = a.get_unary_op_outcome(op);
                let y = b.get_unary_op_outcome(op);
                match (x, y) {
                    (Some(_), Some(t)) => Some(t),
                    _ => None,
                }
            },
            Type::And(a, b) => {
                let x = a.get_unary_op_outcome(op);
                match x {
                    Some(t) => Some(t),
                    None => b.get_unary_op_outcome(op),
                }
            },
            _ => {
                if matches!(op, Operator::Not) {
                    Some(Type::Primitive(PrimitiveType::Bool))
                } else if matches!(self, Type::Any) {
                    Some(Type::Any)
                } else if matches!(self, Type::Unknown) {
                    Some(Type::Unknown)
                } else {
                    None
                }
            },
        }
    }

    /// The type produced by applying a binary operator to values of
    /// these two types, or `None` when the combination is unsupported.
    pub fn get_binary_op_outcome(&self, op: Operator, other: &Type) -> (r: Option<Type>)
        ensures
            view_option(r) == spec_binary_outcome(self@, op, other@),
        decreases comb_height(view_type(*self)) + comb_height(view_type(*other)),
    {
        match (self, other) {
            (Type::Deferred(a), Type::Deferred(b)) => {
                let da = a.duplicate();
                let db = b.duplicate();
                let out = Type::Deferred(
                    DeferredType::ApplyBinary(op, Box::new(da), Box::new(db)),
                );
                proof {
                    assert(view_deferred(DeferredType::ApplyBinary(op, Box::new(da), Box::new(db)))
                        == DeferredTypeV::ApplyBinary(
                        op,
                        Box::new(view_deferred(da)),
                        Box::new(view_deferred(db)),
                    ));
                    assert(view_type(out) == TypeV::Deferred(
                        DeferredTypeV::ApplyBinary(
                            op,
                            Box::new(view_deferred(*a)),
                            Box::new(view_deferred(*b)),
                        ),
                    ));
                }
                Some(out)
            },
            (Type::Any, _) | (_, Type::Any) => Some(Type::Any),
            (Type::Unknown, _) | (_, Type::Unknown) => Some(Type::Unknown),
            (Type::Union(a, b), _) => {
                let x = a.get_binary_op_outcome(op, other);
                let y = b.get_binary_op_outcome(op, other);
                match (x, y) {
                    (Some(_), Some(t)) => Some(t),
                    _ => None,
                }
            },
            (_, Type::Union(a, b)) => {
                let x = a.get_binary_op_outcome(op, self);
                let y = b.get_binary_op_outcome(op, self);
                match (x, y) {
                    (Some(_), Some(t)) => Some(t),
                    _ => None,
                }
            },
            (Type::And(a, b), _) => {
                let x = a.get_binary_op_outcome(op, other);
                match x {
                    Some(t) => Some(t),
                    None => b.get_binary_op_outcome(op, other),
                }
            },
            (_, Type::And(a, b)) => {
                let x = a.get_binary_op_outcome(op, self);
                match x {
                    Some(t) => Some(t),
                    None => b.get_binary_op_outcome(op, self),
                }
            },
            (Type::Primitive(p), _) => p.get_binary_op_outcome(op, other),
            (Type::Array(ea, la), Type::Array(eb, lb)) => {
                if matches!(op, Operator::Add) {
                    let len: Option<u32> = match (la, lb) {
                        (Some(x), Some(y)) => {
                            if *x <= u32::MAX - *y {
                                Some(*x + *y)
                            } else {
                                None
                            }
                        },
                        _ => None,
                    };
                    let ea2 = ea.duplicate();
                    let eb2 = eb.duplicate();
                    let elem = Type::Union(Box::new(ea2), Box::new(eb2));
                    proof {
                        assert(view_type(elem) == TypeV::Union(
                            Box::new(view_type(**ea)),
                            Box::new(view_type(**eb)),
                        ));
                    }
                    let out = Type::Array(Box::new(elem), len);
                    proof {
                        assert(view_type(out) == TypeV::Array(
                            Box::new(TypeV::Union(
                                Box::new(view_type(**ea)),
                                Box::new(view_type(**eb)),
                            )),
                            len,
                        ));
                    }
                    Some(out)
                } else {
                    None
                }
            },
            (Type::Tuple(a), Type::Tuple(b)) => {
                if matches!(op, Operator::Add) {
                    let mut items = dup_types(a);
                    let more = dup_types(b);
                    let mut k: usize = 0;
                    while k < more.len()
                        invariant
                            k <= more@.len(),
                            items@.len() == a@.len() + k,
                            forall|i: int|
                                0 <= i < a@.len() ==> view_type(#[trigger] items@[i]) == view_type(
                                    a@[i],
                                ),
                            forall|i: int|
                                a@.len() <= i < a@.len() + k ==> view_type(#[trigger] items@[i])
                                    == view_type(b@[i - a@.len()]),
                            more@.len() == b@.len(),
                            forall|i: int|
                                0 <= i < b@.len() ==> view_type(#[trigger] more@[i]) == view_type(
                                    b@[i],
                                ),
                        decreases more@.len() - k,
                    {
                        items.push(more[k].duplicate());
                        k = k + 1;
                    }
                    proof {
                        lemma_view_types_index(items@);
                        lemma_view_types_index(a@);
                        lemma_view_types_index(b@);
                        assert(view_types(items@) =~= view_types(a@) + view_types(b@));
                    }
                    Some(Type::Tuple(items))
                } else {
                    None
                }
            },
            _ => None,
        }
    }

    /// Collapses a union or intersection of two structurally equal
    /// types into that single type, recursively.
    pub fn flatten(self) -> (r: Type)
        ensures
            r@ == spec_flatten(self@),
        decreases self,
    {
        match self {
            Type::Union(a, b) => {
                if a.structural_eq(&b) {
                    (*a).flatten()
                } else {
                    Type::Union(a, b)
                }
            },
            Type::And(a, b) => {
                if a.structural_eq(&b) {
                    (*a).flatten()
                } else {
                    Type::And(a, b)
                }
            },
            o => o,
        }
    }
}

// ---------------------------------------------------------------------
// Rendering types for diagnostics
// ---------------------------------------------------------------------

/// The rendering of a type: primitives by name, `Union(Null, T)` in
/// either operand order as `?T`, general unions as `A | B`,
/// intersections as `A & B`, arrays as `T[n]` or `T[]`, tuples as
/// `[T1, T2]`, functions as `(P1, P2) -> R`, and deferred or unknown
/// types as an opaque marker.
pub open spec fn spec_display(t: TypeV) -> Seq<char>
    decreases t,
{
    match t {
        TypeV::Primitive(p) => match p {
            PrimitiveType::Int => "int"@,
            PrimitiveType::Float => "float"@,
            PrimitiveType::String => "string"@,
            PrimitiveType::Bool => "bool"@,
        },
        TypeV::Union(a, b) => if *a == TypeV::Null {
            "?"@ + spec_display(*b)
        } else if *b == TypeV::Null {
            "?"@ + spec_display(*a)
        } else {
            spec_display(*a) + " | "@ + spec_display(*b)
        },
        TypeV::And(a, b) => spec_display(*a) + " & "@ + spec_display(*b),
        TypeV::Array(e, n) => spec_display(*e) + "["@ + (match n {
            Some(x) => crate::text::spec_decimal(x as nat),
            None => Seq::empty(),
        }) + "]"@,
        TypeV::Tuple(items) => "["@ + spec_display_list(items) + "]"@,
        TypeV::Func(ps, ret) => "("@ + spec_display_list(ps) + ") -> "@ + spec_display(*ret),
        TypeV::Null => "null"@,
        TypeV::Any => "any"@,
        TypeV::Deferred(_) => "<unknown>"@,
        TypeV::Unknown => "<unknown>"@,
    }
}

/// The renderings of a list of types, joined by commas.
pub open spec fn spec_display_list(s: Seq<TypeV>) -> Seq<char>
    decreases s,
{
    if s.len() == 0 {
        Seq::empty()
    } else if s.len() == 1 {
        spec_display(s[0])
    } else {
        spec_display(s[0]) + ", "@ + spec_display_list(s.skip(1))
    }
}

fn display_list(v: &Vec<Type>, i: usize) -> (r: String)
    requires
        i <= v@.len(),
    ensures
        r@ == spec_display_list(view_types(v@).skip(i as int)),
    decreases *v, v@.len() - i,
{
    proof {
        lemma_view_types_index(v@);
    }
    if i == v.len() {
        proof {
            assert(view_types(v@).skip(i as int) =~= Seq::<TypeV>::empty());
        }
        String::new()
    } else {
        let mut s = v[i].to_display_string();
        proof {
            assert(view_types(v@).skip(i as int)[0] == view_type(v@[i as int]));
        }
        if i + 1 == v.len() {
            proof {
                assert(view_types(v@).skip(i as int).len() == 1);
            }
            s
        } else {
            let rest = display_list(v, i + 1);
            s.append(", ");
            s.append(rest.as_str());
            proof {
                assert(view_types(v@).skip(i as int).skip(1) =~= view_types(v@).skip(
                    i as int + 1,
                ));
            }
            s
        }
    }
}

impl Type {
    fn is_null_type(&self) -> (r: bool)
        ensures
            r == (self@ == TypeV::Null),
    {
        match self {
            Type::Primitive(_) => false,
            Type::Union(_, _) => false,
            Type::And(_, _) => false,
            Type::Array(_, _) => false,
            Type::Tuple(_) => false,
            Type::Func(_, _) => false,
            Type::Null => true,
            Type::Any => false,
            Type::Deferred(_) => false,
            Type::Unknown => false,
        }
    }

    /// Renders the type for use in diagnostics.
    pub fn to_display_string(&self) -> (r: String)
        ensures
            r@ == spec_display(self@),
        decreases *self, 0int,
    {
        match self {
            Type::Primitive(p) => match p {
                PrimitiveType::Int => "int".to_owned(),
                PrimitiveType::Float => "float".to_owned(),
                PrimitiveType::String => "string".to_owned(),
                PrimitiveType::Bool => "bool".to_owned(),
            },
            Type::Union(a, b) => {
                if a.is_null_type() {
                    let mut s = "?".to_owned();
                    s.append(b.to_display_string().as_str());
                    s
                } else if b.is_null_type() {
                    let mut s = "?".to_owned();
                    s.append(a.to_display_string().as_str());
                    s
                } else {
                    let mut s = a.to_display_string();
                    s.append(" | ");
                    s.append(b.to_display_string().as_str());
                    s
                }
            },
            Type::And(a, b) => {
                let mut s = a.to_display_string();
                s.append(" & ");
                s.append(b.to_display_string().as_str());
                s
            },
            Type::Array(e, n) => {
                let mut s = e.to_display_string();
                s.append("[");
                match n {
                    Some(x) => {
                        s.append(crate::text::u32_to_string(*x).as_str());
                    },
                    None => {},
                }
                s.append("]");
                s
            },
            Type::Tuple(items) => {
                let mut s = "[".to_owned();
                let inner = display_list(items, 0);
                s.append(inner.as_str());
                s.append("]");
                proof {
                    assert(view_types(items@).skip(0) =~= view_types(items@));
                }
                s
            },
            Type::Func(ps, ret) => {
                let mut s = "(".to_owned();
                let inner = display_list(ps, 0);
                s.append(inner.as_str());
                s.append(") -> ");
                s.append(ret.to_display_string().as_str());
                proof {
                    assert(view_types(ps@).skip(0) =~= view_types(ps@));
                }
                s
            },
            Type::Null => "null".to_owned(),
            Type::Any => "any".to_owned(),
            Type::Deferred(_) => "<unknown>".to_owned(),
            Type::Unknown => "<unknown>".to_owned(),
        }
    }
}

// ---------------------------------------------------------------------
// Laws of the type algebra
// ---------------------------------------------------------------------

/// Law: a union of a type with itself, and an intersection of a type
/// with itself, flatten to the flattening of that type.
pub proof fn lemma_flatten_self_pair(a: Box<TypeV>)
    ensures
        spec_flatten(TypeV::Union(a, a)) == spec_flatten(*a),
        spec_flatten(TypeV::And(a, a)) == spec_flatten(*a),
{
}

/// Law: flattening is idempotent.
pub proof fn lemma_flatten_idempotent(t: TypeV)
    ensures
        spec_flatten(spec_flatten(t)) == spec_flatten(t),
    decreases t,
{
    match t {
        TypeV::Union(a, b) => {
            if *a == *b {
                lemma_flatten_idempotent(*a);
            }
        },
        TypeV::And(a, b) => {
            if *a == *b {
                lemma_flatten_idempotent(*a);
            }
        },
        _ => {},
    }
}

/// Law: an arithmetic operator on any pair of `Int`/`Float` primitives
/// yields `Float` when either operand is `Float`, else `Int`.
pub proof fn lemma_arith_numeric_outcome(p: PrimitiveType, q: PrimitiveType, op: Operator)
    requires
        is_arith_op(op),
        p == PrimitiveType::Int || p == PrimitiveType::Float,
        q == PrimitiveType::Int || q == PrimitiveType::Float,
    ensures
        spec_binary_outcome(TypeV::Primitive(p), op, TypeV::Primitive(q)) == Some(
            TypeV::Primitive(
                if p == PrimitiveType::Float || q == PrimitiveType::Float {
                    PrimitiveType::Float
                } else {
                    PrimitiveType::Int
                },
            ),
        ),
{
}

/// Law: `Any` combined with `Unknown` under any binary operator yields
/// `Any`, whichever side each marker stands on.
pub proof fn lemma_any_unknown_outcome(op: Operator)
    ensures
        spec_binary_outcome(TypeV::Any, op, TypeV::Unknown) == Some(TypeV::Any),
        spec_binary_outcome(TypeV::Unknown, op, TypeV::Any) == Some(TypeV::Any),
{
}

} // verus!
