use terbium_analyzer::ast::Operator;
use terbium_analyzer::types::DeferredType;
use terbium_analyzer::types::{PrimitiveType, Type};

fn int_ty() -> Type {
    Type::Primitive(PrimitiveType::Int)
}

fn float() -> Type {
    Type::Primitive(PrimitiveType::Float)
}

fn boolean() -> Type {
    Type::Primitive(PrimitiveType::Bool)
}

fn string() -> Type {
    Type::Primitive(PrimitiveType::String)
}

#[test]
fn flatten_collapses_union_of_equal_types() {
    let u = Type::Union(Box::new(int_ty()), Box::new(int_ty()));
    assert_eq!(u.flatten(), int_ty());
    let a = Type::And(Box::new(boolean()), Box::new(boolean()));
    assert_eq!(a.flatten(), boolean());
}

#[test]
fn flatten_is_recursive_and_idempotent() {
    let inner = Type::Union(Box::new(int_ty()), Box::new(int_ty()));
    let outer = Type::Union(Box::new(inner.clone()), Box::new(inner));
    assert_eq!(outer.flatten(), int_ty());
    // An unequal union is left alone.
    let mixed = Type::Union(Box::new(int_ty()), Box::new(boolean()));
    assert_eq!(mixed.clone().flatten(), mixed);
}

#[test]
fn arithmetic_on_int_pairs_yields_int() {
    for op in [Operator::Add, Operator::Sub, Operator::Mul, Operator::Div, Operator::Pow,
        Operator::Mod] {
        assert_eq!(int_ty().get_binary_op_outcome(op, &int_ty()), Some(int_ty()));
    }
}

#[test]
fn arithmetic_with_a_float_side_yields_float() {
    for op in [Operator::Add, Operator::Sub, Operator::Mul, Operator::Div, Operator::Pow,
        Operator::Mod] {
        assert_eq!(int_ty().get_binary_op_outcome(op, &float()), Some(float()));
        assert_eq!(float().get_binary_op_outcome(op, &int_ty()), Some(float()));
        assert_eq!(float().get_binary_op_outcome(op, &float()), Some(float()));
    }
}

#[test]
fn comparisons_on_numbers_yield_bool() {
    for op in [Operator::Lt, Operator::Le, Operator::Gt, Operator::Ge, Operator::Eq,
        Operator::Ne] {
        assert_eq!(int_ty().get_binary_op_outcome(op, &float()), Some(boolean()));
        assert_eq!(float().get_binary_op_outcome(op, &int_ty()), Some(boolean()));
    }
}

#[test]
fn string_concat_and_repeat_yield_string() {
    assert_eq!(string().get_binary_op_outcome(Operator::Add, &string()), Some(string()));
    assert_eq!(string().get_binary_op_outcome(Operator::Mul, &string()), Some(string()));
    assert_eq!(string().get_binary_op_outcome(Operator::Sub, &string()), None);
    assert_eq!(string().get_binary_op_outcome(Operator::Add, &int_ty()), None);
}

#[test]
fn any_and_unknown_short_circuit_in_both_orders() {
    for op in [Operator::Add, Operator::Lt, Operator::BitXor, Operator::Mod] {
        assert_eq!(Type::Any.get_binary_op_outcome(op, &Type::Unknown), Some(Type::Any));
        assert_eq!(Type::Unknown.get_binary_op_outcome(op, &Type::Any), Some(Type::Any));
        assert_eq!(Type::Any.get_binary_op_outcome(op, &int_ty()), Some(Type::Any));
        assert_eq!(int_ty().get_binary_op_outcome(op, &Type::Any), Some(Type::Any));
        assert_eq!(Type::Unknown.get_binary_op_outcome(op, &int_ty()), Some(Type::Unknown));
        assert_eq!(int_ty().get_binary_op_outcome(op, &Type::Unknown), Some(Type::Unknown));
    }
}

#[test]
fn array_concat_unions_elements_and_sums_fixed_lengths() {
    let a = Type::Array(Box::new(int_ty()), Some(2));
    let b = Type::Array(Box::new(boolean()), Some(3));
    let expected = Type::Array(
        Box::new(Type::Union(Box::new(int_ty()), Box::new(boolean()))),
        Some(5),
    );
    assert_eq!(a.get_binary_op_outcome(Operator::Add, &b), Some(expected));
}

#[test]
fn array_concat_with_unbounded_side_is_unbounded() {
    let a = Type::Array(Box::new(int_ty()), Some(2));
    let b = Type::Array(Box::new(int_ty()), None);
    let expected = Type::Array(
        Box::new(Type::Union(Box::new(int_ty()), Box::new(int_ty()))),
        None,
    );
    assert_eq!(a.get_binary_op_outcome(Operator::Add, &b), Some(expected));
}

#[test]
fn tuple_concat_appends_element_lists() {
    let a = Type::Tuple(vec![int_ty(), boolean()]);
    let b = Type::Tuple(vec![string()]);
    let expected = Type::Tuple(vec![int_ty(), boolean(), string()]);
    assert_eq!(a.get_binary_op_outcome(Operator::Add, &b), Some(expected));
}

#[test]
fn union_operand_needs_both_sides_supported() {
    let num = Type::Union(Box::new(int_ty()), Box::new(float()));
    // Arithmetic works on both facets; the second outcome is kept.
    assert_eq!(num.get_binary_op_outcome(Operator::Add, &int_ty()), Some(float()));
    // A union with a string facet does not support subtraction.
    let mixed = Type::Union(Box::new(int_ty()), Box::new(string()));
    assert_eq!(mixed.get_binary_op_outcome(Operator::Sub, &int_ty()), None);
}

#[test]
fn intersection_operand_needs_one_side_supported() {
    let mixed = Type::And(Box::new(string()), Box::new(int_ty()));
    assert_eq!(mixed.get_binary_op_outcome(Operator::Sub, &int_ty()), Some(int_ty()));
}

#[test]
fn logical_not_always_yields_bool() {
    assert_eq!(int_ty().get_unary_op_outcome(Operator::Not), Some(boolean()));
    assert_eq!(string().get_unary_op_outcome(Operator::Not), Some(boolean()));
    assert_eq!(Type::Null.get_unary_op_outcome(Operator::Not), Some(boolean()));
    assert_eq!(Type::Any.get_unary_op_outcome(Operator::Not), Some(boolean()));
}

#[test]
fn unary_numeric_operators_preserve_their_operand() {
    assert_eq!(int_ty().get_unary_op_outcome(Operator::Sub), Some(int_ty()));
    assert_eq!(float().get_unary_op_outcome(Operator::Add), Some(float()));
    assert_eq!(int_ty().get_unary_op_outcome(Operator::BitNot), Some(int_ty()));
    assert_eq!(float().get_unary_op_outcome(Operator::BitNot), None);
    assert_eq!(boolean().get_unary_op_outcome(Operator::Sub), None);
}

#[test]
fn unary_on_absorbing_types_returns_them() {
    assert_eq!(Type::Any.get_unary_op_outcome(Operator::Sub), Some(Type::Any));
    assert_eq!(Type::Unknown.get_unary_op_outcome(Operator::BitNot), Some(Type::Unknown));
}

#[test]
fn deferred_operands_stay_deferred() {
    let d = Type::Deferred(DeferredType::TypeOf(7));
    let out = d.get_unary_op_outcome(Operator::Sub).unwrap();
    assert!(matches!(out, Type::Deferred(DeferredType::ApplyUnary(Operator::Sub, _))));
    let d2 = Type::Deferred(DeferredType::TypeOf(9));
    let out2 = d.get_binary_op_outcome(Operator::Add, &d2).unwrap();
    assert!(matches!(out2, Type::Deferred(DeferredType::ApplyBinary(Operator::Add, _, _))));
}

#[test]
fn display_renders_each_shape() {
    assert_eq!(int_ty().to_display_string(), "int");
    assert_eq!(float().to_display_string(), "float");
    assert_eq!(string().to_display_string(), "string");
    assert_eq!(boolean().to_display_string(), "bool");
    assert_eq!(Type::Null.to_display_string(), "null");
    assert_eq!(Type::Any.to_display_string(), "any");
    assert_eq!(Type::Unknown.to_display_string(), "<unknown>");
    let nullable = Type::Union(Box::new(Type::Null), Box::new(int_ty()));
    assert_eq!(nullable.to_display_string(), "?int");
    let nullable_flipped = Type::Union(Box::new(int_ty()), Box::new(Type::Null));
    assert_eq!(nullable_flipped.to_display_string(), "?int");
    let u = Type::Union(Box::new(int_ty()), Box::new(boolean()));
    assert_eq!(u.to_display_string(), "int | bool");
    let a = Type::And(Box::new(int_ty()), Box::new(boolean()));
    assert_eq!(a.to_display_string(), "int & bool");
    assert_eq!(Type::Array(Box::new(int_ty()), Some(42)).to_display_string(), "int[42]");
    assert_eq!(Type::Array(Box::new(int_ty()), None).to_display_string(), "int[]");
    assert_eq!(Type::Tuple(vec![int_ty(), boolean()]).to_display_string(), "[int, bool]");
    assert_eq!(Type::Tuple(vec![]).to_display_string(), "[]");
    let f = Type::Func(vec![int_ty(), string()], Box::new(boolean()));
    assert_eq!(f.to_display_string(), "(int, string) -> bool");
}

#[test]
fn structural_eq_is_deep() {
    let a = Type::Tuple(vec![int_ty(), Type::Union(Box::new(int_ty()), Box::new(boolean()))]);
    let b = Type::Tuple(vec![int_ty(), Type::Union(Box::new(int_ty()), Box::new(boolean()))]);
    let c = Type::Tuple(vec![int_ty(), Type::Union(Box::new(int_ty()), Box::new(string()))]);
    assert!(a.structural_eq(&b));
    assert!(!a.structural_eq(&c));
    assert!(!a.structural_eq(&int_ty()));
}
