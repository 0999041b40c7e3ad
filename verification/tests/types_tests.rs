//! Inferred types: promotion of operand types and the type of converted
//! expressions.

use solverforge_bindings::expr::{
    infer_expression_type, is_float_expr, is_i64_expr, BinaryOp, Expression, FloatConst, UnaryOp, WasmFieldType,
};
use solverforge_bindings::classes::{is_i64_field_access, is_i64_operand, ClassInfo, ClassRegistry, NamedHint, TypeHint};
use solverforge_bindings::types::{ExpectedType, InferredType};

fn field(name: &str, t: WasmFieldType) -> Expression {
    Expression::FieldAccess {
        object: Box::new(Expression::Param { index: 0 }),
        class_name: "Visit".to_string(),
        field_name: name.to_string(),
        field_type: t,
    }
}

#[test]
fn promote_prefers_wider_numbers() {
    assert_eq!(InferredType::I32.promote(InferredType::I32), InferredType::I32);
    assert_eq!(InferredType::I32.promote(InferredType::I64), InferredType::I64);
    assert_eq!(InferredType::I64.promote(InferredType::F64), InferredType::F64);
    assert_eq!(InferredType::F64.promote(InferredType::Bool), InferredType::F64);
    assert_eq!(InferredType::Bool.promote(InferredType::String), InferredType::Unknown);
}

#[test]
fn promote_ignores_null_operands() {
    assert_eq!(InferredType::Null.promote(InferredType::String), InferredType::String);
    assert_eq!(InferredType::I64.promote(InferredType::Null), InferredType::I64);
    assert_eq!(InferredType::Null.promote(InferredType::Null), InferredType::Null);
}

#[test]
fn promote_is_order_independent() {
    let all = [
        InferredType::I32,
        InferredType::I64,
        InferredType::F64,
        InferredType::Bool,
        InferredType::String,
        InferredType::Null,
        InferredType::Unknown,
    ];
    for a in all {
        for b in all {
            assert_eq!(a.promote(b), b.promote(a));
            for c in all {
                assert_eq!(a.promote(b).promote(c), a.promote(b.promote(c)));
            }
        }
    }
}

#[test]
fn default_expectation_is_any() {
    assert_eq!(ExpectedType::default_expected(), ExpectedType::Any);
}

#[test]
fn literal_and_operator_types() {
    assert_eq!(infer_expression_type(&Expression::IntLiteral { value: 3 }), InferredType::I32);
    assert_eq!(infer_expression_type(&Expression::Int64Literal { value: 3 }), InferredType::I64);
    assert_eq!(infer_expression_type(&Expression::FloatLiteral { value: FloatConst::Bits(0) }), InferredType::F64);
    assert_eq!(infer_expression_type(&Expression::StringLiteral { value: "a".to_string() }), InferredType::String);
    assert_eq!(infer_expression_type(&Expression::Null), InferredType::Null);
    let cmp = Expression::Binary {
        op: BinaryOp::Lt,
        left: Box::new(field("demand", WasmFieldType::I32)),
        right: Box::new(Expression::IntLiteral { value: 5 }),
    };
    assert_eq!(infer_expression_type(&cmp), InferredType::Bool);
    let root = Expression::Unary { op: UnaryOp::Sqrt, operand: Box::new(field("d", WasmFieldType::F64)) };
    assert_eq!(infer_expression_type(&root), InferredType::F64);
    assert_eq!(infer_expression_type(&Expression::Param { index: 0 }), InferredType::Unknown);
}

#[test]
fn conditional_type_promotes_branches() {
    let e = Expression::IfThenElse {
        condition: Box::new(Expression::BoolLiteral { value: true }),
        then_branch: Box::new(Expression::IntLiteral { value: 1 }),
        else_branch: Box::new(field("arrival", WasmFieldType::I64)),
    };
    assert_eq!(infer_expression_type(&e), InferredType::I64);
    let f = Expression::IfThenElse {
        condition: Box::new(Expression::BoolLiteral { value: true }),
        then_branch: Box::new(Expression::Null),
        else_branch: Box::new(Expression::StringLiteral { value: "x".to_string() }),
    };
    assert_eq!(infer_expression_type(&f), InferredType::String);
}

#[test]
fn float_and_wide_integer_expressions() {
    let sum = Expression::Binary {
        op: BinaryOp::FloatAdd,
        left: Box::new(field("distance", WasmFieldType::F64)),
        right: Box::new(Expression::FloatLiteral { value: FloatConst::FromInt(1) }),
    };
    assert!(is_float_expr(&sum));
    // A field read is judged by the operation around it, not by its type.
    assert!(!is_float_expr(&field("distance", WasmFieldType::F64)));
    let wide = Expression::IntLiteral { value: 5_000_000_000 };
    assert!(is_i64_expr(&wide));
    assert!(!is_i64_expr(&Expression::IntLiteral { value: 1 }));
    let cond = Expression::IfThenElse {
        condition: Box::new(Expression::BoolLiteral { value: true }),
        then_branch: Box::new(Expression::IntLiteral { value: 1 }),
        else_branch: Box::new(wide),
    };
    assert!(is_i64_expr(&cond));
}

#[test]
fn datetime_fields_are_wide_operands() {
    let mut reg = ClassRegistry::new();
    let hint = |n: &str| TypeHint { name: Some(n.to_string()), has_origin: false, args: None };
    reg.register_class(ClassInfo {
        name: "Visit".to_string(),
        type_hints: Some(vec![
            NamedHint { name: "arrival".to_string(), hint: hint("datetime") },
            NamedHint { name: "demand".to_string(), hint: hint("int") },
        ]),
        annotations: None,
        attributes: vec![],
    });
    assert!(is_i64_field_access(&reg, &field("arrival", WasmFieldType::I64)));
    assert!(!is_i64_field_access(&reg, &field("demand", WasmFieldType::I32)));
    assert!(is_i64_operand(&reg, &field("arrival", WasmFieldType::I64)));
    assert!(is_i64_operand(&reg, &Expression::IntLiteral { value: -5_000_000_000 }));
    assert!(!is_i64_operand(&reg, &field("demand", WasmFieldType::I32)));
}
