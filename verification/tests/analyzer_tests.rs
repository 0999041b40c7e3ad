//! Lambda and method analysis on hand-built syntax trees. Each tree is what
//! Python's `ast.parse` gives for the source quoted beside it.

use solverforge_bindings::classes::{ClassAttr, ClassInfo, ClassRegistry, MethodSource, NamedAttr, NamedHint, TypeHint};
use solverforge_bindings::classes::get_method_from_class;
use solverforge_bindings::convert::{analyze_method_body, build_method_call_expr, convert_ast_to_expression};
use solverforge_bindings::error::AnalysisError;
use solverforge_bindings::expr::{substitute_param, BinaryOp, Expression, FloatConst, HostArgs, UnaryOp, WasmFieldType};
use solverforge_bindings::lambda::{analyze_parsed_lambda, LambdaCode, LambdaInfo, LambdaNamer};
use solverforge_bindings::pyast::{BinOpKind, BoolOpKind, CmpOp, Constant, Keyword, PyExpr, PyStmt, UnaryOpKind};
use solverforge_bindings::types::ExpectedType;

const FUEL: u64 = 64;

fn name(s: &str) -> PyExpr {
    PyExpr::Name { id: s.to_string() }
}

fn attr(v: PyExpr, a: &str) -> PyExpr {
    PyExpr::Attribute { value: Box::new(v), attr: a.to_string() }
}

fn lit_int(v: i64) -> PyExpr {
    PyExpr::Constant { value: Constant::Int { value: v } }
}

fn none() -> PyExpr {
    PyExpr::Constant { value: Constant::NoneValue }
}

fn text(s: &str) -> PyExpr {
    PyExpr::Constant { value: Constant::Str { value: s.to_string() } }
}

fn compare(l: PyExpr, op: CmpOp, r: PyExpr) -> PyExpr {
    PyExpr::Compare { left: Box::new(l), ops: vec![op], comparators: vec![r] }
}

fn binop(l: PyExpr, op: BinOpKind, r: PyExpr) -> PyExpr {
    PyExpr::BinOp { op, left: Box::new(l), right: Box::new(r) }
}

fn call(func: PyExpr, args: Vec<PyExpr>) -> PyExpr {
    PyExpr::Call { func: Box::new(func), args, keywords: vec![] }
}

fn lambda(args: &[&str], body: PyExpr) -> PyExpr {
    PyExpr::Lambda { args: args.iter().map(|a| a.to_string()).collect(), body: Box::new(body) }
}

/// The module `_ = <lambda>`, as the cut-out lambda source parses.
fn module(l: PyExpr) -> Vec<PyStmt> {
    vec![PyStmt::Assign { targets: vec![name("_")], value: l }]
}

fn ret(e: PyExpr) -> PyStmt {
    PyStmt::Return { value: Some(e) }
}

/// The parsed source of a method `def m(args): body`.
fn method(args: &[&str], body: Vec<PyStmt>) -> MethodSource {
    MethodSource::Parsed {
        body: vec![PyStmt::FunctionDef { args: args.iter().map(|a| a.to_string()).collect(), body }],
    }
}

fn class(name: &str, attrs: Vec<(&str, ClassAttr)>) -> ClassInfo {
    ClassInfo {
        name: name.to_string(),
        type_hints: Some(vec![]),
        annotations: Some(vec![]),
        attributes: attrs.into_iter().map(|(n, a)| NamedAttr { name: n.to_string(), attr: a }).collect(),
    }
}

fn function(src: MethodSource) -> ClassAttr {
    ClassAttr::Function { source: src }
}

fn registry(classes: Vec<ClassInfo>) -> ClassRegistry {
    let mut reg = ClassRegistry::new();
    for c in classes {
        reg.register_class(c);
    }
    reg
}

fn analyze(reg: &ClassRegistry, l: PyExpr, hint: &str) -> Result<Expression, AnalysisError> {
    analyze_parsed_lambda(reg, &module(l), &hint.to_string(), FUEL)
}

fn info(reg: &ClassRegistry, l: PyExpr, prefix: &str, hint: &str, params: usize) -> Result<LambdaInfo, AnalysisError> {
    let mut namer = LambdaNamer::new();
    let code = LambdaCode::Source { module: module(l) };
    LambdaInfo::new(&mut namer, reg, &code, prefix, &hint.to_string(), params, FUEL)
}

fn is_field(e: &Expression, field: &str) -> bool {
    matches!(e, Expression::FieldAccess { field_name, .. } if field_name == field)
}

fn is_param(e: &Expression, i: u32) -> bool {
    matches!(e, Expression::Param { index } if *index == i)
}

fn binary(e: &Expression) -> Option<(BinaryOp, &Expression, &Expression)> {
    match e {
        Expression::Binary { op, left, right } => Some((*op, left.as_ref(), right.as_ref())),
        _ => None,
    }
}

fn unary(e: &Expression) -> Option<(UnaryOp, &Expression)> {
    match e {
        Expression::Unary { op, operand } => Some((*op, operand.as_ref())),
        _ => None,
    }
}

fn to_f64(c: &FloatConst) -> f64 {
    match c {
        FloatConst::Bits(b) => f64::from_bits(*b),
        FloatConst::FromInt(i) => *i as f64,
    }
}

fn field(object: Expression, class_name: &str, field_name: &str) -> Expression {
    Expression::FieldAccess {
        object: Box::new(object),
        class_name: class_name.to_string(),
        field_name: field_name.to_string(),
        field_type: WasmFieldType::I32,
    }
}

// ---------------------------------------------------------------------------
// Lambdas (`lambda x: ...`)
// ---------------------------------------------------------------------------

/// `lambda x: x.timeslot` for class `Lesson`.
fn check_simple_field_access() {
    let reg = ClassRegistry::new();
    let expr = analyze(&reg, lambda(&["x"], attr(name("x"), "timeslot")), "Lesson").unwrap();
    match &expr {
        Expression::FieldAccess { field_name, class_name, .. } => {
            assert_eq!(field_name, "timeslot");
            assert_eq!(class_name, "Lesson");
        },
        _ => panic!("Expected FieldAccess, got {:?}", expr),
    }
}

#[test]
fn lambda_analyzer_test_analyze_simple_field_access() {
    check_simple_field_access();
}

#[test]
fn tests_test_analyze_simple_field_access() {
    check_simple_field_access();
}

/// `lambda x: x.room is not None`.
fn check_is_not_none(hint: &str) {
    let reg = ClassRegistry::new();
    let expr = analyze(&reg, lambda(&["x"], compare(attr(name("x"), "room"), CmpOp::IsNot, none())), hint).unwrap();
    match unary(&expr) {
        Some((UnaryOp::IsNotNull, operand)) => assert!(is_field(operand, "room")),
        _ => panic!("Expected IsNotNull, got {:?}", expr),
    }
}

#[test]
fn lambda_analyzer_test_analyze_is_not_none() {
    check_is_not_none("Lesson");
}

#[test]
fn tests_test_analyze_is_not_none() {
    check_is_not_none("Lesson");
}

/// `lambda x: x.room is None`.
fn check_is_none(hint: &str) {
    let reg = ClassRegistry::new();
    let expr = analyze(&reg, lambda(&["x"], compare(attr(name("x"), "room"), CmpOp::Is, none())), hint).unwrap();
    match unary(&expr) {
        Some((UnaryOp::IsNull, operand)) => assert!(is_field(operand, "room")),
        _ => panic!("Expected IsNull, got {:?}", expr),
    }
}

#[test]
fn lambda_analyzer_test_analyze_is_none() {
    check_is_none("Entity");
}

#[test]
fn tests_test_analyze_is_none() {
    check_is_none("Lesson");
}

/// `lambda x: x.count > 5`.
fn check_comparison_gt() {
    let reg = ClassRegistry::new();
    let expr = analyze(&reg, lambda(&["x"], compare(attr(name("x"), "count"), CmpOp::Gt, lit_int(5))), "Entity").unwrap();
    match binary(&expr) {
        Some((BinaryOp::Gt, l, r)) => {
            assert!(is_field(l, "count"));
            assert!(matches!(r, Expression::IntLiteral { value: 5 }));
        },
        _ => panic!("Expected Gt, got {:?}", expr),
    }
}

#[test]
fn lambda_analyzer_test_analyze_comparison_gt() {
    check_comparison_gt();
}

#[test]
fn tests_test_analyze_comparison_gt() {
    check_comparison_gt();
}

#[test]
fn lambda_analyzer_test_analyze_comparison_eq() {
    // lambda x: x.status == 1
    let reg = ClassRegistry::new();
    let expr = analyze(&reg, lambda(&["x"], compare(attr(name("x"), "status"), CmpOp::Eq, lit_int(1))), "Entity").unwrap();
    assert!(matches!(binary(&expr), Some((BinaryOp::Eq, _, _))));
}

#[test]
fn tests_test_analyze_comparison_eq() {
    // lambda x: x.value == 10
    let reg = ClassRegistry::new();
    let expr = analyze(&reg, lambda(&["x"], compare(attr(name("x"), "value"), CmpOp::Eq, lit_int(10))), "Entity").unwrap();
    match binary(&expr) {
        Some((BinaryOp::Eq, l, r)) => {
            assert!(is_field(l, "value"));
            assert!(matches!(r, Expression::IntLiteral { value: 10 }));
        },
        _ => panic!("Expected Eq, got {:?}", expr),
    }
}

#[test]
fn lambda_analyzer_test_analyze_and_expression() {
    // lambda x: x.room is not None and x.timeslot is not None
    let reg = ClassRegistry::new();
    let body = PyExpr::BoolOp {
        op: BoolOpKind::And,
        values: vec![
            compare(attr(name("x"), "room"), CmpOp::IsNot, none()),
            compare(attr(name("x"), "timeslot"), CmpOp::IsNot, none()),
        ],
    };
    let expr = analyze(&reg, lambda(&["x"], body), "Entity").unwrap();
    assert!(matches!(binary(&expr), Some((BinaryOp::And, _, _))));
}

#[test]
fn tests_test_analyze_and_expression() {
    // lambda x: x.a and x.b
    let reg = ClassRegistry::new();
    let body = PyExpr::BoolOp { op: BoolOpKind::And, values: vec![attr(name("x"), "a"), attr(name("x"), "b")] };
    let expr = analyze(&reg, lambda(&["x"], body), "Entity").unwrap();
    match binary(&expr) {
        Some((BinaryOp::And, l, r)) => {
            assert!(is_field(l, "a"));
            assert!(is_field(r, "b"));
        },
        _ => panic!("Expected And, got {:?}", expr),
    }
}

/// `lambda x: x.a > 0 or x.b > 0`.
fn check_or() {
    let reg = ClassRegistry::new();
    let body = PyExpr::BoolOp {
        op: BoolOpKind::Or,
        values: vec![
            compare(attr(name("x"), "a"), CmpOp::Gt, lit_int(0)),
            compare(attr(name("x"), "b"), CmpOp::Gt, lit_int(0)),
        ],
    };
    let expr = analyze(&reg, lambda(&["x"], body), "Entity").unwrap();
    assert!(matches!(binary(&expr), Some((BinaryOp::Or, _, _))));
}

#[test]
fn lambda_analyzer_test_analyze_or_expression() {
    check_or();
}

#[test]
fn tests_test_analyze_or_expression() {
    check_or();
}

/// `lambda x: not x.active`.
fn check_not() {
    let reg = ClassRegistry::new();
    let body = PyExpr::UnaryOp { op: UnaryOpKind::Not, operand: Box::new(attr(name("x"), "active")) };
    let expr = analyze(&reg, lambda(&["x"], body), "Entity").unwrap();
    match unary(&expr) {
        Some((UnaryOp::Not, operand)) => assert!(is_field(operand, "active")),
        _ => panic!("Expected Not, got {:?}", expr),
    }
}

#[test]
fn lambda_analyzer_test_analyze_not_expression() {
    check_not();
}

#[test]
fn tests_test_analyze_not_expression() {
    check_not();
}

/// `lambda x: x.value <op> k`.
fn check_arith(op: BinOpKind, k: i64, expected: BinaryOp) {
    let reg = ClassRegistry::new();
    let expr = analyze(&reg, lambda(&["x"], binop(attr(name("x"), "value"), op, lit_int(k))), "Entity").unwrap();
    match binary(&expr) {
        Some((o, l, _)) => {
            assert_eq!(o, expected);
            assert!(is_field(l, "value"));
        },
        _ => panic!("Expected {:?}, got {:?}", expected, expr),
    }
}

#[test]
fn lambda_analyzer_test_analyze_arithmetic_add() {
    check_arith(BinOpKind::Add, 10, BinaryOp::Add);
}

#[test]
fn tests_test_analyze_arithmetic_add() {
    check_arith(BinOpKind::Add, 10, BinaryOp::Add);
}

#[test]
fn lambda_analyzer_test_analyze_arithmetic_sub() {
    check_arith(BinOpKind::Sub, 5, BinaryOp::Sub);
}

#[test]
fn tests_test_analyze_arithmetic_sub() {
    check_arith(BinOpKind::Sub, 5, BinaryOp::Sub);
}

#[test]
fn lambda_analyzer_test_analyze_arithmetic_mul() {
    check_arith(BinOpKind::Mult, 2, BinaryOp::Mul);
}

#[test]
fn tests_test_analyze_arithmetic_mul() {
    check_arith(BinOpKind::Mult, 2, BinaryOp::Mul);
}

#[test]
fn tests_test_analyze_arithmetic_div() {
    // lambda x: x.value / 2 -- `/` is true division: FloatDiv by the float 2.0
    let reg = ClassRegistry::new();
    let expr = analyze(&reg, lambda(&["x"], binop(attr(name("x"), "value"), BinOpKind::Div, lit_int(2))), "Entity").unwrap();
    match binary(&expr) {
        Some((BinaryOp::FloatDiv, l, r)) => {
            assert!(is_field(l, "value"));
            match r {
                Expression::FloatLiteral { value } => assert_eq!(to_f64(value), 2.0),
                _ => panic!("Expected FloatLiteral, got {:?}", r),
            }
        },
        _ => panic!("Expected FloatDiv, got {:?}", expr),
    }
}

/// `lambda a, b: a.room == b.room`.
fn check_bi_lambda() {
    let reg = ClassRegistry::new();
    let body = compare(attr(name("a"), "room"), CmpOp::Eq, attr(name("b"), "room"));
    let expr = analyze(&reg, lambda(&["a", "b"], body), "Lesson").unwrap();
    match binary(&expr) {
        Some((BinaryOp::Eq, l, r)) => match (l, r) {
            (
                Expression::FieldAccess { object: lo, field_name: lf, .. },
                Expression::FieldAccess { object: ro, field_name: rf, .. },
            ) => {
                assert_eq!(lf, "room");
                assert_eq!(rf, "room");
                assert!(is_param(lo, 0));
                assert!(is_param(ro, 1));
            },
            _ => panic!("Expected field accesses"),
        },
        _ => panic!("Expected Eq, got {:?}", expr),
    }
}

#[test]
fn lambda_analyzer_test_analyze_bi_lambda() {
    check_bi_lambda();
}

#[test]
fn tests_test_analyze_bi_lambda() {
    check_bi_lambda();
}

#[test]
fn lambda_analyzer_test_analyze_bi_lambda_direct_param_add() {
    // lambda a, b: a + b
    let reg = ClassRegistry::new();
    let expr = analyze(&reg, lambda(&["a", "b"], binop(name("a"), BinOpKind::Add, name("b"))), "Entity").unwrap();
    match binary(&expr) {
        Some((BinaryOp::Add, l, r)) => {
            assert!(is_param(l, 0));
            assert!(is_param(r, 1));
        },
        _ => panic!("Expected Add, got {:?}", expr),
    }
}

#[test]
fn tests_test_analyze_bi_lambda_direct_param_add() {
    // lambda a, b: a.value + b.value
    let reg = ClassRegistry::new();
    let body = binop(attr(name("a"), "value"), BinOpKind::Add, attr(name("b"), "value"));
    let expr = analyze(&reg, lambda(&["a", "b"], body), "Entity").unwrap();
    match binary(&expr) {
        Some((BinaryOp::Add, l, r)) => match (l, r) {
            (Expression::FieldAccess { object: lo, .. }, Expression::FieldAccess { object: ro, .. }) => {
                assert!(is_field(l, "value"));
                assert!(is_field(r, "value"));
                assert!(is_param(lo, 0));
                assert!(is_param(ro, 1));
            },
            _ => panic!("Expected field accesses"),
        },
        _ => panic!("Expected Add, got {:?}", expr),
    }
}

#[test]
fn lambda_analyzer_test_analyze_tri_lambda_arithmetic() {
    // lambda a, b, c: a + b + c
    let reg = ClassRegistry::new();
    let body = binop(binop(name("a"), BinOpKind::Add, name("b")), BinOpKind::Add, name("c"));
    let expr = analyze(&reg, lambda(&["a", "b", "c"], body), "Entity").unwrap();
    match binary(&expr) {
        Some((BinaryOp::Add, l, r)) => {
            assert!(is_param(r, 2));
            match binary(l) {
                Some((BinaryOp::Add, l2, r2)) => {
                    assert!(is_param(l2, 0));
                    assert!(is_param(r2, 1));
                },
                _ => panic!("Expected nested Add"),
            }
        },
        _ => panic!("Expected Add, got {:?}", expr),
    }
}

#[test]
fn tests_test_analyze_tri_lambda_arithmetic() {
    // lambda a, b, c: a.value + b.value + c.value
    let reg = ClassRegistry::new();
    let body = binop(
        binop(attr(name("a"), "value"), BinOpKind::Add, attr(name("b"), "value")),
        BinOpKind::Add,
        attr(name("c"), "value"),
    );
    let expr = analyze(&reg, lambda(&["a", "b", "c"], body), "Entity").unwrap();
    match binary(&expr) {
        Some((BinaryOp::Add, l, r)) => {
            match r {
                Expression::FieldAccess { object, field_name, .. } => {
                    assert_eq!(field_name, "value");
                    assert!(is_param(object, 2));
                },
                _ => panic!("Expected FieldAccess on right"),
            }
            match binary(l) {
                Some((BinaryOp::Add, ll, lr)) => {
                    assert!(matches!(ll, Expression::FieldAccess { object, .. } if is_param(object, 0)));
                    assert!(matches!(lr, Expression::FieldAccess { object, .. } if is_param(object, 1)));
                },
                _ => panic!("Expected nested Add on left"),
            }
        },
        _ => panic!("Expected Add, got {:?}", expr),
    }
}

/// `lambda x: x.employee.name`.
fn check_nested_field_access() {
    let reg = ClassRegistry::new();
    let expr = analyze(&reg, lambda(&["x"], attr(attr(name("x"), "employee"), "name")), "Entity").unwrap();
    match &expr {
        Expression::FieldAccess { field_name, object, .. } => {
            assert_eq!(field_name, "name");
            assert!(is_field(object, "employee"));
        },
        _ => panic!("Expected FieldAccess, got {:?}", expr),
    }
}

#[test]
fn lambda_analyzer_test_analyze_nested_field_access() {
    check_nested_field_access();
}

#[test]
fn tests_test_analyze_nested_field_access() {
    check_nested_field_access();
}

#[test]
fn test_lambda_info_new_analyzes_immediately() {
    // f = lambda x: x.field
    let reg = ClassRegistry::new();
    let i = info(&reg, lambda(&["x"], attr(name("x"), "field")), "test", "Entity", 1).unwrap();
    assert!(matches!(i.expression, Expression::FieldAccess { .. }));
}

#[test]
fn test_lambda_info_to_wasm_function() {
    let reg = ClassRegistry::new();
    let i = info(&reg, lambda(&["x"], attr(name("x"), "field")), "equal_map", "Entity", 1).unwrap();
    let wasm_func = i.to_wasm_function();
    assert!(wasm_func.name.starts_with("equal_map_"));
}

#[test]
fn test_lambda_info_param_count() {
    // f = lambda x: x.field; its signature has one parameter.
    let reg = ClassRegistry::new();
    let i = info(&reg, lambda(&["x"], attr(name("x"), "field")), "test", "Entity", 1).unwrap();
    assert_eq!(i.param_count, 1);
}

#[test]
fn test_lambda_info_param_count_two() {
    // f = lambda a, b: a.field; its signature has two parameters.
    let reg = ClassRegistry::new();
    let i = info(&reg, lambda(&["a", "b"], attr(name("a"), "field")), "test", "Entity", 2).unwrap();
    assert_eq!(i.param_count, 2);
}

#[test]
fn lambda_info_exposes_its_expression() {
    let reg = ClassRegistry::new();
    let i = info(&reg, lambda(&["x"], attr(name("x"), "field")), "test", "Entity", 1).unwrap();
    assert!(is_field(i.get_expression(), "field"));
}

#[test]
fn lambda_info_records_arity_and_hint() {
    let reg = ClassRegistry::new();
    let i = info(&reg, lambda(&["a", "b"], attr(name("a"), "field")), "test", "Entity", 2).unwrap();
    assert_eq!(i.param_count, 2);
    assert_eq!(i.class_hint, Some("Entity".to_string()));
    assert_eq!(i.name, "test_0");
}

#[test]
fn lambda_module_without_lambda_is_refused() {
    // some_other_code()
    let reg = ClassRegistry::new();
    let m = vec![PyStmt::Expr { value: call(name("some_other_code"), vec![]) }];
    let r = analyze_parsed_lambda(&reg, &m, &"Entity".to_string(), FUEL);
    assert!(matches!(r, Err(AnalysisError::NoLambdaFound)));
}

#[test]
fn lambda_found_inside_call_arguments() {
    // .penalize(Score.ONE, lambda x: x.value) parses as a call whose second
    // argument is the lambda.
    let reg = ClassRegistry::new();
    let c = call(attr(name("stream"), "penalize"), vec![attr(name("Score"), "ONE"), lambda(&["x"], attr(name("x"), "value"))]);
    let m = vec![PyStmt::Expr { value: c }];
    let r = analyze_parsed_lambda(&reg, &m, &"Entity".to_string(), FUEL).unwrap();
    assert!(is_field(&r, "value"));
}

// ---------------------------------------------------------------------------
// Classes and methods
// ---------------------------------------------------------------------------

/// `class Vehicle: def get_capacity(self): return self.capacity`.
fn vehicle_with_get_capacity() -> ClassInfo {
    class("Vehicle", vec![("get_capacity", function(method(&["self"], vec![ret(attr(name("self"), "capacity"))])))])
}

fn check_register_and_get_method() {
    let reg = registry(vec![vehicle_with_get_capacity()]);
    let m = get_method_from_class(&reg, &"Vehicle".to_string(), &"get_capacity".to_string());
    assert!(m.is_some());
}

#[test]
fn lambda_analyzer_test_register_and_get_method_from_class() {
    check_register_and_get_method();
}

#[test]
fn registry_test_register_and_get_method_from_class() {
    check_register_and_get_method();
}

fn check_unregistered_class() {
    let reg = ClassRegistry::new();
    let m = get_method_from_class(&reg, &"UnknownClass".to_string(), &"some_method".to_string());
    assert!(m.is_none());
}

#[test]
fn lambda_analyzer_test_get_method_from_unregistered_class() {
    check_unregistered_class();
}

#[test]
fn registry_test_get_method_from_unregistered_class() {
    check_unregistered_class();
}

fn check_nonexistent_method() {
    // class Vehicle: capacity = 100
    let reg = registry(vec![class("Vehicle", vec![("capacity", ClassAttr::Literal { value: Constant::Int { value: 100 } })])]);
    let m = get_method_from_class(&reg, &"Vehicle".to_string(), &"nonexistent_method".to_string());
    assert!(m.is_none());
}

#[test]
fn lambda_analyzer_test_get_nonexistent_method() {
    check_nonexistent_method();
}

#[test]
fn registry_test_get_nonexistent_method() {
    check_nonexistent_method();
}

#[test]
fn test_analyze_method_body_simple_field_return() {
    let reg = registry(vec![vehicle_with_get_capacity()]);
    let src = get_method_from_class(&reg, &"Vehicle".to_string(), &"get_capacity".to_string()).unwrap();
    let expr = analyze_method_body(&reg, src, &"Vehicle".to_string(), FUEL).unwrap();
    match expr {
        Expression::FieldAccess { object, field_name, class_name, .. } => {
            assert_eq!(field_name, "capacity");
            assert_eq!(class_name, "Vehicle");
            assert!(matches!(*object, Expression::Param { index: 0 }));
        },
        _ => panic!("Expected FieldAccess, got {:?}", expr),
    }
}

#[test]
fn test_analyze_method_body_arithmetic() {
    // def get_excess(self): return self.demand - self.capacity
    let body = vec![ret(binop(attr(name("self"), "demand"), BinOpKind::Sub, attr(name("self"), "capacity")))];
    let reg = registry(vec![class("Vehicle", vec![("get_excess", function(method(&["self"], body)))])]);
    let src = get_method_from_class(&reg, &"Vehicle".to_string(), &"get_excess".to_string()).unwrap();
    let expr = analyze_method_body(&reg, src, &"Vehicle".to_string(), FUEL).unwrap();
    match binary(&expr) {
        Some((BinaryOp::Sub, l, r)) => {
            assert!(is_field(l, "demand"));
            assert!(is_field(r, "capacity"));
        },
        _ => panic!("Expected Sub, got {:?}", expr),
    }
}

#[test]
fn test_analyze_method_body_with_param() {
    // def add_value(self, x): return self.value + x
    let body = vec![ret(binop(attr(name("self"), "value"), BinOpKind::Add, name("x")))];
    let reg = registry(vec![class("Entity", vec![("add_value", function(method(&["self", "x"], body)))])]);
    let src = get_method_from_class(&reg, &"Entity".to_string(), &"add_value".to_string()).unwrap();
    let expr = analyze_method_body(&reg, src, &"Entity".to_string(), FUEL).unwrap();
    match binary(&expr) {
        Some((BinaryOp::Add, l, r)) => {
            assert!(is_field(l, "value"));
            assert!(is_param(r, 1));
        },
        _ => panic!("Expected Add, got {:?}", expr),
    }
}

#[test]
fn test_ast_method_call_error_when_unregistered() {
    // lambda v: v.get_name()
    let reg = ClassRegistry::new();
    let result = info(&reg, lambda(&["v"], call(attr(name("v"), "get_name"), vec![])), "test", "Entity", 1);
    let err = result.unwrap_err();
    assert!(matches!(err, AnalysisError::MethodNotRegistered { .. }));
    assert!(err.message().contains("Cannot inline method"), "Error should mention inlining failure: {}", err.message());
}

#[test]
fn test_ast_method_call_with_inlining() {
    // class Entity: def is_available(self): return self.status == 'active'
    // lambda e: e.is_available()
    let body = vec![ret(compare(attr(name("self"), "status"), CmpOp::Eq, text("active")))];
    let reg = registry(vec![class("Entity", vec![("is_available", function(method(&["self"], body)))])]);
    let i = info(&reg, lambda(&["e"], call(attr(name("e"), "is_available"), vec![])), "filter", "Entity", 1).unwrap();
    match binary(&i.expression) {
        Some((BinaryOp::Eq, l, r)) => {
            assert!(is_field(l, "status"));
            assert!(matches!(r, Expression::StringLiteral { value } if value == "active"));
        },
        _ => panic!("Expected Eq with StringLiteral, got {:?}", i.expression),
    }
}

#[test]
fn test_ast_method_call_with_arguments() {
    // class EntityWithArgs: def check_value(self, threshold): return self.value > threshold
    // lambda e, t: e.check_value(t)
    let body = vec![ret(compare(attr(name("self"), "value"), CmpOp::Gt, name("threshold")))];
    let reg = registry(vec![class("EntityWithArgs", vec![("check_value", function(method(&["self", "threshold"], body)))])]);
    let l = lambda(&["e", "t"], call(attr(name("e"), "check_value"), vec![name("t")]));
    let i = info(&reg, l, "filter", "EntityWithArgs", 2).unwrap();
    match binary(&i.expression) {
        Some((BinaryOp::Gt, l, r)) => {
            assert!(is_field(l, "value"));
            assert!(is_param(r, 1));
        },
        _ => panic!("Expected Gt, got {:?}", i.expression),
    }
}

#[test]
fn test_ast_method_call_inlined_in_comparison() {
    // class EntityPriority: def get_priority(self): return self.priority
    // lambda e: e.get_priority() > 5
    let body = vec![ret(attr(name("self"), "priority"))];
    let reg = registry(vec![class("EntityPriority", vec![("get_priority", function(method(&["self"], body)))])]);
    let l = lambda(&["e"], compare(call(attr(name("e"), "get_priority"), vec![]), CmpOp::Gt, lit_int(5)));
    let i = info(&reg, l, "filter", "EntityPriority", 1).unwrap();
    match binary(&i.expression) {
        Some((BinaryOp::Gt, l, r)) => {
            assert!(is_field(l, "priority"));
            assert!(matches!(r, Expression::IntLiteral { value: 5 }));
        },
        _ => panic!("Expected Gt, got {:?}", i.expression),
    }
}

#[test]
fn test_integration_method_inlining_with_registration() {
    // class Vehicle: def is_valid(self): return self.status == 'valid'
    let body = vec![ret(compare(attr(name("self"), "status"), CmpOp::Eq, text("valid")))];
    let reg = registry(vec![class("Vehicle", vec![("is_valid", function(method(&["self"], body)))])]);
    assert!(get_method_from_class(&reg, &"Vehicle".to_string(), &"is_valid".to_string()).is_some());
    let i = info(&reg, lambda(&["v"], call(attr(name("v"), "is_valid"), vec![])), "filter", "Vehicle", 1).unwrap();
    match binary(&i.expression) {
        Some((BinaryOp::Eq, l, _)) => assert!(is_field(l, "status")),
        _ => panic!("Expected inlined Eq expression"),
    }
}

#[test]
fn test_integration_method_with_multiple_fields() {
    // class Shift: def is_overbooked(self): return self.hours > self.max_hours
    let body = vec![ret(compare(attr(name("self"), "hours"), CmpOp::Gt, attr(name("self"), "max_hours")))];
    let reg = registry(vec![class("Shift", vec![("is_overbooked", function(method(&["self"], body)))])]);
    let i = info(&reg, lambda(&["s"], call(attr(name("s"), "is_overbooked"), vec![])), "filter", "Shift", 1).unwrap();
    match binary(&i.expression) {
        Some((BinaryOp::Gt, l, r)) => {
            assert!(is_field(l, "hours"));
            assert!(is_field(r, "max_hours"));
        },
        _ => panic!("Expected Gt expression"),
    }
}

#[test]
fn test_integration_method_chain_through_parameters() {
    // class Employee: def meets_minimum_salary(self, min_salary): return self.salary >= min_salary
    // lambda e, threshold: e.meets_minimum_salary(threshold)
    let body = vec![ret(compare(attr(name("self"), "salary"), CmpOp::GtE, name("min_salary")))];
    let reg = registry(vec![class("Employee", vec![("meets_minimum_salary", function(method(&["self", "min_salary"], body)))])]);
    let l = lambda(&["e", "threshold"], call(attr(name("e"), "meets_minimum_salary"), vec![name("threshold")]));
    let i = info(&reg, l, "filter", "Employee", 2).unwrap();
    match binary(&i.expression) {
        Some((BinaryOp::Ge, l, r)) => {
            assert!(is_field(l, "salary"));
            assert!(is_param(r, 1));
        },
        _ => panic!("Expected Ge expression, got {:?}", i.expression),
    }
}

#[test]
fn test_integration_registry_persistence() {
    // class TaskPersistence:
    //     def is_completed(self): return self.status == 'done'
    //     def is_urgent(self): return self.priority > 5
    let completed = vec![ret(compare(attr(name("self"), "status"), CmpOp::Eq, text("done")))];
    let urgent = vec![ret(compare(attr(name("self"), "priority"), CmpOp::Gt, lit_int(5)))];
    let reg = registry(vec![class(
        "TaskPersistence",
        vec![
            ("is_completed", function(method(&["self"], completed))),
            ("is_urgent", function(method(&["self"], urgent))),
        ],
    )]);
    let i1 = info(&reg, lambda(&["t"], call(attr(name("t"), "is_completed"), vec![])), "filter", "TaskPersistence", 1).unwrap();
    assert!(matches!(binary(&i1.expression), Some((BinaryOp::Eq, _, _))));
    let i2 = info(&reg, lambda(&["t"], call(attr(name("t"), "is_urgent"), vec![])), "filter", "TaskPersistence", 1).unwrap();
    assert!(matches!(binary(&i2.expression), Some((BinaryOp::Gt, _, _))));
}

#[test]
fn test_accumulation_with_early_return() {
    // class Vehicle:
    //     def calculate_total_demand(self):
    //         if len(self.visits) == 0:
    //             return 0
    //         total = 0
    //         for visit in self.visits:
    //             total += visit.demand
    //         return total
    let guard = compare(call(name("len"), vec![attr(name("self"), "visits")]), CmpOp::Eq, lit_int(0));
    let body = vec![
        PyStmt::If { test: guard, body: vec![ret(lit_int(0))], orelse: vec![] },
        PyStmt::Assign { targets: vec![name("total")], value: lit_int(0) },
        PyStmt::For {
            target: name("visit"),
            iter: attr(name("self"), "visits"),
            body: vec![PyStmt::AugAssign { target: name("total"), op: BinOpKind::Add, value: attr(name("visit"), "demand") }],
        },
        ret(name("total")),
    ];
    let reg = registry(vec![
        class("Visit", vec![]),
        class("Vehicle", vec![("calculate_total_demand", function(method(&["self"], body)))]),
    ]);
    let result = info(&reg, lambda(&["v"], call(attr(name("v"), "calculate_total_demand"), vec![])), "demand", "Vehicle", 1);
    match result {
        Ok(i) => assert!(
            matches!(i.expression, Expression::IfThenElse { .. } | Expression::Sum { .. }),
            "Expected IfThenElse or Sum, got {:?}",
            i.expression
        ),
        Err(e) => panic!("Failed to analyze accumulation pattern: {}", e.message()),
    }
}

#[test]
fn accumulation_over_typed_list_becomes_a_sum() {
    // class Vehicle:
    //     visits: list[Visit]
    //     def total_demand(self):
    //         total = 0
    //         for visit in self.visits:
    //             total += visit.demand
    //         return total
    let body = vec![
        PyStmt::Assign { targets: vec![name("total")], value: lit_int(0) },
        PyStmt::For {
            target: name("visit"),
            iter: attr(name("self"), "visits"),
            body: vec![PyStmt::AugAssign { target: name("total"), op: BinOpKind::Add, value: attr(name("visit"), "demand") }],
        },
        ret(name("total")),
    ];
    let list_of_visit = TypeHint {
        name: Some("list".to_string()),
        has_origin: true,
        args: Some(vec![TypeHint { name: Some("Visit".to_string()), has_origin: false, args: None }]),
    };
    let mut vehicle = class("Vehicle", vec![("total_demand", function(method(&["self"], body)))]);
    vehicle.type_hints = Some(vec![NamedHint { name: "visits".to_string(), hint: list_of_visit }]);
    let reg = registry(vec![class("Visit", vec![]), vehicle]);
    let i = info(&reg, lambda(&["v"], call(attr(name("v"), "total_demand"), vec![])), "demand", "Vehicle", 1).unwrap();
    match &i.expression {
        Expression::Sum { collection, item_var_name, item_param_index, item_class_name, accumulator_expr } => {
            assert!(is_field(collection, "visits"));
            assert_eq!(item_var_name, "visit");
            assert_eq!(item_class_name, "Visit");
            assert!(is_field(accumulator_expr, "demand"));
            let _ = item_param_index;
        },
        _ => panic!("Expected Sum, got {:?}", i.expression),
    }
}

#[test]
fn sequential_locals_are_substituted() {
    // def score(self):
    //     a = self.x
    //     b = a + 1
    //     return b * 2
    let body = vec![
        PyStmt::Assign { targets: vec![name("a")], value: attr(name("self"), "x") },
        PyStmt::Assign { targets: vec![name("b")], value: binop(name("a"), BinOpKind::Add, lit_int(1)) },
        ret(binop(name("b"), BinOpKind::Mult, lit_int(2))),
    ];
    let reg = registry(vec![class("Thing", vec![("score", function(method(&["self"], body)))])]);
    let src = get_method_from_class(&reg, &"Thing".to_string(), &"score".to_string()).unwrap();
    let expr = analyze_method_body(&reg, src, &"Thing".to_string(), FUEL).unwrap();
    match binary(&expr) {
        Some((BinaryOp::Mul, l, r)) => {
            assert!(matches!(r, Expression::IntLiteral { value: 2 }));
            match binary(l) {
                Some((BinaryOp::Add, a, one)) => {
                    assert!(is_field(a, "x"));
                    assert!(matches!(one, Expression::IntLiteral { value: 1 }));
                },
                _ => panic!("Expected Add, got {:?}", l),
            }
        },
        _ => panic!("Expected Mul, got {:?}", expr),
    }
}

#[test]
fn if_else_returns_become_a_conditional() {
    // def sign(self):
    //     if self.x > 0:
    //         return 1
    //     else:
    //         return 0
    let body = vec![PyStmt::If {
        test: compare(attr(name("self"), "x"), CmpOp::Gt, lit_int(0)),
        body: vec![ret(lit_int(1))],
        orelse: vec![ret(lit_int(0))],
    }];
    let reg = registry(vec![class("Thing", vec![("sign", function(method(&["self"], body)))])]);
    let src = get_method_from_class(&reg, &"Thing".to_string(), &"sign".to_string()).unwrap();
    let expr = analyze_method_body(&reg, src, &"Thing".to_string(), FUEL).unwrap();
    match &expr {
        Expression::IfThenElse { condition, then_branch, else_branch } => {
            assert!(matches!(binary(condition), Some((BinaryOp::Gt, _, _))));
            assert!(matches!(then_branch.as_ref(), Expression::IntLiteral { value: 1 }));
            assert!(matches!(else_branch.as_ref(), Expression::IntLiteral { value: 0 }));
        },
        _ => panic!("Expected IfThenElse, got {:?}", expr),
    }
}

#[test]
fn unavailable_method_source_is_refused() {
    let reg = ClassRegistry::new();
    let r = analyze_method_body(&reg, &MethodSource::Unavailable, &"Thing".to_string(), FUEL);
    assert!(matches!(r, Err(AnalysisError::SourceUnavailable)));
    let r = analyze_method_body(&reg, &MethodSource::Parsed { body: vec![] }, &"Thing".to_string(), FUEL);
    assert!(matches!(r, Err(AnalysisError::NoFunctionDefinition)));
}

#[test]
fn recursive_method_runs_out_of_depth() {
    // def f(self): return self.f()
    let body = vec![ret(call(attr(name("self"), "f"), vec![]))];
    let reg = registry(vec![class("Loop", vec![("f", function(method(&["self"], body)))])]);
    let r = info(&reg, lambda(&["x"], call(attr(name("x"), "f"), vec![])), "filter", "Loop", 1);
    assert!(r.is_err());
}

#[test]
fn builtin_calls_convert() {
    let reg = ClassRegistry::new();
    let args = vec!["x".to_string()];
    let hint = "Entity".to_string();
    // max(x.a, x.b)
    let e = call(name("max"), vec![attr(name("x"), "a"), attr(name("x"), "b")]);
    let r = convert_ast_to_expression(&reg, &e, &args, &hint, ExpectedType::Any, FUEL).unwrap().unwrap();
    assert!(matches!(r, Expression::IfThenElse { .. }));
    // len(x.items)
    let e = call(name("len"), vec![attr(name("x"), "items")]);
    let r = convert_ast_to_expression(&reg, &e, &args, &hint, ExpectedType::Any, FUEL).unwrap().unwrap();
    assert!(matches!(unary(&r), Some((UnaryOp::Length, _))));
    // print(x)
    let e = call(name("print"), vec![name("x")]);
    let r = convert_ast_to_expression(&reg, &e, &args, &hint, ExpectedType::Any, FUEL);
    assert!(matches!(r, Err(AnalysisError::UnsupportedFunctionCall { .. })));
    // math.sqrt(x.a)
    let e = call(attr(name("math"), "sqrt"), vec![attr(name("x"), "a")]);
    let r = convert_ast_to_expression(&reg, &e, &args, &hint, ExpectedType::Any, FUEL).unwrap().unwrap();
    assert!(matches!(unary(&r), Some((UnaryOp::Sqrt, _))));
    // math.tan(x.a)
    let e = call(attr(name("math"), "tan"), vec![attr(name("x"), "a")]);
    let r = convert_ast_to_expression(&reg, &e, &args, &hint, ExpectedType::Any, FUEL);
    assert!(matches!(r, Err(AnalysisError::UnsupportedMathFunction { .. })));
}

#[test]
fn timedelta_keywords_sum_to_seconds() {
    // timedelta(hours=1, minutes=30)
    let reg = ClassRegistry::new();
    let e = PyExpr::Call {
        func: Box::new(name("timedelta")),
        args: vec![],
        keywords: vec![
            Keyword { arg: Some("hours".to_string()), value: lit_int(1) },
            Keyword { arg: Some("minutes".to_string()), value: lit_int(30) },
        ],
    };
    let r = convert_ast_to_expression(&reg, &e, &vec![], &"Entity".to_string(), ExpectedType::Any, FUEL)
        .unwrap()
        .unwrap();
    assert!(matches!(r, Expression::Int64Literal { value: 5400 }));
}

fn timedelta_with(value: PyExpr) -> Result<Option<Expression>, AnalysisError> {
    let reg = ClassRegistry::new();
    let e = PyExpr::Call {
        func: Box::new(name("timedelta")),
        args: vec![],
        keywords: vec![
            Keyword { arg: Some("hours".to_string()), value: lit_int(1) },
            Keyword { arg: Some("days".to_string()), value },
        ],
    };
    convert_ast_to_expression(&reg, &e, &vec![], &"Entity".to_string(), ExpectedType::Any, FUEL)
}

fn negated(operand: PyExpr) -> PyExpr {
    PyExpr::UnaryOp { op: UnaryOpKind::USub, operand: Box::new(operand) }
}

#[test]
fn timedelta_negated_node_without_value_is_refused() {
    // timedelta(hours=1, days=-[1]): a list node has no `value` to read.
    assert!(matches!(timedelta_with(negated(PyExpr::Other)), Err(AnalysisError::UnsupportedExpression)));
}

#[test]
fn timedelta_negated_non_literal_with_value_is_skipped() {
    // timedelta(hours=1, days=-(n := 1)): the node's value is no integer.
    let r = timedelta_with(negated(PyExpr::OtherWithValue)).unwrap().unwrap();
    assert!(matches!(r, Expression::Int64Literal { value: 3600 }));
    // timedelta(hours=1, days=-1)
    let r = timedelta_with(negated(lit_int(1))).unwrap().unwrap();
    assert!(matches!(r, Expression::Int64Literal { value: -82800 }));
}

#[test]
fn depth_budget_zero_refuses() {
    let reg = ClassRegistry::new();
    let r = convert_ast_to_expression(&reg, &name("x"), &vec!["x".to_string()], &"E".to_string(), ExpectedType::Any, 0);
    assert!(matches!(r, Err(AnalysisError::DepthExceeded)));
}

// ---------------------------------------------------------------------------
// Substitution
// ---------------------------------------------------------------------------

#[test]
fn test_substitute_param_simple() {
    let expr = Expression::Param { index: 0 };
    let substitute = field(Expression::Param { index: 0 }, "Vehicle", "id");
    let result = substitute_param(expr, 0, &substitute);
    assert!(matches!(result, Expression::FieldAccess { .. }));
}

#[test]
fn test_substitute_param_no_match() {
    let expr = Expression::Param { index: 1 };
    let result = substitute_param(expr, 0, &Expression::IntLiteral { value: 42 });
    assert!(matches!(result, Expression::Param { index: 1 }));
}

#[test]
fn test_substitute_param_in_field_access() {
    let expr = field(Expression::Param { index: 0 }, "Vehicle", "capacity");
    let substitute = field(Expression::Param { index: 0 }, "Route", "vehicle");
    match substitute_param(expr, 0, &substitute) {
        Expression::FieldAccess { object, field_name, .. } => {
            assert_eq!(field_name, "capacity");
            assert!(matches!(*object, Expression::FieldAccess { .. }));
        },
        _ => panic!("Expected FieldAccess"),
    }
}

#[test]
fn test_substitute_param_in_binary_op() {
    let expr = Expression::Binary {
        op: BinaryOp::Add,
        left: Box::new(Expression::Param { index: 0 }),
        right: Box::new(Expression::IntLiteral { value: 10 }),
    };
    let substitute = field(Expression::Param { index: 0 }, "Entity", "value");
    match substitute_param(expr, 0, &substitute) {
        Expression::Binary { op: BinaryOp::Add, left, right } => {
            assert!(matches!(*left, Expression::FieldAccess { .. }));
            assert!(matches!(*right, Expression::IntLiteral { value: 10 }));
        },
        _ => panic!("Expected Add"),
    }
}

#[test]
fn test_substitute_param_preserves_literals() {
    let result = substitute_param(Expression::IntLiteral { value: 42 }, 0, &Expression::Param { index: 99 });
    assert!(matches!(result, Expression::IntLiteral { value: 42 }));
}

#[test]
fn test_substitute_param_method_inlining_scenario() {
    let method_body = Expression::Binary {
        op: BinaryOp::Sub,
        left: Box::new(field(Expression::Param { index: 0 }, "Vehicle", "demand")),
        right: Box::new(field(Expression::Param { index: 0 }, "Vehicle", "capacity")),
    };
    let inlined = substitute_param(method_body, 0, &Expression::Param { index: 0 });
    match inlined {
        Expression::Binary { op: BinaryOp::Sub, left, right } => match (*left, *right) {
            (
                Expression::FieldAccess { object: l_obj, field_name: l_field, .. },
                Expression::FieldAccess { object: r_obj, field_name: r_field, .. },
            ) => {
                assert_eq!(l_field, "demand");
                assert_eq!(r_field, "capacity");
                assert!(matches!(*l_obj, Expression::Param { index: 0 }));
                assert!(matches!(*r_obj, Expression::Param { index: 0 }));
            },
            _ => panic!("Expected FieldAccess on both sides"),
        },
        _ => panic!("Expected Sub expression"),
    }
}

#[test]
fn test_substitute_param_replaces_correctly() {
    let expr = Expression::Binary {
        op: BinaryOp::Add,
        left: Box::new(Expression::Param { index: 0 }),
        right: Box::new(Expression::IntLiteral { value: 5 }),
    };
    let substituted = substitute_param(expr, 0, &field(Expression::Param { index: 0 }, "Test", "x"));
    match substituted {
        Expression::Binary { op: BinaryOp::Add, left, .. } => match *left {
            Expression::FieldAccess { field_name, .. } => assert_eq!(field_name, "x"),
            _ => panic!("Expected FieldAccess after substitution"),
        },
        _ => panic!("Expected Add"),
    }
}

#[test]
fn test_substitute_param_preserves_other_indices() {
    let expr = Expression::Binary {
        op: BinaryOp::Add,
        left: Box::new(Expression::Param { index: 0 }),
        right: Box::new(Expression::Param { index: 1 }),
    };
    match substitute_param(expr, 0, &Expression::IntLiteral { value: 42 }) {
        Expression::Binary { op: BinaryOp::Add, left, right } => {
            assert!(matches!(*left, Expression::IntLiteral { value: 42 }));
            assert!(matches!(*right, Expression::Param { index: 1 }));
        },
        _ => panic!("Expected Add"),
    }
}

#[test]
fn substitution_inside_sum_shifts_the_item_parameter() {
    let sum = Expression::Sum {
        collection: Box::new(field(Expression::Param { index: 0 }, "V", "visits")),
        item_var_name: "visit".to_string(),
        item_param_index: 1,
        item_class_name: "Visit".to_string(),
        accumulator_expr: Box::new(Expression::Param { index: 1 }),
    };
    match substitute_param(sum, 0, &Expression::Param { index: 3 }) {
        Expression::Sum { item_param_index, collection, .. } => {
            assert_eq!(item_param_index, 0);
            assert!(matches!(*collection, Expression::FieldAccess { ref object, .. } if is_param(object, 3)));
        },
        _ => panic!("Expected Sum"),
    }
}

// ---------------------------------------------------------------------------
// Class constants
// ---------------------------------------------------------------------------

fn constant_class(attr_name: &str, value: Constant) -> ClassRegistry {
    registry(vec![class("TestClass", vec![(attr_name, ClassAttr::Literal { value })])])
}

fn constant(reg: &ClassRegistry, class_name: &str, attr_name: &str) -> Option<Expression> {
    solverforge_bindings::classes::get_class_constant(reg, &class_name.to_string(), &attr_name.to_string()).unwrap()
}

#[test]
fn test_get_class_constant_int() {
    let reg = constant_class("MY_CONSTANT", Constant::Int { value: 42 });
    assert!(matches!(constant(&reg, "TestClass", "MY_CONSTANT"), Some(Expression::IntLiteral { value: 42 })));
}

#[test]
fn test_get_class_constant_float() {
    let reg = constant_class("PI", Constant::Float { bits: 3.14159f64.to_bits() });
    match constant(&reg, "TestClass", "PI") {
        Some(Expression::FloatLiteral { value }) => assert!((to_f64(&value) - 3.14159).abs() < 0.0001),
        other => panic!("Expected FloatLiteral, got {:?}", other),
    }
}

#[test]
fn test_get_class_constant_str() {
    let reg = constant_class("NAME", Constant::Str { value: "hello".to_string() });
    assert!(matches!(constant(&reg, "TestClass", "NAME"), Some(Expression::StringLiteral { value }) if value == "hello"));
}

#[test]
fn test_get_class_constant_bool() {
    let reg = constant_class("ENABLED", Constant::Bool { value: true });
    assert!(matches!(constant(&reg, "TestClass", "ENABLED"), Some(Expression::BoolLiteral { value: true })));
}

#[test]
fn test_get_class_constant_skips_methods() {
    // def my_method(self): return 42
    let reg = registry(vec![class("TestClass", vec![("my_method", function(method(&["self"], vec![ret(lit_int(42))])))])]);
    assert!(constant(&reg, "TestClass", "my_method").is_none());
}

#[test]
fn test_get_class_constant_skips_dataclass_fields() {
    // @dataclass class TestClass: my_field: int; MY_CONSTANT: int = 42
    let int_hint = || TypeHint { name: Some("int".to_string()), has_origin: false, args: None };
    let mut c = class("TestClass", vec![("MY_CONSTANT", ClassAttr::Literal { value: Constant::Int { value: 42 } })]);
    c.annotations = Some(vec![
        NamedHint { name: "my_field".to_string(), hint: int_hint() },
        NamedHint { name: "MY_CONSTANT".to_string(), hint: int_hint() },
    ]);
    let reg = registry(vec![c]);
    assert!(constant(&reg, "TestClass", "my_field").is_none());
}

#[test]
fn test_get_class_constant_unknown_class() {
    let reg = ClassRegistry::new();
    assert!(constant(&reg, "NonExistentClass", "CONSTANT").is_none());
}

#[test]
fn test_get_class_constant_unknown_attr() {
    let reg = registry(vec![class("TestClass", vec![])]);
    assert!(constant(&reg, "TestClass", "NON_EXISTENT").is_none());
}

#[test]
fn huge_class_constant_is_refused() {
    let reg = constant_class("BIG", Constant::BigInt { as_float: Some(1e30f64.to_bits()) });
    let r = solverforge_bindings::classes::get_class_constant(&reg, &"TestClass".to_string(), &"BIG".to_string());
    assert!(matches!(r, Err(AnalysisError::IntegerConstantTooLarge { .. })));
}

#[test]
fn class_constant_is_read_through_the_first_parameter() {
    // lambda x: x.value > x.LIMIT, with class constant LIMIT = 7
    let reg = constant_class("LIMIT", Constant::Int { value: 7 });
    let body = compare(attr(name("x"), "value"), CmpOp::Gt, attr(name("x"), "LIMIT"));
    let expr = analyze(&reg, lambda(&["x"], body), "TestClass").unwrap();
    match binary(&expr) {
        Some((BinaryOp::Gt, l, r)) => {
            assert!(is_field(l, "value"));
            assert!(matches!(r, Expression::IntLiteral { value: 7 }));
        },
        _ => panic!("Expected Gt, got {:?}", expr),
    }
}

#[test]
fn float_literal_keeps_its_bits() {
    let f = FloatConst::Bits(2.5f64.to_bits());
    assert_eq!(to_f64(&f), 2.5);
    assert_eq!(to_f64(&FloatConst::FromInt(-3)), -3.0);
}

#[test]
fn method_call_inlines_body_on_receiver() {
    // class Vehicle:
    //     def get_capacity(self):
    //         return self.capacity
    let reg = registry(vec![class(
        "Vehicle",
        vec![("get_capacity", function(method(&["self"], vec![ret(attr(name("self"), "capacity"))])))],
    )]);
    let receiver = field(Expression::Param { index: 1 }, "Route", "vehicle");
    let hint = "Vehicle".to_string();
    let inlined = build_method_call_expr(&reg, receiver, &"get_capacity".to_string(), &vec![], &hint, FUEL).unwrap();
    match &inlined {
        Expression::FieldAccess { object, field_name, .. } => {
            assert_eq!(field_name, "capacity");
            assert!(matches!(object.as_ref(), Expression::FieldAccess { field_name, object, .. }
                if field_name == "vehicle" && is_param(object, 1)));
        }
        other => panic!("expected an inlined field read, got {:?}", other),
    }
    let missing = build_method_call_expr(&reg, Expression::Param { index: 0 }, &"speed".to_string(), &vec![], &hint, FUEL);
    assert!(matches!(missing, Err(AnalysisError::MethodNotInlinable { .. })));
}

#[test]
fn substitution_maps_host_call_arguments_in_order() {
    let args = HostArgs::Arg {
        first: Box::new(Expression::Param { index: 0 }),
        rest: Box::new(HostArgs::Arg {
            first: Box::new(Expression::Param { index: 1 }),
            rest: Box::new(HostArgs::Empty),
        }),
    };
    let call = Expression::HostCall { function_name: "distance".to_string(), args };
    let sub = Expression::IntLiteral { value: 7 };
    match substitute_param(call, 1, &sub) {
        Expression::HostCall { function_name, args: HostArgs::Arg { first, rest } } => {
            assert_eq!(function_name, "distance");
            assert!(is_param(&first, 0));
            match *rest {
                HostArgs::Arg { first, rest } => {
                    assert!(matches!(*first, Expression::IntLiteral { value: 7 }));
                    assert!(matches!(*rest, HostArgs::Empty));
                }
                HostArgs::Empty => panic!("second argument lost"),
            }
        }
        other => panic!("expected a host call, got {:?}", other),
    }
}

/// `-(-(...(-x.count)...))`, `depth` minus signs deep.
fn nested_negation(depth: usize) -> PyExpr {
    let mut e = attr(name("x"), "count");
    for _ in 0..depth {
        e = PyExpr::UnaryOp { op: UnaryOpKind::USub, operand: Box::new(e) };
    }
    e
}

#[test]
fn plain_expression_converts_within_three_steps_per_level() {
    let reg = registry(vec![]);
    let args = vec!["x".to_string()];
    let hint = "Item".to_string();
    // 100 negations around a field read: nested 102 levels deep.
    let e = nested_negation(100);
    let within = convert_ast_to_expression(&reg, &e, &args, &hint, ExpectedType::Any, 3 * 102 + 1);
    assert!(matches!(within, Ok(_)));
    let unbounded = convert_ast_to_expression(&reg, &e, &args, &hint, ExpectedType::Any, u64::MAX);
    assert!(matches!(unbounded, Ok(_)));
    let short = convert_ast_to_expression(&reg, &e, &args, &hint, ExpectedType::Any, 10);
    assert!(matches!(short, Err(AnalysisError::DepthExceeded)));
}

#[test]
fn boolean_pair_converts_in_order() {
    let reg = registry(vec![]);
    let args = vec!["x".to_string(), "y".to_string()];
    let hint = "Item".to_string();
    let e = PyExpr::BoolOp { op: BoolOpKind::Or, values: vec![name("y"), name("x")] };
    let res = convert_ast_to_expression(&reg, &e, &args, &hint, ExpectedType::Any, FUEL).unwrap().unwrap();
    let (op, l, r) = binary(&res).expect("a binary node");
    assert_eq!(op, BinaryOp::Or);
    assert!(is_param(l, 1));
    assert!(is_param(r, 0));
}
