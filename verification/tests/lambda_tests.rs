//! Cutting lambdas out of source lines, naming them, and analyzing them from
//! bytecode.

use solverforge_bindings::bytecode::{analyze_lambda_bytecode, ArgVal, Instruction};
use solverforge_bindings::classes::{ClassAttr, ClassInfo, ClassRegistry, MethodSource, NamedAttr};
use solverforge_bindings::error::AnalysisError;
use solverforge_bindings::expr::{BinaryOp, Expression, UnaryOp};
use solverforge_bindings::lambda::{analyze_lambda, extract_lambda_from_source, LambdaCode, LambdaNamer};
use solverforge_bindings::pyast::{CmpOp, Constant, PyExpr, PyStmt};

const FUEL: u64 = 64;

fn check_unique_names() {
    let mut namer = LambdaNamer::new();
    let name1 = namer.generate_lambda_name("test");
    let name2 = namer.generate_lambda_name("test");
    assert_ne!(name1, name2);
    assert!(name1.starts_with("test_"));
    assert!(name2.starts_with("test_"));
}

#[test]
fn lambda_analyzer_test_generate_lambda_name_unique() {
    check_unique_names();
}

#[test]
fn tests_test_generate_lambda_name_unique() {
    check_unique_names();
}

#[test]
fn lambda_names_count_up() {
    let mut namer = LambdaNamer::new();
    assert_eq!(namer.generate_lambda_name("equal_map"), "equal_map_0");
    assert_eq!(namer.generate_lambda_name("filter"), "filter_1");
    assert_eq!(namer.generate_lambda_name("filter"), "filter_2");
}

#[test]
fn test_extract_lambda_from_filter_call() {
    let source = ".filter(lambda vehicle: vehicle.calculate_total_demand() > vehicle.capacity)";
    let result = extract_lambda_from_source(source);
    assert_eq!(result, "_ = lambda vehicle: vehicle.calculate_total_demand() > vehicle.capacity");
}

#[test]
fn test_extract_lambda_from_penalize_call() {
    let source = "        .penalize(HardSoftScore.ONE_HARD, lambda vehicle: vehicle.demand - 10)";
    let result = extract_lambda_from_source(source);
    assert_eq!(result, "_ = lambda vehicle: vehicle.demand - 10");
}

#[test]
fn test_extract_lambda_simple() {
    let result = extract_lambda_from_source("lambda x: x.field");
    assert_eq!(result, "_ = lambda x: x.field");
}

#[test]
fn test_extract_lambda_with_nested_parens() {
    let result = extract_lambda_from_source(".filter(lambda x: (x.a + x.b) > 0)");
    assert_eq!(result, "_ = lambda x: (x.a + x.b) > 0");
}

#[test]
fn test_extract_lambda_second_arg() {
    let result = extract_lambda_from_source(".penalize(Score.ONE, lambda x: x.value)");
    assert_eq!(result, "_ = lambda x: x.value");
}

#[test]
fn test_extract_lambda_no_lambda() {
    let result = extract_lambda_from_source("some_other_code()");
    assert_eq!(result, "some_other_code()");
}

#[test]
fn extract_lambda_ignores_brackets_in_strings() {
    let result = extract_lambda_from_source(".filter(lambda x: x.name == ')', other)");
    assert_eq!(result, "_ = lambda x: x.name == ')'");
}

#[test]
fn extract_lambda_keeps_parameter_commas() {
    let result = extract_lambda_from_source("join(A, lambda a, b: a.id == b.id, more)");
    assert_eq!(result, "_ = lambda a, b: a.id == b.id");
}

#[test]
fn extract_lambda_trims_trailing_whitespace() {
    let result = extract_lambda_from_source("f(lambda x: x.a   \t)");
    assert_eq!(result, "_ = lambda x: x.a");
}

// ---------------------------------------------------------------------------
// Bytecode
// ---------------------------------------------------------------------------

fn ins(op: &str, arg: Option<i64>, argval: ArgVal) -> Instruction {
    Instruction { opname: op.to_string(), arg, argval }
}

fn s(v: &str) -> ArgVal {
    ArgVal::Const { value: Constant::Str { value: v.to_string() } }
}

fn i(v: i64) -> ArgVal {
    ArgVal::Const { value: Constant::Int { value: v } }
}

fn none_arg() -> ArgVal {
    ArgVal::Const { value: Constant::NoneValue }
}

fn names(v: &[&str]) -> Vec<String> {
    v.iter().map(|x| x.to_string()).collect()
}

fn run(reg: &ClassRegistry, code: Vec<Instruction>, vars: &[&str], hint: &str) -> Result<Expression, AnalysisError> {
    analyze_lambda_bytecode(reg, &code, &names(vars), &hint.to_string(), FUEL)
}

#[test]
fn bytecode_field_access_is_not_none() {
    // lambda x: x.room is not None
    let code = vec![
        ins("RESUME", Some(0), ArgVal::Other),
        ins("LOAD_FAST", Some(0), s("x")),
        ins("LOAD_ATTR", Some(0), s("room")),
        ins("LOAD_CONST", Some(0), none_arg()),
        ins("IS_OP", Some(1), i(1)),
        ins("RETURN_VALUE", None, ArgVal::Other),
    ];
    let e = run(&ClassRegistry::new(), code, &["x"], "Lesson").unwrap();
    match e {
        Expression::Unary { op: UnaryOp::IsNotNull, operand } => match *operand {
            Expression::FieldAccess { field_name, class_name, object, .. } => {
                assert_eq!(field_name, "room");
                assert_eq!(class_name, "Lesson");
                assert!(matches!(*object, Expression::Param { index: 0 }));
            },
            other => panic!("Expected FieldAccess, got {:?}", other),
        },
        other => panic!("Expected IsNotNull, got {:?}", other),
    }
}

#[test]
fn bytecode_two_parameters_added() {
    // lambda a, b: a + b (LOAD_FAST_LOAD_FAST, BINARY_OP 0)
    let code = vec![
        ins("LOAD_FAST_LOAD_FAST", Some(1), ArgVal::Names { names: names(&["a", "b"]) }),
        ins("BINARY_OP", Some(0), i(0)),
        ins("RETURN_VALUE", None, ArgVal::Other),
    ];
    let e = run(&ClassRegistry::new(), code, &["a", "b"], "Entity").unwrap();
    match e {
        Expression::Binary { op: BinaryOp::Add, left, right } => {
            assert!(matches!(*left, Expression::Param { index: 0 }));
            assert!(matches!(*right, Expression::Param { index: 1 }));
        },
        other => panic!("Expected Add, got {:?}", other),
    }
}

#[test]
fn bytecode_comparison_and_short_circuit() {
    // lambda x: x.a > 1 and x.b
    let code = vec![
        ins("LOAD_FAST", Some(0), s("x")),
        ins("LOAD_ATTR", Some(0), s("a")),
        ins("LOAD_CONST", Some(1), i(1)),
        ins("COMPARE_OP", Some(68), s(">")),
        ins("COPY", Some(1), i(1)),
        ins("TO_BOOL", None, ArgVal::Other),
        ins("POP_JUMP_IF_FALSE", Some(5), i(20)),
        ins("POP_TOP", None, ArgVal::Other),
        ins("LOAD_FAST", Some(0), s("x")),
        ins("LOAD_ATTR", Some(2), s("b")),
        ins("RETURN_VALUE", None, ArgVal::Other),
    ];
    let e = run(&ClassRegistry::new(), code, &["x"], "Entity").unwrap();
    match e {
        Expression::Binary { op: BinaryOp::And, left, right } => {
            assert!(matches!(*left, Expression::Binary { op: BinaryOp::Gt, .. }));
            assert!(matches!(*right, Expression::FieldAccess { ref field_name, .. } if field_name == "b"));
        },
        other => panic!("Expected And, got {:?}", other),
    }
}

#[test]
fn bytecode_global_is_refused() {
    let code = vec![ins("LOAD_GLOBAL", Some(0), s("THRESHOLD")), ins("RETURN_VALUE", None, ArgVal::Other)];
    let r = run(&ClassRegistry::new(), code, &["x"], "Entity");
    assert!(matches!(r, Err(AnalysisError::ExternalReference { ref opname }) if opname == "LOAD_GLOBAL"));
}

#[test]
fn bytecode_unknown_variable_is_refused() {
    let code = vec![ins("LOAD_FAST", Some(0), s("y")), ins("RETURN_VALUE", None, ArgVal::Other)];
    let r = run(&ClassRegistry::new(), code, &["x"], "Entity");
    assert!(matches!(r, Err(AnalysisError::UnknownVariable { ref name }) if name == "y"));
}

#[test]
fn bytecode_empty_stack_fails() {
    let r = run(&ClassRegistry::new(), vec![ins("RESUME", Some(0), ArgVal::Other)], &["x"], "Entity");
    assert!(matches!(r, Err(AnalysisError::BytecodeAnalysisFailed)));
}

#[test]
fn bytecode_pending_and_without_operand_is_incomplete() {
    let code = vec![
        ins("LOAD_FAST", Some(0), s("x")),
        ins("LOAD_ATTR", Some(0), s("a")),
        ins("POP_JUMP_IF_FALSE", Some(5), i(20)),
        ins("RETURN_VALUE", None, ArgVal::Other),
    ];
    let r = run(&ClassRegistry::new(), code, &["x"], "Entity");
    assert!(matches!(r, Err(AnalysisError::IncompleteBooleanExpression)));
}

fn item_registry() -> ClassRegistry {
    // class Item: def has_stock(self): return self.quantity > 0
    let body = vec![PyStmt::Return {
        value: Some(PyExpr::Compare {
            left: Box::new(PyExpr::Attribute { value: Box::new(PyExpr::Name { id: "self".to_string() }), attr: "quantity".to_string() }),
            ops: vec![CmpOp::Gt],
            comparators: vec![PyExpr::Constant { value: Constant::Int { value: 0 } }],
        }),
    }];
    let src = MethodSource::Parsed { body: vec![PyStmt::FunctionDef { args: names(&["self"]), body }] };
    let mut reg = ClassRegistry::new();
    reg.register_class(ClassInfo {
        name: "Item".to_string(),
        type_hints: Some(vec![]),
        annotations: Some(vec![]),
        attributes: vec![NamedAttr { name: "has_stock".to_string(), attr: ClassAttr::Function { source: src } }],
    });
    reg
}

#[test]
fn test_integration_bytecode_method_inlining() {
    // lambda i: i.has_stock(), analyzed from its bytecode
    let code = vec![
        ins("LOAD_FAST", Some(0), s("i")),
        ins("LOAD_ATTR", Some(1), s("has_stock")),
        ins("CALL", Some(0), i(0)),
        ins("RETURN_VALUE", None, ArgVal::Other),
    ];
    let e = run(&item_registry(), code, &["i"], "Item").unwrap();
    assert!(matches!(e, Expression::Binary { op: BinaryOp::Gt, .. }), "Expected Gt from method inlining, got {:?}", e);
}

#[test]
fn bytecode_uninlinable_method_is_refused() {
    let code = vec![
        ins("LOAD_FAST", Some(0), s("i")),
        ins("LOAD_ATTR", Some(1), s("missing")),
        ins("CALL", Some(0), i(0)),
        ins("RETURN_VALUE", None, ArgVal::Other),
    ];
    let r = run(&item_registry(), code, &["i"], "Item");
    let err = r.unwrap_err();
    assert!(matches!(err, AnalysisError::MethodNotInlinable { .. }));
    assert!(err.message().starts_with("Cannot inline method Item.missing()"));
}

#[test]
fn lambda_falls_back_to_bytecode() {
    let code = LambdaCode::Bytecode {
        instructions: vec![
            ins("LOAD_FAST", Some(0), s("x")),
            ins("LOAD_ATTR", Some(0), s("field")),
            ins("RETURN_VALUE", None, ArgVal::Other),
        ],
        varnames: names(&["x"]),
    };
    let e = analyze_lambda(&ClassRegistry::new(), &code, &"Entity".to_string(), FUEL).unwrap();
    assert!(matches!(e, Expression::FieldAccess { .. }));
}
