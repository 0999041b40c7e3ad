//! Analysis of a lambda from its bytecode, for when its source is not
//! available: the instructions are evaluated on a stack of symbolic values,
//! and the value left on top is the lambda's expression.

use vstd::prelude::*;
use crate::analyzer::find_arg;
use crate::analyzer::arg_position;
use crate::classes::{ClassRegistry, get_method_from_class, get_wasm_field_type, spec_get_method, spec_wasm_field_type};
use crate::convert::analyze_method_body;
use crate::analyzer::spec_analyze_method_body;
use crate::error::AnalysisError;
use crate::expr::{
    BinaryOp, Expression, FloatConst, UnaryOp, bin, clone_expr, mk_bin, mk_un, spec_substitute, substitute_param, un,
};
use crate::pyast::Constant;
use crate::text::string_eq_str;

verus! {

// ---------------------------------------------------------------------------
// Instructions
// ---------------------------------------------------------------------------

/// The resolved argument of an instruction.
#[derive(Debug)]
pub enum ArgVal {
    /// A constant: a name, a number, `None`, ...
    Const { value: Constant },
    /// A tuple of names.
    Names { names: Vec<String> },
    /// Anything else.
    Other,
}

/// One instruction of a disassembled code object.
#[derive(Debug)]
pub struct Instruction {
    pub opname: String,
    /// The raw argument, when the instruction has one.
    pub arg: Option<i64>,
    pub argval: ArgVal,
}

/// What an instruction does to the evaluation.
#[derive(Debug, Clone, Copy, PartialEq, Eq, Structural)]
pub enum Opcode {
    Skip,
    LoadFast,
    LoadFastLoadFast,
    LoadAttr,
    LoadMethod,
    LoadConst,
    CompareOp,
    IsOp,
    BinaryOp,
    UnaryNot,
    Call,
    Return,
    Copy,
    ToBool,
    PopTop,
    PopJumpIfFalse,
    PopJumpIfTrue,
    External,
    Unknown,
}

/// The opcode an instruction name stands for.
pub open spec fn opcode_of(name: Seq<char>) -> Opcode {
    if name == "RESUME"@ || name == "PRECALL"@ || name == "PUSH_NULL"@ || name == "COPY_FREE_VARS"@
        || name == "CACHE"@ {
        Opcode::Skip
    } else if name == "LOAD_FAST"@ || name == "LOAD_FAST_CHECK"@ || name == "LOAD_FAST_AND_CLEAR"@ {
        Opcode::LoadFast
    } else if name == "LOAD_FAST_LOAD_FAST"@ {
        Opcode::LoadFastLoadFast
    } else if name == "LOAD_ATTR"@ {
        Opcode::LoadAttr
    } else if name == "LOAD_METHOD"@ {
        Opcode::LoadMethod
    } else if name == "LOAD_CONST"@ {
        Opcode::LoadConst
    } else if name == "COMPARE_OP"@ {
        Opcode::CompareOp
    } else if name == "IS_OP"@ {
        Opcode::IsOp
    } else if name == "BINARY_OP"@ {
        Opcode::BinaryOp
    } else if name == "UNARY_NOT"@ {
        Opcode::UnaryNot
    } else if name == "CALL_METHOD"@ || name == "CALL"@ {
        Opcode::Call
    } else if name == "RETURN_VALUE"@ || name == "RETURN_CONST"@ {
        Opcode::Return
    } else if name == "COPY"@ {
        Opcode::Copy
    } else if name == "TO_BOOL"@ {
        Opcode::ToBool
    } else if name == "POP_TOP"@ {
        Opcode::PopTop
    } else if name == "POP_JUMP_IF_FALSE"@ {
        Opcode::PopJumpIfFalse
    } else if name == "POP_JUMP_IF_TRUE"@ {
        Opcode::PopJumpIfTrue
    } else if name == "LOAD_GLOBAL"@ || name == "LOAD_DEREF"@ || name == "LOAD_CLOSURE"@ || name == "LOAD_NAME"@ {
        Opcode::External
    } else {
        Opcode::Unknown
    }
}

/// Classify an instruction name.
pub fn classify_opcode(name: &String) -> (res: Opcode)
    ensures
        res == opcode_of(name@),
{
    if string_eq_str(name, "RESUME") || string_eq_str(name, "PRECALL") || string_eq_str(name, "PUSH_NULL")
        || string_eq_str(name, "COPY_FREE_VARS") || string_eq_str(name, "CACHE") {
        Opcode::Skip
    } else if string_eq_str(name, "LOAD_FAST") || string_eq_str(name, "LOAD_FAST_CHECK") || string_eq_str(
        name,
        "LOAD_FAST_AND_CLEAR",
    ) {
        Opcode::LoadFast
    } else if string_eq_str(name, "LOAD_FAST_LOAD_FAST") {
        Opcode::LoadFastLoadFast
    } else if string_eq_str(name, "LOAD_ATTR") {
        Opcode::LoadAttr
    } else if string_eq_str(name, "LOAD_METHOD") {
        Opcode::LoadMethod
    } else if string_eq_str(name, "LOAD_CONST") {
        Opcode::LoadConst
    } else if string_eq_str(name, "COMPARE_OP") {
        Opcode::CompareOp
    } else if string_eq_str(name, "IS_OP") {
        Opcode::IsOp
    } else if string_eq_str(name, "BINARY_OP") {
        Opcode::BinaryOp
    } else if string_eq_str(name, "UNARY_NOT") {
        Opcode::UnaryNot
    } else if string_eq_str(name, "CALL_METHOD") || string_eq_str(name, "CALL") {
        Opcode::Call
    } else if string_eq_str(name, "RETURN_VALUE") || string_eq_str(name, "RETURN_CONST") {
        Opcode::Return
    } else if string_eq_str(name, "COPY") {
        Opcode::Copy
    } else if string_eq_str(name, "TO_BOOL") {
        Opcode::ToBool
    } else if string_eq_str(name, "POP_TOP") {
        Opcode::PopTop
    } else if string_eq_str(name, "POP_JUMP_IF_FALSE") {
        Opcode::PopJumpIfFalse
    } else if string_eq_str(name, "POP_JUMP_IF_TRUE") {
        Opcode::PopJumpIfTrue
    } else if string_eq_str(name, "LOAD_GLOBAL") || string_eq_str(name, "LOAD_DEREF") || string_eq_str(
        name,
        "LOAD_CLOSURE",
    ) || string_eq_str(name, "LOAD_NAME") {
        Opcode::External
    } else {
        Opcode::Unknown
    }
}

/// The argument read as a name.
pub open spec fn argval_str(a: ArgVal) -> Option<String> {
    match a {
        ArgVal::Const { value: Constant::Str { value } } => Some(value),
        _ => None,
    }
}

/// The argument read as a 32-bit integer (`True` is 1).
pub open spec fn argval_i32(a: ArgVal) -> Option<i64> {
    match a {
        ArgVal::Const { value: Constant::Int { value } } => if i32::MIN <= value <= i32::MAX {
            Some(value)
        } else {
            None
        },
        ArgVal::Const { value: Constant::Bool { value } } => Some(if value { 1i64 } else { 0i64 }),
        _ => None,
    }
}

/// The raw argument read as a 32-bit integer, 0 when absent or too large.
pub open spec fn raw_arg_i32(arg: Option<i64>) -> i64 {
    match arg {
        Some(a) => if i32::MIN <= a <= i32::MAX { a } else { 0 },
        None => 0,
    }
}

fn argval_str_exec(a: &ArgVal) -> (res: Option<String>)
    ensures
        res == argval_str(*a),
{
    match a {
        ArgVal::Const { value: Constant::Str { value } } => Some(value.clone()),
        _ => None,
    }
}

fn argval_i32_exec(a: &ArgVal) -> (res: Option<i64>)
    ensures
        res == argval_i32(*a),
{
    match a {
        ArgVal::Const { value: Constant::Int { value } } => if -2147483648i64 <= *value && *value <= 2147483647i64 {
            Some(*value)
        } else {
            None
        },
        ArgVal::Const { value: Constant::Bool { value } } => Some(if *value { 1i64 } else { 0i64 }),
        _ => None,
    }
}

// ---------------------------------------------------------------------------
// Symbolic values
// ---------------------------------------------------------------------------

/// A value on the evaluation stack.
#[derive(Debug)]
pub enum BytecodeValue {
    Param(u32),
    Null,
    Bool(bool),
    Int(i64),
    Str(String),
    /// A float by its bits.
    Float(u64),
    FieldAccess { object: Box<BytecodeValue>, class_name: String, field_name: String },
    /// A method loaded for a call.
    MethodRef { object: Box<BytecodeValue>, method_name: String },
    /// The inlined body of a called method.
    Inlined(Box<Expression>),
    Eq(Box<BytecodeValue>, Box<BytecodeValue>),
    Ne(Box<BytecodeValue>, Box<BytecodeValue>),
    Lt(Box<BytecodeValue>, Box<BytecodeValue>),
    Le(Box<BytecodeValue>, Box<BytecodeValue>),
    Gt(Box<BytecodeValue>, Box<BytecodeValue>),
    Ge(Box<BytecodeValue>, Box<BytecodeValue>),
    IsNull(Box<BytecodeValue>),
    IsNotNull(Box<BytecodeValue>),
    Add(Box<BytecodeValue>, Box<BytecodeValue>),
    Sub(Box<BytecodeValue>, Box<BytecodeValue>),
    Mul(Box<BytecodeValue>, Box<BytecodeValue>),
    Div(Box<BytecodeValue>, Box<BytecodeValue>),
    Not(Box<BytecodeValue>),
    And(Box<BytecodeValue>, Box<BytecodeValue>),
    Or(Box<BytecodeValue>, Box<BytecodeValue>),
    /// The left operand of a short-circuit `and` waiting for its right one.
    PendingAnd(Box<BytecodeValue>),
    /// The left operand of a short-circuit `or` waiting for its right one.
    PendingOr(Box<BytecodeValue>),
}

/// A copy of a stack value.
pub fn clone_value(v: &BytecodeValue) -> (res: BytecodeValue)
    ensures
        res == *v,
    decreases v,
{
    match v {
        BytecodeValue::Param(i) => BytecodeValue::Param(*i),
        BytecodeValue::Null => BytecodeValue::Null,
        BytecodeValue::Bool(b) => BytecodeValue::Bool(*b),
        BytecodeValue::Int(i) => BytecodeValue::Int(*i),
        BytecodeValue::Str(s) => BytecodeValue::Str(s.clone()),
        BytecodeValue::Float(f) => BytecodeValue::Float(*f),
        BytecodeValue::FieldAccess { object, class_name, field_name } => BytecodeValue::FieldAccess {
            object: Box::new(clone_value(object)),
            class_name: class_name.clone(),
            field_name: field_name.clone(),
        },
        BytecodeValue::MethodRef { object, method_name } => BytecodeValue::MethodRef {
            object: Box::new(clone_value(object)),
            method_name: method_name.clone(),
        },
        BytecodeValue::Inlined(e) => BytecodeValue::Inlined(Box::new(clone_expr(e))),
        BytecodeValue::Eq(l, r) => BytecodeValue::Eq(Box::new(clone_value(l)), Box::new(clone_value(r))),
        BytecodeValue::Ne(l, r) => BytecodeValue::Ne(Box::new(clone_value(l)), Box::new(clone_value(r))),
        BytecodeValue::Lt(l, r) => BytecodeValue::Lt(Box::new(clone_value(l)), Box::new(clone_value(r))),
        BytecodeValue::Le(l, r) => BytecodeValue::Le(Box::new(clone_value(l)), Box::new(clone_value(r))),
        BytecodeValue::Gt(l, r) => BytecodeValue::Gt(Box::new(clone_value(l)), Box::new(clone_value(r))),
        BytecodeValue::Ge(l, r) => BytecodeValue::Ge(Box::new(clone_value(l)), Box::new(clone_value(r))),
        BytecodeValue::IsNull(x) => BytecodeValue::IsNull(Box::new(clone_value(x))),
        BytecodeValue::IsNotNull(x) => BytecodeValue::IsNotNull(Box::new(clone_value(x))),
        BytecodeValue::Add(l, r) => BytecodeValue::Add(Box::new(clone_value(l)), Box::new(clone_value(r))),
        BytecodeValue::Sub(l, r) => BytecodeValue::Sub(Box::new(clone_value(l)), Box::new(clone_value(r))),
        BytecodeValue::Mul(l, r) => BytecodeValue::Mul(Box::new(clone_value(l)), Box::new(clone_value(r))),
        BytecodeValue::Div(l, r) => BytecodeValue::Div(Box::new(clone_value(l)), Box::new(clone_value(r))),
        BytecodeValue::Not(x) => BytecodeValue::Not(Box::new(clone_value(x))),
        BytecodeValue::And(l, r) => BytecodeValue::And(Box::new(clone_value(l)), Box::new(clone_value(r))),
        BytecodeValue::Or(l, r) => BytecodeValue::Or(Box::new(clone_value(l)), Box::new(clone_value(r))),
        BytecodeValue::PendingAnd(x) => BytecodeValue::PendingAnd(Box::new(clone_value(x))),
        BytecodeValue::PendingOr(x) => BytecodeValue::PendingOr(Box::new(clone_value(x))),
    }
}

/// The expression a stack value stands for.
pub open spec fn spec_value_to_expression(reg: ClassRegistry, v: BytecodeValue) -> Result<Expression, AnalysisError>
    decreases v,
{
    match v {
        BytecodeValue::Param(index) => Ok(Expression::Param { index }),
        BytecodeValue::Null => Ok(Expression::Null),
        BytecodeValue::Bool(value) => Ok(Expression::BoolLiteral { value }),
        BytecodeValue::Int(value) => Ok(Expression::IntLiteral { value }),
        BytecodeValue::Str(value) => Ok(Expression::StringLiteral { value }),
        BytecodeValue::Float(bits) => Ok(Expression::FloatLiteral { value: FloatConst::Bits(bits) }),
        BytecodeValue::FieldAccess { object, class_name, field_name } => match spec_value_to_expression(reg, *object) {
            Err(e) => Err(e),
            Ok(o) => Ok(
                Expression::FieldAccess {
                    object: Box::new(o),
                    class_name,
                    field_name,
                    field_type: spec_wasm_field_type(reg, class_name@, field_name@),
                },
            ),
        },
        BytecodeValue::MethodRef { .. } => Err(AnalysisError::UnresolvedMethodReference),
        BytecodeValue::Inlined(e) => Ok(*e),
        BytecodeValue::Eq(l, r) => combine_binary(BinaryOp::Eq, spec_value_to_expression(reg, *l), spec_value_to_expression(reg, *r)),
        BytecodeValue::Ne(l, r) => combine_binary(BinaryOp::Ne, spec_value_to_expression(reg, *l), spec_value_to_expression(reg, *r)),
        BytecodeValue::Lt(l, r) => combine_binary(BinaryOp::Lt, spec_value_to_expression(reg, *l), spec_value_to_expression(reg, *r)),
        BytecodeValue::Le(l, r) => combine_binary(BinaryOp::Le, spec_value_to_expression(reg, *l), spec_value_to_expression(reg, *r)),
        BytecodeValue::Gt(l, r) => combine_binary(BinaryOp::Gt, spec_value_to_expression(reg, *l), spec_value_to_expression(reg, *r)),
        BytecodeValue::Ge(l, r) => combine_binary(BinaryOp::Ge, spec_value_to_expression(reg, *l), spec_value_to_expression(reg, *r)),
        BytecodeValue::IsNull(x) => combine_unary(UnaryOp::IsNull, spec_value_to_expression(reg, *x)),
        BytecodeValue::IsNotNull(x) => combine_unary(UnaryOp::IsNotNull, spec_value_to_expression(reg, *x)),
        BytecodeValue::Add(l, r) => combine_binary(BinaryOp::Add, spec_value_to_expression(reg, *l), spec_value_to_expression(reg, *r)),
        BytecodeValue::Sub(l, r) => combine_binary(BinaryOp::Sub, spec_value_to_expression(reg, *l), spec_value_to_expression(reg, *r)),
        BytecodeValue::Mul(l, r) => combine_binary(BinaryOp::Mul, spec_value_to_expression(reg, *l), spec_value_to_expression(reg, *r)),
        BytecodeValue::Div(l, r) => combine_binary(BinaryOp::Div, spec_value_to_expression(reg, *l), spec_value_to_expression(reg, *r)),
        BytecodeValue::Not(x) => combine_unary(UnaryOp::Not, spec_value_to_expression(reg, *x)),
        BytecodeValue::And(l, r) => combine_binary(BinaryOp::And, spec_value_to_expression(reg, *l), spec_value_to_expression(reg, *r)),
        BytecodeValue::Or(l, r) => combine_binary(BinaryOp::Or, spec_value_to_expression(reg, *l), spec_value_to_expression(reg, *r)),
        BytecodeValue::PendingAnd(_) => Err(AnalysisError::IncompleteBooleanExpression),
        BytecodeValue::PendingOr(_) => Err(AnalysisError::IncompleteBooleanExpression),
    }
}

/// Two converted operands combined by a binary operator.
pub open spec fn combine_binary(
    op: BinaryOp,
    l: Result<Expression, AnalysisError>,
    r: Result<Expression, AnalysisError>,
) -> Result<Expression, AnalysisError> {
    match l {
        Err(e) => Err(e),
        Ok(le) => match r {
            Err(e) => Err(e),
            Ok(re) => Ok(bin(op, le, re)),
        },
    }
}

/// A converted operand wrapped by a unary operator.
pub open spec fn combine_unary(op: UnaryOp, x: Result<Expression, AnalysisError>) -> Result<Expression, AnalysisError> {
    match x {
        Err(e) => Err(e),
        Ok(xe) => Ok(un(op, xe)),
    }
}

} // verus!

verus! {

fn combine_binary_exec(
    op: BinaryOp,
    l: Result<Expression, AnalysisError>,
    r: Result<Expression, AnalysisError>,
) -> (res: Result<Expression, AnalysisError>)
    ensures
        res == combine_binary(op, l, r),
{
    match l {
        Err(e) => Err(e),
        Ok(le) => match r {
            Err(e) => Err(e),
            Ok(re) => Ok(mk_bin(op, le, re)),
        },
    }
}

fn combine_unary_exec(op: UnaryOp, x: Result<Expression, AnalysisError>) -> (res: Result<Expression, AnalysisError>)
    ensures
        res == combine_unary(op, x),
{
    match x {
        Err(e) => Err(e),
        Ok(xe) => Ok(mk_un(op, xe)),
    }
}

/// Convert a stack value to an expression; field reads are typed by the
/// registry.
pub fn bytecode_value_to_expression(reg: &ClassRegistry, v: BytecodeValue) -> (res: Result<Expression, AnalysisError>)
    ensures
        res == spec_value_to_expression(*reg, v),
    decreases v,
{
    match v {
        BytecodeValue::Param(index) => Ok(Expression::Param { index }),
        BytecodeValue::Null => Ok(Expression::Null),
        BytecodeValue::Bool(value) => Ok(Expression::BoolLiteral { value }),
        BytecodeValue::Int(value) => Ok(Expression::IntLiteral { value }),
        BytecodeValue::Str(value) => Ok(Expression::StringLiteral { value }),
        BytecodeValue::Float(bits) => Ok(Expression::FloatLiteral { value: FloatConst::Bits(bits) }),
        BytecodeValue::FieldAccess { object, class_name, field_name } => match bytecode_value_to_expression(reg, *object) {
            Err(e) => Err(e),
            Ok(o) => {
                let t = get_wasm_field_type(reg, &class_name, &field_name);
                Ok(Expression::FieldAccess { object: Box::new(o), class_name, field_name, field_type: t })
            },
        },
        BytecodeValue::MethodRef { .. } => Err(AnalysisError::UnresolvedMethodReference),
        BytecodeValue::Inlined(e) => Ok(*e),
        BytecodeValue::Eq(l, r) => {
            let a = bytecode_value_to_expression(reg, *l);
            let b = bytecode_value_to_expression(reg, *r);
            combine_binary_exec(BinaryOp::Eq, a, b)
        },
        BytecodeValue::Ne(l, r) => {
            let a = bytecode_value_to_expression(reg, *l);
            let b = bytecode_value_to_expression(reg, *r);
            combine_binary_exec(BinaryOp::Ne, a, b)
        },
        BytecodeValue::Lt(l, r) => {
            let a = bytecode_value_to_expression(reg, *l);
            let b = bytecode_value_to_expression(reg, *r);
            combine_binary_exec(BinaryOp::Lt, a, b)
        },
        BytecodeValue::Le(l, r) => {
            let a = bytecode_value_to_expression(reg, *l);
            let b = bytecode_value_to_expression(reg, *r);
            combine_binary_exec(BinaryOp::Le, a, b)
        },
        BytecodeValue::Gt(l, r) => {
            let a = bytecode_value_to_expression(reg, *l);
            let b = bytecode_value_to_expression(reg, *r);
            combine_binary_exec(BinaryOp::Gt, a, b)
        },
        BytecodeValue::Ge(l, r) => {
            let a = bytecode_value_to_expression(reg, *l);
            let b = bytecode_value_to_expression(reg, *r);
            combine_binary_exec(BinaryOp::Ge, a, b)
        },
        BytecodeValue::IsNull(x) => {
            let a = bytecode_value_to_expression(reg, *x);
            combine_unary_exec(UnaryOp::IsNull, a)
        },
        BytecodeValue::IsNotNull(x) => {
            let a = bytecode_value_to_expression(reg, *x);
            combine_unary_exec(UnaryOp::IsNotNull, a)
        },
        BytecodeValue::Add(l, r) => {
            let a = bytecode_value_to_expression(reg, *l);
            let b = bytecode_value_to_expression(reg, *r);
            combine_binary_exec(BinaryOp::Add, a, b)
        },
        BytecodeValue::Sub(l, r) => {
            let a = bytecode_value_to_expression(reg, *l);
            let b = bytecode_value_to_expression(reg, *r);
            combine_binary_exec(BinaryOp::Sub, a, b)
        },
        BytecodeValue::Mul(l, r) => {
            let a = bytecode_value_to_expression(reg, *l);
            let b = bytecode_value_to_expression(reg, *r);
            combine_binary_exec(BinaryOp::Mul, a, b)
        },
        BytecodeValue::Div(l, r) => {
            let a = bytecode_value_to_expression(reg, *l);
            let b = bytecode_value_to_expression(reg, *r);
            combine_binary_exec(BinaryOp::Div, a, b)
        },
        BytecodeValue::Not(x) => {
            let a = bytecode_value_to_expression(reg, *x);
            combine_unary_exec(UnaryOp::Not, a)
        },
        BytecodeValue::And(l, r) => {
            let a = bytecode_value_to_expression(reg, *l);
            let b = bytecode_value_to_expression(reg, *r);
            combine_binary_exec(BinaryOp::And, a, b)
        },
        BytecodeValue::Or(l, r) => {
            let a = bytecode_value_to_expression(reg, *l);
            let b = bytecode_value_to_expression(reg, *r);
            combine_binary_exec(BinaryOp::Or, a, b)
        },
        BytecodeValue::PendingAnd(_) => Err(AnalysisError::IncompleteBooleanExpression),
        BytecodeValue::PendingOr(_) => Err(AnalysisError::IncompleteBooleanExpression),
    }
}

// ---------------------------------------------------------------------------
// Method calls
// ---------------------------------------------------------------------------

/// `e` with the converted `args[i..]` put in for parameters `i + 1, ...`;
/// arguments that do not convert are skipped.
pub open spec fn subst_values(reg: ClassRegistry, e: Expression, args: Seq<BytecodeValue>, i: int) -> Expression
    decreases args.len() - i,
{
    if i < 0 || i >= args.len() {
        e
    } else {
        match spec_value_to_expression(reg, args[i]) {
            Ok(a) => subst_values(reg, spec_substitute(e, (i + 1) as u32, a), args, i + 1),
            Err(_) => subst_values(reg, e, args, i + 1),
        }
    }
}

/// The inlined call `object.method(args)` on class `class_name`, `None` when
/// the method is not registered or its body or receiver does not convert.
pub open spec fn spec_try_inline(
    reg: ClassRegistry,
    object: BytecodeValue,
    method: String,
    args: Seq<BytecodeValue>,
    class_name: String,
    fuel: u64,
) -> Option<Expression> {
    match spec_get_method(reg, class_name@, method@) {
        None => None,
        Some(src) => match spec_analyze_method_body(reg, src, class_name, fuel) {
            Err(_) => None,
            Ok(body) => match spec_value_to_expression(reg, object) {
                Err(_) => None,
                Ok(oe) => Some(subst_values(reg, spec_substitute(body, 0, oe), args, 0)),
            },
        },
    }
}

/// Inline a method called in bytecode.
pub fn try_inline_method_from_bytecode(
    reg: &ClassRegistry,
    object: &BytecodeValue,
    method: &String,
    args: &Vec<BytecodeValue>,
    class_name: &String,
    fuel: u64,
) -> (res: Option<Expression>)
    ensures
        res == spec_try_inline(*reg, *object, *method, args@, *class_name, fuel),
{
    let src = match get_method_from_class(reg, class_name, method) {
        None => {
            return None;
        },
        Some(s) => s,
    };
    let body = match analyze_method_body(reg, src, class_name, fuel) {
        Err(_) => {
            return None;
        },
        Ok(b) => b,
    };
    let oe = match bytecode_value_to_expression(reg, clone_value(object)) {
        Err(_) => {
            return None;
        },
        Ok(o) => o,
    };
    let ghost start = spec_substitute(body, 0, oe);
    let mut inlined = substitute_param(body, 0, &oe);
    let n = args.len();
    let mut i: usize = 0;
    while i < n
        invariant
            n == args@.len(),
            i <= n,
            subst_values(*reg, start, args@, 0) == subst_values(*reg, inlined, args@, i as int),
        decreases n - i,
    {
        match bytecode_value_to_expression(reg, clone_value(&args[i])) {
            Ok(a) => {
                inlined = substitute_param(inlined, (i + 1) as u32, &a);
            },
            Err(_) => {},
        }
        i = i + 1;
    }
    Some(inlined)
}

} // verus!

verus! {

// ---------------------------------------------------------------------------
// Evaluation
// ---------------------------------------------------------------------------

/// What one instruction leaves: the next stack, the final stack (at a
/// return), or a refusal.
pub ghost enum Step {
    Next(Seq<BytecodeValue>),
    Stop(Seq<BytecodeValue>),
    Fail(AnalysisError),
}

/// The stack without its top.
pub open spec fn below_top(s: Seq<BytecodeValue>) -> Seq<BytecodeValue> {
    s.subrange(0, s.len() - 1)
}

/// The stack without its top two.
pub open spec fn below_two(s: Seq<BytecodeValue>) -> Seq<BytecodeValue> {
    s.subrange(0, s.len() - 2)
}

/// The parameters named by `names[i..]` pushed in order.
pub open spec fn load_names(varnames: Seq<String>, names: Seq<String>, i: int, stack: Seq<BytecodeValue>) -> Step
    decreases names.len() - i,
{
    if i < 0 || i >= names.len() {
        Step::Next(stack)
    } else {
        match arg_position(varnames, names[i]@, 0) {
            Some(p) => load_names(varnames, names, i + 1, stack.push(BytecodeValue::Param(p as u32))),
            None => Step::Fail(AnalysisError::UnknownVariable { name: names[i] }),
        }
    }
}

/// The comparison a `COMPARE_OP` name stands for.
pub open spec fn compare_value(op: Seq<char>, l: BytecodeValue, r: BytecodeValue) -> Option<BytecodeValue> {
    if op == "<"@ {
        Some(BytecodeValue::Lt(Box::new(l), Box::new(r)))
    } else if op == "<="@ {
        Some(BytecodeValue::Le(Box::new(l), Box::new(r)))
    } else if op == "=="@ {
        Some(BytecodeValue::Eq(Box::new(l), Box::new(r)))
    } else if op == "!="@ {
        Some(BytecodeValue::Ne(Box::new(l), Box::new(r)))
    } else if op == ">"@ {
        Some(BytecodeValue::Gt(Box::new(l), Box::new(r)))
    } else if op == ">="@ {
        Some(BytecodeValue::Ge(Box::new(l), Box::new(r)))
    } else {
        None
    }
}

/// The arithmetic a `BINARY_OP` index stands for (`+ - * /`).
pub open spec fn arith_value(idx: i64, l: BytecodeValue, r: BytecodeValue) -> Option<BytecodeValue> {
    if idx == 0 {
        Some(BytecodeValue::Add(Box::new(l), Box::new(r)))
    } else if idx == 10 {
        Some(BytecodeValue::Sub(Box::new(l), Box::new(r)))
    } else if idx == 5 {
        Some(BytecodeValue::Mul(Box::new(l), Box::new(r)))
    } else if idx == 11 {
        Some(BytecodeValue::Div(Box::new(l), Box::new(r)))
    } else {
        None
    }
}

/// The value `LOAD_CONST` pushes for a constant.
pub open spec fn const_value(c: Constant) -> Option<BytecodeValue> {
    match c {
        Constant::NoneValue => Some(BytecodeValue::Null),
        Constant::Bool { value } => Some(BytecodeValue::Bool(value)),
        Constant::Int { value } => Some(BytecodeValue::Int(value)),
        Constant::Str { value } => Some(BytecodeValue::Str(value)),
        Constant::Float { bits } => Some(BytecodeValue::Float(bits)),
        Constant::BigInt { as_float } => match as_float {
            Some(bits) => Some(BytecodeValue::Float(bits)),
            None => None,
        },
        Constant::Other => None,
    }
}

/// The effect of one instruction on the stack. Field reads are attributed
/// to `class_name`; a called method is inlined from that class.
pub open spec fn spec_step(
    reg: ClassRegistry,
    varnames: Seq<String>,
    class_name: String,
    stack: Seq<BytecodeValue>,
    ins: Instruction,
    fuel: u64,
) -> Step {
    let n = stack.len();
    let bad = Step::Fail(AnalysisError::UnexpectedArgument { opname: ins.opname });
    match opcode_of(ins.opname@) {
        Opcode::Skip | Opcode::ToBool | Opcode::Unknown => Step::Next(stack),
        Opcode::LoadFast => match argval_str(ins.argval) {
            None => bad,
            Some(name) => match arg_position(varnames, name@, 0) {
                Some(p) => Step::Next(stack.push(BytecodeValue::Param(p as u32))),
                None => Step::Fail(AnalysisError::UnknownVariable { name }),
            },
        },
        Opcode::LoadFastLoadFast => match ins.argval {
            ArgVal::Names { names } => load_names(varnames, names@, 0, stack),
            _ => bad,
        },
        Opcode::LoadAttr => match argval_str(ins.argval) {
            None => bad,
            Some(attr) => if n == 0 {
                Step::Next(stack)
            } else if (raw_arg_i32(ins.arg) & 1i64) == 1i64 {
                Step::Next(below_top(stack).push(BytecodeValue::MethodRef { object: Box::new(stack.last()), method_name: attr }))
            } else {
                Step::Next(
                    below_top(stack).push(
                        BytecodeValue::FieldAccess { object: Box::new(stack.last()), class_name, field_name: attr },
                    ),
                )
            },
        },
        Opcode::LoadMethod => match argval_str(ins.argval) {
            None => bad,
            Some(m) => if n == 0 {
                Step::Next(stack)
            } else {
                Step::Next(below_top(stack).push(BytecodeValue::MethodRef { object: Box::new(stack.last()), method_name: m }))
            },
        },
        Opcode::LoadConst => match ins.argval {
            ArgVal::Const { value } => match const_value(value) {
                Some(v) => Step::Next(stack.push(v)),
                None => Step::Next(stack),
            },
            _ => Step::Next(stack),
        },
        Opcode::CompareOp => match argval_str(ins.argval) {
            None => bad,
            Some(op) => if n >= 2 {
                match compare_value(op@, stack[n - 2], stack[n - 1]) {
                    Some(v) => Step::Next(below_two(stack).push(v)),
                    None => Step::Next(below_two(stack)),
                }
            } else {
                Step::Next(stack)
            },
        },
        Opcode::IsOp => match argval_i32(ins.argval) {
            None => bad,
            Some(invert) => if n >= 2 {
                let l = stack[n - 2];
                let r = stack[n - 1];
                let v = if r is Null {
                    if invert == 0 {
                        BytecodeValue::IsNull(Box::new(l))
                    } else {
                        BytecodeValue::IsNotNull(Box::new(l))
                    }
                } else if invert == 0 {
                    BytecodeValue::Eq(Box::new(l), Box::new(r))
                } else {
                    BytecodeValue::Ne(Box::new(l), Box::new(r))
                };
                Step::Next(below_two(stack).push(v))
            } else {
                Step::Next(stack)
            },
        },
        Opcode::BinaryOp => match argval_i32(ins.argval) {
            None => bad,
            Some(idx) => if n >= 2 {
                match arith_value(idx, stack[n - 2], stack[n - 1]) {
                    Some(v) => Step::Next(below_two(stack).push(v)),
                    None => Step::Next(below_two(stack)),
                }
            } else {
                Step::Next(stack)
            },
        },
        Opcode::UnaryNot => if n == 0 {
            Step::Next(stack)
        } else {
            Step::Next(below_top(stack).push(BytecodeValue::Not(Box::new(stack.last()))))
        },
        Opcode::Call => match argval_i32(ins.argval) {
            None => bad,
            Some(count) => if 0 <= count + 1 <= n {
                let k = if count < 0 { 0 } else { count as int };
                let args = stack.subrange(n - k, n as int);
                let rest = stack.subrange(0, n - k);
                if rest.len() == 0 {
                    Step::Next(rest)
                } else {
                    match rest.last() {
                        BytecodeValue::MethodRef { object, method_name } => match spec_try_inline(
                            reg,
                            *object,
                            method_name,
                            args,
                            class_name,
                            fuel,
                        ) {
                            Some(e) => Step::Next(below_top(rest).push(BytecodeValue::Inlined(Box::new(e)))),
                            None => Step::Fail(AnalysisError::MethodNotInlinable { class_name, method_name }),
                        },
                        _ => Step::Next(rest),
                    }
                }
            } else {
                Step::Next(stack)
            },
        },
        Opcode::Return => Step::Stop(stack),
        Opcode::Copy => if n == 0 {
            Step::Next(stack)
        } else {
            Step::Next(stack.push(stack.last()))
        },
        Opcode::PopTop => if n > 0 && !(stack.last() is PendingAnd || stack.last() is PendingOr) {
            Step::Next(below_top(stack))
        } else {
            Step::Next(stack)
        },
        Opcode::PopJumpIfFalse => if n >= 2 {
            Step::Next(below_two(stack).push(BytecodeValue::PendingAnd(Box::new(stack[n - 2]))))
        } else if n == 1 {
            Step::Next(seq![BytecodeValue::PendingAnd(Box::new(stack[0]))])
        } else {
            Step::Next(stack)
        },
        Opcode::PopJumpIfTrue => if n >= 2 {
            Step::Next(below_two(stack).push(BytecodeValue::PendingOr(Box::new(stack[n - 2]))))
        } else if n == 1 {
            Step::Next(seq![BytecodeValue::PendingOr(Box::new(stack[0]))])
        } else {
            Step::Next(stack)
        },
        Opcode::External => Step::Fail(AnalysisError::ExternalReference { opname: ins.opname }),
    }
}

/// Evaluation of `instrs[i..]` from `stack`, up to the first return.
pub open spec fn spec_run(
    reg: ClassRegistry,
    instrs: Seq<Instruction>,
    i: int,
    varnames: Seq<String>,
    class_name: String,
    stack: Seq<BytecodeValue>,
    fuel: u64,
) -> Result<Seq<BytecodeValue>, AnalysisError>
    decreases instrs.len() - i,
{
    if i < 0 || i >= instrs.len() {
        Ok(stack)
    } else {
        match spec_step(reg, varnames, class_name, stack, instrs[i], fuel) {
            Step::Fail(e) => Err(e),
            Step::Stop(s) => Ok(s),
            Step::Next(s) => spec_run(reg, instrs, i + 1, varnames, class_name, s, fuel),
        }
    }
}

/// A short-circuit operand waiting below the top is combined with it.
pub open spec fn settle_pending(stack: Seq<BytecodeValue>) -> Seq<BytecodeValue> {
    let n = stack.len();
    if n >= 2 {
        match stack[n - 2] {
            BytecodeValue::PendingAnd(l) => below_two(stack).push(BytecodeValue::And(l, Box::new(stack[n - 1]))),
            BytecodeValue::PendingOr(l) => below_two(stack).push(BytecodeValue::Or(l, Box::new(stack[n - 1]))),
            _ => stack,
        }
    } else {
        stack
    }
}

/// The expression of a lambda from its instructions: the value left on top
/// of the stack.
pub open spec fn spec_analyze_bytecode(
    reg: ClassRegistry,
    instrs: Seq<Instruction>,
    varnames: Seq<String>,
    class_name: String,
    fuel: u64,
) -> Result<Expression, AnalysisError> {
    match spec_run(reg, instrs, 0, varnames, class_name, Seq::empty(), fuel) {
        Err(e) => Err(e),
        Ok(s) => {
            let t = settle_pending(s);
            if t.len() == 0 {
                Err(AnalysisError::BytecodeAnalysisFailed)
            } else {
                spec_value_to_expression(reg, t.last())
            }
        },
    }
}

} // verus!

verus! {

/// What executing one instruction gave, the stack being updated in place.
pub enum StepKind {
    Next,
    Stop,
    Fail(AnalysisError),
}

fn const_value_exec(c: &Constant) -> (res: Option<BytecodeValue>)
    ensures
        res == const_value(*c),
{
    match c {
        Constant::NoneValue => Some(BytecodeValue::Null),
        Constant::Bool { value } => Some(BytecodeValue::Bool(*value)),
        Constant::Int { value } => Some(BytecodeValue::Int(*value)),
        Constant::Str { value } => Some(BytecodeValue::Str(value.clone())),
        Constant::Float { bits } => Some(BytecodeValue::Float(*bits)),
        Constant::BigInt { as_float } => match as_float {
            Some(bits) => Some(BytecodeValue::Float(*bits)),
            None => None,
        },
        Constant::Other => None,
    }
}

fn compare_value_exec(op: &String, l: BytecodeValue, r: BytecodeValue) -> (res: Option<BytecodeValue>)
    ensures
        res == compare_value(op@, l, r),
{
    if string_eq_str(op, "<") {
        Some(BytecodeValue::Lt(Box::new(l), Box::new(r)))
    } else if string_eq_str(op, "<=") {
        Some(BytecodeValue::Le(Box::new(l), Box::new(r)))
    } else if string_eq_str(op, "==") {
        Some(BytecodeValue::Eq(Box::new(l), Box::new(r)))
    } else if string_eq_str(op, "!=") {
        Some(BytecodeValue::Ne(Box::new(l), Box::new(r)))
    } else if string_eq_str(op, ">") {
        Some(BytecodeValue::Gt(Box::new(l), Box::new(r)))
    } else if string_eq_str(op, ">=") {
        Some(BytecodeValue::Ge(Box::new(l), Box::new(r)))
    } else {
        None
    }
}

fn arith_value_exec(idx: i64, l: BytecodeValue, r: BytecodeValue) -> (res: Option<BytecodeValue>)
    ensures
        res == arith_value(idx, l, r),
{
    if idx == 0 {
        Some(BytecodeValue::Add(Box::new(l), Box::new(r)))
    } else if idx == 10 {
        Some(BytecodeValue::Sub(Box::new(l), Box::new(r)))
    } else if idx == 5 {
        Some(BytecodeValue::Mul(Box::new(l), Box::new(r)))
    } else if idx == 11 {
        Some(BytecodeValue::Div(Box::new(l), Box::new(r)))
    } else {
        None
    }
}

/// Pop the top two values, left operand first.
fn pop_two(stack: &mut Vec<BytecodeValue>) -> (res: (BytecodeValue, BytecodeValue))
    requires
        old(stack)@.len() >= 2,
    ensures
        res.0 == old(stack)@[old(stack)@.len() - 2],
        res.1 == old(stack)@[old(stack)@.len() - 1],
        final(stack)@ == below_two(old(stack)@),
{
    let ghost s0 = stack@;
    let r = match stack.pop() {
        Some(x) => x,
        None => BytecodeValue::Null,
    };
    let l = match stack.pop() {
        Some(x) => x,
        None => BytecodeValue::Null,
    };
    assert(stack@ =~= below_two(s0));
    (l, r)
}

/// Execute one instruction.
pub fn step_exec(
    reg: &ClassRegistry,
    varnames: &Vec<String>,
    class_name: &String,
    stack: &mut Vec<BytecodeValue>,
    ins: &Instruction,
    fuel: u64,
) -> (res: StepKind)
    ensures
        match res {
            StepKind::Next => spec_step(*reg, varnames@, *class_name, old(stack)@, *ins, fuel) == Step::Next(final(stack)@),
            StepKind::Stop => spec_step(*reg, varnames@, *class_name, old(stack)@, *ins, fuel) == Step::Stop(final(stack)@),
            StepKind::Fail(e) => spec_step(*reg, varnames@, *class_name, old(stack)@, *ins, fuel) == Step::Fail(e),
        },
{
    let ghost s0 = stack@;
    let n = stack.len();
    let op = classify_opcode(&ins.opname);
    match op {
        Opcode::Skip | Opcode::ToBool | Opcode::Unknown => StepKind::Next,
        Opcode::LoadFast => match argval_str_exec(&ins.argval) {
            None => StepKind::Fail(AnalysisError::UnexpectedArgument { opname: ins.opname.clone() }),
            Some(name) => match find_arg(varnames, &name) {
                Some(p) => {
                    stack.push(BytecodeValue::Param(p as u32));
                    StepKind::Next
                },
                None => StepKind::Fail(AnalysisError::UnknownVariable { name }),
            },
        },
        Opcode::LoadFastLoadFast => match &ins.argval {
            ArgVal::Names { names } => {
                let m = names.len();
                let mut j: usize = 0;
                while j < m
                    invariant
                        m == names@.len(),
                        j <= m,
                        load_names(varnames@, names@, 0, s0) == load_names(varnames@, names@, j as int, stack@),
                        s0 == old(stack)@,
                        opcode_of(ins.opname@) == Opcode::LoadFastLoadFast,
                        ins.argval == (ArgVal::Names { names: *names }),
                    decreases m - j,
                {
                    match find_arg(varnames, &names[j]) {
                        Some(p) => {
                            stack.push(BytecodeValue::Param(p as u32));
                        },
                        None => {
                            return StepKind::Fail(AnalysisError::UnknownVariable { name: names[j].clone() });
                        },
                    }
                    j = j + 1;
                }
                StepKind::Next
            },
            _ => StepKind::Fail(AnalysisError::UnexpectedArgument { opname: ins.opname.clone() }),
        },
        Opcode::LoadAttr => match argval_str_exec(&ins.argval) {
            None => StepKind::Fail(AnalysisError::UnexpectedArgument { opname: ins.opname.clone() }),
            Some(attr) => {
                let a: i64 = match ins.arg {
                    Some(x) => if -2147483648i64 <= x && x <= 2147483647i64 { x } else { 0 },
                    None => 0,
                };
                match stack.pop() {
                    None => StepKind::Next,
                    Some(obj) => {
                        if (a & 1i64) == 1i64 {
                            stack.push(BytecodeValue::MethodRef { object: Box::new(obj), method_name: attr });
                        } else {
                            stack.push(
                                BytecodeValue::FieldAccess { object: Box::new(obj), class_name: class_name.clone(), field_name: attr },
                            );
                        }
                        StepKind::Next
                    },
                }
            },
        },
        Opcode::LoadMethod => match argval_str_exec(&ins.argval) {
            None => StepKind::Fail(AnalysisError::UnexpectedArgument { opname: ins.opname.clone() }),
            Some(m) => match stack.pop() {
                None => StepKind::Next,
                Some(obj) => {
                    stack.push(BytecodeValue::MethodRef { object: Box::new(obj), method_name: m });
                    StepKind::Next
                },
            },
        },
        Opcode::LoadConst => match &ins.argval {
            ArgVal::Const { value } => match const_value_exec(value) {
                Some(v) => {
                    stack.push(v);
                    StepKind::Next
                },
                None => StepKind::Next,
            },
            _ => StepKind::Next,
        },
        Opcode::CompareOp => match argval_str_exec(&ins.argval) {
            None => StepKind::Fail(AnalysisError::UnexpectedArgument { opname: ins.opname.clone() }),
            Some(op) => if n >= 2 {
                let (l, r) = pop_two(stack);
                match compare_value_exec(&op, l, r) {
                    Some(v) => {
                        stack.push(v);
                    },
                    None => {},
                }
                StepKind::Next
            } else {
                StepKind::Next
            },
        },
        Opcode::IsOp => match argval_i32_exec(&ins.argval) {
            None => StepKind::Fail(AnalysisError::UnexpectedArgument { opname: ins.opname.clone() }),
            Some(invert) => if n >= 2 {
                let (l, r) = pop_two(stack);
                let v = if matches!(r, BytecodeValue::Null) {
                    if invert == 0 {
                        BytecodeValue::IsNull(Box::new(l))
                    } else {
                        BytecodeValue::IsNotNull(Box::new(l))
                    }
                } else if invert == 0 {
                    BytecodeValue::Eq(Box::new(l), Box::new(r))
                } else {
                    BytecodeValue::Ne(Box::new(l), Box::new(r))
                };
                stack.push(v);
                StepKind::Next
            } else {
                StepKind::Next
            },
        },
        Opcode::BinaryOp => match argval_i32_exec(&ins.argval) {
            None => StepKind::Fail(AnalysisError::UnexpectedArgument { opname: ins.opname.clone() }),
            Some(idx) => if n >= 2 {
                let (l, r) = pop_two(stack);
                match arith_value_exec(idx, l, r) {
                    Some(v) => {
                        stack.push(v);
                    },
                    None => {},
                }
                StepKind::Next
            } else {
                StepKind::Next
            },
        },
        Opcode::UnaryNot => match stack.pop() {
            None => StepKind::Next,
            Some(x) => {
                stack.push(BytecodeValue::Not(Box::new(x)));
                StepKind::Next
            },
        },
        Opcode::Call => match argval_i32_exec(&ins.argval) {
            None => StepKind::Fail(AnalysisError::UnexpectedArgument { opname: ins.opname.clone() }),
            Some(count) => if count >= -1 && ((count + 1) as usize) <= n {
                let k: usize = if count < 0 { 0 } else { count as usize };
                let args = stack.split_off(n - k);
                let ghost rest = stack@;
                match stack.pop() {
                    None => StepKind::Next,
                    Some(f) => match f {
                        BytecodeValue::MethodRef { object, method_name } => match try_inline_method_from_bytecode(
                            reg,
                            &*object,
                            &method_name,
                            &args,
                            class_name,
                            fuel,
                        ) {
                            Some(e) => {
                                stack.push(BytecodeValue::Inlined(Box::new(e)));
                                StepKind::Next
                            },
                            None => StepKind::Fail(AnalysisError::MethodNotInlinable { class_name: class_name.clone(), method_name }),
                        },
                        other => {
                            stack.push(other);
                            assert(stack@ =~= rest);
                            StepKind::Next
                        },
                    },
                }
            } else {
                StepKind::Next
            },
        },
        Opcode::Return => StepKind::Stop,
        Opcode::Copy => if n == 0 {
            StepKind::Next
        } else {
            let top = clone_value(&stack[n - 1]);
            stack.push(top);
            StepKind::Next
        },
        Opcode::PopTop => {
            if n > 0 {
                let pending = match &stack[n - 1] {
                    BytecodeValue::PendingAnd(_) | BytecodeValue::PendingOr(_) => true,
                    _ => false,
                };
                if !pending {
                    stack.pop();
                }
            }
            StepKind::Next
        },
        Opcode::PopJumpIfFalse => {
            if n >= 2 {
                let (l, _) = pop_two(stack);
                stack.push(BytecodeValue::PendingAnd(Box::new(l)));
            } else if n == 1 {
                let l = match stack.pop() {
                    Some(x) => x,
                    None => BytecodeValue::Null,
                };
                stack.push(BytecodeValue::PendingAnd(Box::new(l)));
                assert(stack@ =~= seq![BytecodeValue::PendingAnd(Box::new(s0[0]))]);
            }
            StepKind::Next
        },
        Opcode::PopJumpIfTrue => {
            if n >= 2 {
                let (l, _) = pop_two(stack);
                stack.push(BytecodeValue::PendingOr(Box::new(l)));
            } else if n == 1 {
                let l = match stack.pop() {
                    Some(x) => x,
                    None => BytecodeValue::Null,
                };
                stack.push(BytecodeValue::PendingOr(Box::new(l)));
                assert(stack@ =~= seq![BytecodeValue::PendingOr(Box::new(s0[0]))]);
            }
            StepKind::Next
        },
        Opcode::External => StepKind::Fail(AnalysisError::ExternalReference { opname: ins.opname.clone() }),
    }
}

/// Analyze a lambda from its disassembled instructions, when its source is
/// not available. `varnames` are the code object's local names (the
/// parameters first); field reads are attributed to `class_hint`.
pub fn analyze_lambda_bytecode(
    reg: &ClassRegistry,
    instrs: &Vec<Instruction>,
    varnames: &Vec<String>,
    class_hint: &String,
    fuel: u64,
) -> (res: Result<Expression, AnalysisError>)
    ensures
        res == spec_analyze_bytecode(*reg, instrs@, varnames@, *class_hint, fuel),
{
    let mut stack: Vec<BytecodeValue> = Vec::new();
    let n = instrs.len();
    let mut i: usize = 0;
    let mut stopped = false;
    while i < n && !stopped
        invariant
            n == instrs@.len(),
            i <= n,
            stopped ==> spec_run(*reg, instrs@, 0, varnames@, *class_hint, Seq::empty(), fuel) == Ok::<
                Seq<BytecodeValue>,
                AnalysisError,
            >(stack@),
            !stopped ==> spec_run(*reg, instrs@, 0, varnames@, *class_hint, Seq::empty(), fuel) == spec_run(
                *reg,
                instrs@,
                i as int,
                varnames@,
                *class_hint,
                stack@,
                fuel,
            ),
        decreases n - i,
    {
        match step_exec(reg, varnames, class_hint, &mut stack, &instrs[i], fuel) {
            StepKind::Fail(e) => {
                return Err(e);
            },
            StepKind::Stop => {
                stopped = true;
            },
            StepKind::Next => {},
        }
        i = i + 1;
    }
    let ghost s = stack@;
    let m = stack.len();
    if m >= 2 {
        let pending = match &stack[m - 2] {
            BytecodeValue::PendingAnd(_) | BytecodeValue::PendingOr(_) => true,
            _ => false,
        };
        if pending {
            let (p, right) = pop_two(&mut stack);
            match p {
                BytecodeValue::PendingAnd(l) => {
                    stack.push(BytecodeValue::And(l, Box::new(right)));
                },
                BytecodeValue::PendingOr(l) => {
                    stack.push(BytecodeValue::Or(l, Box::new(right)));
                },
                other => {
                    stack.push(other);
                    stack.push(right);
                },
            }
        }
    }
    assert(stack@ == settle_pending(s));
    match stack.pop() {
        None => Err(AnalysisError::BytecodeAnalysisFailed),
        Some(top) => bytecode_value_to_expression(reg, top),
    }
}

} // verus!

verus! {

/// Each of the six comparison operators of `COMPARE_OP` gives its own
/// comparison of the two operands in order (`<=` and `>=` being the ones
/// that hold on equal operands, `<` and `>` the ones that do not), and any
/// other operator gives nothing.
pub proof fn law_compare_operators(op: Seq<char>, l: BytecodeValue, r: BytecodeValue)
    ensures
        compare_value("<"@, l, r) == Some(BytecodeValue::Lt(Box::new(l), Box::new(r))),
        compare_value("<="@, l, r) == Some(BytecodeValue::Le(Box::new(l), Box::new(r))),
        compare_value("=="@, l, r) == Some(BytecodeValue::Eq(Box::new(l), Box::new(r))),
        compare_value("!="@, l, r) == Some(BytecodeValue::Ne(Box::new(l), Box::new(r))),
        compare_value(">"@, l, r) == Some(BytecodeValue::Gt(Box::new(l), Box::new(r))),
        compare_value(">="@, l, r) == Some(BytecodeValue::Ge(Box::new(l), Box::new(r))),
        op != "<"@ && op != "<="@ && op != "=="@ && op != "!="@ && op != ">"@ && op != ">="@ ==> compare_value(op, l, r)
            is None,
{
    reveal_strlit("<");
    reveal_strlit("<=");
    reveal_strlit("==");
    reveal_strlit("!=");
    reveal_strlit(">");
    reveal_strlit(">=");
    assert("<"@.len() == 1 && ">"@.len() == 1 && "<="@.len() == 2 && ">="@.len() == 2 && "=="@.len() == 2 && "!="@.len() == 2);
    assert("<"@ != "<="@ && "<"@ != "=="@ && "<"@ != "!="@ && "<"@ != ">"@ && "<"@ != ">="@) by {
        assert("<"@[0] != ">"@[0]);
    }
    assert("<="@ != "=="@ && "<="@ != "!="@ && "<="@ != ">"@ && "<="@ != ">="@) by {
        assert("<="@[0] != "=="@[0] && "<="@[0] != "!="@[0] && "<="@[0] != ">="@[0]);
    }
    assert("=="@ != "!="@ && "=="@ != ">"@ && "=="@ != ">="@) by {
        assert("=="@[0] != "!="@[0] && "=="@[0] != ">="@[0]);
    }
    assert("!="@ != ">"@ && "!="@ != ">="@) by {
        assert("!="@[0] != ">="@[0]);
    }
    assert(">"@ != ">="@);
}

/// `BINARY_OP` with Python's operator numbers: 0 is `+`, 10 is `-`, 5 is
/// `*` and 11 is `/`, each on the two operands in order; other numbers give
/// nothing.
pub proof fn law_arithmetic_opcodes(idx: i64, l: BytecodeValue, r: BytecodeValue)
    ensures
        arith_value(0, l, r) == Some(BytecodeValue::Add(Box::new(l), Box::new(r))),
        arith_value(10, l, r) == Some(BytecodeValue::Sub(Box::new(l), Box::new(r))),
        arith_value(5, l, r) == Some(BytecodeValue::Mul(Box::new(l), Box::new(r))),
        arith_value(11, l, r) == Some(BytecodeValue::Div(Box::new(l), Box::new(r))),
        idx != 0 && idx != 10 && idx != 5 && idx != 11 ==> arith_value(idx, l, r) is None,
{
}

} // verus!
