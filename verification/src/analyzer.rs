//! Conversion of Python syntax to expression trees.
//!
//! Types are inferred from the syntax first, then each node is converted once
//! with the type its context expects, so literals come out with the right
//! width. Method calls and property reads on registered classes are inlined
//! by analyzing the method's body, with `self` as parameter 0.
//!
//! Every step spends one unit of a depth budget (`fuel`); when it runs out,
//! the analysis stops with [`AnalysisError::DepthExceeded`]. An expression
//! without calls or inlined properties needs at most three units per level
//! of nesting (`law_plain_expression_within_budget`).

use vstd::prelude::*;
use crate::classes::{
    ClassAttr, ClassRegistry, MethodSource, spec_get_class, spec_attr_of, spec_get_class_constant,
    spec_infer_expression_class, spec_wasm_field_type, spec_get_method, get_class, attr_of,
    get_class_constant, infer_expression_class, get_wasm_field_type, get_method_from_class,
};
use crate::error::AnalysisError;
use crate::expr::{
    BinaryOp, Expression, FloatConst, UnaryOp, bin, un, ite, ite64, mk_bin, mk_un, mk_ite, mk_ite64,
    clone_expr, spec_substitute, substitute_param, spec_infer_expression_type, infer_expression_type,
};
use crate::infer::{spec_infer_ast_type, infer_ast_type};
use crate::pyast::{BinOpKind, BoolOpKind, CmpOp, Constant, Keyword, PyExpr, PyStmt, UnaryOpKind};
use crate::text::string_eq_str;
use crate::types::{ExpectedType, InferredType, spec_promote};

verus! {

/// The outcome of converting one node: an expression, `None` when the node
/// is of a kind the analyzer leaves alone, or a refusal.
pub type ConvResult = Result<Option<Expression>, AnalysisError>;

// ---------------------------------------------------------------------------
// Names and literals
// ---------------------------------------------------------------------------

/// Position of the first argument at or after `i` named `id`.
pub open spec fn arg_position(args: Seq<String>, id: Seq<char>, i: int) -> Option<int>
    decreases args.len() - i,
{
    if i < 0 || i >= args.len() {
        None
    } else if args[i]@ == id {
        Some(i)
    } else {
        arg_position(args, id, i + 1)
    }
}

/// Find the position of a parameter name.
pub fn find_arg(args: &Vec<String>, id: &String) -> (res: Option<usize>)
    ensures
        match res {
            Some(i) => arg_position(args@, id@, 0) == Some(i as int) && i < args@.len(),
            None => arg_position(args@, id@, 0) is None,
        },
{
    let n = args.len();
    let mut i: usize = 0;
    while i < n
        invariant
            n == args@.len(),
            i <= n,
            arg_position(args@, id@, 0) == arg_position(args@, id@, i as int),
        decreases n - i,
    {
        if args[i] == *id {
            return Some(i);
        }
        i = i + 1;
    }
    None
}

/// A name: a parameter, `None`, `True`, `False`, or nothing the analyzer
/// reads.
pub open spec fn spec_convert_name(args: Seq<String>, id: String) -> Option<Expression> {
    match arg_position(args, id@, 0) {
        Some(i) => Some(Expression::Param { index: i as u32 }),
        None => if id@ == "None"@ {
            Some(Expression::Null)
        } else if id@ == "True"@ {
            Some(Expression::BoolLiteral { value: true })
        } else if id@ == "False"@ {
            Some(Expression::BoolLiteral { value: false })
        } else {
            None
        },
    }
}

pub(crate) fn convert_name(args: &Vec<String>, id: &String) -> (res: Option<Expression>)
    ensures
        res == spec_convert_name(args@, *id),
{
    match find_arg(args, id) {
        Some(i) => Some(Expression::Param { index: i as u32 }),
        None => if string_eq_str(id, "None") {
            Some(Expression::Null)
        } else if string_eq_str(id, "True") {
            Some(Expression::BoolLiteral { value: true })
        } else if string_eq_str(id, "False") {
            Some(Expression::BoolLiteral { value: false })
        } else {
            None
        },
    }
}

/// A literal, with integers typed by what the context expects.
pub open spec fn spec_convert_constant(c: Constant, expected: ExpectedType) -> Option<Expression> {
    match c {
        Constant::NoneValue => Some(Expression::Null),
        Constant::Bool { value } => Some(Expression::BoolLiteral { value }),
        Constant::Int { value } => match expected {
            ExpectedType::I64 => Some(Expression::Int64Literal { value }),
            ExpectedType::F64 => Some(Expression::FloatLiteral { value: FloatConst::FromInt(value) }),
            _ => Some(Expression::IntLiteral { value }),
        },
        Constant::BigInt { as_float } => match as_float {
            Some(bits) => Some(Expression::FloatLiteral { value: FloatConst::Bits(bits) }),
            None => None,
        },
        Constant::Float { bits } => Some(Expression::FloatLiteral { value: FloatConst::Bits(bits) }),
        Constant::Str { value } => Some(Expression::StringLiteral { value }),
        Constant::Other => None,
    }
}

/// Convert a Python literal to an expression.
pub fn convert_constant_to_expression(c: &Constant, expected: ExpectedType) -> (res: Option<Expression>)
    ensures
        res == spec_convert_constant(*c, expected),
{
    match c {
        Constant::NoneValue => Some(Expression::Null),
        Constant::Bool { value } => Some(Expression::BoolLiteral { value: *value }),
        Constant::Int { value } => match expected {
            ExpectedType::I64 => Some(Expression::Int64Literal { value: *value }),
            ExpectedType::F64 => Some(Expression::FloatLiteral { value: FloatConst::FromInt(*value) }),
            _ => Some(Expression::IntLiteral { value: *value }),
        },
        Constant::BigInt { as_float } => match as_float {
            Some(bits) => Some(Expression::FloatLiteral { value: FloatConst::Bits(*bits) }),
            None => None,
        },
        Constant::Float { bits } => Some(Expression::FloatLiteral { value: FloatConst::Bits(*bits) }),
        Constant::Str { value } => Some(Expression::StringLiteral { value: value.clone() }),
        Constant::Other => None,
    }
}

/// The expected type matching an inferred type (numbers only).
pub open spec fn expected_for(t: InferredType) -> ExpectedType {
    match t {
        InferredType::I32 => ExpectedType::I32,
        InferredType::I64 => ExpectedType::I64,
        InferredType::F64 => ExpectedType::F64,
        _ => ExpectedType::Any,
    }
}

pub(crate) fn expected_for_exec(t: InferredType) -> (res: ExpectedType)
    ensures
        res == expected_for(t),
{
    match t {
        InferredType::I32 => ExpectedType::I32,
        InferredType::I64 => ExpectedType::I64,
        InferredType::F64 => ExpectedType::F64,
        _ => ExpectedType::Any,
    }
}

/// The comparison node for a comparison operator, in 32- or 64-bit form;
/// `is` / `is not` against `None` become null checks.
pub open spec fn compare_node(op: CmpOp, use_i64: bool, l: Expression, r: Expression) -> Option<Expression> {
    match op {
        CmpOp::Eq => Some(bin(if use_i64 { BinaryOp::Eq64 } else { BinaryOp::Eq }, l, r)),
        CmpOp::NotEq => Some(bin(if use_i64 { BinaryOp::Ne64 } else { BinaryOp::Ne }, l, r)),
        CmpOp::Lt => Some(bin(if use_i64 { BinaryOp::Lt64 } else { BinaryOp::Lt }, l, r)),
        CmpOp::LtE => Some(bin(if use_i64 { BinaryOp::Le64 } else { BinaryOp::Le }, l, r)),
        CmpOp::Gt => Some(bin(if use_i64 { BinaryOp::Gt64 } else { BinaryOp::Gt }, l, r)),
        CmpOp::GtE => Some(bin(if use_i64 { BinaryOp::Ge64 } else { BinaryOp::Ge }, l, r)),
        CmpOp::Is => if r is Null {
            Some(un(UnaryOp::IsNull, l))
        } else {
            Some(bin(if use_i64 { BinaryOp::Eq64 } else { BinaryOp::Eq }, l, r))
        },
        CmpOp::IsNot => if r is Null {
            Some(un(UnaryOp::IsNotNull, l))
        } else {
            Some(bin(if use_i64 { BinaryOp::Ne64 } else { BinaryOp::Ne }, l, r))
        },
        _ => None,
    }
}

pub(crate) fn compare_node_exec(op: CmpOp, use_i64: bool, l: Expression, r: Expression) -> (res: Option<Expression>)
    ensures
        res == compare_node(op, use_i64, l, r),
{
    match op {
        CmpOp::Eq => Some(mk_bin(if use_i64 { BinaryOp::Eq64 } else { BinaryOp::Eq }, l, r)),
        CmpOp::NotEq => Some(mk_bin(if use_i64 { BinaryOp::Ne64 } else { BinaryOp::Ne }, l, r)),
        CmpOp::Lt => Some(mk_bin(if use_i64 { BinaryOp::Lt64 } else { BinaryOp::Lt }, l, r)),
        CmpOp::LtE => Some(mk_bin(if use_i64 { BinaryOp::Le64 } else { BinaryOp::Le }, l, r)),
        CmpOp::Gt => Some(mk_bin(if use_i64 { BinaryOp::Gt64 } else { BinaryOp::Gt }, l, r)),
        CmpOp::GtE => Some(mk_bin(if use_i64 { BinaryOp::Ge64 } else { BinaryOp::Ge }, l, r)),
        CmpOp::Is => if matches!(r, Expression::Null) {
            Some(mk_un(UnaryOp::IsNull, l))
        } else {
            Some(mk_bin(if use_i64 { BinaryOp::Eq64 } else { BinaryOp::Eq }, l, r))
        },
        CmpOp::IsNot => if matches!(r, Expression::Null) {
            Some(mk_un(UnaryOp::IsNotNull, l))
        } else {
            Some(mk_bin(if use_i64 { BinaryOp::Ne64 } else { BinaryOp::Ne }, l, r))
        },
        _ => None,
    }
}

/// The arithmetic node for an operator at a promoted type: `/` is always
/// float division, `//` is integer division.
pub open spec fn binop_node(op: BinOpKind, promoted: InferredType, l: Expression, r: Expression) -> Option<Expression> {
    let use_float = promoted == InferredType::F64;
    let use_i64 = promoted == InferredType::I64;
    match op {
        BinOpKind::Add => Some(bin(
            if use_float { BinaryOp::FloatAdd } else if use_i64 { BinaryOp::Add64 } else { BinaryOp::Add },
            l,
            r,
        )),
        BinOpKind::Sub => Some(bin(
            if use_float { BinaryOp::FloatSub } else if use_i64 { BinaryOp::Sub64 } else { BinaryOp::Sub },
            l,
            r,
        )),
        BinOpKind::Mult => Some(bin(
            if use_float { BinaryOp::FloatMul } else if use_i64 { BinaryOp::Mul64 } else { BinaryOp::Mul },
            l,
            r,
        )),
        BinOpKind::Div => Some(bin(BinaryOp::FloatDiv, l, r)),
        BinOpKind::FloorDiv => Some(bin(if use_i64 { BinaryOp::Div64 } else { BinaryOp::Div }, l, r)),
        _ => None,
    }
}

pub(crate) fn binop_node_exec(op: BinOpKind, promoted: InferredType, l: Expression, r: Expression) -> (res: Option<Expression>)
    ensures
        res == binop_node(op, promoted, l, r),
{
    let use_float = promoted == InferredType::F64;
    let use_i64 = promoted == InferredType::I64;
    match op {
        BinOpKind::Add => Some(mk_bin(
            if use_float { BinaryOp::FloatAdd } else if use_i64 { BinaryOp::Add64 } else { BinaryOp::Add },
            l,
            r,
        )),
        BinOpKind::Sub => Some(mk_bin(
            if use_float { BinaryOp::FloatSub } else if use_i64 { BinaryOp::Sub64 } else { BinaryOp::Sub },
            l,
            r,
        )),
        BinOpKind::Mult => Some(mk_bin(
            if use_float { BinaryOp::FloatMul } else if use_i64 { BinaryOp::Mul64 } else { BinaryOp::Mul },
            l,
            r,
        )),
        BinOpKind::Div => Some(mk_bin(BinaryOp::FloatDiv, l, r)),
        BinOpKind::FloorDiv => Some(mk_bin(if use_i64 { BinaryOp::Div64 } else { BinaryOp::Div }, l, r)),
        _ => None,
    }
}

/// The unary node for an operator at a type: negation is `0 - x` in the
/// operand's width.
pub open spec fn unary_node(op: UnaryOpKind, actual: InferredType, e: Expression) -> Option<Expression> {
    match op {
        UnaryOpKind::Not => Some(un(UnaryOp::Not, e)),
        UnaryOpKind::USub => Some(
            if actual == InferredType::I64 {
                bin(BinaryOp::Sub64, Expression::Int64Literal { value: 0 }, e)
            } else if actual == InferredType::F64 {
                bin(BinaryOp::FloatSub, Expression::FloatLiteral { value: FloatConst::Bits(0) }, e)
            } else {
                bin(BinaryOp::Sub, Expression::IntLiteral { value: 0 }, e)
            },
        ),
        _ => None,
    }
}

pub(crate) fn unary_node_exec(op: UnaryOpKind, actual: InferredType, e: Expression) -> (res: Option<Expression>)
    ensures
        res == unary_node(op, actual, e),
{
    match op {
        UnaryOpKind::Not => Some(mk_un(UnaryOp::Not, e)),
        UnaryOpKind::USub => Some(
            if actual == InferredType::I64 {
                mk_bin(BinaryOp::Sub64, Expression::Int64Literal { value: 0 }, e)
            } else if actual == InferredType::F64 {
                mk_bin(BinaryOp::FloatSub, Expression::FloatLiteral { value: FloatConst::Bits(0) }, e)
            } else {
                mk_bin(BinaryOp::Sub, Expression::IntLiteral { value: 0 }, e)
            },
        ),
        _ => None,
    }
}

/// The math function node for `math.<name>(args)`, when the name and arity
/// are known.
pub open spec fn math_node(name: Seq<char>, a: Seq<Expression>) -> Option<Expression> {
    if a.len() == 1 {
        if name == "sin"@ { Some(un(UnaryOp::Sin, a[0])) }
        else if name == "cos"@ { Some(un(UnaryOp::Cos, a[0])) }
        else if name == "sqrt"@ { Some(un(UnaryOp::Sqrt, a[0])) }
        else if name == "asin"@ { Some(un(UnaryOp::Asin, a[0])) }
        else if name == "acos"@ { Some(un(UnaryOp::Acos, a[0])) }
        else if name == "atan"@ { Some(un(UnaryOp::Atan, a[0])) }
        else if name == "radians"@ { Some(un(UnaryOp::Radians, a[0])) }
        else if name == "floor"@ { Some(un(UnaryOp::Floor, a[0])) }
        else if name == "ceil"@ { Some(un(UnaryOp::Ceil, a[0])) }
        else if name == "fabs"@ { Some(un(UnaryOp::FloatAbs, a[0])) }
        else { None }
    } else if a.len() == 2 && name == "atan2"@ {
        Some(bin(BinaryOp::Atan2, a[0], a[1]))
    } else {
        None
    }
}

pub(crate) fn math_node_exec(name: &String, mut a: Vec<Expression>) -> (res: Option<Expression>)
    ensures
        res == math_node(name@, a@),
{
    if a.len() == 1 {
        let x = a.pop().unwrap();
        if string_eq_str(name, "sin") { Some(mk_un(UnaryOp::Sin, x)) }
        else if string_eq_str(name, "cos") { Some(mk_un(UnaryOp::Cos, x)) }
        else if string_eq_str(name, "sqrt") { Some(mk_un(UnaryOp::Sqrt, x)) }
        else if string_eq_str(name, "asin") { Some(mk_un(UnaryOp::Asin, x)) }
        else if string_eq_str(name, "acos") { Some(mk_un(UnaryOp::Acos, x)) }
        else if string_eq_str(name, "atan") { Some(mk_un(UnaryOp::Atan, x)) }
        else if string_eq_str(name, "radians") { Some(mk_un(UnaryOp::Radians, x)) }
        else if string_eq_str(name, "floor") { Some(mk_un(UnaryOp::Floor, x)) }
        else if string_eq_str(name, "ceil") { Some(mk_un(UnaryOp::Ceil, x)) }
        else if string_eq_str(name, "fabs") { Some(mk_un(UnaryOp::FloatAbs, x)) }
        else { None }
    } else if a.len() == 2 && string_eq_str(name, "atan2") {
        let x = a.pop().unwrap();
        let y = a.pop().unwrap();
        Some(mk_bin(BinaryOp::Atan2, y, x))
    } else {
        None
    }
}

} // verus!

verus! {

// ---------------------------------------------------------------------------
// Pure helpers for calls
// ---------------------------------------------------------------------------

/// Left-nested chain of `and` / `or` over `es[i..]`, starting from `acc`.
pub open spec fn chain_from(op: BoolOpKind, es: Seq<Expression>, i: int, acc: Expression) -> Expression
    decreases es.len() - i,
{
    if i < 0 || i >= es.len() {
        acc
    } else {
        chain_from(
            op,
            es,
            i + 1,
            bin(if op == BoolOpKind::And { BinaryOp::And } else { BinaryOp::Or }, acc, es[i]),
        )
    }
}

/// The common type of a list of argument types (32-bit when empty).
pub open spec fn promote_all(ts: Seq<InferredType>) -> InferredType {
    if ts.len() == 0 {
        InferredType::I32
    } else {
        promote_from(ts, 1, ts[0])
    }
}

/// Fold of `spec_promote` over `ts[i..]`, starting from `acc`.
pub open spec fn promote_from(ts: Seq<InferredType>, i: int, acc: InferredType) -> InferredType
    decreases ts.len() - i,
{
    if i < 0 || i >= ts.len() {
        acc
    } else {
        promote_from(ts, i + 1, spec_promote(acc, ts[i]))
    }
}

/// The inferred types of call arguments.
pub open spec fn arg_types(reg: ClassRegistry, cargs: Seq<PyExpr>, args: Seq<String>, hint: String) -> Seq<InferredType> {
    Seq::new(cargs.len(), |i: int| spec_infer_ast_type(reg, cargs[i], args, hint))
}

/// The integer a literal keyword value reads as (`True` is 1).
pub open spec fn constant_int(c: Constant) -> Option<i64> {
    match c {
        Constant::Int { value } => Some(value),
        Constant::Bool { value } => Some(if value { 1i64 } else { 0i64 }),
        _ => None,
    }
}

/// Whether an expression node has a `value` attribute in Python's syntax
/// tree.
pub open spec fn has_value_attribute(e: PyExpr) -> bool {
    e is Constant || e is Attribute || e is Subscript || e is OtherWithValue
}

/// The integer keyword arguments of a call, in order: literal integers and
/// negated literal integers; other values are skipped, except that a negated
/// operand without a `value` attribute is refused.
pub open spec fn keyword_ints(kws: Seq<Keyword>, i: int, acc: Seq<(String, i64)>) -> Result<Seq<(String, i64)>, AnalysisError>
    decreases kws.len() - i,
{
    if i < 0 || i >= kws.len() {
        Ok(acc)
    } else {
        match kws[i].arg {
            None => keyword_ints(kws, i + 1, acc),
            Some(name) => match kws[i].value {
                PyExpr::Constant { value } => match constant_int(value) {
                    Some(v) => keyword_ints(kws, i + 1, acc.push((name, v))),
                    None => keyword_ints(kws, i + 1, acc),
                },
                PyExpr::UnaryOp { op, operand } => if op == UnaryOpKind::USub {
                    if !has_value_attribute(*operand) {
                        Err(AnalysisError::UnsupportedExpression)
                    } else {
                        match *operand {
                            PyExpr::Constant { value } => match constant_int(value) {
                                Some(v) => keyword_ints(
                                    kws,
                                    i + 1,
                                    acc.push((name, vstd::wrapping::i64_specs::wrapping_sub(0, v))),
                                ),
                                None => keyword_ints(kws, i + 1, acc),
                            },
                            _ => keyword_ints(kws, i + 1, acc),
                        }
                    }
                } else {
                    keyword_ints(kws, i + 1, acc)
                },
                _ => keyword_ints(kws, i + 1, acc),
            },
        }
    }
}

/// Seconds per unit of a `timedelta` keyword (0 for unknown keywords).
pub open spec fn seconds_per(name: Seq<char>) -> i64 {
    if name == "days"@ {
        86400
    } else if name == "hours"@ {
        3600
    } else if name == "minutes"@ {
        60
    } else if name == "seconds"@ {
        1
    } else {
        0
    }
}

/// Total seconds of `timedelta(**kws)` over `kws[i..]`, in wrapping 64-bit
/// arithmetic, starting from `acc`.
pub open spec fn timedelta_from(kws: Seq<(String, i64)>, i: int, acc: i64) -> i64
    decreases kws.len() - i,
{
    if i < 0 || i >= kws.len() {
        acc
    } else {
        let per = seconds_per(kws[i].0@);
        let next = if per == 0 {
            acc
        } else {
            vstd::wrapping::i64_specs::wrapping_add(
                acc,
                vstd::wrapping::i64_specs::wrapping_mul(kws[i].1, per),
            )
        };
        timedelta_from(kws, i + 1, next)
    }
}

/// The node for a built-in call `name(es)`.
pub open spec fn builtin_node(name: String, es: Seq<Expression>, use_i64: bool, kws: Seq<(String, i64)>) -> ConvResult {
    let n = name@;
    if n == "max"@ && es.len() == 2 {
        Ok(Some(if use_i64 {
            ite64(bin(BinaryOp::Gt64, es[0], es[1]), es[0], es[1])
        } else {
            ite(bin(BinaryOp::Gt, es[0], es[1]), es[0], es[1])
        }))
    } else if n == "min"@ && es.len() == 2 {
        Ok(Some(if use_i64 {
            ite64(bin(BinaryOp::Lt64, es[0], es[1]), es[0], es[1])
        } else {
            ite(bin(BinaryOp::Lt, es[0], es[1]), es[0], es[1])
        }))
    } else if n == "abs"@ && es.len() == 1 {
        Ok(Some(if use_i64 {
            ite64(
                bin(BinaryOp::Lt64, es[0], Expression::Int64Literal { value: 0 }),
                bin(BinaryOp::Mul64, Expression::Int64Literal { value: -1i64 }, es[0]),
                es[0],
            )
        } else {
            ite(
                bin(BinaryOp::Lt, es[0], Expression::IntLiteral { value: 0 }),
                bin(BinaryOp::Mul, Expression::IntLiteral { value: -1i64 }, es[0]),
                es[0],
            )
        }))
    } else if n == "len"@ && es.len() == 1 {
        Ok(Some(un(UnaryOp::Length, es[0])))
    } else if n == "round"@ && es.len() == 1 {
        Ok(Some(un(UnaryOp::Round, es[0])))
    } else if n == "int"@ && es.len() == 1 {
        Ok(Some(un(UnaryOp::FloatToInt, es[0])))
    } else if n == "float"@ && es.len() == 1 {
        Ok(Some(un(UnaryOp::IntToFloat, es[0])))
    } else if n == "timedelta"@ {
        Ok(Some(Expression::Int64Literal { value: timedelta_from(kws, 0, 0) }))
    } else {
        Err(AnalysisError::UnsupportedFunctionCall { name })
    }
}

/// `e` with parameters `i + 1, i + 2, ...` replaced by `cargs[i], cargs[i + 1], ...`.
pub open spec fn subst_all(e: Expression, cargs: Seq<Expression>, i: int) -> Expression
    decreases cargs.len() - i,
{
    if i < 0 || i >= cargs.len() {
        e
    } else {
        subst_all(spec_substitute(e, (i + 1) as u32, cargs[i]), cargs, i + 1)
    }
}

/// Index of the first function definition at or after `i`.
pub open spec fn first_function_def(stmts: Seq<PyStmt>, i: int) -> Option<int>
    decreases stmts.len() - i,
{
    if i < 0 || i >= stmts.len() {
        None
    } else if stmts[i] is FunctionDef {
        Some(i)
    } else {
        first_function_def(stmts, i + 1)
    }
}

/// A field read typed by the registry.
pub open spec fn field_read(reg: ClassRegistry, object: Expression, class_name: String, field: String) -> Expression {
    Expression::FieldAccess {
        object: Box::new(object),
        class_name,
        field_name: field,
        field_type: spec_wasm_field_type(reg, class_name@, field@),
    }
}

} // verus!

verus! {

// ---------------------------------------------------------------------------
// The conversion, as mutually recursive definitions
// ---------------------------------------------------------------------------

/// The conversion of a Python expression in the context of the parameter
/// names `args` and the class hint `hint` (the class of parameter 0).
pub open spec fn spec_convert(
    reg: ClassRegistry,
    node: PyExpr,
    args: Seq<String>,
    hint: String,
    expected: ExpectedType,
    fuel: u64,
) -> ConvResult
    decreases fuel, 0int,
{
    if fuel == 0 {
        Err(AnalysisError::DepthExceeded)
    } else {
        let f = (fuel - 1) as u64;
        match node {
            PyExpr::Attribute { value, attr } => match spec_convert(reg, *value, args, hint, ExpectedType::Any, f) {
                Err(e) => Err(e),
                Ok(None) => Ok(None),
                Ok(Some(base)) => spec_convert_attribute(reg, base, attr, hint, f),
            },
            PyExpr::Name { id } => Ok(spec_convert_name(args, id)),
            PyExpr::Compare { left, ops, comparators } => spec_convert_compare(
                reg,
                *left,
                ops@,
                comparators@,
                args,
                hint,
                f,
            ),
            PyExpr::BoolOp { op, values } => spec_convert_boolop(reg, op, values@, args, hint, f),
            PyExpr::UnaryOp { op, operand } => spec_convert_unary(reg, op, *operand, args, hint, expected, f),
            PyExpr::BinOp { op, left, right } => spec_convert_binop(reg, op, *left, *right, args, hint, f),
            PyExpr::Constant { value } => Ok(spec_convert_constant(value, expected)),
            PyExpr::Call { func, args: cargs, keywords } => spec_convert_call(
                reg,
                *func,
                cargs@,
                keywords@,
                args,
                hint,
                f,
            ),
            _ => Ok(None),
        }
    }
}

/// A field read on a converted base: a class constant when the base is a
/// parameter, an inlined property, or a typed field access.
pub open spec fn spec_convert_attribute(reg: ClassRegistry, base: Expression, attr: String, hint: String, fuel: u64) -> ConvResult
    decreases fuel, 0int,
{
    if fuel == 0 {
        Err(AnalysisError::DepthExceeded)
    } else {
        let f = (fuel - 1) as u64;
        let constant = if base is Param {
            spec_get_class_constant(reg, hint, attr)
        } else {
            Ok(None)
        };
        match constant {
            Err(e) => Err(e),
            Ok(Some(c)) => Ok(Some(c)),
            Ok(None) => {
                let obj_class = match spec_infer_expression_class(reg, base, hint) {
                    Some(c) => c,
                    None => hint,
                };
                match spec_inline_property(reg, obj_class, attr, base, f) {
                    Err(e) => Err(e),
                    Ok(Some(x)) => Ok(Some(x)),
                    Ok(None) => Ok(Some(field_read(reg, base, obj_class, attr))),
                }
            },
        }
    }
}

/// The inlined getter of property `prop` of class `class_name` applied to
/// `base`, `None` when it is no property.
pub open spec fn spec_inline_property(reg: ClassRegistry, class_name: String, prop: String, base: Expression, fuel: u64) -> ConvResult
    decreases fuel, 0int,
{
    if fuel == 0 {
        Err(AnalysisError::DepthExceeded)
    } else {
        let f = (fuel - 1) as u64;
        match spec_get_class(reg, class_name@) {
            None => Ok(None),
            Some(c) => match spec_attr_of(c, prop@) {
                Some(ClassAttr::Property { getter, .. }) => match getter {
                    None => Err(AnalysisError::PropertyWithoutGetter { class_name, property_name: prop }),
                    Some(src) => match spec_analyze_method_body(reg, src, class_name, f) {
                        Err(e) => Err(e),
                        Ok(body) => Ok(Some(spec_substitute(body, 0, base))),
                    },
                },
                _ => Ok(None),
            },
        }
    }
}

/// A comparison `left op right` with one operator, typed by promotion.
pub open spec fn spec_convert_compare(
    reg: ClassRegistry,
    left: PyExpr,
    ops: Seq<CmpOp>,
    comps: Seq<PyExpr>,
    args: Seq<String>,
    hint: String,
    fuel: u64,
) -> ConvResult
    decreases fuel, 0int,
{
    if fuel == 0 {
        Err(AnalysisError::DepthExceeded)
    } else if ops.len() != 1 || comps.len() != 1 {
        Ok(None)
    } else {
        let f = (fuel - 1) as u64;
        let lt = spec_infer_ast_type(reg, left, args, hint);
        let rt = spec_infer_ast_type(reg, comps[0], args, hint);
        let use_i64 = spec_promote(lt, rt) == InferredType::I64;
        let ex = if use_i64 { ExpectedType::I64 } else { ExpectedType::Any };
        match spec_convert(reg, left, args, hint, ex, f) {
            Err(e) => Err(e),
            Ok(l) => match spec_convert(reg, comps[0], args, hint, ex, f) {
                Err(e) => Err(e),
                Ok(r) => match (l, r) {
                    (Some(l), Some(r)) => Ok(compare_node(ops[0], use_i64, l, r)),
                    _ => Ok(None),
                },
            },
        }
    }
}

/// Conversion of `vals[i..]` in order, appended to `acc`; `None` as soon as
/// one is left alone.
pub open spec fn spec_convert_list(
    reg: ClassRegistry,
    vals: Seq<PyExpr>,
    i: int,
    acc: Seq<Expression>,
    args: Seq<String>,
    hint: String,
    expected: ExpectedType,
    fuel: u64,
) -> Result<Option<Seq<Expression>>, AnalysisError>
    decreases fuel, vals.len() - i,
{
    if fuel == 0 {
        Err(AnalysisError::DepthExceeded)
    } else if i < 0 || i >= vals.len() {
        Ok(Some(acc))
    } else {
        match spec_convert(reg, vals[i], args, hint, expected, (fuel - 1) as u64) {
            Err(e) => Err(e),
            Ok(None) => Ok(None),
            Ok(Some(e)) => spec_convert_list(reg, vals, i + 1, acc.push(e), args, hint, expected, fuel),
        }
    }
}

/// `a and b and ...` / `a or b or ...` as a left-nested chain.
pub open spec fn spec_convert_boolop(
    reg: ClassRegistry,
    op: BoolOpKind,
    values: Seq<PyExpr>,
    args: Seq<String>,
    hint: String,
    fuel: u64,
) -> ConvResult
    decreases fuel, 0int,
{
    if fuel == 0 {
        Err(AnalysisError::DepthExceeded)
    } else if values.len() < 2 {
        Ok(None)
    } else {
        match spec_convert_list(reg, values, 0, Seq::empty(), args, hint, ExpectedType::Any, (fuel - 1) as u64) {
            Err(e) => Err(e),
            Ok(None) => Ok(None),
            Ok(Some(es)) => Ok(Some(chain_from(op, es, 1, es[0]))),
        }
    }
}

/// A unary operation; the context's expected type, else the operand's
/// inferred type, decides the width of a negation.
pub open spec fn spec_convert_unary(
    reg: ClassRegistry,
    op: UnaryOpKind,
    operand: PyExpr,
    args: Seq<String>,
    hint: String,
    expected: ExpectedType,
    fuel: u64,
) -> ConvResult
    decreases fuel, 0int,
{
    if fuel == 0 {
        Err(AnalysisError::DepthExceeded)
    } else {
        let ot = spec_infer_ast_type(reg, operand, args, hint);
        let actual = match expected {
            ExpectedType::I32 => InferredType::I32,
            ExpectedType::I64 => InferredType::I64,
            ExpectedType::F64 => InferredType::F64,
            ExpectedType::Any => ot,
        };
        match spec_convert(reg, operand, args, hint, expected_for(actual), (fuel - 1) as u64) {
            Err(e) => Err(e),
            Ok(None) => Ok(None),
            Ok(Some(e)) => Ok(unary_node(op, actual, e)),
        }
    }
}

/// A binary arithmetic operation at the promoted type of its operands.
pub open spec fn spec_convert_binop(
    reg: ClassRegistry,
    op: BinOpKind,
    left: PyExpr,
    right: PyExpr,
    args: Seq<String>,
    hint: String,
    fuel: u64,
) -> ConvResult
    decreases fuel, 0int,
{
    if fuel == 0 {
        Err(AnalysisError::DepthExceeded)
    } else {
        let f = (fuel - 1) as u64;
        let lt = spec_infer_ast_type(reg, left, args, hint);
        let rt = spec_infer_ast_type(reg, right, args, hint);
        let promoted = if op == BinOpKind::Div { InferredType::F64 } else { spec_promote(lt, rt) };
        let ex = expected_for(promoted);
        match spec_convert(reg, left, args, hint, ex, f) {
            Err(e) => Err(e),
            Ok(l) => match spec_convert(reg, right, args, hint, ex, f) {
                Err(e) => Err(e),
                Ok(r) => match (l, r) {
                    (Some(l), Some(r)) => Ok(binop_node(op, promoted, l, r)),
                    _ => Ok(None),
                },
            },
        }
    }
}

/// A call: `math.f(..)`, a method call `obj.m(..)`, or a built-in `f(..)`.
pub open spec fn spec_convert_call(
    reg: ClassRegistry,
    func: PyExpr,
    cargs: Seq<PyExpr>,
    keywords: Seq<Keyword>,
    args: Seq<String>,
    hint: String,
    fuel: u64,
) -> ConvResult
    decreases fuel, 0int,
{
    if fuel == 0 {
        Err(AnalysisError::DepthExceeded)
    } else {
        let f = (fuel - 1) as u64;
        match func {
            PyExpr::Attribute { value, attr } => if (*value matches PyExpr::Name { id } && id@ == "math"@) {
                spec_convert_math(reg, attr, cargs, args, hint, f)
            } else {
                spec_convert_method_call(reg, *value, attr, cargs, args, hint, f)
            },
            PyExpr::Name { id } => spec_convert_builtin(reg, id, cargs, keywords, args, hint, f),
            _ => Ok(None),
        }
    }
}

/// `math.name(cargs)`, with float arguments.
pub open spec fn spec_convert_math(
    reg: ClassRegistry,
    name: String,
    cargs: Seq<PyExpr>,
    args: Seq<String>,
    hint: String,
    fuel: u64,
) -> ConvResult
    decreases fuel, 0int,
{
    if fuel == 0 {
        Err(AnalysisError::DepthExceeded)
    } else {
        match spec_convert_list(reg, cargs, 0, Seq::empty(), args, hint, ExpectedType::F64, (fuel - 1) as u64) {
            Err(e) => Err(e),
            Ok(None) => Ok(None),
            Ok(Some(es)) => match math_node(name@, es) {
                Some(x) => Ok(Some(x)),
                None => Err(AnalysisError::UnsupportedMathFunction { name }),
            },
        }
    }
}

/// `obj.method(cargs)`: a timedelta's `total_seconds()` is the value itself;
/// otherwise the method of the receiver's class is inlined, with the
/// receiver for parameter 0 and the arguments for parameters 1, 2, ...
pub open spec fn spec_convert_method_call(
    reg: ClassRegistry,
    value: PyExpr,
    method: String,
    cargs: Seq<PyExpr>,
    args: Seq<String>,
    hint: String,
    fuel: u64,
) -> ConvResult
    decreases fuel, 0int,
{
    if fuel == 0 {
        Err(AnalysisError::DepthExceeded)
    } else {
        let f = (fuel - 1) as u64;
        match spec_convert(reg, value, args, hint, ExpectedType::Any, f) {
            Err(e) => Err(e),
            Ok(None) => Ok(None),
            Ok(Some(obj)) => if spec_infer_expression_type(obj) == InferredType::I64 && method@
                == "total_seconds"@ {
                Ok(Some(obj))
            } else {
                let obj_class = match spec_infer_expression_class(reg, obj, hint) {
                    Some(c) => c,
                    None => hint,
                };
                match spec_get_method(reg, obj_class@, method@) {
                    Some(src) => match spec_analyze_method_body(reg, src, obj_class, f) {
                        Ok(body) => match spec_subst_args(
                            reg,
                            cargs,
                            0,
                            spec_substitute(body, 0, obj),
                            args,
                            hint,
                            f,
                        ) {
                            Err(e) => Err(e),
                            Ok(x) => Ok(Some(x)),
                        },
                        Err(e) => Err(
                            AnalysisError::MethodInliningFailed {
                                class_name: obj_class,
                                method_name: method,
                                cause: Box::new(e),
                            },
                        ),
                    },
                    None => Err(AnalysisError::MethodNotRegistered { class_name: obj_class, method_name: method }),
                }
            },
        }
    }
}

/// Substitution of the converted call arguments `cargs[i..]` for parameters
/// `i + 1, ...` of an inlined body; arguments left alone are skipped.
pub open spec fn spec_subst_args(
    reg: ClassRegistry,
    cargs: Seq<PyExpr>,
    i: int,
    acc: Expression,
    args: Seq<String>,
    hint: String,
    fuel: u64,
) -> Result<Expression, AnalysisError>
    decreases fuel, cargs.len() - i,
{
    if fuel == 0 {
        Err(AnalysisError::DepthExceeded)
    } else if i < 0 || i >= cargs.len() {
        Ok(acc)
    } else {
        match spec_convert(reg, cargs[i], args, hint, ExpectedType::Any, (fuel - 1) as u64) {
            Err(e) => Err(e),
            Ok(None) => spec_subst_args(reg, cargs, i + 1, acc, args, hint, fuel),
            Ok(Some(a)) => spec_subst_args(
                reg,
                cargs,
                i + 1,
                spec_substitute(acc, (i + 1) as u32, a),
                args,
                hint,
                fuel,
            ),
        }
    }
}

/// A built-in call `name(cargs, **keywords)`.
pub open spec fn spec_convert_builtin(
    reg: ClassRegistry,
    name: String,
    cargs: Seq<PyExpr>,
    keywords: Seq<Keyword>,
    args: Seq<String>,
    hint: String,
    fuel: u64,
) -> ConvResult
    decreases fuel, 0int,
{
    if fuel == 0 {
        Err(AnalysisError::DepthExceeded)
    } else {
        match keyword_ints(keywords, 0, Seq::empty()) {
            Err(e) => Err(e),
            Ok(kws) => {
                let use_i64 = promote_all(arg_types(reg, cargs, args, hint)) == InferredType::I64;
                let ex = if use_i64 { ExpectedType::I64 } else { ExpectedType::Any };
                match spec_convert_list(reg, cargs, 0, Seq::empty(), args, hint, ex, (fuel - 1) as u64) {
                    Err(e) => Err(e),
                    Ok(None) => Ok(None),
                    Ok(Some(es)) => builtin_node(name, es, use_i64, kws),
                }
            },
        }
    }
}

// ---------------------------------------------------------------------------
// Method bodies
// ---------------------------------------------------------------------------

/// The expression a method computes, from its source: the first function
/// definition of the parsed source, analyzed with its own parameter names.
pub open spec fn spec_analyze_method_body(reg: ClassRegistry, src: MethodSource, hint: String, fuel: u64) -> Result<Expression, AnalysisError>
    decreases fuel, 0int,
{
    if fuel == 0 {
        Err(AnalysisError::DepthExceeded)
    } else {
        match src {
            MethodSource::Unavailable => Err(AnalysisError::SourceUnavailable),
            MethodSource::ParseError => Err(AnalysisError::SourceParseError),
            MethodSource::Parsed { body } => match first_function_def(body@, 0) {
                None => Err(AnalysisError::NoFunctionDefinition),
                Some(i) => match body@[i] {
                    PyStmt::FunctionDef { args: fargs, body: fbody } => spec_analyze_function(
                        reg,
                        fargs@,
                        fbody@,
                        hint,
                        (fuel - 1) as u64,
                    ),
                    _ => Err(AnalysisError::UnexpectedMethodNode),
                },
            },
        }
    }
}

/// The expression of a function body: its first convertible return or
/// if/else of returns, else an accumulation loop, else a sequence of local
/// assignments, else an if/elif/else of assignments to `self`.
pub open spec fn spec_analyze_function(
    reg: ClassRegistry,
    fargs: Seq<String>,
    stmts: Seq<PyStmt>,
    hint: String,
    fuel: u64,
) -> Result<Expression, AnalysisError>
    decreases fuel, 0int,
{
    if fuel == 0 {
        Err(AnalysisError::DepthExceeded)
    } else {
        let f = (fuel - 1) as u64;
        match spec_scan_returns(reg, stmts, 0, fargs, hint, f) {
            Err(e) => Err(e),
            Ok(Some(x)) => Ok(x),
            Ok(None) => match spec_accumulation(reg, stmts, fargs, hint, f) {
                Ok(x) => Ok(x),
                Err(_) => match spec_sequential(reg, stmts, fargs, hint, f) {
                    Ok(x) => Ok(x),
                    Err(_) => match spec_assignment_if(reg, stmts, 0, fargs, hint, f) {
                        Ok(x) => Ok(x),
                        Err(_) => Err(AnalysisError::NoSimpleReturn),
                    },
                },
            },
        }
    }
}

/// The scan of `stmts[i..]` for a convertible `return` or an `if` whose
/// branches return.
pub open spec fn spec_scan_returns(
    reg: ClassRegistry,
    stmts: Seq<PyStmt>,
    i: int,
    args: Seq<String>,
    hint: String,
    fuel: u64,
) -> ConvResult
    decreases fuel, stmts.len() - i,
{
    if fuel == 0 {
        Err(AnalysisError::DepthExceeded)
    } else if i < 0 || i >= stmts.len() {
        Ok(None)
    } else {
        let f = (fuel - 1) as u64;
        match stmts[i] {
            PyStmt::Return { value: Some(v) } => match spec_convert(reg, v, args, hint, ExpectedType::Any, f) {
                Err(e) => Err(e),
                Ok(Some(x)) => Ok(Some(x)),
                Ok(None) => spec_scan_returns(reg, stmts, i + 1, args, hint, fuel),
            },
            PyStmt::If { test, body, orelse } => match spec_if_else(reg, test, body@, orelse@, args, hint, f) {
                Ok(x) => Ok(Some(x)),
                Err(_) => match spec_early_return(
                    reg,
                    test,
                    body@,
                    stmts.subrange(i + 1, stmts.len() as int),
                    args,
                    hint,
                    f,
                ) {
                    Ok(x) => Ok(Some(x)),
                    Err(_) => spec_scan_returns(reg, stmts, i + 1, args, hint, fuel),
                },
            },
            _ => spec_scan_returns(reg, stmts, i + 1, args, hint, fuel),
        }
    }
}

/// The value of the first `return` in `body[i..]` (`None` is the literal
/// `None` for a bare `return`), or `None` when there is no return.
pub open spec fn spec_first_return(
    reg: ClassRegistry,
    body: Seq<PyStmt>,
    i: int,
    args: Seq<String>,
    hint: String,
    fuel: u64,
) -> ConvResult
    decreases fuel, body.len() - i,
{
    if fuel == 0 {
        Err(AnalysisError::DepthExceeded)
    } else if i < 0 || i >= body.len() {
        Ok(None)
    } else {
        match body[i] {
            PyStmt::Return { value } => match value {
                Some(v) => spec_convert(reg, v, args, hint, ExpectedType::Any, (fuel - 1) as u64),
                None => Ok(Some(Expression::Null)),
            },
            _ => spec_first_return(reg, body, i + 1, args, hint, fuel),
        }
    }
}

/// `if test: return a` / `else: return b` (or `elif` ...) as a conditional.
pub open spec fn spec_if_else(
    reg: ClassRegistry,
    test: PyExpr,
    body: Seq<PyStmt>,
    orelse: Seq<PyStmt>,
    args: Seq<String>,
    hint: String,
    fuel: u64,
) -> Result<Expression, AnalysisError>
    decreases fuel, 0int,
{
    if fuel == 0 {
        Err(AnalysisError::DepthExceeded)
    } else {
        let f = (fuel - 1) as u64;
        match spec_convert(reg, test, args, hint, ExpectedType::Any, f) {
            Err(e) => Err(e),
            Ok(None) => Err(AnalysisError::Pattern { reason: crate::error::PatternFailure::CannotConvertCondition }),
            Ok(Some(c)) => match spec_first_return(reg, body, 0, args, hint, f) {
                Err(e) => Err(e),
                Ok(None) => Err(AnalysisError::Pattern { reason: crate::error::PatternFailure::IfBodyWithoutReturn }),
                Ok(Some(t)) => match spec_else_value(reg, orelse, 0, args, hint, f) {
                    Err(e) => Err(e),
                    Ok(None) => Err(AnalysisError::Pattern { reason: crate::error::PatternFailure::IfWithoutElseReturn }),
                    Ok(Some(el)) => Ok(ite(c, t, el)),
                },
            },
        }
    }
}

/// The value of an `else` block: its first return, or its first nested `if`.
pub open spec fn spec_else_value(
    reg: ClassRegistry,
    orelse: Seq<PyStmt>,
    i: int,
    args: Seq<String>,
    hint: String,
    fuel: u64,
) -> ConvResult
    decreases fuel, orelse.len() - i,
{
    if fuel == 0 {
        Err(AnalysisError::DepthExceeded)
    } else if i < 0 || i >= orelse.len() {
        Ok(None)
    } else {
        let f = (fuel - 1) as u64;
        match orelse[i] {
            PyStmt::Return { value } => match value {
                Some(v) => spec_convert(reg, v, args, hint, ExpectedType::Any, f),
                None => Ok(Some(Expression::Null)),
            },
            PyStmt::If { test, body, orelse: inner } => match spec_if_else(reg, test, body@, inner@, args, hint, f) {
                Err(e) => Err(e),
                Ok(x) => Ok(Some(x)),
            },
            _ => spec_else_value(reg, orelse, i + 1, args, hint, fuel),
        }
    }
}

/// `if test: return a` followed by `remaining`, which stands for the else
/// branch.
pub open spec fn spec_early_return(
    reg: ClassRegistry,
    test: PyExpr,
    body: Seq<PyStmt>,
    remaining: Seq<PyStmt>,
    args: Seq<String>,
    hint: String,
    fuel: u64,
) -> Result<Expression, AnalysisError>
    decreases fuel, 0int,
{
    if fuel == 0 {
        Err(AnalysisError::DepthExceeded)
    } else {
        let f = (fuel - 1) as u64;
        match spec_convert(reg, test, args, hint, ExpectedType::Any, f) {
            Err(e) => Err(e),
            Ok(cond_opt) => match spec_first_return(reg, body, 0, args, hint, f) {
                Err(e) => Err(e),
                Ok(None) => Err(AnalysisError::Pattern { reason: crate::error::PatternFailure::EarlyReturnBodyWithoutReturn }),
                Ok(Some(then_e)) => {
                    let guarded = if crate::infer::spec_is_empty_collection_guard(test) && (then_e matches Expression::IntLiteral { value } && value == 0) {
                        match spec_accumulation(reg, remaining, args, hint, f) {
                            Ok(a) => Some(a),
                            Err(_) => None,
                        }
                    } else {
                        None
                    };
                    match guarded {
                        Some(a) => Ok(a),
                        None => match cond_opt {
                            None => if crate::infer::spec_is_not_none_check(test) {
                                match spec_fallback_return(reg, remaining, 0, args, hint, f) {
                                    Err(e) => Err(e),
                                    Ok(Some(fb)) => Ok(fb),
                                    Ok(None) => Err(AnalysisError::Pattern { reason: crate::error::PatternFailure::CannotConvertCondition }),
                                }
                            } else {
                                Err(AnalysisError::Pattern { reason: crate::error::PatternFailure::CannotConvertCondition })
                            },
                            Some(cond) => match spec_else_from_remaining(reg, remaining, 0, args, hint, f) {
                                Err(e) => Err(e),
                                Ok(Some(el)) => Ok(ite(cond, then_e, el)),
                                Ok(None) => match spec_accumulation(reg, remaining, args, hint, f) {
                                    Ok(a) => Ok(ite(cond, then_e, a)),
                                    Err(_) => Err(AnalysisError::Pattern { reason: crate::error::PatternFailure::RemainderWithoutReturn }),
                                },
                            },
                        },
                    }
                },
            },
        }
    }
}

/// The first convertible `return value` in `remaining[i..]`.
pub open spec fn spec_fallback_return(
    reg: ClassRegistry,
    remaining: Seq<PyStmt>,
    i: int,
    args: Seq<String>,
    hint: String,
    fuel: u64,
) -> ConvResult
    decreases fuel, remaining.len() - i,
{
    if fuel == 0 {
        Err(AnalysisError::DepthExceeded)
    } else if i < 0 || i >= remaining.len() {
        Ok(None)
    } else {
        match remaining[i] {
            PyStmt::Return { value: Some(v) } => match spec_convert(reg, v, args, hint, ExpectedType::Any, (fuel - 1) as u64) {
                Err(e) => Err(e),
                Ok(Some(x)) => Ok(Some(x)),
                Ok(None) => spec_fallback_return(reg, remaining, i + 1, args, hint, fuel),
            },
            _ => spec_fallback_return(reg, remaining, i + 1, args, hint, fuel),
        }
    }
}

/// The else branch found in `remaining[i..]`: the first `return value`, or a
/// nested early-return `if` with what follows it.
pub open spec fn spec_else_from_remaining(
    reg: ClassRegistry,
    remaining: Seq<PyStmt>,
    i: int,
    args: Seq<String>,
    hint: String,
    fuel: u64,
) -> ConvResult
    decreases fuel, remaining.len() - i,
{
    if fuel == 0 {
        Err(AnalysisError::DepthExceeded)
    } else if i < 0 || i >= remaining.len() {
        Ok(None)
    } else {
        let f = (fuel - 1) as u64;
        match remaining[i] {
            PyStmt::Return { value: Some(v) } => spec_convert(reg, v, args, hint, ExpectedType::Any, f),
            PyStmt::If { test, body, .. } => match spec_early_return(
                reg,
                test,
                body@,
                remaining.subrange(i + 1, remaining.len() as int),
                args,
                hint,
                f,
            ) {
                Err(e) => Err(e),
                Ok(x) => Ok(Some(x)),
            },
            _ => spec_else_from_remaining(reg, remaining, i + 1, args, hint, fuel),
        }
    }
}

/// `if test: return value` with nothing else, as (condition, value).
pub open spec fn spec_detect_early_return(
    reg: ClassRegistry,
    stmt: PyStmt,
    args: Seq<String>,
    hint: String,
    fuel: u64,
) -> Result<Option<(Expression, Expression)>, AnalysisError>
    decreases fuel, 0int,
{
    if fuel == 0 {
        Err(AnalysisError::DepthExceeded)
    } else {
        let f = (fuel - 1) as u64;
        match stmt {
            PyStmt::If { test, body, orelse } => if body@.len() != 1 || orelse@.len() != 0 {
                Ok(None)
            } else {
                match body@[0] {
                    PyStmt::Return { value: Some(v) } => match spec_convert(reg, test, args, hint, ExpectedType::Any, f) {
                        Err(e) => Err(e),
                        Ok(c) => match spec_convert(reg, v, args, hint, ExpectedType::Any, f) {
                            Err(e) => Err(e),
                            Ok(r) => match (c, r) {
                                (Some(c), Some(r)) => Ok(Some((c, r))),
                                _ => Ok(None),
                            },
                        },
                    },
                    _ => Ok(None),
                }
            },
            _ => Ok(None),
        }
    }
}

} // verus!

verus! {

// ---------------------------------------------------------------------------
// Statement shapes
// ---------------------------------------------------------------------------

/// The variable a statement assigns when it is `name = value` with a single
/// plain-name target.
pub open spec fn simple_assign_name(s: PyStmt) -> Option<String> {
    match s {
        PyStmt::Assign { targets, .. } => if targets@.len() == 1 {
            match targets@[0] {
                PyExpr::Name { id } => Some(id),
                _ => None,
            }
        } else {
            None
        },
        _ => None,
    }
}

/// The value assigned by an assignment statement.
pub open spec fn assign_value(s: PyStmt) -> PyExpr {
    match s {
        PyStmt::Assign { value, .. } => value,
        _ => PyExpr::Other,
    }
}

/// Whether a statement is `name = 0` (or `= False`) with a plain-name target.
pub open spec fn is_zero_init(s: PyStmt) -> bool {
    simple_assign_name(s) is Some && crate::infer::is_zero_literal(assign_value(s))
}

/// Index of the first `for` statement at or after `i` (the length when none).
pub open spec fn first_for_from(stmts: Seq<PyStmt>, i: int) -> int
    decreases stmts.len() - i,
{
    if i < 0 || i >= stmts.len() {
        stmts.len() as int
    } else if stmts[i] is For {
        i
    } else {
        first_for_from(stmts, i + 1)
    }
}

/// Index of the last statement before `end` satisfying `is_zero_init`.
pub open spec fn last_zero_init_before(stmts: Seq<PyStmt>, end: int) -> Option<int>
    decreases end,
{
    if end <= 0 || end > stmts.len() {
        None
    } else if is_zero_init(stmts[end - 1]) {
        Some(end - 1)
    } else {
        last_zero_init_before(stmts, end - 1)
    }
}

/// Index of the last `for` statement before `end`.
pub open spec fn last_for_before(stmts: Seq<PyStmt>, end: int) -> Option<int>
    decreases end,
{
    if end <= 0 || end > stmts.len() {
        None
    } else if stmts[end - 1] is For {
        Some(end - 1)
    } else {
        last_for_before(stmts, end - 1)
    }
}

/// The name a `return name` statement returns.
pub open spec fn returned_name(s: PyStmt) -> Option<String> {
    match s {
        PyStmt::Return { value: Some(v) } => match v {
            PyExpr::Name { id } => Some(id),
            _ => None,
        },
        _ => None,
    }
}

/// The name returned by the last `return name` before `end`.
pub open spec fn last_returned_name_before(stmts: Seq<PyStmt>, end: int) -> Option<String>
    decreases end,
{
    if end <= 0 || end > stmts.len() {
        None
    } else if returned_name(stmts[end - 1]) is Some {
        returned_name(stmts[end - 1])
    } else {
        last_returned_name_before(stmts, end - 1)
    }
}

/// Indices of the single-name assignments in `stmts[i..end]`, appended to
/// `acc`.
pub open spec fn assigns_between(stmts: Seq<PyStmt>, i: int, end: int, acc: Seq<usize>) -> Seq<usize>
    decreases end - i,
{
    if i < 0 || i >= end || i >= stmts.len() {
        acc
    } else if simple_assign_name(stmts[i]) is Some {
        assigns_between(stmts, i + 1, end, acc.push(i as usize))
    } else {
        assigns_between(stmts, i + 1, end, acc)
    }
}

/// Indices of the augmented assignments in `stmts[i..]`, appended to `acc`.
pub open spec fn augassigns_from(stmts: Seq<PyStmt>, i: int, acc: Seq<usize>) -> Seq<usize>
    decreases stmts.len() - i,
{
    if i < 0 || i >= stmts.len() {
        acc
    } else if stmts[i] is AugAssign {
        augassigns_from(stmts, i + 1, acc.push(i as usize))
    } else {
        augassigns_from(stmts, i + 1, acc)
    }
}

/// A variable assigned before a loop and set to `item.field` in the loop
/// body, so that it holds the previous item's field.
#[derive(Debug)]
pub struct MutableLoopVar {
    /// The variable name.
    pub name: String,
    /// Index of the statement that initializes it before the loop.
    pub init_index: usize,
    /// The item field it tracks.
    pub item_field: String,
}

/// `item.field` when an expression reads a field of the plain name `item`.
pub open spec fn field_of_name(e: PyExpr, item: Seq<char>) -> Option<String> {
    match e {
        PyExpr::Attribute { value, attr } => match *value {
            PyExpr::Name { id } => if id@ == item { Some(attr) } else { None },
            _ => None,
        },
        _ => None,
    }
}

/// The mutable loop variables found by matching the loop-body assignment
/// `body_stmt` against the pre-loop assignments `pre[j..]`.
pub open spec fn mutable_vars_for_stmt(
    stmts: Seq<PyStmt>,
    pre: Seq<usize>,
    j: int,
    body_stmt: PyStmt,
    loop_var: Seq<char>,
    acc: Seq<MutableLoopVar>,
) -> Seq<MutableLoopVar>
    decreases pre.len() - j,
{
    if j < 0 || j >= pre.len() {
        acc
    } else {
        let next = match (simple_assign_name(body_stmt), simple_assign_name(stmts[pre[j] as int])) {
            (Some(var), Some(pre_var)) => if var@ == pre_var@ {
                match field_of_name(assign_value(body_stmt), loop_var) {
                    Some(field) => acc.push(MutableLoopVar { name: var, init_index: pre[j], item_field: field }),
                    None => acc,
                }
            } else {
                acc
            },
            _ => acc,
        };
        mutable_vars_for_stmt(stmts, pre, j + 1, body_stmt, loop_var, next)
    }
}

/// The mutable loop variables of a loop body `body[i..]`.
pub open spec fn detect_mutable_loop_vars_from(
    stmts: Seq<PyStmt>,
    pre: Seq<usize>,
    body: Seq<PyStmt>,
    i: int,
    loop_var: Seq<char>,
    acc: Seq<MutableLoopVar>,
) -> Seq<MutableLoopVar>
    decreases body.len() - i,
{
    if i < 0 || i >= body.len() {
        acc
    } else {
        detect_mutable_loop_vars_from(
            stmts,
            pre,
            body,
            i + 1,
            loop_var,
            mutable_vars_for_stmt(stmts, pre, 0, body[i], loop_var, acc),
        )
    }
}

/// The names of mutable loop variables.
pub open spec fn mv_names(mvs: Seq<MutableLoopVar>) -> Seq<String> {
    Seq::new(mvs.len(), |i: int| mvs[i].name)
}

/// Index of the first mutable variable named `name`.
pub open spec fn first_mv_named(mvs: Seq<MutableLoopVar>, name: Seq<char>, j: int) -> Option<int>
    decreases mvs.len() - j,
{
    if j < 0 || j >= mvs.len() {
        None
    } else if mvs[j].name@ == name {
        Some(j)
    } else {
        first_mv_named(mvs, name, j + 1)
    }
}

/// What a summation loop was turned into, with what the statements after the
/// loop need.
pub ghost struct LoopSpec {
    pub sum_expr: Expression,
    pub collection: Expression,
    pub item_class: String,
    pub mutable_vars: Seq<MutableLoopVar>,
}

/// A summation loop as built: the sum, and what the statements after the
/// loop need.
pub struct LoopSum {
    pub sum_expr: Expression,
    pub collection: Expression,
    pub item_class: String,
    pub mutable_vars: Vec<MutableLoopVar>,
}

impl LoopSum {
    pub open spec fn model(&self) -> LoopSpec {
        LoopSpec {
            sum_expr: self.sum_expr,
            collection: self.collection,
            item_class: self.item_class,
            mutable_vars: self.mutable_vars@,
        }
    }
}

/// A list conversion's outcome, with the list by its view.
pub open spec fn list_result(r: Result<Option<Vec<Expression>>, AnalysisError>) -> Result<Option<Seq<Expression>>, AnalysisError> {
    match r {
        Ok(Some(v)) => Ok(Some(v@)),
        Ok(None) => Ok(None),
        Err(e) => Err(e),
    }
}

/// A list conversion's outcome when nothing can be left alone.
pub open spec fn seq_result(r: Result<Vec<Expression>, AnalysisError>) -> Result<Seq<Expression>, AnalysisError> {
    match r {
        Ok(v) => Ok(v@),
        Err(e) => Err(e),
    }
}

/// A summation loop's outcome, by its model.
pub open spec fn loop_result(r: Result<LoopSum, AnalysisError>) -> Result<LoopSpec, AnalysisError> {
    match r {
        Ok(l) => Ok(l.model()),
        Err(e) => Err(e),
    }
}

/// `callee(args)` when an expression is a call of a method on a plain name:
/// (the name, the method, the arguments).
pub open spec fn name_method_call(e: PyExpr) -> Option<(String, String, Seq<PyExpr>)> {
    match e {
        PyExpr::Call { func, args, .. } => match *func {
            PyExpr::Attribute { value, attr } => match *value {
                PyExpr::Name { id } => Some((id, attr, args@)),
                _ => None,
            },
            _ => None,
        },
        _ => None,
    }
}

/// Index of the last single-name assignment among `locals[..end]` that
/// assigns `name`.
pub open spec fn local_lookup(stmts: Seq<PyStmt>, locals: Seq<usize>, name: Seq<char>, end: int) -> Option<int>
    decreases end,
{
    if end <= 0 || end > locals.len() {
        None
    } else if simple_assign_name(stmts[locals[end - 1] as int]) matches Some(n) && n@ == name {
        Some(locals[end - 1] as int)
    } else {
        local_lookup(stmts, locals, name, end - 1)
    }
}

/// Index of the last `return value` before `end`.
pub open spec fn last_return_value_before(stmts: Seq<PyStmt>, end: int) -> Option<int>
    decreases end,
{
    if end <= 0 || end > stmts.len() {
        None
    } else if stmts[end - 1] matches PyStmt::Return { value: Some(_) } {
        Some(end - 1)
    } else {
        last_return_value_before(stmts, end - 1)
    }
}

/// The value of a `return value` statement.
pub open spec fn return_value(s: PyStmt) -> PyExpr {
    match s {
        PyStmt::Return { value: Some(v) } => v,
        _ => PyExpr::Other,
    }
}

/// Whether an assignment target is a field of `self` (or of the first
/// parameter).
pub open spec fn targets_self_field(targets: Seq<PyExpr>, args: Seq<String>) -> bool {
    targets.len() > 0 && match targets[0] {
        PyExpr::Attribute { value, .. } => match *value {
            PyExpr::Name { id } => id@ == "self"@ || crate::infer::is_first_arg(args, id@),
            _ => false,
        },
        _ => false,
    }
}

// ---------------------------------------------------------------------------
// Accumulation loops
// ---------------------------------------------------------------------------

/// The accumulation pattern:
/// an optional leading `if cond: return v`, `acc = 0`, a `for item in
/// collection:` loop with `acc += expr`, optional `acc += expr` after the
/// loop, and `return acc`; turned into a sum over the collection.
pub open spec fn spec_accumulation(
    reg: ClassRegistry,
    stmts: Seq<PyStmt>,
    args: Seq<String>,
    hint: String,
    fuel: u64,
) -> Result<Expression, AnalysisError>
    decreases fuel, 0int,
{
    if fuel == 0 {
        Err(AnalysisError::DepthExceeded)
    } else {
        let f = (fuel - 1) as u64;
        let early_r = if stmts.len() > 0 && stmts[0] is If {
            spec_detect_early_return(reg, stmts[0], args, hint, f)
        } else {
            Ok(None)
        };
        match early_r {
            Err(e) => Err(e),
            Ok(early) => {
                let cut = first_for_from(stmts, 0);
                match (
                    last_zero_init_before(stmts, cut),
                    last_for_before(stmts, stmts.len() as int),
                    last_returned_name_before(stmts, stmts.len() as int),
                ) {
                    (Some(zi), Some(fi), Some(rv)) => {
                        let acc = simple_assign_name(stmts[zi]).unwrap();
                        if acc@ != rv@ {
                            Err(AnalysisError::Pattern { reason: crate::error::PatternFailure::NotAccumulation })
                        } else {
                            let pre = assigns_between(stmts, 0, cut, Seq::empty());
                            match spec_sum_from_for(reg, stmts, fi, acc, pre, args, hint, f) {
                                Err(e) => Err(e),
                                Ok(ls) => match spec_post_augs(
                                    reg,
                                    stmts,
                                    augassigns_from(stmts, cut + 1, Seq::empty()),
                                    0,
                                    ls.sum_expr,
                                    acc,
                                    ls,
                                    args,
                                    hint,
                                    f,
                                ) {
                                    Err(e) => Err(e),
                                    Ok(result) => Ok(
                                        match early {
                                            Some((c, v)) => ite(c, v, result),
                                            None => result,
                                        },
                                    ),
                                },
                            }
                        }
                    },
                    _ => Err(AnalysisError::Pattern { reason: crate::error::PatternFailure::NotAccumulation }),
                }
            },
        }
    }
}

/// The sum a `for` loop accumulates into `acc`.
pub open spec fn spec_sum_from_for(
    reg: ClassRegistry,
    stmts: Seq<PyStmt>,
    fi: int,
    acc: String,
    pre: Seq<usize>,
    args: Seq<String>,
    hint: String,
    fuel: u64,
) -> Result<LoopSpec, AnalysisError>
    decreases fuel, 0int,
{
    if fuel == 0 {
        Err(AnalysisError::DepthExceeded)
    } else if fi < 0 || fi >= stmts.len() {
        Err(AnalysisError::Pattern { reason: crate::error::PatternFailure::NoSumInLoop })
    } else {
        let f = (fuel - 1) as u64;
        match stmts[fi] {
            PyStmt::For { target, iter, body } => match target {
                PyExpr::Name { id: loop_var } => match spec_convert(reg, iter, args, hint, ExpectedType::Any, f) {
                    Err(e) => Err(e),
                    Ok(None) => Err(AnalysisError::Pattern { reason: crate::error::PatternFailure::NoSumInLoop }),
                    Ok(Some(coll)) => match crate::classes::spec_infer_item_type(reg, coll) {
                        Err(e) => Err(e),
                        Ok(item) => {
                            let mvs = detect_mutable_loop_vars_from(stmts, pre, body@, 0, loop_var@, Seq::empty());
                            spec_sum_body(reg, stmts, body@, 0, acc, loop_var, coll, item, mvs, args, hint, f)
                        },
                    },
                },
                _ => Err(AnalysisError::Pattern { reason: crate::error::PatternFailure::ComplexLoopTarget }),
            },
            _ => Err(AnalysisError::Pattern { reason: crate::error::PatternFailure::NoSumInLoop }),
        }
    }
}

/// The first `acc += expr` in `body[i..]` that converts, as a sum.
pub open spec fn spec_sum_body(
    reg: ClassRegistry,
    stmts: Seq<PyStmt>,
    body: Seq<PyStmt>,
    i: int,
    acc: String,
    loop_var: String,
    coll: Expression,
    item: String,
    mvs: Seq<MutableLoopVar>,
    args: Seq<String>,
    hint: String,
    fuel: u64,
) -> Result<LoopSpec, AnalysisError>
    decreases fuel, body.len() - i,
{
    if fuel == 0 {
        Err(AnalysisError::DepthExceeded)
    } else if i < 0 || i >= body.len() {
        Err(AnalysisError::Pattern { reason: crate::error::PatternFailure::NoSumInLoop })
    } else {
        match body[i] {
            PyStmt::AugAssign { target: PyExpr::Name { id }, op: BinOpKind::Add, value } => if id@ == acc@ {
                let loop_args = args + seq![loop_var] + mv_names(mvs);
                match spec_convert_with_mutable_vars(
                    reg,
                    value,
                    loop_args,
                    item,
                    loop_var,
                    mvs,
                    stmts,
                    args,
                    hint,
                    (fuel - 1) as u64,
                ) {
                    Err(e) => Err(e),
                    Ok(Some(x)) => Ok(
                        LoopSpec {
                            sum_expr: Expression::Sum {
                                collection: Box::new(coll),
                                item_var_name: loop_var,
                                item_param_index: args.len() as u32,
                                item_class_name: item,
                                accumulator_expr: Box::new(x),
                            },
                            collection: coll,
                            item_class: item,
                            mutable_vars: mvs,
                        },
                    ),
                    Ok(None) => spec_sum_body(reg, stmts, body, i + 1, acc, loop_var, coll, item, mvs, args, hint, fuel),
                }
            } else {
                spec_sum_body(reg, stmts, body, i + 1, acc, loop_var, coll, item, mvs, args, hint, fuel)
            },
            _ => spec_sum_body(reg, stmts, body, i + 1, acc, loop_var, coll, item, mvs, args, hint, fuel),
        }
    }
}

/// Conversion inside a loop body, where a method call on a mutable loop
/// variable becomes "if the item has no previous item then the call on the
/// initial value, else the call on the previous item's field".
pub open spec fn spec_convert_with_mutable_vars(
    reg: ClassRegistry,
    node: PyExpr,
    largs: Seq<String>,
    lhint: String,
    loop_var: String,
    mvs: Seq<MutableLoopVar>,
    stmts: Seq<PyStmt>,
    oargs: Seq<String>,
    ohint: String,
    fuel: u64,
) -> ConvResult
    decreases fuel, 0int,
{
    if fuel == 0 {
        Err(AnalysisError::DepthExceeded)
    } else {
        let f = (fuel - 1) as u64;
        let handled = match name_method_call(node) {
            Some((base, method, cargs)) => spec_mv_call(
                reg,
                mvs,
                0,
                base,
                method,
                cargs,
                largs,
                lhint,
                loop_var,
                stmts,
                oargs,
                ohint,
                f,
            ),
            None => Ok(None),
        };
        match handled {
            Err(e) => Err(e),
            Ok(Some(r)) => Ok(r),
            Ok(None) => spec_convert(reg, node, largs, lhint, ExpectedType::Any, f),
        }
    }
}

/// The handling of `base.method(cargs)` against the mutable variables
/// `mvs[j..]`: `Some(result)` when handled, `None` to fall back to the
/// plain conversion.
pub open spec fn spec_mv_call(
    reg: ClassRegistry,
    mvs: Seq<MutableLoopVar>,
    j: int,
    base: String,
    method: String,
    cargs: Seq<PyExpr>,
    largs: Seq<String>,
    lhint: String,
    loop_var: String,
    stmts: Seq<PyStmt>,
    oargs: Seq<String>,
    ohint: String,
    fuel: u64,
) -> Result<Option<Option<Expression>>, AnalysisError>
    decreases fuel, mvs.len() - j,
{
    if fuel == 0 {
        Err(AnalysisError::DepthExceeded)
    } else if j < 0 || j >= mvs.len() {
        Ok(None)
    } else if mvs[j].name@ != base@ {
        spec_mv_call(reg, mvs, j + 1, base, method, cargs, largs, lhint, loop_var, stmts, oargs, ohint, fuel)
    } else {
        let f = (fuel - 1) as u64;
        match spec_convert_list(reg, cargs, 0, Seq::empty(), largs, lhint, ExpectedType::Any, f) {
            Err(e) => Err(e),
            Ok(None) => Ok(Some(None)),
            Ok(Some(converted)) => match crate::classes::spec_previous_shadow_variable(reg, lhint@) {
                None => spec_mv_call(reg, mvs, j + 1, base, method, cargs, largs, lhint, loop_var, stmts, oargs, ohint, fuel),
                Some(prev) => match arg_position(largs, loop_var@, 0) {
                    None => Err(AnalysisError::Pattern { reason: crate::error::PatternFailure::LoopVariableNotFound }),
                    Some(li) => {
                        let param = Expression::Param { index: li as u32 };
                        let cond = un(UnaryOp::IsNull, field_read(reg, param, lhint, prev));
                        let init = if mvs[j].init_index < stmts.len() {
                            assign_value(stmts[mvs[j].init_index as int])
                        } else {
                            PyExpr::Other
                        };
                        match spec_convert(reg, init, oargs, ohint, ExpectedType::Any, f) {
                            Err(e) => Err(e),
                            Ok(None) => Err(AnalysisError::Pattern { reason: crate::error::PatternFailure::CannotConvertInitExpression }),
                            Ok(Some(init_base)) => match spec_build_method_call(reg, init_base, method, converted, ohint, f) {
                                Err(e) => Err(e),
                                Ok(then_e) => {
                                    let prev_item = field_read(reg, param, lhint, prev);
                                    let prev_field = field_read(reg, prev_item, lhint, mvs[j].item_field);
                                    match spec_build_method_call(reg, prev_field, method, converted, ohint, f) {
                                        Err(e) => Err(e),
                                        Ok(else_e) => Ok(Some(Some(ite(cond, then_e, else_e)))),
                                    }
                                },
                            },
                        }
                    },
                },
            },
        }
    }
}

/// The class whose method a call on `base` names: the class of the field
/// `base` reads, when its type hint names one, else the hint.
pub open spec fn spec_receiver_class(reg: ClassRegistry, base: Expression, hint: String) -> String {
    match base {
        Expression::FieldAccess { class_name, field_name, .. } => match crate::classes::spec_field_concrete_class(
            reg,
            class_name@,
            field_name@,
        ) {
            Some(c) => c,
            None => hint,
        },
        _ => hint,
    }
}

/// Inlining of `base.method(cargs)`: the method is looked up on the class of
/// the field `base` reads (else on `hint`), analyzed, and its parameters
/// replaced by the receiver and the arguments.
pub open spec fn spec_build_method_call(
    reg: ClassRegistry,
    base: Expression,
    method: String,
    cargs: Seq<Expression>,
    hint: String,
    fuel: u64,
) -> Result<Expression, AnalysisError>
    decreases fuel, 0int,
{
    if fuel == 0 {
        Err(AnalysisError::DepthExceeded)
    } else {
        let base_class = spec_receiver_class(reg, base, hint);
        match spec_get_method(reg, base_class@, method@) {
            Some(src) => match spec_analyze_method_body(reg, src, base_class, (fuel - 1) as u64) {
                Ok(body) => Ok(subst_all(spec_substitute(body, 0, base), cargs, 0)),
                Err(_) => Err(AnalysisError::MethodNotInlinable { class_name: base_class, method_name: method }),
            },
            None => Err(AnalysisError::MethodNotInlinable { class_name: base_class, method_name: method }),
        }
    }
}

/// The statements after the loop, `post[i..]`: each `acc += expr` adds its
/// expression, with mutable loop variables standing for the last item.
pub open spec fn spec_post_augs(
    reg: ClassRegistry,
    stmts: Seq<PyStmt>,
    post: Seq<usize>,
    i: int,
    result: Expression,
    acc: String,
    ls: LoopSpec,
    args: Seq<String>,
    hint: String,
    fuel: u64,
) -> Result<Expression, AnalysisError>
    decreases fuel, post.len() - i,
{
    if fuel == 0 {
        Err(AnalysisError::DepthExceeded)
    } else if i < 0 || i >= post.len() {
        Ok(result)
    } else {
        let s = if post[i] < stmts.len() { stmts[post[i] as int] } else { PyStmt::Other };
        let r = match s {
            PyStmt::AugAssign { target: PyExpr::Name { id }, op: BinOpKind::Add, value } => if id@ == acc@ {
                spec_convert_with_mv_subst(reg, value, args, hint, ls.collection, ls.item_class, ls.mutable_vars, (fuel - 1) as u64)
            } else {
                Ok(None)
            },
            _ => Ok(None),
        };
        match r {
            Err(e) => Err(e),
            Ok(Some(p)) => spec_post_augs(reg, stmts, post, i + 1, bin(BinaryOp::Add, result, p), acc, ls, args, hint, fuel),
            Ok(None) => spec_post_augs(reg, stmts, post, i + 1, result, acc, ls, args, hint, fuel),
        }
    }
}

/// Conversion after the loop, where a method call on a mutable loop
/// variable is made on the tracked field of the collection's last item.
pub open spec fn spec_convert_with_mv_subst(
    reg: ClassRegistry,
    node: PyExpr,
    args: Seq<String>,
    hint: String,
    coll: Expression,
    item: String,
    mvs: Seq<MutableLoopVar>,
    fuel: u64,
) -> ConvResult
    decreases fuel, 0int,
{
    if fuel == 0 {
        Err(AnalysisError::DepthExceeded)
    } else {
        let f = (fuel - 1) as u64;
        match name_method_call(node) {
            Some((base, method, cargs)) => match first_mv_named(mvs, base@, 0) {
                Some(j) => {
                    let last = Expression::LastElement { collection: Box::new(coll), item_class_name: item };
                    let field = field_read(reg, last, item, mvs[j].item_field);
                    match spec_convert_list(reg, cargs, 0, Seq::empty(), args, hint, ExpectedType::Any, f) {
                        Err(e) => Err(e),
                        Ok(None) => Ok(None),
                        Ok(Some(converted)) => {
                            let field_class = match crate::classes::spec_field_concrete_class(reg, item@, mvs[j].item_field@) {
                                Some(c) => c,
                                None => hint,
                            };
                            match spec_build_method_call(reg, field, method, converted, field_class, f) {
                                Err(e) => Err(e),
                                Ok(x) => Ok(Some(x)),
                            }
                        },
                    }
                },
                None => spec_convert(reg, node, args, hint, ExpectedType::Any, f),
            },
            None => spec_convert(reg, node, args, hint, ExpectedType::Any, f),
        }
    }
}

// ---------------------------------------------------------------------------
// Sequences of local assignments
// ---------------------------------------------------------------------------

/// The sequential pattern: `v1 = e1; v2 = e2(v1); return f(v2)`, with the
/// locals substituted into the returned expression, under an optional
/// leading `if cond: return v`.
pub open spec fn spec_sequential(
    reg: ClassRegistry,
    stmts: Seq<PyStmt>,
    args: Seq<String>,
    hint: String,
    fuel: u64,
) -> Result<Expression, AnalysisError>
    decreases fuel, 0int,
{
    if fuel == 0 {
        Err(AnalysisError::DepthExceeded)
    } else {
        let f = (fuel - 1) as u64;
        let early_r = if stmts.len() > 0 && stmts[0] is If {
            spec_detect_early_return(reg, stmts[0], args, hint, f)
        } else {
            Ok(None)
        };
        match early_r {
            Err(e) => Err(e),
            Ok(early) => match last_return_value_before(stmts, stmts.len() as int) {
                None => Err(AnalysisError::Pattern { reason: crate::error::PatternFailure::NoReturnStatement }),
                Some(ri) => {
                    let locals = assigns_between(stmts, 0, stmts.len() as int, Seq::empty());
                    match spec_convert_with_locals(reg, return_value(stmts[ri]), locals, stmts, args, hint, f) {
                        Err(e) => Err(e),
                        Ok(result) => Ok(
                            match early {
                                Some((c, ev)) => if spec_infer_expression_type(ev) == InferredType::I64
                                    || spec_infer_expression_type(result) == InferredType::I64 {
                                    ite64(c, ev, result)
                                } else {
                                    ite(c, ev, result)
                                },
                                None => result,
                            },
                        ),
                    }
                },
            },
        }
    }
}

/// The arithmetic node for an operator on converted operands, typed by the
/// operands' types.
pub open spec fn local_binop_node(op: BinOpKind, l: Expression, r: Expression) -> Result<Expression, AnalysisError> {
    let lt = spec_infer_expression_type(l);
    let rt = spec_infer_expression_type(r);
    let use_float = lt == InferredType::F64 || rt == InferredType::F64;
    let use_i64 = lt == InferredType::I64 || rt == InferredType::I64;
    match op {
        BinOpKind::Add => Ok(bin(if use_float { BinaryOp::FloatAdd } else if use_i64 { BinaryOp::Add64 } else { BinaryOp::Add }, l, r)),
        BinOpKind::Sub => Ok(bin(if use_float { BinaryOp::FloatSub } else if use_i64 { BinaryOp::Sub64 } else { BinaryOp::Sub }, l, r)),
        BinOpKind::Mult => Ok(bin(if use_float { BinaryOp::FloatMul } else if use_i64 { BinaryOp::Mul64 } else { BinaryOp::Mul }, l, r)),
        BinOpKind::Div => Ok(bin(BinaryOp::FloatDiv, l, r)),
        BinOpKind::FloorDiv => Ok(bin(if use_i64 { BinaryOp::Div64 } else { BinaryOp::Div }, l, r)),
        _ => Err(AnalysisError::UnsupportedOperator),
    }
}

/// Conversion with local variables replaced by the expressions assigned to
/// them (the last assignment of each name counts).
pub open spec fn spec_convert_with_locals(
    reg: ClassRegistry,
    node: PyExpr,
    locals: Seq<usize>,
    stmts: Seq<PyStmt>,
    args: Seq<String>,
    hint: String,
    fuel: u64,
) -> Result<Expression, AnalysisError>
    decreases fuel, 0int,
{
    if fuel == 0 {
        Err(AnalysisError::DepthExceeded)
    } else {
        let f = (fuel - 1) as u64;
        let default = match spec_convert(reg, node, args, hint, ExpectedType::Any, f) {
            Err(e) => Err(e),
            Ok(None) => Err(AnalysisError::Pattern { reason: crate::error::PatternFailure::CannotConvertExpression }),
            Ok(Some(x)) => Ok(x),
        };
        match node {
            PyExpr::Name { id } => match local_lookup(stmts, locals, id@, locals.len() as int) {
                Some(j) => spec_convert_with_locals(reg, assign_value(stmts[j]), locals, stmts, args, hint, f),
                None => default,
            },
            PyExpr::Call { func, args: cargs, .. } => match *func {
                PyExpr::Attribute { value, attr } => match spec_convert_with_locals(reg, *value, locals, stmts, args, hint, f) {
                    Err(e) => Err(e),
                    Ok(base) => match spec_convert_with_locals_list(reg, cargs@, 0, Seq::empty(), locals, stmts, args, hint, f) {
                        Err(e) => Err(e),
                        Ok(converted) => {
                            let base_class = match spec_infer_expression_class(reg, base, hint) {
                                Some(c) => c,
                                None => hint,
                            };
                            spec_build_method_call(reg, base, attr, converted, base_class, f)
                        },
                    },
                },
                _ => default,
            },
            PyExpr::BinOp { op, left, right } => match spec_convert_with_locals(reg, *left, locals, stmts, args, hint, f) {
                Err(e) => Err(e),
                Ok(l) => match spec_convert_with_locals(reg, *right, locals, stmts, args, hint, f) {
                    Err(e) => Err(e),
                    Ok(r) => local_binop_node(op, l, r),
                },
            },
            PyExpr::Subscript { value, slice } => match *value {
                PyExpr::Name { id } => match local_lookup(stmts, locals, id@, locals.len() as int) {
                    Some(j) => {
                        let lv = assign_value(stmts[j]);
                        let idx = match *slice {
                            PyExpr::Constant { value: c } => constant_int(c),
                            _ => None,
                        };
                        match lv {
                            PyExpr::Tuple { elts } => match idx {
                                Some(k) => if 0 <= k < elts@.len() {
                                    spec_convert_with_locals(reg, elts@[k as int], locals, stmts, args, hint, f)
                                } else {
                                    default
                                },
                                None => default,
                            },
                            PyExpr::Call { .. } => Err(AnalysisError::Pattern { reason: crate::error::PatternFailure::TupleIndexFromCall }),
                            _ => default,
                        }
                    },
                    None => default,
                },
                _ => default,
            },
            _ => default,
        }
    }
}

/// Conversion with locals of `cargs[i..]`, appended to `acc`.
pub open spec fn spec_convert_with_locals_list(
    reg: ClassRegistry,
    cargs: Seq<PyExpr>,
    i: int,
    acc: Seq<Expression>,
    locals: Seq<usize>,
    stmts: Seq<PyStmt>,
    args: Seq<String>,
    hint: String,
    fuel: u64,
) -> Result<Seq<Expression>, AnalysisError>
    decreases fuel, cargs.len() - i,
{
    if fuel == 0 {
        Err(AnalysisError::DepthExceeded)
    } else if i < 0 || i >= cargs.len() {
        Ok(acc)
    } else {
        match spec_convert_with_locals(reg, cargs[i], locals, stmts, args, hint, (fuel - 1) as u64) {
            Err(e) => Err(e),
            Ok(x) => spec_convert_with_locals_list(reg, cargs, i + 1, acc.push(x), locals, stmts, args, hint, fuel),
        }
    }
}

// ---------------------------------------------------------------------------
// Conditional assignments to self
// ---------------------------------------------------------------------------

/// The first `if` in `stmts[i..]` whose branches assign `self.field`.
pub open spec fn spec_assignment_if(
    reg: ClassRegistry,
    stmts: Seq<PyStmt>,
    i: int,
    args: Seq<String>,
    hint: String,
    fuel: u64,
) -> Result<Expression, AnalysisError>
    decreases fuel, stmts.len() - i,
{
    if fuel == 0 {
        Err(AnalysisError::DepthExceeded)
    } else if i < 0 || i >= stmts.len() {
        Err(AnalysisError::Pattern { reason: crate::error::PatternFailure::NoAssignmentPattern })
    } else {
        match stmts[i] {
            PyStmt::If { test, body, orelse } => match spec_if_assignment(reg, test, body@, orelse@, args, hint, (fuel - 1) as u64) {
                Ok(x) => Ok(x),
                Err(_) => spec_assignment_if(reg, stmts, i + 1, args, hint, fuel),
            },
            _ => spec_assignment_if(reg, stmts, i + 1, args, hint, fuel),
        }
    }
}

/// `if c1: self.f = a` / `elif c2: self.f = b` / `else: self.f = c` as nested
/// conditionals.
pub open spec fn spec_if_assignment(
    reg: ClassRegistry,
    test: PyExpr,
    body: Seq<PyStmt>,
    orelse: Seq<PyStmt>,
    args: Seq<String>,
    hint: String,
    fuel: u64,
) -> Result<Expression, AnalysisError>
    decreases fuel, 0int,
{
    if fuel == 0 {
        Err(AnalysisError::DepthExceeded)
    } else {
        let f = (fuel - 1) as u64;
        match spec_convert(reg, test, args, hint, ExpectedType::Any, f) {
            Err(e) => Err(e),
            Ok(None) => Err(AnalysisError::Pattern { reason: crate::error::PatternFailure::CannotConvertCondition }),
            Ok(Some(c)) => match spec_branch_value(reg, body, 0, args, hint, f) {
                Err(e) => Err(e),
                Ok(t) => if orelse.len() == 0 {
                    Err(AnalysisError::Pattern { reason: crate::error::PatternFailure::AssignmentWithoutElse })
                } else {
                    let el = match orelse[0] {
                        PyStmt::If { test: t2, body: b2, orelse: o2 } => spec_if_assignment(reg, t2, b2@, o2@, args, hint, f),
                        _ => spec_branch_value(reg, orelse, 0, args, hint, f),
                    };
                    match el {
                        Err(e) => Err(e),
                        Ok(e) => Ok(ite(c, t, e)),
                    }
                },
            },
        }
    }
}

/// The value a branch `stmts[i..]` returns or assigns to `self.field`.
pub open spec fn spec_branch_value(
    reg: ClassRegistry,
    stmts: Seq<PyStmt>,
    i: int,
    args: Seq<String>,
    hint: String,
    fuel: u64,
) -> Result<Expression, AnalysisError>
    decreases fuel, stmts.len() - i,
{
    if fuel == 0 {
        Err(AnalysisError::DepthExceeded)
    } else if i < 0 || i >= stmts.len() {
        Err(AnalysisError::Pattern { reason: crate::error::PatternFailure::BranchWithoutValue })
    } else {
        let f = (fuel - 1) as u64;
        match stmts[i] {
            PyStmt::Return { value: None } => Ok(Expression::Null),
            PyStmt::Return { value: Some(v) } => match spec_convert(reg, v, args, hint, ExpectedType::Any, f) {
                Err(e) => Err(e),
                Ok(None) => Err(AnalysisError::Pattern { reason: crate::error::PatternFailure::CannotConvertReturnValue }),
                Ok(Some(x)) => Ok(x),
            },
            PyStmt::Assign { targets, value } => if targets_self_field(targets@, args) {
                match spec_convert(reg, value, args, hint, ExpectedType::Any, f) {
                    Err(e) => Err(e),
                    Ok(None) => Err(AnalysisError::Pattern { reason: crate::error::PatternFailure::CannotConvertAssignedValue }),
                    Ok(Some(x)) => Ok(x),
                }
            } else {
                spec_branch_value(reg, stmts, i + 1, args, hint, fuel)
            },
            _ => spec_branch_value(reg, stmts, i + 1, args, hint, fuel),
        }
    }
}

} // verus!

verus! {

// ---------------------------------------------------------------------------
// Executable helpers for the pure parts
// ---------------------------------------------------------------------------

/// Left-nested `and` / `or` chain over converted operands (at least one).
pub(crate) fn chain_exec(op: BoolOpKind, es: &Vec<Expression>) -> (res: Expression)
    requires
        es@.len() >= 1,
    ensures
        res == chain_from(op, es@, 1, es@[0]),
{
    let n = es.len();
    let mut acc = clone_expr(&es[0]);
    let mut i: usize = 1;
    while i < n
        invariant
            n == es@.len(),
            1 <= i <= n,
            chain_from(op, es@, 1, es@[0]) == chain_from(op, es@, i as int, acc),
        decreases n - i,
    {
        let b = if op == BoolOpKind::And { BinaryOp::And } else { BinaryOp::Or };
        acc = mk_bin(b, acc, clone_expr(&es[i]));
        i = i + 1;
    }
    acc
}

/// The common type of the arguments of a call.
pub(crate) fn promote_arg_types(reg: &ClassRegistry, cargs: &Vec<PyExpr>, args: &Vec<String>, hint: &String) -> (res: InferredType)
    ensures
        res == promote_all(arg_types(*reg, cargs@, args@, *hint)),
{
    let ghost ts = arg_types(*reg, cargs@, args@, *hint);
    let n = cargs.len();
    if n == 0 {
        return InferredType::I32;
    }
    let mut acc = infer_ast_type(reg, &cargs[0], args, hint);
    let mut i: usize = 1;
    while i < n
        invariant
            n == cargs@.len(),
            1 <= i <= n,
            ts == arg_types(*reg, cargs@, args@, *hint),
            promote_all(ts) == promote_from(ts, i as int, acc),
        decreases n - i,
    {
        let t = infer_ast_type(reg, &cargs[i], args, hint);
        acc = acc.promote(t);
        i = i + 1;
    }
    acc
}

pub(crate) fn constant_int_exec(c: &Constant) -> (res: Option<i64>)
    ensures
        res == constant_int(*c),
{
    match c {
        Constant::Int { value } => Some(*value),
        Constant::Bool { value } => Some(if *value { 1i64 } else { 0i64 }),
        _ => None,
    }
}

/// The integer keyword arguments of a call (see `keyword_ints`).
pub(crate) fn keyword_ints_exec(kws: &Vec<Keyword>) -> (res: Result<Vec<(String, i64)>, AnalysisError>)
    ensures
        match res {
            Ok(v) => keyword_ints(kws@, 0, Seq::empty()) == Ok::<Seq<(String, i64)>, AnalysisError>(v@),
            Err(e) => keyword_ints(kws@, 0, Seq::empty()) == Err::<Seq<(String, i64)>, AnalysisError>(e),
        },
{
    let n = kws.len();
    let mut acc: Vec<(String, i64)> = Vec::new();
    let mut i: usize = 0;
    while i < n
        invariant
            n == kws@.len(),
            i <= n,
            keyword_ints(kws@, 0, Seq::empty()) == keyword_ints(kws@, i as int, acc@),
        decreases n - i,
    {
        let kw = &kws[i];
        match &kw.arg {
            None => {},
            Some(name) => match &kw.value {
                PyExpr::Constant { value } => match constant_int_exec(value) {
                    Some(v) => {
                        acc.push((name.clone(), v));
                    },
                    None => {},
                },
                PyExpr::UnaryOp { op, operand } => if *op == UnaryOpKind::USub {
                    let has_value = match &**operand {
                        PyExpr::Constant { .. } | PyExpr::Attribute { .. } | PyExpr::Subscript { .. } | PyExpr::OtherWithValue => true,
                        _ => false,
                    };
                    if !has_value {
                        return Err(AnalysisError::UnsupportedExpression);
                    }
                    match &**operand {
                        PyExpr::Constant { value } => match constant_int_exec(value) {
                            Some(v) => {
                                acc.push((name.clone(), 0i64.wrapping_sub(v)));
                            },
                            None => {},
                        },
                        _ => {},
                    }
                },
                _ => {},
            },
        }
        i = i + 1;
    }
    Ok(acc)
}

fn seconds_per_exec(name: &String) -> (res: i64)
    ensures
        res == seconds_per(name@),
{
    if string_eq_str(name, "days") {
        86400
    } else if string_eq_str(name, "hours") {
        3600
    } else if string_eq_str(name, "minutes") {
        60
    } else if string_eq_str(name, "seconds") {
        1
    } else {
        0
    }
}

/// Total seconds of `timedelta(**kws)`, wrapping on overflow.
pub(crate) fn timedelta_seconds(kws: &Vec<(String, i64)>) -> (res: i64)
    ensures
        res == timedelta_from(kws@, 0, 0),
{
    let n = kws.len();
    let mut acc: i64 = 0;
    let mut i: usize = 0;
    while i < n
        invariant
            n == kws@.len(),
            i <= n,
            timedelta_from(kws@, 0, 0) == timedelta_from(kws@, i as int, acc),
        decreases n - i,
    {
        let per = seconds_per_exec(&kws[i].0);
        if per != 0 {
            acc = acc.wrapping_add(kws[i].1.wrapping_mul(per));
        }
        i = i + 1;
    }
    acc
}

/// The node of a built-in call (see `builtin_node`).
pub(crate) fn builtin_node_exec(name: &String, es: &Vec<Expression>, use_i64: bool, kws: &Vec<(String, i64)>) -> (res: ConvResult)
    ensures
        res == builtin_node(*name, es@, use_i64, kws@),
{
    let n = es.len();
    if string_eq_str(name, "max") && n == 2 {
        let a = clone_expr(&es[0]);
        let b = clone_expr(&es[1]);
        Ok(Some(if use_i64 {
            mk_ite64(mk_bin(BinaryOp::Gt64, clone_expr(&a), clone_expr(&b)), a, b)
        } else {
            mk_ite(mk_bin(BinaryOp::Gt, clone_expr(&a), clone_expr(&b)), a, b)
        }))
    } else if string_eq_str(name, "min") && n == 2 {
        let a = clone_expr(&es[0]);
        let b = clone_expr(&es[1]);
        Ok(Some(if use_i64 {
            mk_ite64(mk_bin(BinaryOp::Lt64, clone_expr(&a), clone_expr(&b)), a, b)
        } else {
            mk_ite(mk_bin(BinaryOp::Lt, clone_expr(&a), clone_expr(&b)), a, b)
        }))
    } else if string_eq_str(name, "abs") && n == 1 {
        let a = clone_expr(&es[0]);
        Ok(Some(if use_i64 {
            mk_ite64(
                mk_bin(BinaryOp::Lt64, clone_expr(&a), Expression::Int64Literal { value: 0 }),
                mk_bin(BinaryOp::Mul64, Expression::Int64Literal { value: -1i64 }, clone_expr(&a)),
                a,
            )
        } else {
            mk_ite(
                mk_bin(BinaryOp::Lt, clone_expr(&a), Expression::IntLiteral { value: 0 }),
                mk_bin(BinaryOp::Mul, Expression::IntLiteral { value: -1i64 }, clone_expr(&a)),
                a,
            )
        }))
    } else if string_eq_str(name, "len") && n == 1 {
        Ok(Some(mk_un(UnaryOp::Length, clone_expr(&es[0]))))
    } else if string_eq_str(name, "round") && n == 1 {
        Ok(Some(mk_un(UnaryOp::Round, clone_expr(&es[0]))))
    } else if string_eq_str(name, "int") && n == 1 {
        Ok(Some(mk_un(UnaryOp::FloatToInt, clone_expr(&es[0]))))
    } else if string_eq_str(name, "float") && n == 1 {
        Ok(Some(mk_un(UnaryOp::IntToFloat, clone_expr(&es[0]))))
    } else if string_eq_str(name, "timedelta") {
        Ok(Some(Expression::Int64Literal { value: timedelta_seconds(kws) }))
    } else {
        Err(AnalysisError::UnsupportedFunctionCall { name: name.clone() })
    }
}

/// Substitution of `cargs` for parameters 1, 2, ... (see `subst_all`).
pub(crate) fn subst_all_exec(e: Expression, cargs: &Vec<Expression>) -> (res: Expression)
    ensures
        res == subst_all(e, cargs@, 0),
{
    let n = cargs.len();
    let mut acc = e;
    let mut i: usize = 0;
    while i < n
        invariant
            n == cargs@.len(),
            i <= n,
            subst_all(e, cargs@, 0) == subst_all(acc, cargs@, i as int),
        decreases n - i,
    {
        acc = substitute_param(acc, (i + 1) as u32, &cargs[i]);
        i = i + 1;
    }
    acc
}

/// Index of the first function definition.
pub(crate) fn first_function_def_exec(stmts: &[PyStmt]) -> (res: Option<usize>)
    ensures
        match res {
            Some(i) => first_function_def(stmts@, 0) == Some(i as int) && i < stmts@.len(),
            None => first_function_def(stmts@, 0) is None,
        },
{
    let n = stmts.len();
    let mut i: usize = 0;
    while i < n
        invariant
            n == stmts@.len(),
            i <= n,
            first_function_def(stmts@, 0) == first_function_def(stmts@, i as int),
        decreases n - i,
    {
        if matches!(stmts[i], PyStmt::FunctionDef { .. }) {
            return Some(i);
        }
        i = i + 1;
    }
    None
}

/// A field read typed by the registry.
pub(crate) fn field_read_exec(reg: &ClassRegistry, object: Expression, class_name: &String, field: &String) -> (res: Expression)
    ensures
        res == field_read(*reg, object, *class_name, *field),
{
    let t = get_wasm_field_type(reg, class_name, field);
    Expression::FieldAccess {
        object: Box::new(object),
        class_name: class_name.clone(),
        field_name: field.clone(),
        field_type: t,
    }
}

} // verus!

verus! {

// ---------------------------------------------------------------------------
// Executable statement shapes
// ---------------------------------------------------------------------------

pub(crate) fn simple_assign_name_exec(s: &PyStmt) -> (res: Option<String>)
    ensures
        res == simple_assign_name(*s),
{
    match s {
        PyStmt::Assign { targets, .. } => if targets.len() == 1 {
            match &targets[0] {
                PyExpr::Name { id } => Some(id.clone()),
                _ => None,
            }
        } else {
            None
        },
        _ => None,
    }
}

fn is_zero_literal_exec(e: &PyExpr) -> (res: bool)
    ensures
        res == crate::infer::is_zero_literal(*e),
{
    match e {
        PyExpr::Constant { value } => match value {
            Constant::Int { value: v } => *v == 0,
            Constant::Bool { value: b } => !*b,
            _ => false,
        },
        _ => false,
    }
}

fn is_zero_init_exec(s: &PyStmt) -> (res: bool)
    ensures
        res == is_zero_init(*s),
{
    match s {
        PyStmt::Assign { targets, value } => targets.len() == 1 && matches!(targets[0], PyExpr::Name { .. })
            && is_zero_literal_exec(value),
        _ => false,
    }
}

pub(crate) fn first_for_exec(stmts: &[PyStmt]) -> (res: usize)
    ensures
        res as int == first_for_from(stmts@, 0),
        res <= stmts@.len(),
{
    let n = stmts.len();
    let mut i: usize = 0;
    while i < n
        invariant
            n == stmts@.len(),
            i <= n,
            first_for_from(stmts@, 0) == first_for_from(stmts@, i as int),
        decreases n - i,
    {
        if matches!(stmts[i], PyStmt::For { .. }) {
            return i;
        }
        i = i + 1;
    }
    n
}

pub(crate) fn last_zero_init_before_exec(stmts: &[PyStmt], end: usize) -> (res: Option<usize>)
    requires
        end <= stmts@.len(),
    ensures
        match res {
            Some(k) => last_zero_init_before(stmts@, end as int) == Some(k as int) && k < end && is_zero_init(stmts@[k as int]),
            None => last_zero_init_before(stmts@, end as int) is None,
        },
{
    let mut e: usize = end;
    while e > 0
        invariant
            e <= end <= stmts@.len(),
            last_zero_init_before(stmts@, end as int) == last_zero_init_before(stmts@, e as int),
        decreases e,
    {
        if is_zero_init_exec(&stmts[e - 1]) {
            return Some(e - 1);
        }
        e = e - 1;
    }
    None
}

pub(crate) fn last_for_exec(stmts: &[PyStmt]) -> (res: Option<usize>)
    ensures
        match res {
            Some(k) => last_for_before(stmts@, stmts@.len() as int) == Some(k as int) && k < stmts@.len(),
            None => last_for_before(stmts@, stmts@.len() as int) is None,
        },
{
    let mut e: usize = stmts.len();
    while e > 0
        invariant
            e <= stmts@.len(),
            last_for_before(stmts@, stmts@.len() as int) == last_for_before(stmts@, e as int),
        decreases e,
    {
        if matches!(stmts[e - 1], PyStmt::For { .. }) {
            return Some(e - 1);
        }
        e = e - 1;
    }
    None
}

fn returned_name_exec(s: &PyStmt) -> (res: Option<String>)
    ensures
        res == returned_name(*s),
{
    match s {
        PyStmt::Return { value: Some(v) } => match v {
            PyExpr::Name { id } => Some(id.clone()),
            _ => None,
        },
        _ => None,
    }
}

pub(crate) fn last_returned_name_exec(stmts: &[PyStmt]) -> (res: Option<String>)
    ensures
        res == last_returned_name_before(stmts@, stmts@.len() as int),
{
    let mut e: usize = stmts.len();
    while e > 0
        invariant
            e <= stmts@.len(),
            last_returned_name_before(stmts@, stmts@.len() as int) == last_returned_name_before(stmts@, e as int),
        decreases e,
    {
        let r = returned_name_exec(&stmts[e - 1]);
        if r.is_some() {
            return r;
        }
        e = e - 1;
    }
    None
}

/// Indices of the single-name assignments before `end`.
pub(crate) fn assigns_before_exec(stmts: &[PyStmt], end: usize) -> (res: Vec<usize>)
    requires
        end <= stmts@.len(),
    ensures
        res@ == assigns_between(stmts@, 0, end as int, Seq::empty()),
        forall|k: int| 0 <= k < res@.len() ==> res@[k] < stmts@.len(),
{
    let mut acc: Vec<usize> = Vec::new();
    let mut i: usize = 0;
    while i < end
        invariant
            end <= stmts@.len(),
            i <= end,
            assigns_between(stmts@, 0, end as int, Seq::empty()) == assigns_between(stmts@, i as int, end as int, acc@),
            forall|k: int| 0 <= k < acc@.len() ==> acc@[k] < stmts@.len(),
        decreases end - i,
    {
        if simple_assign_name_exec(&stmts[i]).is_some() {
            acc.push(i);
        }
        i = i + 1;
    }
    acc
}

/// Indices of the augmented assignments from `start` on.
pub(crate) fn augassigns_from_exec(stmts: &[PyStmt], start: usize) -> (res: Vec<usize>)
    ensures
        res@ == augassigns_from(stmts@, start as int, Seq::empty()),
{
    let n = stmts.len();
    let mut acc: Vec<usize> = Vec::new();
    let mut i: usize = start;
    if i > n {
        return acc;
    }
    while i < n
        invariant
            n == stmts@.len(),
            start <= i <= n,
            augassigns_from(stmts@, start as int, Seq::empty()) == augassigns_from(stmts@, i as int, acc@),
        decreases n - i,
    {
        if matches!(stmts[i], PyStmt::AugAssign { .. }) {
            acc.push(i);
        }
        i = i + 1;
    }
    acc
}

fn field_of_name_exec(e: &PyExpr, item: &String) -> (res: Option<String>)
    ensures
        res == field_of_name(*e, item@),
{
    match e {
        PyExpr::Attribute { value, attr } => match &**value {
            PyExpr::Name { id } => if *id == *item { Some(attr.clone()) } else { None },
            _ => None,
        },
        _ => None,
    }
}

fn mutable_vars_for_stmt_exec(
    stmts: &[PyStmt],
    pre: &Vec<usize>,
    body_stmt: &PyStmt,
    loop_var: &String,
    acc: &mut Vec<MutableLoopVar>,
)
    requires
        forall|k: int| 0 <= k < pre@.len() ==> pre@[k] < stmts@.len(),
    ensures
        final(acc)@ == mutable_vars_for_stmt(stmts@, pre@, 0, *body_stmt, loop_var@, old(acc)@),
{
    let n = pre.len();
    let var = simple_assign_name_exec(body_stmt);
    let mut j: usize = 0;
    while j < n
        invariant
            n == pre@.len(),
            j <= n,
            forall|k: int| 0 <= k < pre@.len() ==> pre@[k] < stmts@.len(),
            var == simple_assign_name(*body_stmt),
            mutable_vars_for_stmt(stmts@, pre@, 0, *body_stmt, loop_var@, old(acc)@)
                == mutable_vars_for_stmt(stmts@, pre@, j as int, *body_stmt, loop_var@, acc@),
        decreases n - j,
    {
        let pre_var = simple_assign_name_exec(&stmts[pre[j]]);
        match (&var, &pre_var) {
            (Some(v), Some(pv)) => if *v == *pv {
                let value = match body_stmt {
                    PyStmt::Assign { value, .. } => value,
                    _ => &PyExpr::Other,
                };
                proof {
                    assert(*value == assign_value(*body_stmt));
                }
                match field_of_name_exec(value, loop_var) {
                    Some(field) => {
                        acc.push(MutableLoopVar { name: v.clone(), init_index: pre[j], item_field: field });
                    },
                    None => {},
                }
            },
            _ => {},
        }
        j = j + 1;
    }
}

/// The mutable loop variables of a loop body.
pub(crate) fn detect_mutable_loop_vars(stmts: &[PyStmt], pre: &Vec<usize>, body: &[PyStmt], loop_var: &String) -> (res: Vec<MutableLoopVar>)
    requires
        forall|k: int| 0 <= k < pre@.len() ==> pre@[k] < stmts@.len(),
    ensures
        res@ == detect_mutable_loop_vars_from(stmts@, pre@, body@, 0, loop_var@, Seq::empty()),
{
    let n = body.len();
    let mut acc: Vec<MutableLoopVar> = Vec::new();
    let mut i: usize = 0;
    while i < n
        invariant
            n == body@.len(),
            i <= n,
            forall|k: int| 0 <= k < pre@.len() ==> pre@[k] < stmts@.len(),
            detect_mutable_loop_vars_from(stmts@, pre@, body@, 0, loop_var@, Seq::empty())
                == detect_mutable_loop_vars_from(stmts@, pre@, body@, i as int, loop_var@, acc@),
        decreases n - i,
    {
        mutable_vars_for_stmt_exec(stmts, pre, &body[i], loop_var, &mut acc);
        i = i + 1;
    }
    acc
}

/// The parameter names inside a summation loop: the outer parameters, the
/// loop variable, then the mutable loop variables.
pub(crate) fn loop_args_exec(args: &Vec<String>, loop_var: &String, mvs: &Vec<MutableLoopVar>) -> (res: Vec<String>)
    ensures
        res@ == args@ + seq![*loop_var] + mv_names(mvs@),
{
    let mut out: Vec<String> = Vec::new();
    let n = args.len();
    let mut i: usize = 0;
    while i < n
        invariant
            n == args@.len(),
            i <= n,
            out@ == args@.subrange(0, i as int),
        decreases n - i,
    {
        out.push(args[i].clone());
        i = i + 1;
    }
    out.push(loop_var.clone());
    let m = mvs.len();
    let mut j: usize = 0;
    while j < m
        invariant
            m == mvs@.len(),
            j <= m,
            out@ == args@ + seq![*loop_var] + mv_names(mvs@).subrange(0, j as int),
        decreases m - j,
    {
        out.push(mvs[j].name.clone());
        proof {
            assert(mv_names(mvs@).subrange(0, j + 1) =~= mv_names(mvs@).subrange(0, j as int).push(mvs@[j as int].name));
        }
        j = j + 1;
    }
    proof {
        assert(mv_names(mvs@).subrange(0, m as int) =~= mv_names(mvs@));
    }
    out
}

pub(crate) fn first_mv_named_exec(mvs: &Vec<MutableLoopVar>, name: &String) -> (res: Option<usize>)
    ensures
        match res {
            Some(j) => first_mv_named(mvs@, name@, 0) == Some(j as int) && j < mvs@.len(),
            None => first_mv_named(mvs@, name@, 0) is None,
        },
{
    let n = mvs.len();
    let mut j: usize = 0;
    while j < n
        invariant
            n == mvs@.len(),
            j <= n,
            first_mv_named(mvs@, name@, 0) == first_mv_named(mvs@, name@, j as int),
        decreases n - j,
    {
        if mvs[j].name == *name {
            return Some(j);
        }
        j = j + 1;
    }
    None
}

pub(crate) fn name_method_call_exec(e: &PyExpr) -> (res: Option<(&String, &String, &Vec<PyExpr>)>)
    ensures
        match res {
            Some((b, m, a)) => name_method_call(*e) == Some((*b, *m, a@)),
            None => name_method_call(*e) is None,
        },
{
    match e {
        PyExpr::Call { func, args, .. } => match &**func {
            PyExpr::Attribute { value, attr } => match &**value {
                PyExpr::Name { id } => Some((id, attr, args)),
                _ => None,
            },
            _ => None,
        },
        _ => None,
    }
}

pub(crate) fn local_lookup_exec(stmts: &[PyStmt], locals: &Vec<usize>, name: &String) -> (res: Option<usize>)
    requires
        forall|k: int| 0 <= k < locals@.len() ==> locals@[k] < stmts@.len(),
    ensures
        match res {
            Some(j) => local_lookup(stmts@, locals@, name@, locals@.len() as int) == Some(j as int) && j < stmts@.len(),
            None => local_lookup(stmts@, locals@, name@, locals@.len() as int) is None,
        },
{
    let mut e: usize = locals.len();
    while e > 0
        invariant
            e <= locals@.len(),
            forall|k: int| 0 <= k < locals@.len() ==> locals@[k] < stmts@.len(),
            local_lookup(stmts@, locals@, name@, locals@.len() as int) == local_lookup(stmts@, locals@, name@, e as int),
        decreases e,
    {
        let idx = locals[e - 1];
        match simple_assign_name_exec(&stmts[idx]) {
            Some(n) => if n == *name {
                return Some(idx);
            },
            None => {},
        }
        e = e - 1;
    }
    None
}

pub(crate) fn last_return_value_exec(stmts: &[PyStmt]) -> (res: Option<usize>)
    ensures
        match res {
            Some(k) => last_return_value_before(stmts@, stmts@.len() as int) == Some(k as int) && k < stmts@.len(),
            None => last_return_value_before(stmts@, stmts@.len() as int) is None,
        },
{
    let mut e: usize = stmts.len();
    while e > 0
        invariant
            e <= stmts@.len(),
            last_return_value_before(stmts@, stmts@.len() as int) == last_return_value_before(stmts@, e as int),
        decreases e,
    {
        if matches!(stmts[e - 1], PyStmt::Return { value: Some(_) }) {
            return Some(e - 1);
        }
        e = e - 1;
    }
    None
}

pub(crate) fn targets_self_field_exec(targets: &Vec<PyExpr>, args: &Vec<String>) -> (res: bool)
    ensures
        res == targets_self_field(targets@, args@),
{
    if targets.len() == 0 {
        return false;
    }
    match &targets[0] {
        PyExpr::Attribute { value, .. } => match &**value {
            PyExpr::Name { id } => string_eq_str(id, "self") || (args.len() > 0 && args[0] == *id),
            _ => false,
        },
        _ => false,
    }
}

} // verus!

verus! {

pub(crate) fn local_binop_node_exec(op: BinOpKind, l: Expression, r: Expression) -> (res: Result<Expression, AnalysisError>)
    ensures
        res == local_binop_node(op, l, r),
{
    let lt = infer_expression_type(&l);
    let rt = infer_expression_type(&r);
    let use_float = lt == InferredType::F64 || rt == InferredType::F64;
    let use_i64 = lt == InferredType::I64 || rt == InferredType::I64;
    match op {
        BinOpKind::Add => Ok(mk_bin(if use_float { BinaryOp::FloatAdd } else if use_i64 { BinaryOp::Add64 } else { BinaryOp::Add }, l, r)),
        BinOpKind::Sub => Ok(mk_bin(if use_float { BinaryOp::FloatSub } else if use_i64 { BinaryOp::Sub64 } else { BinaryOp::Sub }, l, r)),
        BinOpKind::Mult => Ok(mk_bin(if use_float { BinaryOp::FloatMul } else if use_i64 { BinaryOp::Mul64 } else { BinaryOp::Mul }, l, r)),
        BinOpKind::Div => Ok(mk_bin(BinaryOp::FloatDiv, l, r)),
        BinOpKind::FloorDiv => Ok(mk_bin(if use_i64 { BinaryOp::Div64 } else { BinaryOp::Div }, l, r)),
        _ => Err(AnalysisError::UnsupportedOperator),
    }
}

/// A call of a method without arguments inlines the method's body with
/// `self` replaced by the receiver, so that the result no longer refers to
/// `self` unless the receiver does; a method that is not registered, or
/// whose body cannot be analyzed, is refused.
pub proof fn law_method_call_inlines_body(reg: ClassRegistry, base: Expression, method: String, hint: String, fuel: u64)
    requires
        fuel > 0,
    ensures
        ({
            let c = spec_receiver_class(reg, base, hint);
            let res = spec_build_method_call(reg, base, method, Seq::empty(), hint, fuel);
            match spec_get_method(reg, c@, method@) {
                Some(src) => match spec_analyze_method_body(reg, src, c, (fuel - 1) as u64) {
                    Ok(body) => {
                        &&& res == Ok::<Expression, AnalysisError>(spec_substitute(body, 0, base))
                        &&& !crate::expr::mentions_param(base, 0) ==> !crate::expr::mentions_param(spec_substitute(body, 0, base), 0)
                    },
                    Err(_) => res == Err::<Expression, AnalysisError>(
                        AnalysisError::MethodNotInlinable { class_name: c, method_name: method },
                    ),
                },
                None => res == Err::<Expression, AnalysisError>(
                    AnalysisError::MethodNotInlinable { class_name: c, method_name: method },
                ),
            }
        }),
{
    let c = spec_receiver_class(reg, base, hint);
    match spec_get_method(reg, c@, method@) {
        Some(src) => match spec_analyze_method_body(reg, src, c, (fuel - 1) as u64) {
            Ok(body) => {
                if !crate::expr::mentions_param(base, 0) {
                    crate::expr::law_substitute_removes_param(body, 0, base);
                }
            },
            Err(_) => {},
        },
        None => {},
    }
}

} // verus!

verus! {

// ---------------------------------------------------------------------------
// What the conversion gives for the common lambda shapes
// ---------------------------------------------------------------------------

/// A parameter's name converts to that parameter, by its position among the
/// parameter names.
pub proof fn law_parameter_name(reg: ClassRegistry, id: String, args: Seq<String>, hint: String, expected: ExpectedType, fuel: u64)
    requires
        fuel > 0,
        arg_position(args, id@, 0) is Some,
    ensures
        spec_convert(reg, (PyExpr::Name { id }), args, hint, expected, fuel) == Ok::<Option<Expression>, AnalysisError>(
            Some(Expression::Param { index: arg_position(args, id@, 0).unwrap() as u32 }),
        ),
{
}

/// `p.attr`, for a parameter `p`, where `attr` is neither a constant nor a
/// property of the hinted class, converts to a read of field `attr` of the
/// hinted class on that parameter, typed by the registry.
pub proof fn law_parameter_field_read(
    reg: ClassRegistry,
    id: String,
    attr: String,
    args: Seq<String>,
    hint: String,
    expected: ExpectedType,
    fuel: u64,
)
    requires
        fuel >= 3,
        arg_position(args, id@, 0) is Some,
        spec_get_class_constant(reg, hint, attr) == Ok::<Option<Expression>, AnalysisError>(None),
        !(spec_get_class(reg, hint@) matches Some(c) && spec_attr_of(c, attr@) matches Some(ClassAttr::Property { .. })),
    ensures
        spec_convert(
            reg,
            (PyExpr::Attribute { value: Box::new(PyExpr::Name { id }), attr }),
            args,
            hint,
            expected,
            fuel,
        ) == Ok::<Option<Expression>, AnalysisError>(
            Some(field_read(reg, Expression::Param { index: arg_position(args, id@, 0).unwrap() as u32 }, hint, attr)),
        ),
{
    let p = Expression::Param { index: arg_position(args, id@, 0).unwrap() as u32 };
    assert(spec_convert(reg, PyExpr::Name { id }, args, hint, ExpectedType::Any, (fuel - 1) as u64) == Ok::<
        Option<Expression>,
        AnalysisError,
    >(Some(p)));
    assert(spec_infer_expression_class(reg, p, hint) is None || spec_infer_expression_class(reg, p, hint) == Some(hint));
    assert(spec_inline_property(reg, hint, attr, p, (fuel - 2) as u64) == Ok::<Option<Expression>, AnalysisError>(None));
    assert(spec_convert_attribute(reg, p, attr, hint, (fuel - 1) as u64) == Ok::<Option<Expression>, AnalysisError>(
        Some(field_read(reg, p, hint, attr)),
    ));
}

/// `x is None` and `x is not None` convert to a null check of `x`, which is
/// converted as a 64-bit value when it is inferred to be one; an `x` that is
/// left alone, or refused, leaves the check alone, or refused, alike.
pub proof fn law_null_check(
    reg: ClassRegistry,
    left: PyExpr,
    ops: Vec<CmpOp>,
    comparators: Vec<PyExpr>,
    args: Seq<String>,
    hint: String,
    expected: ExpectedType,
    fuel: u64,
)
    requires
        fuel >= 3,
        ops@ == seq![CmpOp::Is] || ops@ == seq![CmpOp::IsNot],
        comparators@ == seq![PyExpr::Constant { value: Constant::NoneValue }],
    ensures
        ({
            let res = spec_convert(
                reg,
                (PyExpr::Compare { left: Box::new(left), ops, comparators }),
                args,
                hint,
                expected,
                fuel,
            );
            let ex = if spec_infer_ast_type(reg, left, args, hint) == InferredType::I64 {
                ExpectedType::I64
            } else {
                ExpectedType::Any
            };
            let check = if ops@[0] == CmpOp::Is { UnaryOp::IsNull } else { UnaryOp::IsNotNull };
            match spec_convert(reg, left, args, hint, ex, (fuel - 2) as u64) {
                Ok(Some(l)) => res == Ok::<Option<Expression>, AnalysisError>(Some(un(check, l))),
                other => res == other,
            }
        }),
{
    let none = PyExpr::Constant { value: Constant::NoneValue };
    let f2 = (fuel - 2) as u64;
    let lt = spec_infer_ast_type(reg, left, args, hint);
    let ex = if lt == InferredType::I64 { ExpectedType::I64 } else { ExpectedType::Any };
    assert(comparators@[0] == none);
    assert(ops@.len() == 1);
    assert(spec_infer_ast_type(reg, none, args, hint) == InferredType::Null);
    assert((spec_promote(lt, InferredType::Null) == InferredType::I64) == (lt == InferredType::I64));
    assert(spec_convert(reg, none, args, hint, ex, f2) == Ok::<Option<Expression>, AnalysisError>(Some(Expression::Null)));
    assert(spec_convert(
        reg,
        PyExpr::Compare { left: Box::new(left), ops, comparators },
        args,
        hint,
        expected,
        fuel,
    ) == spec_convert_compare(reg, left, ops@, comparators@, args, hint, (fuel - 1) as u64));
}

/// `a and b` / `a or b` converts to the conjunction / disjunction of the
/// two converted operands, in order.
pub proof fn law_boolean_pair(
    reg: ClassRegistry,
    op: BoolOpKind,
    values: Vec<PyExpr>,
    args: Seq<String>,
    hint: String,
    expected: ExpectedType,
    fuel: u64,
)
    requires
        fuel >= 3,
        values@.len() == 2,
    ensures
        ({
            let res = spec_convert(reg, (PyExpr::BoolOp { op, values }), args, hint, expected, fuel);
            let f = (fuel - 3) as u64;
            let a = spec_convert(reg, values@[0], args, hint, ExpectedType::Any, f);
            let b = spec_convert(reg, values@[1], args, hint, ExpectedType::Any, f);
            let k = if op == BoolOpKind::And { BinaryOp::And } else { BinaryOp::Or };
            match (a, b) {
                (Ok(Some(l)), Ok(Some(r))) => res == Ok::<Option<Expression>, AnalysisError>(Some(bin(k, l, r))),
                (Err(e), _) => res == Err::<Option<Expression>, AnalysisError>(e),
                (Ok(None), _) => res == Ok::<Option<Expression>, AnalysisError>(None),
                (Ok(Some(_)), Err(e)) => res == Err::<Option<Expression>, AnalysisError>(e),
                (Ok(Some(_)), Ok(None)) => res == Ok::<Option<Expression>, AnalysisError>(None),
            }
        }),
{
    let vals = values@;
    let lf = (fuel - 2) as u64;
    let f = (fuel - 3) as u64;
    let a = spec_convert(reg, vals[0], args, hint, ExpectedType::Any, f);
    let b = spec_convert(reg, vals[1], args, hint, ExpectedType::Any, f);
    let e0 = Seq::<Expression>::empty();
    assert(spec_convert(reg, PyExpr::BoolOp { op, values }, args, hint, expected, fuel) == spec_convert_boolop(
        reg,
        op,
        vals,
        args,
        hint,
        (fuel - 1) as u64,
    ));
    let r0 = spec_convert_list(reg, vals, 0, e0, args, hint, ExpectedType::Any, lf);
    match a {
        Ok(Some(l)) => {
            let acc1 = e0.push(l);
            assert(r0 == spec_convert_list(reg, vals, 1, acc1, args, hint, ExpectedType::Any, lf));
            match b {
                Ok(Some(r)) => {
                    let acc = acc1.push(r);
                    assert(spec_convert_list(reg, vals, 1, acc1, args, hint, ExpectedType::Any, lf) == spec_convert_list(
                        reg,
                        vals,
                        2,
                        acc,
                        args,
                        hint,
                        ExpectedType::Any,
                        lf,
                    ));
                    assert(spec_convert_list(reg, vals, 2, acc, args, hint, ExpectedType::Any, lf) == Ok::<
                        Option<Seq<Expression>>,
                        AnalysisError,
                    >(Some(acc)));
                    assert(acc[0] == l && acc[1] == r && acc.len() == 2);
                    let k = if op == BoolOpKind::And { BinaryOp::And } else { BinaryOp::Or };
                    assert(chain_from(op, acc, 1, acc[0]) == chain_from(op, acc, 2, bin(k, l, r)));
                    assert(chain_from(op, acc, 2, bin(k, l, r)) == bin(k, l, r));
                },
                _ => {
                    assert(spec_convert_list(reg, vals, 1, acc1, args, hint, ExpectedType::Any, lf) == match b {
                        Err(e) => Err::<Option<Seq<Expression>>, AnalysisError>(e),
                        _ => Ok(None),
                    });
                },
            }
        },
        _ => {},
    }
}

// ---------------------------------------------------------------------------
// The depth budget
// ---------------------------------------------------------------------------

/// Whether `a` is a plain field of the class `hint`: neither a property nor
/// a name whose class-constant lookup is refused.
pub open spec fn plain_field(reg: ClassRegistry, hint: String, a: String) -> bool {
    &&& spec_get_class_constant(reg, hint, a) is Ok
    &&& !(spec_get_class(reg, hint@) matches Some(c) && spec_attr_of(c, a@) matches Some(ClassAttr::Property { .. }))
}

/// Whether `e` is built from names, plain fields read from a name
/// (`x.field`), literals, comparisons, and boolean, unary and arithmetic
/// operators (with nodes the analyzer leaves alone as leaves), nested at
/// most `d` levels deep; `hint` is the class of parameter 0.
pub open spec fn plain_within(reg: ClassRegistry, hint: String, e: PyExpr, d: nat) -> bool
    decreases d,
{
    if d == 0 {
        false
    } else {
        let c = (d - 1) as nat;
        match e {
            PyExpr::Attribute { value, attr } => d >= 2 && *value is Name && plain_field(reg, hint, attr),
            PyExpr::Call { .. } => false,
            PyExpr::Compare { left, comparators, .. } => plain_within(reg, hint, *left, c) && forall|i: int|
                0 <= i < comparators@.len() ==> plain_within(reg, hint, #[trigger] comparators@[i], c),
            PyExpr::BoolOp { values, .. } => forall|i: int|
                0 <= i < values@.len() ==> plain_within(reg, hint, #[trigger] values@[i], c),
            PyExpr::UnaryOp { operand, .. } => plain_within(reg, hint, *operand, c),
            PyExpr::BinOp { left, right, .. } => plain_within(reg, hint, *left, c) && plain_within(reg, hint, *right, c),
            _ => true,
        }
    }
}

/// An expression of names, plain fields, literals, comparisons and boolean,
/// unary and arithmetic operators, nested at most `d` deep, converts without
/// an error of any kind, the depth error among them, once the budget exceeds
/// `3 * d`.
pub proof fn law_plain_expression_within_budget(
    reg: ClassRegistry,
    e: PyExpr,
    args: Seq<String>,
    hint: String,
    expected: ExpectedType,
    d: nat,
    fuel: u64,
)
    requires
        plain_within(reg, hint, e, d),
        fuel > 3 * d,
    ensures
        spec_convert(reg, e, args, hint, expected, fuel) is Ok,
    decreases d, 0int,
{
    let c = (d - 1) as nat;
    let f2 = (fuel - 2) as u64;
    match e {
        PyExpr::Compare { left, ops, comparators } => {
            assert(spec_convert(reg, e, args, hint, expected, fuel) == spec_convert_compare(
                reg,
                *left,
                ops@,
                comparators@,
                args,
                hint,
                (fuel - 1) as u64,
            ));
            if ops@.len() == 1 && comparators@.len() == 1 {
                let lt = spec_infer_ast_type(reg, *left, args, hint);
                let rt = spec_infer_ast_type(reg, comparators@[0], args, hint);
                let ex = if spec_promote(lt, rt) == InferredType::I64 { ExpectedType::I64 } else { ExpectedType::Any };
                assert(plain_within(reg, hint, comparators@[0], c));
                law_plain_expression_within_budget(reg, *left, args, hint, ex, c, f2);
                law_plain_expression_within_budget(reg, comparators@[0], args, hint, ex, c, f2);
            }
        },
        PyExpr::Attribute { value, attr } => {
            let f1 = (fuel - 1) as u64;
            match spec_convert(reg, *value, args, hint, ExpectedType::Any, f1) {
                Ok(Some(base)) => {
                    assert(spec_infer_expression_class(reg, base, hint) is None || spec_infer_expression_class(reg, base, hint)
                        == Some(hint));
                    assert(spec_inline_property(reg, hint, attr, base, f2) == Ok::<Option<Expression>, AnalysisError>(None));
                    assert(spec_convert_attribute(reg, base, attr, hint, f1) is Ok);
                },
                _ => {},
            }
        },
        PyExpr::BoolOp { op, values } => {
            assert(spec_convert(reg, e, args, hint, expected, fuel) == spec_convert_boolop(
                reg,
                op,
                values@,
                args,
                hint,
                (fuel - 1) as u64,
            ));
            if values@.len() >= 2 {
                lemma_plain_list_within_budget(reg, values@, 0, Seq::empty(), args, hint, ExpectedType::Any, c, f2);
            }
        },
        PyExpr::UnaryOp { op, operand } => {
            let ot = spec_infer_ast_type(reg, *operand, args, hint);
            let actual = match expected {
                ExpectedType::I32 => InferredType::I32,
                ExpectedType::I64 => InferredType::I64,
                ExpectedType::F64 => InferredType::F64,
                ExpectedType::Any => ot,
            };
            law_plain_expression_within_budget(reg, *operand, args, hint, expected_for(actual), c, f2);
            assert(spec_convert(reg, e, args, hint, expected, fuel) == spec_convert_unary(
                reg,
                op,
                *operand,
                args,
                hint,
                expected,
                (fuel - 1) as u64,
            ));
        },
        PyExpr::BinOp { op, left, right } => {
            let lt = spec_infer_ast_type(reg, *left, args, hint);
            let rt = spec_infer_ast_type(reg, *right, args, hint);
            let promoted = if op == BinOpKind::Div { InferredType::F64 } else { spec_promote(lt, rt) };
            law_plain_expression_within_budget(reg, *left, args, hint, expected_for(promoted), c, f2);
            law_plain_expression_within_budget(reg, *right, args, hint, expected_for(promoted), c, f2);
            assert(spec_convert(reg, e, args, hint, expected, fuel) == spec_convert_binop(
                reg,
                op,
                *left,
                *right,
                args,
                hint,
                (fuel - 1) as u64,
            ));
        },
        _ => {},
    }
}

/// The elements `vals[i..]`, each plain within `c`, convert without error
/// under a budget above `3 * c + 1`.
proof fn lemma_plain_list_within_budget(
    reg: ClassRegistry,
    vals: Seq<PyExpr>,
    i: int,
    acc: Seq<Expression>,
    args: Seq<String>,
    hint: String,
    expected: ExpectedType,
    c: nat,
    fuel: u64,
)
    requires
        0 <= i,
        forall|j: int| 0 <= j < vals.len() ==> plain_within(reg, hint, #[trigger] vals[j], c),
        fuel > 3 * c + 1,
    ensures
        spec_convert_list(reg, vals, i, acc, args, hint, expected, fuel) is Ok,
    decreases c, vals.len() - i,
{
    if i < vals.len() {
        law_plain_expression_within_budget(reg, vals[i], args, hint, expected, c, (fuel - 1) as u64);
        match spec_convert(reg, vals[i], args, hint, expected, (fuel - 1) as u64) {
            Ok(Some(x)) => {
                lemma_plain_list_within_budget(reg, vals, i + 1, acc.push(x), args, hint, expected, c, fuel);
            },
            _ => {},
        }
    }
}

} // verus!

verus! {

// ---------------------------------------------------------------------------
// Built-in calls and post-loop terms
// ---------------------------------------------------------------------------

/// `min(a, b)` selects `a` exactly when `a < b`, and `max(a, b)` selects `a`
/// exactly when `a > b`, otherwise `b`: both are a conditional with the
/// first argument as its `then` branch and the second as its `else` branch,
/// told apart only by the comparison (`Lt` against `Gt`, in their 64-bit
/// forms when the arguments are 64-bit).
pub proof fn law_min_max_select(name: String, a: Expression, b: Expression, use_i64: bool, kws: Seq<(String, i64)>)
    requires
        name@ == "min"@ || name@ == "max"@,
    ensures
        ({
            let is_min = name@ == "min"@;
            let op = if is_min {
                if use_i64 { BinaryOp::Lt64 } else { BinaryOp::Lt }
            } else {
                if use_i64 { BinaryOp::Gt64 } else { BinaryOp::Gt }
            };
            let cond = Expression::Binary { op, left: Box::new(a), right: Box::new(b) };
            builtin_node(name, seq![a, b], use_i64, kws) == Ok::<Option<Expression>, AnalysisError>(Some(
                if use_i64 {
                    Expression::IfThenElse64 { condition: Box::new(cond), then_branch: Box::new(a), else_branch: Box::new(b) }
                } else {
                    Expression::IfThenElse { condition: Box::new(cond), then_branch: Box::new(a), else_branch: Box::new(b) }
                },
            ))
        }),
{
    reveal_strlit("min");
    reveal_strlit("max");
    assert("min"@ != "max"@) by {
        assert("min"@[1] != "max"@[1]);
    }
    let es = seq![a, b];
    assert(es.len() == 2 && es[0] == a && es[1] == b);
}

/// A term that extends `base`: `base` itself, or `e + p` for a term `e`
/// that extends `base`.
pub open spec fn adds_onto(e: Expression, base: Expression) -> bool
    decreases e,
{
    if e == base {
        true
    } else {
        match e {
            Expression::Binary { op, left, right } => op == BinaryOp::Add && adds_onto(*left, base),
            _ => false,
        }
    }
}

/// The statements after an accumulation loop only add to the running
/// result: whatever they give is the result with terms added on its right,
/// never subtracted or otherwise combined.
pub proof fn law_post_loop_terms_add(
    reg: ClassRegistry,
    stmts: Seq<PyStmt>,
    post: Seq<usize>,
    i: int,
    result: Expression,
    acc: String,
    ls: LoopSpec,
    args: Seq<String>,
    hint: String,
    fuel: u64,
)
    ensures
        spec_post_augs(reg, stmts, post, i, result, acc, ls, args, hint, fuel) matches Ok(r) ==> adds_onto(r, result),
    decreases post.len() - i,
{
    if fuel > 0 && 0 <= i < post.len() {
        let s = if post[i] < stmts.len() { stmts[post[i] as int] } else { PyStmt::Other };
        let r = match s {
            PyStmt::AugAssign { target: PyExpr::Name { id }, op: BinOpKind::Add, value } => if id@ == acc@ {
                spec_convert_with_mv_subst(reg, value, args, hint, ls.collection, ls.item_class, ls.mutable_vars, (fuel - 1) as u64)
            } else {
                Ok(None)
            },
            _ => Ok(None),
        };
        match r {
            Ok(Some(p)) => {
                let next = Expression::Binary { op: BinaryOp::Add, left: Box::new(result), right: Box::new(p) };
                law_post_loop_terms_add(reg, stmts, post, i + 1, next, acc, ls, args, hint, fuel);
                lemma_adds_onto_extends(spec_post_augs(reg, stmts, post, i + 1, next, acc, ls, args, hint, fuel), next, result, p);
            },
            Ok(None) => {
                law_post_loop_terms_add(reg, stmts, post, i + 1, result, acc, ls, args, hint, fuel);
            },
            Err(_) => {},
        }
    }
}

/// A term extending `base + p` extends `base`.
proof fn lemma_adds_onto_extends(r: Result<Expression, AnalysisError>, next: Expression, base: Expression, p: Expression)
    requires
        next == (Expression::Binary { op: BinaryOp::Add, left: Box::new(base), right: Box::new(p) }),
        r matches Ok(e) ==> adds_onto(e, next),
    ensures
        r matches Ok(e) ==> adds_onto(e, base),
{
    if let Ok(e) = r {
        lemma_adds_onto_trans(e, next, base, p);
    }
}

proof fn lemma_adds_onto_trans(e: Expression, next: Expression, base: Expression, p: Expression)
    requires
        next == (Expression::Binary { op: BinaryOp::Add, left: Box::new(base), right: Box::new(p) }),
        adds_onto(e, next),
    ensures
        adds_onto(e, base),
    decreases e,
{
    if e == next {
        assert(adds_onto(base, base));
    } else {
        match e {
            Expression::Binary { op, left, right } => {
                lemma_adds_onto_trans(*left, next, base, p);
            },
            _ => {},
        }
    }
}

/// One `acc += v` after the loop, converting to `p`, gives `result + p`.
pub proof fn law_single_post_loop_term(
    reg: ClassRegistry,
    stmts: Seq<PyStmt>,
    post: Seq<usize>,
    result: Expression,
    acc: String,
    ls: LoopSpec,
    args: Seq<String>,
    hint: String,
    fuel: u64,
    value: PyExpr,
    p: Expression,
)
    requires
        fuel > 1,
        post.len() == 1,
        post[0] < stmts.len(),
        stmts[post[0] as int] == (PyStmt::AugAssign {
            target: PyExpr::Name { id: acc },
            op: BinOpKind::Add,
            value,
        }),
        spec_convert_with_mv_subst(reg, value, args, hint, ls.collection, ls.item_class, ls.mutable_vars, (fuel - 1) as u64)
            == Ok::<Option<Expression>, AnalysisError>(Some(p)),
    ensures
        spec_post_augs(reg, stmts, post, 0, result, acc, ls, args, hint, fuel) == Ok::<Expression, AnalysisError>(
            Expression::Binary { op: BinaryOp::Add, left: Box::new(result), right: Box::new(p) },
        ),
{
    let next = Expression::Binary { op: BinaryOp::Add, left: Box::new(result), right: Box::new(p) };
    assert(spec_post_augs(reg, stmts, post, 1, next, acc, ls, args, hint, fuel) == Ok::<Expression, AnalysisError>(next));
}

} // verus!

verus! {

// ---------------------------------------------------------------------------
// Operator tables
// ---------------------------------------------------------------------------

/// Each arithmetic operator gives the arithmetic of the same name in the
/// width its operands promote to: `+ - *` in 32-bit, 64-bit or float form,
/// `/` always as float division, `//` as integer division; `%`, `**` and
/// the rest give nothing.
pub proof fn law_arithmetic_operators(l: Expression, r: Expression, t: InferredType)
    ensures
        binop_node(BinOpKind::Add, InferredType::I32, l, r) == Some(bin(BinaryOp::Add, l, r)),
        binop_node(BinOpKind::Add, InferredType::I64, l, r) == Some(bin(BinaryOp::Add64, l, r)),
        binop_node(BinOpKind::Add, InferredType::F64, l, r) == Some(bin(BinaryOp::FloatAdd, l, r)),
        binop_node(BinOpKind::Sub, InferredType::I32, l, r) == Some(bin(BinaryOp::Sub, l, r)),
        binop_node(BinOpKind::Sub, InferredType::I64, l, r) == Some(bin(BinaryOp::Sub64, l, r)),
        binop_node(BinOpKind::Sub, InferredType::F64, l, r) == Some(bin(BinaryOp::FloatSub, l, r)),
        binop_node(BinOpKind::Mult, InferredType::I32, l, r) == Some(bin(BinaryOp::Mul, l, r)),
        binop_node(BinOpKind::Mult, InferredType::I64, l, r) == Some(bin(BinaryOp::Mul64, l, r)),
        binop_node(BinOpKind::Mult, InferredType::F64, l, r) == Some(bin(BinaryOp::FloatMul, l, r)),
        binop_node(BinOpKind::Div, t, l, r) == Some(bin(BinaryOp::FloatDiv, l, r)),
        binop_node(BinOpKind::FloorDiv, InferredType::I32, l, r) == Some(bin(BinaryOp::Div, l, r)),
        binop_node(BinOpKind::FloorDiv, InferredType::I64, l, r) == Some(bin(BinaryOp::Div64, l, r)),
        binop_node(BinOpKind::Mod, t, l, r) is None,
        binop_node(BinOpKind::Pow, t, l, r) is None,
{
}

/// `not x` is the negation of `x`; `-x` is `0 - x` in the width of `x`.
pub proof fn law_unary_operators(e: Expression, t: InferredType)
    ensures
        unary_node(UnaryOpKind::Not, t, e) == Some(un(UnaryOp::Not, e)),
        unary_node(UnaryOpKind::USub, InferredType::I32, e) == Some(bin(BinaryOp::Sub, Expression::IntLiteral { value: 0 }, e)),
        unary_node(UnaryOpKind::USub, InferredType::I64, e) == Some(
            bin(BinaryOp::Sub64, Expression::Int64Literal { value: 0 }, e),
        ),
        unary_node(UnaryOpKind::USub, InferredType::F64, e) == Some(
            bin(BinaryOp::FloatSub, Expression::FloatLiteral { value: FloatConst::Bits(0) }, e),
        ),
{
}

/// Each comparison operator gives the comparison of the same name on the
/// two operands in order, in 64-bit form when they are 64-bit; `is` and
/// `is not` against `None` are null checks of the left operand, and against
/// anything else (in)equality; `in` and `not in` give nothing.
pub proof fn law_comparison_operators(l: Expression, r: Expression, w: bool)
    ensures
        compare_node(CmpOp::Eq, false, l, r) == Some(bin(BinaryOp::Eq, l, r)),
        compare_node(CmpOp::Eq, true, l, r) == Some(bin(BinaryOp::Eq64, l, r)),
        compare_node(CmpOp::NotEq, false, l, r) == Some(bin(BinaryOp::Ne, l, r)),
        compare_node(CmpOp::NotEq, true, l, r) == Some(bin(BinaryOp::Ne64, l, r)),
        compare_node(CmpOp::Lt, false, l, r) == Some(bin(BinaryOp::Lt, l, r)),
        compare_node(CmpOp::Lt, true, l, r) == Some(bin(BinaryOp::Lt64, l, r)),
        compare_node(CmpOp::LtE, false, l, r) == Some(bin(BinaryOp::Le, l, r)),
        compare_node(CmpOp::LtE, true, l, r) == Some(bin(BinaryOp::Le64, l, r)),
        compare_node(CmpOp::Gt, false, l, r) == Some(bin(BinaryOp::Gt, l, r)),
        compare_node(CmpOp::Gt, true, l, r) == Some(bin(BinaryOp::Gt64, l, r)),
        compare_node(CmpOp::GtE, false, l, r) == Some(bin(BinaryOp::Ge, l, r)),
        compare_node(CmpOp::GtE, true, l, r) == Some(bin(BinaryOp::Ge64, l, r)),
        compare_node(CmpOp::Is, w, l, Expression::Null) == Some(un(UnaryOp::IsNull, l)),
        compare_node(CmpOp::IsNot, w, l, Expression::Null) == Some(un(UnaryOp::IsNotNull, l)),
        !(r is Null) ==> compare_node(CmpOp::Is, false, l, r) == Some(bin(BinaryOp::Eq, l, r)),
        !(r is Null) ==> compare_node(CmpOp::IsNot, false, l, r) == Some(bin(BinaryOp::Ne, l, r)),
        compare_node(CmpOp::In, w, l, r) is None,
        compare_node(CmpOp::NotIn, w, l, r) is None,
{
}

/// The one-argument built-ins: `abs(a)` selects `a` when it is not below 0
/// and `-1 * a` otherwise; `len`, `round`, `int` and `float` are the length,
/// rounding and the two conversions; an unknown name is refused by name.
pub proof fn law_unary_builtins(name: String, a: Expression, kws: Seq<(String, i64)>)
    ensures
        name@ == "abs"@ ==> builtin_node(name, seq![a], false, kws) == Ok::<Option<Expression>, AnalysisError>(Some(
            ite(
                bin(BinaryOp::Lt, a, Expression::IntLiteral { value: 0 }),
                bin(BinaryOp::Mul, Expression::IntLiteral { value: -1i64 }, a),
                a,
            ),
        )),
        name@ == "abs"@ ==> builtin_node(name, seq![a], true, kws) == Ok::<Option<Expression>, AnalysisError>(Some(
            ite64(
                bin(BinaryOp::Lt64, a, Expression::Int64Literal { value: 0 }),
                bin(BinaryOp::Mul64, Expression::Int64Literal { value: -1i64 }, a),
                a,
            ),
        )),
        name@ == "len"@ ==> builtin_node(name, seq![a], false, kws) == Ok::<Option<Expression>, AnalysisError>(
            Some(un(UnaryOp::Length, a)),
        ),
        name@ == "round"@ ==> builtin_node(name, seq![a], false, kws) == Ok::<Option<Expression>, AnalysisError>(
            Some(un(UnaryOp::Round, a)),
        ),
        name@ == "int"@ ==> builtin_node(name, seq![a], false, kws) == Ok::<Option<Expression>, AnalysisError>(
            Some(un(UnaryOp::FloatToInt, a)),
        ),
        name@ == "float"@ ==> builtin_node(name, seq![a], false, kws) == Ok::<Option<Expression>, AnalysisError>(
            Some(un(UnaryOp::IntToFloat, a)),
        ),
        name@ == "sorted"@ ==> builtin_node(name, seq![a], false, kws) == Err::<Option<Expression>, AnalysisError>(
            AnalysisError::UnsupportedFunctionCall { name },
        ),
{
    reveal_strlit("max");
    reveal_strlit("min");
    reveal_strlit("abs");
    reveal_strlit("len");
    reveal_strlit("round");
    reveal_strlit("int");
    reveal_strlit("float");
    reveal_strlit("timedelta");
    reveal_strlit("sorted");
    let es = seq![a];
    assert(es.len() == 1 && es[0] == a);
    assert("abs"@[0] != "max"@[0] && "abs"@[0] != "min"@[0]);
    assert("len"@[0] != "max"@[0] && "len"@[0] != "min"@[0] && "len"@[0] != "abs"@[0]);
    assert("round"@.len() != 3 && "round"@.len() != 3);
    assert("int"@[0] != "max"@[0] && "int"@[0] != "min"@[0] && "int"@[0] != "abs"@[0] && "int"@[0] != "len"@[0]);
    assert("float"@ != "round"@) by {
        assert("float"@[0] != "round"@[0]);
    }
    assert("sorted"@ != "timedelta"@ && "sorted"@ != "round"@ && "sorted"@ != "float"@) by {
        assert("sorted"@[0] != "timedelta"@[0] && "sorted"@[0] != "round"@[0]);
    }
}

/// `timedelta(days=..., hours=..., minutes=..., seconds=...)` counts 86400,
/// 3600, 60 and 1 seconds per unit.
pub proof fn law_timedelta_units()
    ensures
        seconds_per("days"@) == 86400,
        seconds_per("hours"@) == 3600,
        seconds_per("minutes"@) == 60,
        seconds_per("seconds"@) == 1,
        seconds_per("weeks"@) == 0,
{
    reveal_strlit("days");
    reveal_strlit("hours");
    reveal_strlit("minutes");
    reveal_strlit("seconds");
    reveal_strlit("weeks");
    assert("hours"@[0] != "days"@[0]);
    assert("minutes"@[0] != "days"@[0] && "minutes"@[0] != "hours"@[0]);
    assert("seconds"@[0] != "days"@[0] && "seconds"@[0] != "hours"@[0] && "seconds"@[0] != "minutes"@[0]);
    assert("weeks"@[0] != "days"@[0] && "weeks"@[0] != "hours"@[0] && "weeks"@[0] != "minutes"@[0] && "weeks"@[0] != "seconds"@[0]);
}

/// `math.f(x)` for the one-argument functions is the float operation of
/// the same name on `x`, and `math.atan2(y, x)` is `atan2` of `y` and `x`
/// in that order.
pub proof fn law_math_functions(x: Expression, y: Expression)
    ensures
        math_node("sqrt"@, seq![x]) == Some(un(UnaryOp::Sqrt, x)),
        math_node("sin"@, seq![x]) == Some(un(UnaryOp::Sin, x)),
        math_node("cos"@, seq![x]) == Some(un(UnaryOp::Cos, x)),
        math_node("floor"@, seq![x]) == Some(un(UnaryOp::Floor, x)),
        math_node("ceil"@, seq![x]) == Some(un(UnaryOp::Ceil, x)),
        math_node("fabs"@, seq![x]) == Some(un(UnaryOp::FloatAbs, x)),
        math_node("atan2"@, seq![y, x]) == Some(bin(BinaryOp::Atan2, y, x)),
{
    reveal_strlit("sin");
    reveal_strlit("cos");
    reveal_strlit("sqrt");
    reveal_strlit("asin");
    reveal_strlit("acos");
    reveal_strlit("atan");
    reveal_strlit("radians");
    reveal_strlit("floor");
    reveal_strlit("ceil");
    reveal_strlit("fabs");
    reveal_strlit("atan2");
    let a = seq![x];
    assert(a.len() == 1 && a[0] == x);
    let b = seq![y, x];
    assert(b.len() == 2 && b[0] == y && b[1] == x);
    assert("sqrt"@[0] != "sin"@[0] || "sqrt"@[1] != "sin"@[1]);
    assert("sqrt"@[0] != "cos"@[0] && "sqrt"@[0] != "asin"@[0] && "sqrt"@[0] != "acos"@[0]);
    assert("floor"@[0] != "sin"@[0] && "floor"@[0] != "cos"@[0] && "floor"@[0] != "sqrt"@[0]);
    assert("floor"@[0] != "asin"@[0] && "floor"@[0] != "acos"@[0] && "floor"@[0] != "atan"@[0] && "floor"@[0] != "radians"@[0]);
    assert("ceil"@[0] != "sin"@[0] && "ceil"@[0] != "sqrt"@[0] && "ceil"@[0] != "asin"@[0]);
    assert("ceil"@[1] != "cos"@[1] && "ceil"@[0] != "acos"@[0] && "ceil"@[0] != "atan"@[0] && "ceil"@[0] != "radians"@[0]);
    assert("ceil"@[0] != "floor"@[0]);
    assert("fabs"@[0] != "sin"@[0] && "fabs"@[0] != "cos"@[0] && "fabs"@[0] != "sqrt"@[0] && "fabs"@[0] != "asin"@[0]);
    assert("fabs"@[0] != "acos"@[0] && "fabs"@[0] != "atan"@[0] && "fabs"@[0] != "radians"@[0] && "fabs"@[0] != "ceil"@[0]);
    assert("fabs"@[1] != "floor"@[1]);
    assert("cos"@[0] != "sin"@[0]);
}

} // verus!
