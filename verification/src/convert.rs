//! The executable conversion of Python syntax to expression trees.
//!
//! Each function here computes exactly its definition in `analyzer`: the
//! `ensures` of each says so, so that what is proved of the definitions holds
//! of what runs.

use vstd::prelude::*;
use vstd::slice::slice_subrange;
use crate::analyzer::{
    ConvResult, LoopSum, MutableLoopVar, assign_value, assigns_before_exec, augassigns_from_exec, binop_node_exec,
    builtin_node_exec, chain_exec, compare_node_exec, constant_int_exec, convert_constant_to_expression,
    convert_name, detect_mutable_loop_vars, expected_for_exec, field_read_exec, find_arg, first_for_exec,
    first_function_def_exec, first_mv_named_exec, keyword_ints_exec, last_for_exec, last_return_value_exec,
    last_returned_name_exec, last_zero_init_before_exec, list_result, local_binop_node_exec, local_lookup_exec,
    loop_args_exec, loop_result, math_node_exec, name_method_call_exec, promote_arg_types, seq_result,
    simple_assign_name_exec, subst_all_exec, targets_self_field_exec, unary_node_exec, spec_accumulation,
    spec_analyze_function, spec_analyze_method_body, spec_assignment_if, spec_branch_value,
    spec_build_method_call, spec_convert, spec_convert_attribute, spec_convert_binop, spec_convert_boolop,
    spec_convert_builtin, spec_convert_call, spec_convert_compare, spec_convert_list, spec_convert_math,
    spec_convert_method_call, spec_convert_unary, spec_convert_with_locals, spec_convert_with_locals_list,
    spec_convert_with_mutable_vars, spec_convert_with_mv_subst, spec_detect_early_return, spec_early_return,
    spec_else_from_remaining, spec_else_value, spec_fallback_return, spec_first_return, spec_if_assignment,
    spec_if_else, spec_inline_property, spec_mv_call, spec_post_augs, spec_scan_returns, spec_sequential,
    spec_subst_args, spec_sum_body, spec_sum_from_for,
};
use crate::classes::{
    ClassAttr, ClassRegistry, MethodSource, attr_of, find_previous_shadow_variable, get_class,
    get_class_constant, get_field_type_class, get_method_from_class, infer_expression_class,
    infer_item_type,
};
use crate::error::{AnalysisError, PatternFailure};
use crate::expr::{
    BinaryOp, Expression, UnaryOp, clone_expr, infer_expression_type, mk_bin, mk_ite, mk_ite64, mk_un,
    substitute_param,
};
use crate::infer::{infer_ast_type, is_empty_collection_guard, is_not_none_check};
use crate::pyast::{BinOpKind, BoolOpKind, CmpOp, Keyword, PyExpr, PyStmt, UnaryOpKind};
use crate::text::string_eq_str;
use crate::types::{ExpectedType, InferredType};

verus! {

// ---------------------------------------------------------------------------
// Expressions
// ---------------------------------------------------------------------------

/// Convert a Python expression to an expression tree.
///
/// `args` are the parameter names (parameter `i` becomes `Param(i)`), `hint`
/// the class of parameter 0, `expected` the type the context expects of a
/// literal, and `fuel` the depth budget. `Ok(None)` means the node is of a
/// kind that is left alone.
pub fn convert_ast_to_expression(
    reg: &ClassRegistry,
    node: &PyExpr,
    args: &Vec<String>,
    hint: &String,
    expected: ExpectedType,
    fuel: u64,
) -> (res: ConvResult)
    ensures
        res == spec_convert(*reg, *node, args@, *hint, expected, fuel),
    decreases fuel, 0int,
{
    if fuel == 0 {
        return Err(AnalysisError::DepthExceeded);
    }
    let f = fuel - 1;
    match node {
        PyExpr::Attribute { value, attr } => match convert_ast_to_expression(reg, &**value, args, hint, ExpectedType::Any, f) {
            Err(e) => Err(e),
            Ok(None) => Ok(None),
            Ok(Some(base)) => convert_attribute(reg, base, attr, hint, f),
        },
        PyExpr::Name { id } => Ok(convert_name(args, id)),
        PyExpr::Compare { left, ops, comparators } => convert_compare_to_expression(
            reg,
            &**left,
            ops,
            comparators,
            args,
            hint,
            f,
        ),
        PyExpr::BoolOp { op, values } => convert_boolop_to_expression(reg, *op, values, args, hint, f),
        PyExpr::UnaryOp { op, operand } => convert_unaryop_to_expression(reg, *op, &**operand, args, hint, expected, f),
        PyExpr::BinOp { op, left, right } => convert_binop_to_expression(reg, *op, &**left, &**right, args, hint, f),
        PyExpr::Constant { value } => Ok(convert_constant_to_expression(value, expected)),
        PyExpr::Call { func, args: cargs, keywords } => convert_call_to_expression(
            reg,
            &**func,
            cargs,
            keywords,
            args,
            hint,
            f,
        ),
        _ => Ok(None),
    }
}

/// A field read on a converted base.
fn convert_attribute(reg: &ClassRegistry, base: Expression, attr: &String, hint: &String, fuel: u64) -> (res: ConvResult)
    ensures
        res == spec_convert_attribute(*reg, base, *attr, *hint, fuel),
    decreases fuel, 0int,
{
    if fuel == 0 {
        return Err(AnalysisError::DepthExceeded);
    }
    let f = fuel - 1;
    let constant = if matches!(base, Expression::Param { .. }) {
        get_class_constant(reg, hint, attr)
    } else {
        Ok(None)
    };
    match constant {
        Err(e) => Err(e),
        Ok(Some(c)) => Ok(Some(c)),
        Ok(None) => {
            let obj_class = match infer_expression_class(reg, &base, hint) {
                Some(c) => c,
                None => hint.clone(),
            };
            match try_inline_property(reg, &obj_class, attr, &base, f) {
                Err(e) => Err(e),
                Ok(Some(x)) => Ok(Some(x)),
                Ok(None) => Ok(Some(field_read_exec(reg, base, &obj_class, attr))),
            }
        },
    }
}

/// The inlined getter of a property, `None` when the attribute is no
/// property.
fn try_inline_property(reg: &ClassRegistry, class_name: &String, prop: &String, base: &Expression, fuel: u64) -> (res: ConvResult)
    ensures
        res == spec_inline_property(*reg, *class_name, *prop, *base, fuel),
    decreases fuel, 0int,
{
    if fuel == 0 {
        return Err(AnalysisError::DepthExceeded);
    }
    let f = fuel - 1;
    match get_class(reg, class_name) {
        None => Ok(None),
        Some(c) => match attr_of(c, prop) {
            Some(ClassAttr::Property { getter, .. }) => match getter {
                None => Err(AnalysisError::PropertyWithoutGetter { class_name: class_name.clone(), property_name: prop.clone() }),
                Some(src) => match analyze_method_body(reg, src, class_name, f) {
                    Err(e) => Err(e),
                    Ok(body) => Ok(Some(substitute_param(body, 0, base))),
                },
            },
            _ => Ok(None),
        },
    }
}

/// A comparison with one operator, typed by promotion of its operands.
fn convert_compare_to_expression(
    reg: &ClassRegistry,
    left: &PyExpr,
    ops: &Vec<CmpOp>,
    comps: &Vec<PyExpr>,
    args: &Vec<String>,
    hint: &String,
    fuel: u64,
) -> (res: ConvResult)
    ensures
        res == spec_convert_compare(*reg, *left, ops@, comps@, args@, *hint, fuel),
    decreases fuel, 0int,
{
    if fuel == 0 {
        return Err(AnalysisError::DepthExceeded);
    }
    if ops.len() != 1 || comps.len() != 1 {
        return Ok(None);
    }
    let f = fuel - 1;
    let lt = infer_ast_type(reg, left, args, hint);
    let rt = infer_ast_type(reg, &comps[0], args, hint);
    let use_i64 = lt.promote(rt) == InferredType::I64;
    let ex = if use_i64 { ExpectedType::I64 } else { ExpectedType::Any };
    match convert_ast_to_expression(reg, left, args, hint, ex, f) {
        Err(e) => Err(e),
        Ok(l) => match convert_ast_to_expression(reg, &comps[0], args, hint, ex, f) {
            Err(e) => Err(e),
            Ok(r) => match (l, r) {
                (Some(l), Some(r)) => Ok(compare_node_exec(ops[0], use_i64, l, r)),
                _ => Ok(None),
            },
        },
    }
}

/// Conversion of a list of nodes, `None` as soon as one is left alone.
fn convert_list(
    reg: &ClassRegistry,
    vals: &Vec<PyExpr>,
    args: &Vec<String>,
    hint: &String,
    expected: ExpectedType,
    fuel: u64,
) -> (res: Result<Option<Vec<Expression>>, AnalysisError>)
    ensures
        list_result(res) == spec_convert_list(*reg, vals@, 0, Seq::empty(), args@, *hint, expected, fuel),
        res matches Ok(Some(v)) ==> v@.len() == vals@.len(),
    decreases fuel, 0int,
{
    if fuel == 0 {
        return Err(AnalysisError::DepthExceeded);
    }
    let n = vals.len();
    let mut acc: Vec<Expression> = Vec::new();
    let mut i: usize = 0;
    while i < n
        invariant
            n == vals@.len(),
            i <= n,
            fuel > 0,
            acc@.len() == i,
            spec_convert_list(*reg, vals@, 0, Seq::empty(), args@, *hint, expected, fuel)
                == spec_convert_list(*reg, vals@, i as int, acc@, args@, *hint, expected, fuel),
        decreases n - i,
    {
        match convert_ast_to_expression(reg, &vals[i], args, hint, expected, fuel - 1) {
            Err(e) => {
                return Err(e);
            },
            Ok(None) => {
                return Ok(None);
            },
            Ok(Some(e)) => {
                acc.push(e);
            },
        }
        i = i + 1;
    }
    Ok(Some(acc))
}

/// `a and b and ...` / `a or b or ...` as a left-nested chain.
fn convert_boolop_to_expression(
    reg: &ClassRegistry,
    op: BoolOpKind,
    values: &Vec<PyExpr>,
    args: &Vec<String>,
    hint: &String,
    fuel: u64,
) -> (res: ConvResult)
    ensures
        res == spec_convert_boolop(*reg, op, values@, args@, *hint, fuel),
    decreases fuel, 0int,
{
    if fuel == 0 {
        return Err(AnalysisError::DepthExceeded);
    }
    if values.len() < 2 {
        return Ok(None);
    }
    match convert_list(reg, values, args, hint, ExpectedType::Any, fuel - 1) {
        Err(e) => Err(e),
        Ok(None) => Ok(None),
        Ok(Some(es)) => Ok(Some(chain_exec(op, &es))),
    }
}

/// A unary operation.
fn convert_unaryop_to_expression(
    reg: &ClassRegistry,
    op: UnaryOpKind,
    operand: &PyExpr,
    args: &Vec<String>,
    hint: &String,
    expected: ExpectedType,
    fuel: u64,
) -> (res: ConvResult)
    ensures
        res == spec_convert_unary(*reg, op, *operand, args@, *hint, expected, fuel),
    decreases fuel, 0int,
{
    if fuel == 0 {
        return Err(AnalysisError::DepthExceeded);
    }
    let ot = infer_ast_type(reg, operand, args, hint);
    let actual = match expected {
        ExpectedType::I32 => InferredType::I32,
        ExpectedType::I64 => InferredType::I64,
        ExpectedType::F64 => InferredType::F64,
        ExpectedType::Any => ot,
    };
    match convert_ast_to_expression(reg, operand, args, hint, expected_for_exec(actual), fuel - 1) {
        Err(e) => Err(e),
        Ok(None) => Ok(None),
        Ok(Some(e)) => Ok(unary_node_exec(op, actual, e)),
    }
}

/// A binary arithmetic operation at the promoted type of its operands.
fn convert_binop_to_expression(
    reg: &ClassRegistry,
    op: BinOpKind,
    left: &PyExpr,
    right: &PyExpr,
    args: &Vec<String>,
    hint: &String,
    fuel: u64,
) -> (res: ConvResult)
    ensures
        res == spec_convert_binop(*reg, op, *left, *right, args@, *hint, fuel),
    decreases fuel, 0int,
{
    if fuel == 0 {
        return Err(AnalysisError::DepthExceeded);
    }
    let f = fuel - 1;
    let lt = infer_ast_type(reg, left, args, hint);
    let rt = infer_ast_type(reg, right, args, hint);
    let promoted = if op == BinOpKind::Div { InferredType::F64 } else { lt.promote(rt) };
    let ex = expected_for_exec(promoted);
    match convert_ast_to_expression(reg, left, args, hint, ex, f) {
        Err(e) => Err(e),
        Ok(l) => match convert_ast_to_expression(reg, right, args, hint, ex, f) {
            Err(e) => Err(e),
            Ok(r) => match (l, r) {
                (Some(l), Some(r)) => Ok(binop_node_exec(op, promoted, l, r)),
                _ => Ok(None),
            },
        },
    }
}

/// A call: `math.f(..)`, a method call, or a built-in.
fn convert_call_to_expression(
    reg: &ClassRegistry,
    func: &PyExpr,
    cargs: &Vec<PyExpr>,
    keywords: &Vec<Keyword>,
    args: &Vec<String>,
    hint: &String,
    fuel: u64,
) -> (res: ConvResult)
    ensures
        res == spec_convert_call(*reg, *func, cargs@, keywords@, args@, *hint, fuel),
    decreases fuel, 0int,
{
    if fuel == 0 {
        return Err(AnalysisError::DepthExceeded);
    }
    let f = fuel - 1;
    match func {
        PyExpr::Attribute { value, attr } => {
            let is_math = match &**value {
                PyExpr::Name { id } => string_eq_str(id, "math"),
                _ => false,
            };
            if is_math {
                convert_math_call(reg, attr, cargs, args, hint, f)
            } else {
                convert_method_call(reg, &**value, attr, cargs, args, hint, f)
            }
        },
        PyExpr::Name { id } => convert_builtin_call(reg, id, cargs, keywords, args, hint, f),
        _ => Ok(None),
    }
}

/// `math.name(cargs)`, with float arguments.
fn convert_math_call(
    reg: &ClassRegistry,
    name: &String,
    cargs: &Vec<PyExpr>,
    args: &Vec<String>,
    hint: &String,
    fuel: u64,
) -> (res: ConvResult)
    ensures
        res == spec_convert_math(*reg, *name, cargs@, args@, *hint, fuel),
    decreases fuel, 0int,
{
    if fuel == 0 {
        return Err(AnalysisError::DepthExceeded);
    }
    match convert_list(reg, cargs, args, hint, ExpectedType::F64, fuel - 1) {
        Err(e) => Err(e),
        Ok(None) => Ok(None),
        Ok(Some(es)) => match math_node_exec(name, es) {
            Some(x) => Ok(Some(x)),
            None => Err(AnalysisError::UnsupportedMathFunction { name: name.clone() }),
        },
    }
}

/// `obj.method(cargs)`, inlined from the receiver's class.
fn convert_method_call(
    reg: &ClassRegistry,
    value: &PyExpr,
    method: &String,
    cargs: &Vec<PyExpr>,
    args: &Vec<String>,
    hint: &String,
    fuel: u64,
) -> (res: ConvResult)
    ensures
        res == spec_convert_method_call(*reg, *value, *method, cargs@, args@, *hint, fuel),
    decreases fuel, 0int,
{
    if fuel == 0 {
        return Err(AnalysisError::DepthExceeded);
    }
    let f = fuel - 1;
    match convert_ast_to_expression(reg, value, args, hint, ExpectedType::Any, f) {
        Err(e) => Err(e),
        Ok(None) => Ok(None),
        Ok(Some(obj)) => if infer_expression_type(&obj) == InferredType::I64 && string_eq_str(method, "total_seconds") {
            Ok(Some(obj))
        } else {
            let obj_class = match infer_expression_class(reg, &obj, hint) {
                Some(c) => c,
                None => hint.clone(),
            };
            match get_method_from_class(reg, &obj_class, method) {
                Some(src) => match analyze_method_body(reg, src, &obj_class, f) {
                    Ok(body) => {
                        let inlined = substitute_param(body, 0, &obj);
                        match substitute_call_args(reg, cargs, inlined, args, hint, f) {
                            Err(e) => Err(e),
                            Ok(x) => Ok(Some(x)),
                        }
                    },
                    Err(e) => Err(
                        AnalysisError::MethodInliningFailed {
                            class_name: obj_class,
                            method_name: method.clone(),
                            cause: Box::new(e),
                        },
                    ),
                },
                None => Err(AnalysisError::MethodNotRegistered { class_name: obj_class, method_name: method.clone() }),
            }
        },
    }
}

/// The converted call arguments put in for parameters 1, 2, ... of an
/// inlined body.
fn substitute_call_args(
    reg: &ClassRegistry,
    cargs: &Vec<PyExpr>,
    body: Expression,
    args: &Vec<String>,
    hint: &String,
    fuel: u64,
) -> (res: Result<Expression, AnalysisError>)
    ensures
        res == spec_subst_args(*reg, cargs@, 0, body, args@, *hint, fuel),
    decreases fuel, 0int,
{
    if fuel == 0 {
        return Err(AnalysisError::DepthExceeded);
    }
    let n = cargs.len();
    let mut acc = body;
    let mut i: usize = 0;
    while i < n
        invariant
            n == cargs@.len(),
            i <= n,
            fuel > 0,
            spec_subst_args(*reg, cargs@, 0, body, args@, *hint, fuel)
                == spec_subst_args(*reg, cargs@, i as int, acc, args@, *hint, fuel),
        decreases n - i,
    {
        match convert_ast_to_expression(reg, &cargs[i], args, hint, ExpectedType::Any, fuel - 1) {
            Err(e) => {
                return Err(e);
            },
            Ok(None) => {},
            Ok(Some(a)) => {
                acc = substitute_param(acc, (i + 1) as u32, &a);
            },
        }
        i = i + 1;
    }
    Ok(acc)
}

/// A built-in call `name(cargs, **keywords)`.
fn convert_builtin_call(
    reg: &ClassRegistry,
    name: &String,
    cargs: &Vec<PyExpr>,
    keywords: &Vec<Keyword>,
    args: &Vec<String>,
    hint: &String,
    fuel: u64,
) -> (res: ConvResult)
    ensures
        res == spec_convert_builtin(*reg, *name, cargs@, keywords@, args@, *hint, fuel),
    decreases fuel, 0int,
{
    if fuel == 0 {
        return Err(AnalysisError::DepthExceeded);
    }
    match keyword_ints_exec(keywords) {
        Err(e) => Err(e),
        Ok(kws) => {
            let use_i64 = promote_arg_types(reg, cargs, args, hint) == InferredType::I64;
            let ex = if use_i64 { ExpectedType::I64 } else { ExpectedType::Any };
            match convert_list(reg, cargs, args, hint, ex, fuel - 1) {
                Err(e) => Err(e),
                Ok(None) => Ok(None),
                Ok(Some(es)) => builtin_node_exec(name, &es, use_i64, &kws),
            }
        },
    }
}

} // verus!

verus! {

// ---------------------------------------------------------------------------
// Method bodies
// ---------------------------------------------------------------------------

/// The expression a method computes, from its parsed source.
pub fn analyze_method_body(reg: &ClassRegistry, src: &MethodSource, hint: &String, fuel: u64) -> (res: Result<Expression, AnalysisError>)
    ensures
        res == spec_analyze_method_body(*reg, *src, *hint, fuel),
    decreases fuel, 0int,
{
    if fuel == 0 {
        return Err(AnalysisError::DepthExceeded);
    }
    match src {
        MethodSource::Unavailable => Err(AnalysisError::SourceUnavailable),
        MethodSource::ParseError => Err(AnalysisError::SourceParseError),
        MethodSource::Parsed { body } => match first_function_def_exec(body.as_slice()) {
            None => Err(AnalysisError::NoFunctionDefinition),
            Some(i) => match &body[i] {
                PyStmt::FunctionDef { args: fargs, body: fbody } => extract_method_return_expression(
                    reg,
                    fargs,
                    fbody.as_slice(),
                    hint,
                    fuel - 1,
                ),
                _ => Err(AnalysisError::UnexpectedMethodNode),
            },
        },
    }
}

/// The expression of a function body (see `spec_analyze_function`).
pub fn extract_method_return_expression(
    reg: &ClassRegistry,
    fargs: &Vec<String>,
    stmts: &[PyStmt],
    hint: &String,
    fuel: u64,
) -> (res: Result<Expression, AnalysisError>)
    ensures
        res == spec_analyze_function(*reg, fargs@, stmts@, *hint, fuel),
    decreases fuel, 0int,
{
    if fuel == 0 {
        return Err(AnalysisError::DepthExceeded);
    }
    let f = fuel - 1;
    match scan_returns(reg, stmts, fargs, hint, f) {
        Err(e) => Err(e),
        Ok(Some(x)) => Ok(x),
        Ok(None) => match try_extract_accumulation_pattern(reg, stmts, fargs, hint, f) {
            Ok(x) => Ok(x),
            Err(_) => match try_extract_sequential_expression_pattern(reg, stmts, fargs, hint, f) {
                Ok(x) => Ok(x),
                Err(_) => match extract_assignment_if(reg, stmts, fargs, hint, f) {
                    Ok(x) => Ok(x),
                    Err(_) => Err(AnalysisError::NoSimpleReturn),
                },
            },
        },
    }
}

/// The first convertible `return` or `if` of returns.
fn scan_returns(reg: &ClassRegistry, stmts: &[PyStmt], args: &Vec<String>, hint: &String, fuel: u64) -> (res: ConvResult)
    ensures
        res == spec_scan_returns(*reg, stmts@, 0, args@, *hint, fuel),
    decreases fuel, 0int,
{
    if fuel == 0 {
        return Err(AnalysisError::DepthExceeded);
    }
    let f = fuel - 1;
    let n = stmts.len();
    let mut i: usize = 0;
    while i < n
        invariant
            n == stmts@.len(),
            i <= n,
            fuel > 0,
            f == fuel - 1,
            spec_scan_returns(*reg, stmts@, 0, args@, *hint, fuel) == spec_scan_returns(*reg, stmts@, i as int, args@, *hint, fuel),
        decreases n - i,
    {
        match &stmts[i] {
            PyStmt::Return { value: Some(v) } => match convert_ast_to_expression(reg, v, args, hint, ExpectedType::Any, f) {
                Err(e) => {
                    return Err(e);
                },
                Ok(Some(x)) => {
                    return Ok(Some(x));
                },
                Ok(None) => {},
            },
            PyStmt::If { test, body, orelse } => match extract_if_else(reg, test, body.as_slice(), orelse.as_slice(), args, hint, f) {
                Ok(x) => {
                    return Ok(Some(x));
                },
                Err(_) => {
                    let rest = slice_subrange(stmts, i + 1, n);
                    match extract_early_return(reg, test, body.as_slice(), rest, args, hint, f) {
                        Ok(x) => {
                            return Ok(Some(x));
                        },
                        Err(_) => {},
                    }
                },
            },
            _ => {},
        }
        i = i + 1;
    }
    Ok(None)
}

/// The value of the first `return` of a block.
fn first_return_value(reg: &ClassRegistry, body: &[PyStmt], args: &Vec<String>, hint: &String, fuel: u64) -> (res: ConvResult)
    ensures
        res == spec_first_return(*reg, body@, 0, args@, *hint, fuel),
    decreases fuel, 0int,
{
    if fuel == 0 {
        return Err(AnalysisError::DepthExceeded);
    }
    let n = body.len();
    let mut i: usize = 0;
    while i < n
        invariant
            n == body@.len(),
            i <= n,
            fuel > 0,
            spec_first_return(*reg, body@, 0, args@, *hint, fuel) == spec_first_return(*reg, body@, i as int, args@, *hint, fuel),
        decreases n - i,
    {
        match &body[i] {
            PyStmt::Return { value } => {
                return match value {
                    Some(v) => convert_ast_to_expression(reg, v, args, hint, ExpectedType::Any, fuel - 1),
                    None => Ok(Some(Expression::Null)),
                };
            },
            _ => {},
        }
        i = i + 1;
    }
    Ok(None)
}

/// `if test: return a` / `else: return b` as a conditional.
pub fn extract_if_else(
    reg: &ClassRegistry,
    test: &PyExpr,
    body: &[PyStmt],
    orelse: &[PyStmt],
    args: &Vec<String>,
    hint: &String,
    fuel: u64,
) -> (res: Result<Expression, AnalysisError>)
    ensures
        res == spec_if_else(*reg, *test, body@, orelse@, args@, *hint, fuel),
    decreases fuel, 0int,
{
    if fuel == 0 {
        return Err(AnalysisError::DepthExceeded);
    }
    let f = fuel - 1;
    match convert_ast_to_expression(reg, test, args, hint, ExpectedType::Any, f) {
        Err(e) => Err(e),
        Ok(None) => Err(AnalysisError::Pattern { reason: PatternFailure::CannotConvertCondition }),
        Ok(Some(c)) => match first_return_value(reg, body, args, hint, f) {
            Err(e) => Err(e),
            Ok(None) => Err(AnalysisError::Pattern { reason: PatternFailure::IfBodyWithoutReturn }),
            Ok(Some(t)) => match else_value(reg, orelse, args, hint, f) {
                Err(e) => Err(e),
                Ok(None) => Err(AnalysisError::Pattern { reason: PatternFailure::IfWithoutElseReturn }),
                Ok(Some(el)) => Ok(mk_ite(c, t, el)),
            },
        },
    }
}

/// The value of an `else` block.
fn else_value(reg: &ClassRegistry, orelse: &[PyStmt], args: &Vec<String>, hint: &String, fuel: u64) -> (res: ConvResult)
    ensures
        res == spec_else_value(*reg, orelse@, 0, args@, *hint, fuel),
    decreases fuel, 0int,
{
    if fuel == 0 {
        return Err(AnalysisError::DepthExceeded);
    }
    let f = fuel - 1;
    let n = orelse.len();
    let mut i: usize = 0;
    while i < n
        invariant
            n == orelse@.len(),
            i <= n,
            fuel > 0,
            f == fuel - 1,
            spec_else_value(*reg, orelse@, 0, args@, *hint, fuel) == spec_else_value(*reg, orelse@, i as int, args@, *hint, fuel),
        decreases n - i,
    {
        match &orelse[i] {
            PyStmt::Return { value } => {
                return match value {
                    Some(v) => convert_ast_to_expression(reg, v, args, hint, ExpectedType::Any, f),
                    None => Ok(Some(Expression::Null)),
                };
            },
            PyStmt::If { test, body, orelse: inner } => {
                return match extract_if_else(reg, test, body.as_slice(), inner.as_slice(), args, hint, f) {
                    Err(e) => Err(e),
                    Ok(x) => Ok(Some(x)),
                };
            },
            _ => {},
        }
        i = i + 1;
    }
    Ok(None)
}

/// `if test: return a` followed by `remaining`, which stands for the else
/// branch.
pub fn extract_early_return(
    reg: &ClassRegistry,
    test: &PyExpr,
    body: &[PyStmt],
    remaining: &[PyStmt],
    args: &Vec<String>,
    hint: &String,
    fuel: u64,
) -> (res: Result<Expression, AnalysisError>)
    ensures
        res == spec_early_return(*reg, *test, body@, remaining@, args@, *hint, fuel),
    decreases fuel, 0int,
{
    if fuel == 0 {
        return Err(AnalysisError::DepthExceeded);
    }
    let f = fuel - 1;
    let cond_opt = match convert_ast_to_expression(reg, test, args, hint, ExpectedType::Any, f) {
        Err(e) => {
            return Err(e);
        },
        Ok(c) => c,
    };
    let then_e = match first_return_value(reg, body, args, hint, f) {
        Err(e) => {
            return Err(e);
        },
        Ok(None) => {
            return Err(AnalysisError::Pattern { reason: PatternFailure::EarlyReturnBodyWithoutReturn });
        },
        Ok(Some(t)) => t,
    };
    let zero_then = match &then_e {
        Expression::IntLiteral { value } => *value == 0,
        _ => false,
    };
    if is_empty_collection_guard(test) && zero_then {
        match try_extract_accumulation_pattern(reg, remaining, args, hint, f) {
            Ok(a) => {
                return Ok(a);
            },
            Err(_) => {},
        }
    }
    match cond_opt {
        None => if is_not_none_check(test) {
            match fallback_return(reg, remaining, args, hint, f) {
                Err(e) => Err(e),
                Ok(Some(fb)) => Ok(fb),
                Ok(None) => Err(AnalysisError::Pattern { reason: PatternFailure::CannotConvertCondition }),
            }
        } else {
            Err(AnalysisError::Pattern { reason: PatternFailure::CannotConvertCondition })
        },
        Some(cond) => match else_from_remaining(reg, remaining, args, hint, f) {
            Err(e) => Err(e),
            Ok(Some(el)) => Ok(mk_ite(cond, then_e, el)),
            Ok(None) => match try_extract_accumulation_pattern(reg, remaining, args, hint, f) {
                Ok(a) => Ok(mk_ite(cond, then_e, a)),
                Err(_) => Err(AnalysisError::Pattern { reason: PatternFailure::RemainderWithoutReturn }),
            },
        },
    }
}

/// The first convertible `return value` of a block.
fn fallback_return(reg: &ClassRegistry, remaining: &[PyStmt], args: &Vec<String>, hint: &String, fuel: u64) -> (res: ConvResult)
    ensures
        res == spec_fallback_return(*reg, remaining@, 0, args@, *hint, fuel),
    decreases fuel, 0int,
{
    if fuel == 0 {
        return Err(AnalysisError::DepthExceeded);
    }
    let n = remaining.len();
    let mut i: usize = 0;
    while i < n
        invariant
            n == remaining@.len(),
            i <= n,
            fuel > 0,
            spec_fallback_return(*reg, remaining@, 0, args@, *hint, fuel)
                == spec_fallback_return(*reg, remaining@, i as int, args@, *hint, fuel),
        decreases n - i,
    {
        match &remaining[i] {
            PyStmt::Return { value: Some(v) } => match convert_ast_to_expression(reg, v, args, hint, ExpectedType::Any, fuel - 1) {
                Err(e) => {
                    return Err(e);
                },
                Ok(Some(x)) => {
                    return Ok(Some(x));
                },
                Ok(None) => {},
            },
            _ => {},
        }
        i = i + 1;
    }
    Ok(None)
}

/// The else branch found in the statements after an early return.
fn else_from_remaining(reg: &ClassRegistry, remaining: &[PyStmt], args: &Vec<String>, hint: &String, fuel: u64) -> (res: ConvResult)
    ensures
        res == spec_else_from_remaining(*reg, remaining@, 0, args@, *hint, fuel),
    decreases fuel, 0int,
{
    if fuel == 0 {
        return Err(AnalysisError::DepthExceeded);
    }
    let f = fuel - 1;
    let n = remaining.len();
    let mut i: usize = 0;
    while i < n
        invariant
            n == remaining@.len(),
            i <= n,
            fuel > 0,
            f == fuel - 1,
            spec_else_from_remaining(*reg, remaining@, 0, args@, *hint, fuel)
                == spec_else_from_remaining(*reg, remaining@, i as int, args@, *hint, fuel),
        decreases n - i,
    {
        match &remaining[i] {
            PyStmt::Return { value: Some(v) } => {
                return convert_ast_to_expression(reg, v, args, hint, ExpectedType::Any, f);
            },
            PyStmt::If { test, body, .. } => {
                let rest = slice_subrange(remaining, i + 1, n);
                return match extract_early_return(reg, test, body.as_slice(), rest, args, hint, f) {
                    Err(e) => Err(e),
                    Ok(x) => Ok(Some(x)),
                };
            },
            _ => {},
        }
        i = i + 1;
    }
    Ok(None)
}

/// `if test: return value` with nothing else, as (condition, value).
fn detect_early_return(reg: &ClassRegistry, stmt: &PyStmt, args: &Vec<String>, hint: &String, fuel: u64) -> (res: Result<
    Option<(Expression, Expression)>,
    AnalysisError,
>)
    ensures
        res == spec_detect_early_return(*reg, *stmt, args@, *hint, fuel),
    decreases fuel, 0int,
{
    if fuel == 0 {
        return Err(AnalysisError::DepthExceeded);
    }
    let f = fuel - 1;
    match stmt {
        PyStmt::If { test, body, orelse } => if body.len() != 1 || orelse.len() != 0 {
            Ok(None)
        } else {
            match &body[0] {
                PyStmt::Return { value: Some(v) } => match convert_ast_to_expression(reg, test, args, hint, ExpectedType::Any, f) {
                    Err(e) => Err(e),
                    Ok(c) => match convert_ast_to_expression(reg, v, args, hint, ExpectedType::Any, f) {
                        Err(e) => Err(e),
                        Ok(r) => match (c, r) {
                            (Some(c), Some(r)) => Ok(Some((c, r))),
                            _ => Ok(None),
                        },
                    },
                },
                _ => Ok(None),
            }
        },
        _ => Ok(None),
    }
}

} // verus!

verus! {

// ---------------------------------------------------------------------------
// Accumulation loops
// ---------------------------------------------------------------------------

/// The leading `if cond: return v` of a block, when it has one.
fn leading_early_return(reg: &ClassRegistry, stmts: &[PyStmt], args: &Vec<String>, hint: &String, fuel: u64) -> (res: Result<
    Option<(Expression, Expression)>,
    AnalysisError,
>)
    ensures
        res == (if stmts@.len() > 0 && stmts@[0] is If {
            spec_detect_early_return(*reg, stmts@[0], args@, *hint, fuel)
        } else {
            Ok(None)
        }),
    decreases fuel, 1int,
{
    if stmts.len() > 0 && matches!(stmts[0], PyStmt::If { .. }) {
        detect_early_return(reg, &stmts[0], args, hint, fuel)
    } else {
        Ok(None)
    }
}

/// Turn `acc = 0; for item in coll: acc += expr; return acc` into a sum
/// over the collection.
pub fn try_extract_accumulation_pattern(
    reg: &ClassRegistry,
    stmts: &[PyStmt],
    args: &Vec<String>,
    hint: &String,
    fuel: u64,
) -> (res: Result<Expression, AnalysisError>)
    ensures
        res == spec_accumulation(*reg, stmts@, args@, *hint, fuel),
    decreases fuel, 0int,
{
    if fuel == 0 {
        return Err(AnalysisError::DepthExceeded);
    }
    let f = fuel - 1;
    let early = match leading_early_return(reg, stmts, args, hint, f) {
        Err(e) => {
            return Err(e);
        },
        Ok(x) => x,
    };
    let n = stmts.len();
    let cut = first_for_exec(stmts);
    let zi = last_zero_init_before_exec(stmts, cut);
    let fi = last_for_exec(stmts);
    let rv = last_returned_name_exec(stmts);
    match (zi, fi, rv) {
        (Some(zi), Some(fi), Some(rv)) => {
            let acc = match simple_assign_name_exec(&stmts[zi]) {
                Some(a) => a,
                None => {
                    return Err(AnalysisError::Pattern { reason: PatternFailure::NotAccumulation });
                },
            };
            if acc != rv {
                return Err(AnalysisError::Pattern { reason: PatternFailure::NotAccumulation });
            }
            let pre = assigns_before_exec(stmts, cut);
            let ls = match extract_sum_from_for_loop(reg, stmts, fi, &acc, &pre, args, hint, f) {
                Err(e) => {
                    return Err(e);
                },
                Ok(ls) => ls,
            };
            let post = if cut < n {
                augassigns_from_exec(stmts, cut + 1)
            } else {
                Vec::new()
            };
            let sum = clone_expr(&ls.sum_expr);
            match try_extract_post_loop_augassign(reg, stmts, &post, sum, &acc, &ls, args, hint, f) {
                Err(e) => Err(e),
                Ok(result) => Ok(
                    match early {
                        Some((c, v)) => mk_ite(c, v, result),
                        None => result,
                    },
                ),
            }
        },
        _ => Err(AnalysisError::Pattern { reason: PatternFailure::NotAccumulation }),
    }
}

/// The sum a `for` loop accumulates into `acc`.
fn extract_sum_from_for_loop(
    reg: &ClassRegistry,
    stmts: &[PyStmt],
    fi: usize,
    acc: &String,
    pre: &Vec<usize>,
    args: &Vec<String>,
    hint: &String,
    fuel: u64,
) -> (res: Result<LoopSum, AnalysisError>)
    requires
        forall|k: int| 0 <= k < pre@.len() ==> pre@[k] < stmts@.len(),
    ensures
        loop_result(res) == spec_sum_from_for(*reg, stmts@, fi as int, *acc, pre@, args@, *hint, fuel),
    decreases fuel, 0int,
{
    if fuel == 0 {
        return Err(AnalysisError::DepthExceeded);
    }
    if fi >= stmts.len() {
        return Err(AnalysisError::Pattern { reason: PatternFailure::NoSumInLoop });
    }
    let f = fuel - 1;
    match &stmts[fi] {
        PyStmt::For { target, iter, body } => match target {
            PyExpr::Name { id: loop_var } => match convert_ast_to_expression(reg, iter, args, hint, ExpectedType::Any, f) {
                Err(e) => Err(e),
                Ok(None) => Err(AnalysisError::Pattern { reason: PatternFailure::NoSumInLoop }),
                Ok(Some(coll)) => match infer_item_type(reg, &coll) {
                    Err(e) => Err(e),
                    Ok(item) => {
                        let mvs = detect_mutable_loop_vars(stmts, pre, body.as_slice(), loop_var);
                        sum_from_body(reg, stmts, body.as_slice(), acc, loop_var, coll, item, mvs, args, hint, f)
                    },
                },
            },
            _ => Err(AnalysisError::Pattern { reason: PatternFailure::ComplexLoopTarget }),
        },
        _ => Err(AnalysisError::Pattern { reason: PatternFailure::NoSumInLoop }),
    }
}

/// The first `acc += expr` of a loop body that converts, as a sum.
fn sum_from_body(
    reg: &ClassRegistry,
    stmts: &[PyStmt],
    body: &[PyStmt],
    acc: &String,
    loop_var: &String,
    coll: Expression,
    item: String,
    mvs: Vec<MutableLoopVar>,
    args: &Vec<String>,
    hint: &String,
    fuel: u64,
) -> (res: Result<LoopSum, AnalysisError>)
    ensures
        loop_result(res) == spec_sum_body(*reg, stmts@, body@, 0, *acc, *loop_var, coll, item, mvs@, args@, *hint, fuel),
    decreases fuel, 0int,
{
    if fuel == 0 {
        return Err(AnalysisError::DepthExceeded);
    }
    let n = body.len();
    let mut i: usize = 0;
    while i < n
        invariant
            n == body@.len(),
            i <= n,
            fuel > 0,
            spec_sum_body(*reg, stmts@, body@, 0, *acc, *loop_var, coll, item, mvs@, args@, *hint, fuel)
                == spec_sum_body(*reg, stmts@, body@, i as int, *acc, *loop_var, coll, item, mvs@, args@, *hint, fuel),
        decreases n - i,
    {
        match &body[i] {
            PyStmt::AugAssign { target: PyExpr::Name { id }, op: BinOpKind::Add, value } => if *id == *acc {
                let loop_args = loop_args_exec(args, loop_var, &mvs);
                match convert_ast_with_mutable_vars(reg, value, &loop_args, &item, loop_var, &mvs, stmts, args, hint, fuel - 1) {
                    Err(e) => {
                        return Err(e);
                    },
                    Ok(Some(x)) => {
                        let sum_expr = Expression::Sum {
                            collection: Box::new(clone_expr(&coll)),
                            item_var_name: loop_var.clone(),
                            item_param_index: args.len() as u32,
                            item_class_name: item.clone(),
                            accumulator_expr: Box::new(x),
                        };
                        return Ok(LoopSum { sum_expr, collection: coll, item_class: item, mutable_vars: mvs });
                    },
                    Ok(None) => {},
                }
            },
            _ => {},
        }
        i = i + 1;
    }
    Err(AnalysisError::Pattern { reason: PatternFailure::NoSumInLoop })
}

/// Conversion inside a loop body, with method calls on mutable loop
/// variables resolved against the previous item.
fn convert_ast_with_mutable_vars(
    reg: &ClassRegistry,
    node: &PyExpr,
    largs: &Vec<String>,
    lhint: &String,
    loop_var: &String,
    mvs: &Vec<MutableLoopVar>,
    stmts: &[PyStmt],
    oargs: &Vec<String>,
    ohint: &String,
    fuel: u64,
) -> (res: ConvResult)
    ensures
        res == spec_convert_with_mutable_vars(*reg, *node, largs@, *lhint, *loop_var, mvs@, stmts@, oargs@, *ohint, fuel),
    decreases fuel, 0int,
{
    if fuel == 0 {
        return Err(AnalysisError::DepthExceeded);
    }
    let f = fuel - 1;
    let handled = match name_method_call_exec(node) {
        Some((base, method, cargs)) => mutable_var_call(
            reg,
            mvs,
            base,
            method,
            cargs,
            largs,
            lhint,
            loop_var,
            stmts,
            oargs,
            ohint,
            f,
        ),
        None => Ok(None),
    };
    match handled {
        Err(e) => Err(e),
        Ok(Some(r)) => Ok(r),
        Ok(None) => convert_ast_to_expression(reg, node, largs, lhint, ExpectedType::Any, f),
    }
}

/// `base.method(cargs)` against the mutable loop variables.
fn mutable_var_call(
    reg: &ClassRegistry,
    mvs: &Vec<MutableLoopVar>,
    base: &String,
    method: &String,
    cargs: &Vec<PyExpr>,
    largs: &Vec<String>,
    lhint: &String,
    loop_var: &String,
    stmts: &[PyStmt],
    oargs: &Vec<String>,
    ohint: &String,
    fuel: u64,
) -> (res: Result<Option<Option<Expression>>, AnalysisError>)
    ensures
        res == spec_mv_call(*reg, mvs@, 0, *base, *method, cargs@, largs@, *lhint, *loop_var, stmts@, oargs@, *ohint, fuel),
    decreases fuel, 0int,
{
    if fuel == 0 {
        return Err(AnalysisError::DepthExceeded);
    }
    let f = fuel - 1;
    let n = mvs.len();
    let mut j: usize = 0;
    while j < n
        invariant
            n == mvs@.len(),
            j <= n,
            fuel > 0,
            f == fuel - 1,
            spec_mv_call(*reg, mvs@, 0, *base, *method, cargs@, largs@, *lhint, *loop_var, stmts@, oargs@, *ohint, fuel)
                == spec_mv_call(*reg, mvs@, j as int, *base, *method, cargs@, largs@, *lhint, *loop_var, stmts@, oargs@, *ohint, fuel),
        decreases n - j,
    {
        if mvs[j].name == *base {
            let converted = match convert_list(reg, cargs, largs, lhint, ExpectedType::Any, f) {
                Err(e) => {
                    return Err(e);
                },
                Ok(None) => {
                    return Ok(Some(None));
                },
                Ok(Some(c)) => c,
            };
            match find_previous_shadow_variable(reg, lhint) {
                None => {},
                Some(prev) => match find_arg(largs, loop_var) {
                    None => {
                        return Err(AnalysisError::Pattern { reason: PatternFailure::LoopVariableNotFound });
                    },
                    Some(li) => {
                        let param = Expression::Param { index: li as u32 };
                        let cond = mk_un(UnaryOp::IsNull, field_read_exec(reg, clone_expr(&param), lhint, &prev));
                        let ii = mvs[j].init_index;
                        let init: &PyExpr = if ii < stmts.len() {
                            match &stmts[ii] {
                                PyStmt::Assign { value, .. } => value,
                                _ => &PyExpr::Other,
                            }
                        } else {
                            &PyExpr::Other
                        };
                        match convert_ast_to_expression(reg, init, oargs, ohint, ExpectedType::Any, f) {
                            Err(e) => {
                                return Err(e);
                            },
                            Ok(None) => {
                                return Err(AnalysisError::Pattern { reason: PatternFailure::CannotConvertInitExpression });
                            },
                            Ok(Some(init_base)) => match build_method_call_expr(reg, init_base, method, &converted, ohint, f) {
                                Err(e) => {
                                    return Err(e);
                                },
                                Ok(then_e) => {
                                    let prev_item = field_read_exec(reg, param, lhint, &prev);
                                    let prev_field = field_read_exec(reg, prev_item, lhint, &mvs[j].item_field);
                                    match build_method_call_expr(reg, prev_field, method, &converted, ohint, f) {
                                        Err(e) => {
                                            return Err(e);
                                        },
                                        Ok(else_e) => {
                                            return Ok(Some(Some(mk_ite(cond, then_e, else_e))));
                                        },
                                    }
                                },
                            },
                        }
                    },
                },
            }
        }
        j = j + 1;
    }
    Ok(None)
}

/// Inline `base.method(cargs)` from the class of the field `base` reads
/// (else from `hint`).
pub fn build_method_call_expr(
    reg: &ClassRegistry,
    base: Expression,
    method: &String,
    cargs: &Vec<Expression>,
    hint: &String,
    fuel: u64,
) -> (res: Result<Expression, AnalysisError>)
    ensures
        res == spec_build_method_call(*reg, base, *method, cargs@, *hint, fuel),
    decreases fuel, 0int,
{
    if fuel == 0 {
        return Err(AnalysisError::DepthExceeded);
    }
    let base_class = match &base {
        Expression::FieldAccess { class_name, field_name, .. } => match get_field_type_class(reg, class_name, field_name) {
            Some(c) => c,
            None => hint.clone(),
        },
        _ => hint.clone(),
    };
    match get_method_from_class(reg, &base_class, method) {
        Some(src) => match analyze_method_body(reg, src, &base_class, fuel - 1) {
            Ok(body) => Ok(subst_all_exec(substitute_param(body, 0, &base), cargs)),
            Err(_) => Err(AnalysisError::MethodNotInlinable { class_name: base_class, method_name: method.clone() }),
        },
        None => Err(AnalysisError::MethodNotInlinable { class_name: base_class, method_name: method.clone() }),
    }
}

/// Add each `acc += expr` after the loop to the sum.
fn try_extract_post_loop_augassign(
    reg: &ClassRegistry,
    stmts: &[PyStmt],
    post: &Vec<usize>,
    result: Expression,
    acc: &String,
    ls: &LoopSum,
    args: &Vec<String>,
    hint: &String,
    fuel: u64,
) -> (res: Result<Expression, AnalysisError>)
    ensures
        res == spec_post_augs(*reg, stmts@, post@, 0, result, *acc, ls.model(), args@, *hint, fuel),
    decreases fuel, 0int,
{
    if fuel == 0 {
        return Err(AnalysisError::DepthExceeded);
    }
    let n = post.len();
    let mut cur = result;
    let mut i: usize = 0;
    while i < n
        invariant
            n == post@.len(),
            i <= n,
            fuel > 0,
            spec_post_augs(*reg, stmts@, post@, 0, result, *acc, ls.model(), args@, *hint, fuel)
                == spec_post_augs(*reg, stmts@, post@, i as int, cur, *acc, ls.model(), args@, *hint, fuel),
        decreases n - i,
    {
        let k = post[i];
        let r = if k < stmts.len() {
            match &stmts[k] {
                PyStmt::AugAssign { target: PyExpr::Name { id }, op: BinOpKind::Add, value } => if *id == *acc {
                    convert_ast_with_mutable_var_substitution(
                        reg,
                        value,
                        args,
                        hint,
                        &ls.collection,
                        &ls.item_class,
                        &ls.mutable_vars,
                        fuel - 1,
                    )
                } else {
                    Ok(None)
                },
                _ => Ok(None),
            }
        } else {
            Ok(None)
        };
        match r {
            Err(e) => {
                return Err(e);
            },
            Ok(Some(p)) => {
                cur = mk_bin(BinaryOp::Add, cur, p);
            },
            Ok(None) => {},
        }
        i = i + 1;
    }
    Ok(cur)
}

/// Conversion after the loop, where a method call on a mutable loop
/// variable is made on the field of the collection's last item.
fn convert_ast_with_mutable_var_substitution(
    reg: &ClassRegistry,
    node: &PyExpr,
    args: &Vec<String>,
    hint: &String,
    coll: &Expression,
    item: &String,
    mvs: &Vec<MutableLoopVar>,
    fuel: u64,
) -> (res: ConvResult)
    ensures
        res == spec_convert_with_mv_subst(*reg, *node, args@, *hint, *coll, *item, mvs@, fuel),
    decreases fuel, 0int,
{
    if fuel == 0 {
        return Err(AnalysisError::DepthExceeded);
    }
    let f = fuel - 1;
    match name_method_call_exec(node) {
        Some((base, method, cargs)) => match first_mv_named_exec(mvs, base) {
            Some(j) => {
                let last = Expression::LastElement { collection: Box::new(clone_expr(coll)), item_class_name: item.clone() };
                let field = field_read_exec(reg, last, item, &mvs[j].item_field);
                match convert_list(reg, cargs, args, hint, ExpectedType::Any, f) {
                    Err(e) => Err(e),
                    Ok(None) => Ok(None),
                    Ok(Some(converted)) => {
                        let field_class = match get_field_type_class(reg, item, &mvs[j].item_field) {
                            Some(c) => c,
                            None => hint.clone(),
                        };
                        match build_method_call_expr(reg, field, method, &converted, &field_class, f) {
                            Err(e) => Err(e),
                            Ok(x) => Ok(Some(x)),
                        }
                    },
                }
            },
            None => convert_ast_to_expression(reg, node, args, hint, ExpectedType::Any, f),
        },
        None => convert_ast_to_expression(reg, node, args, hint, ExpectedType::Any, f),
    }
}

} // verus!

verus! {

// ---------------------------------------------------------------------------
// Sequences of local assignments
// ---------------------------------------------------------------------------

/// Turn `v1 = e1; v2 = e2(v1); return f(v2)` into one expression, with the
/// locals substituted, under an optional leading `if cond: return v`.
pub fn try_extract_sequential_expression_pattern(
    reg: &ClassRegistry,
    stmts: &[PyStmt],
    args: &Vec<String>,
    hint: &String,
    fuel: u64,
) -> (res: Result<Expression, AnalysisError>)
    ensures
        res == spec_sequential(*reg, stmts@, args@, *hint, fuel),
    decreases fuel, 0int,
{
    if fuel == 0 {
        return Err(AnalysisError::DepthExceeded);
    }
    let f = fuel - 1;
    let early = match leading_early_return(reg, stmts, args, hint, f) {
        Err(e) => {
            return Err(e);
        },
        Ok(x) => x,
    };
    match last_return_value_exec(stmts) {
        None => Err(AnalysisError::Pattern { reason: PatternFailure::NoReturnStatement }),
        Some(ri) => {
            let locals = assigns_before_exec(stmts, stmts.len());
            let rv: &PyExpr = match &stmts[ri] {
                PyStmt::Return { value: Some(v) } => v,
                _ => &PyExpr::Other,
            };
            match convert_ast_with_local_var_substitution(reg, rv, &locals, stmts, args, hint, f) {
                Err(e) => Err(e),
                Ok(result) => Ok(
                    match early {
                        Some((c, ev)) => if infer_expression_type(&ev) == InferredType::I64
                            || infer_expression_type(&result) == InferredType::I64 {
                            mk_ite64(c, ev, result)
                        } else {
                            mk_ite(c, ev, result)
                        },
                        None => result,
                    },
                ),
            }
        },
    }
}

/// The plain conversion, required to give an expression.
fn local_default(reg: &ClassRegistry, node: &PyExpr, args: &Vec<String>, hint: &String, fuel: u64) -> (res: Result<Expression, AnalysisError>)
    ensures
        res == (match spec_convert(*reg, *node, args@, *hint, ExpectedType::Any, fuel) {
            Err(e) => Err(e),
            Ok(None) => Err(AnalysisError::Pattern { reason: PatternFailure::CannotConvertExpression }),
            Ok(Some(x)) => Ok(x),
        }),
    decreases fuel, 1int,
{
    match convert_ast_to_expression(reg, node, args, hint, ExpectedType::Any, fuel) {
        Err(e) => Err(e),
        Ok(None) => Err(AnalysisError::Pattern { reason: PatternFailure::CannotConvertExpression }),
        Ok(Some(x)) => Ok(x),
    }
}

/// The value assigned by the statement at `j`.
fn assigned_value(stmts: &[PyStmt], j: usize) -> (res: &PyExpr)
    requires
        j < stmts@.len(),
    ensures
        *res == assign_value(stmts@[j as int]),
{
    match &stmts[j] {
        PyStmt::Assign { value, .. } => value,
        _ => &PyExpr::Other,
    }
}

/// Conversion with local variables replaced by what was assigned to them.
fn convert_ast_with_local_var_substitution(
    reg: &ClassRegistry,
    node: &PyExpr,
    locals: &Vec<usize>,
    stmts: &[PyStmt],
    args: &Vec<String>,
    hint: &String,
    fuel: u64,
) -> (res: Result<Expression, AnalysisError>)
    requires
        forall|k: int| 0 <= k < locals@.len() ==> locals@[k] < stmts@.len(),
    ensures
        res == spec_convert_with_locals(*reg, *node, locals@, stmts@, args@, *hint, fuel),
    decreases fuel, 0int,
{
    if fuel == 0 {
        return Err(AnalysisError::DepthExceeded);
    }
    let f = fuel - 1;
    match node {
        PyExpr::Name { id } => match local_lookup_exec(stmts, locals, id) {
            Some(j) => convert_ast_with_local_var_substitution(reg, assigned_value(stmts, j), locals, stmts, args, hint, f),
            None => local_default(reg, node, args, hint, f),
        },
        PyExpr::Call { func, args: cargs, .. } => match &**func {
            PyExpr::Attribute { value, attr } => match convert_ast_with_local_var_substitution(reg, &**value, locals, stmts, args, hint, f) {
                Err(e) => Err(e),
                Ok(base) => match convert_locals_list(reg, cargs, locals, stmts, args, hint, f) {
                    Err(e) => Err(e),
                    Ok(converted) => {
                        let base_class = match infer_expression_class(reg, &base, hint) {
                            Some(c) => c,
                            None => hint.clone(),
                        };
                        build_method_call_expr(reg, base, attr, &converted, &base_class, f)
                    },
                },
            },
            _ => local_default(reg, node, args, hint, f),
        },
        PyExpr::BinOp { op, left, right } => match convert_ast_with_local_var_substitution(reg, &**left, locals, stmts, args, hint, f) {
            Err(e) => Err(e),
            Ok(l) => match convert_ast_with_local_var_substitution(reg, &**right, locals, stmts, args, hint, f) {
                Err(e) => Err(e),
                Ok(r) => local_binop_node_exec(*op, l, r),
            },
        },
        PyExpr::Subscript { value, slice } => match &**value {
            PyExpr::Name { id } => match local_lookup_exec(stmts, locals, id) {
                Some(j) => {
                    let lv = assigned_value(stmts, j);
                    let idx = match &**slice {
                        PyExpr::Constant { value: c } => constant_int_exec(c),
                        _ => None,
                    };
                    match lv {
                        PyExpr::Tuple { elts } => match idx {
                            Some(k) => if k >= 0 && (k as u64) < (elts.len() as u64) {
                                let ku = k as usize;
                                assert(ku as int == k as int);
                                convert_ast_with_local_var_substitution(reg, &elts[ku], locals, stmts, args, hint, f)
                            } else {
                                local_default(reg, node, args, hint, f)
                            },
                            None => local_default(reg, node, args, hint, f),
                        },
                        PyExpr::Call { .. } => Err(AnalysisError::Pattern { reason: PatternFailure::TupleIndexFromCall }),
                        _ => local_default(reg, node, args, hint, f),
                    }
                },
                None => local_default(reg, node, args, hint, f),
            },
            _ => local_default(reg, node, args, hint, f),
        },
        _ => local_default(reg, node, args, hint, f),
    }
}

/// Conversion with locals of a list of call arguments.
fn convert_locals_list(
    reg: &ClassRegistry,
    cargs: &Vec<PyExpr>,
    locals: &Vec<usize>,
    stmts: &[PyStmt],
    args: &Vec<String>,
    hint: &String,
    fuel: u64,
) -> (res: Result<Vec<Expression>, AnalysisError>)
    requires
        forall|k: int| 0 <= k < locals@.len() ==> locals@[k] < stmts@.len(),
    ensures
        seq_result(res) == spec_convert_with_locals_list(*reg, cargs@, 0, Seq::empty(), locals@, stmts@, args@, *hint, fuel),
    decreases fuel, 0int,
{
    if fuel == 0 {
        return Err(AnalysisError::DepthExceeded);
    }
    let n = cargs.len();
    let mut acc: Vec<Expression> = Vec::new();
    let mut i: usize = 0;
    while i < n
        invariant
            n == cargs@.len(),
            i <= n,
            fuel > 0,
            forall|k: int| 0 <= k < locals@.len() ==> locals@[k] < stmts@.len(),
            spec_convert_with_locals_list(*reg, cargs@, 0, Seq::empty(), locals@, stmts@, args@, *hint, fuel)
                == spec_convert_with_locals_list(*reg, cargs@, i as int, acc@, locals@, stmts@, args@, *hint, fuel),
        decreases n - i,
    {
        match convert_ast_with_local_var_substitution(reg, &cargs[i], locals, stmts, args, hint, fuel - 1) {
            Err(e) => {
                return Err(e);
            },
            Ok(x) => {
                acc.push(x);
            },
        }
        i = i + 1;
    }
    Ok(acc)
}

// ---------------------------------------------------------------------------
// Conditional assignments to self
// ---------------------------------------------------------------------------

/// The first `if` of a block whose branches assign `self.field`.
fn extract_assignment_if(reg: &ClassRegistry, stmts: &[PyStmt], args: &Vec<String>, hint: &String, fuel: u64) -> (res: Result<
    Expression,
    AnalysisError,
>)
    ensures
        res == spec_assignment_if(*reg, stmts@, 0, args@, *hint, fuel),
    decreases fuel, 0int,
{
    if fuel == 0 {
        return Err(AnalysisError::DepthExceeded);
    }
    let n = stmts.len();
    let mut i: usize = 0;
    while i < n
        invariant
            n == stmts@.len(),
            i <= n,
            fuel > 0,
            spec_assignment_if(*reg, stmts@, 0, args@, *hint, fuel) == spec_assignment_if(*reg, stmts@, i as int, args@, *hint, fuel),
        decreases n - i,
    {
        match &stmts[i] {
            PyStmt::If { test, body, orelse } => match extract_if_assignment(
                reg,
                test,
                body.as_slice(),
                orelse.as_slice(),
                args,
                hint,
                fuel - 1,
            ) {
                Ok(x) => {
                    return Ok(x);
                },
                Err(_) => {},
            },
            _ => {},
        }
        i = i + 1;
    }
    Err(AnalysisError::Pattern { reason: PatternFailure::NoAssignmentPattern })
}

/// `if c1: self.f = a` / `elif c2: self.f = b` / `else: self.f = c` as
/// nested conditionals.
pub fn extract_if_assignment(
    reg: &ClassRegistry,
    test: &PyExpr,
    body: &[PyStmt],
    orelse: &[PyStmt],
    args: &Vec<String>,
    hint: &String,
    fuel: u64,
) -> (res: Result<Expression, AnalysisError>)
    ensures
        res == spec_if_assignment(*reg, *test, body@, orelse@, args@, *hint, fuel),
    decreases fuel, 0int,
{
    if fuel == 0 {
        return Err(AnalysisError::DepthExceeded);
    }
    let f = fuel - 1;
    match convert_ast_to_expression(reg, test, args, hint, ExpectedType::Any, f) {
        Err(e) => Err(e),
        Ok(None) => Err(AnalysisError::Pattern { reason: PatternFailure::CannotConvertCondition }),
        Ok(Some(c)) => match extract_branch_value(reg, body, args, hint, f) {
            Err(e) => Err(e),
            Ok(t) => if orelse.len() == 0 {
                Err(AnalysisError::Pattern { reason: PatternFailure::AssignmentWithoutElse })
            } else {
                let el = match &orelse[0] {
                    PyStmt::If { test: t2, body: b2, orelse: o2 } => extract_if_assignment(
                        reg,
                        t2,
                        b2.as_slice(),
                        o2.as_slice(),
                        args,
                        hint,
                        f,
                    ),
                    _ => extract_branch_value(reg, orelse, args, hint, f),
                };
                match el {
                    Err(e) => Err(e),
                    Ok(e) => Ok(mk_ite(c, t, e)),
                }
            },
        },
    }
}

/// The value a branch returns or assigns to `self.field`.
fn extract_branch_value(reg: &ClassRegistry, stmts: &[PyStmt], args: &Vec<String>, hint: &String, fuel: u64) -> (res: Result<
    Expression,
    AnalysisError,
>)
    ensures
        res == spec_branch_value(*reg, stmts@, 0, args@, *hint, fuel),
    decreases fuel, 0int,
{
    if fuel == 0 {
        return Err(AnalysisError::DepthExceeded);
    }
    let f = fuel - 1;
    let n = stmts.len();
    let mut i: usize = 0;
    while i < n
        invariant
            n == stmts@.len(),
            i <= n,
            fuel > 0,
            f == fuel - 1,
            spec_branch_value(*reg, stmts@, 0, args@, *hint, fuel) == spec_branch_value(*reg, stmts@, i as int, args@, *hint, fuel),
        decreases n - i,
    {
        match &stmts[i] {
            PyStmt::Return { value: None } => {
                return Ok(Expression::Null);
            },
            PyStmt::Return { value: Some(v) } => {
                return match convert_ast_to_expression(reg, v, args, hint, ExpectedType::Any, f) {
                    Err(e) => Err(e),
                    Ok(None) => Err(AnalysisError::Pattern { reason: PatternFailure::CannotConvertReturnValue }),
                    Ok(Some(x)) => Ok(x),
                };
            },
            PyStmt::Assign { targets, value } => if targets_self_field_exec(targets, args) {
                return match convert_ast_to_expression(reg, value, args, hint, ExpectedType::Any, f) {
                    Err(e) => Err(e),
                    Ok(None) => Err(AnalysisError::Pattern { reason: PatternFailure::CannotConvertAssignedValue }),
                    Ok(Some(x)) => Ok(x),
                };
            },
            _ => {},
        }
        i = i + 1;
    }
    Err(AnalysisError::Pattern { reason: PatternFailure::BranchWithoutValue })
}

} // verus!
