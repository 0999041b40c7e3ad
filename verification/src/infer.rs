//! Type inference on Python syntax, before any expression is built, and the
//! recognizers of two guard conditions.

use vstd::prelude::*;
use crate::classes::{ClassRegistry, spec_field_class_name, spec_infer_field_type, get_field_class_name, infer_field_type};
use crate::pyast::{BinOpKind, CmpOp, Constant, PyExpr, UnaryOpKind};
use crate::text::string_eq_str;
use crate::types::{InferredType, spec_promote};

verus! {

/// Whether a 64-bit integer lies outside the 32-bit range.
pub open spec fn outside_i32(v: i64) -> bool {
    v < i32::MIN || v > i32::MAX
}

/// Whether the argument list starts with `id`.
pub open spec fn is_first_arg(args: Seq<String>, id: Seq<char>) -> bool {
    args.len() > 0 && args[0]@ == id
}

/// The type a literal has.
pub open spec fn constant_type(c: Constant) -> InferredType {
    match c {
        Constant::NoneValue => InferredType::Null,
        Constant::Bool { .. } => InferredType::Bool,
        Constant::Int { value } => if outside_i32(value) { InferredType::I64 } else { InferredType::I32 },
        Constant::BigInt { as_float } => if as_float is Some { InferredType::F64 } else { InferredType::Unknown },
        Constant::Float { .. } => InferredType::F64,
        Constant::Str { .. } => InferredType::String,
        Constant::Other => InferredType::Unknown,
    }
}

/// The class of the object a base expression of a field access denotes: the
/// class hint for the first parameter, a name's own text for other names,
/// the field's hinted class for nested field accesses.
pub open spec fn spec_infer_base_class(reg: ClassRegistry, node: PyExpr, args: Seq<String>, hint: String) -> String
    decreases node,
{
    match node {
        PyExpr::Name { id } => if is_first_arg(args, id@) { hint } else { id },
        PyExpr::Attribute { value, attr } => {
            let base = spec_infer_base_class(reg, *value, args, hint);
            match spec_field_class_name(reg, base@, attr@) {
                Some(c) => c,
                None => base,
            }
        },
        _ => hint,
    }
}

/// The type a Python expression produces, read from its syntax and the
/// registered classes' hints.
pub open spec fn spec_infer_ast_type(reg: ClassRegistry, node: PyExpr, args: Seq<String>, hint: String) -> InferredType
    decreases node,
{
    match node {
        PyExpr::Constant { value } => constant_type(value),
        PyExpr::Name { id } => if id@ == "None"@ {
            InferredType::Null
        } else if id@ == "True"@ || id@ == "False"@ {
            InferredType::Bool
        } else {
            InferredType::Unknown
        },
        PyExpr::Attribute { value, attr } => spec_infer_field_type(
            reg,
            spec_infer_base_class(reg, *value, args, hint)@,
            attr@,
        ),
        PyExpr::BinOp { op, left, right } => if op == BinOpKind::Div {
            InferredType::F64
        } else {
            spec_promote(
                spec_infer_ast_type(reg, *left, args, hint),
                spec_infer_ast_type(reg, *right, args, hint),
            )
        },
        PyExpr::Compare { .. } => InferredType::Bool,
        PyExpr::BoolOp { .. } => InferredType::Bool,
        PyExpr::UnaryOp { op, operand } => if op == UnaryOpKind::Not {
            InferredType::Bool
        } else {
            spec_infer_ast_type(reg, *operand, args, hint)
        },
        PyExpr::Call { func, args: call_args, .. } => match *func {
            PyExpr::Name { id } => if id@ == "timedelta"@ {
                InferredType::I64
            } else if id@ == "len"@ || id@ == "round"@ || id@ == "int"@ {
                InferredType::I32
            } else if id@ == "float"@ {
                InferredType::F64
            } else if id@ == "max"@ || id@ == "min"@ || id@ == "abs"@ {
                if call_args@.len() > 0 {
                    spec_infer_ast_type(reg, call_args@[0], args, hint)
                } else {
                    InferredType::Unknown
                }
            } else {
                InferredType::Unknown
            },
            PyExpr::Attribute { value, .. } => match *value {
                PyExpr::Name { id } => if id@ == "math"@ { InferredType::F64 } else { InferredType::Unknown },
                _ => InferredType::Unknown,
            },
            _ => InferredType::Unknown,
        },
        _ => InferredType::Unknown,
    }
}

fn first_arg_is(args: &Vec<String>, id: &String) -> (res: bool)
    ensures
        res == is_first_arg(args@, id@),
{
    args.len() > 0 && args[0] == *id
}

/// Infer the class name of the base object of a field access.
pub fn infer_base_class(reg: &ClassRegistry, node: &PyExpr, args: &Vec<String>, hint: &String) -> (res: String)
    ensures
        res == spec_infer_base_class(*reg, *node, args@, *hint),
    decreases node,
{
    match node {
        PyExpr::Name { id } => if first_arg_is(args, id) { hint.clone() } else { id.clone() },
        PyExpr::Attribute { value, attr } => {
            let base = infer_base_class(reg, value, args, hint);
            match get_field_class_name(reg, &base, attr) {
                Some(c) => c,
                None => base,
            }
        },
        _ => hint.clone(),
    }
}

fn constant_type_of(c: &Constant) -> (res: InferredType)
    ensures
        res == constant_type(*c),
{
    match c {
        Constant::NoneValue => InferredType::Null,
        Constant::Bool { .. } => InferredType::Bool,
        Constant::Int { value } => if *value < -2147483648i64 || *value > 2147483647i64 {
            InferredType::I64
        } else {
            InferredType::I32
        },
        Constant::BigInt { as_float } => if as_float.is_some() { InferredType::F64 } else { InferredType::Unknown },
        Constant::Float { .. } => InferredType::F64,
        Constant::Str { .. } => InferredType::String,
        Constant::Other => InferredType::Unknown,
    }
}

/// Infer the type of a Python expression without converting it.
pub fn infer_ast_type(reg: &ClassRegistry, node: &PyExpr, args: &Vec<String>, hint: &String) -> (res: InferredType)
    ensures
        res == spec_infer_ast_type(*reg, *node, args@, *hint),
    decreases node,
{
    match node {
        PyExpr::Constant { value } => constant_type_of(value),
        PyExpr::Name { id } => if string_eq_str(id, "None") {
            InferredType::Null
        } else if string_eq_str(id, "True") || string_eq_str(id, "False") {
            InferredType::Bool
        } else {
            InferredType::Unknown
        },
        PyExpr::Attribute { value, attr } => {
            let base = infer_base_class(reg, value, args, hint);
            infer_field_type(reg, &base, attr)
        },
        PyExpr::BinOp { op, left, right } => if *op == BinOpKind::Div {
            InferredType::F64
        } else {
            let l = infer_ast_type(reg, left, args, hint);
            let r = infer_ast_type(reg, right, args, hint);
            l.promote(r)
        },
        PyExpr::Compare { .. } => InferredType::Bool,
        PyExpr::BoolOp { .. } => InferredType::Bool,
        PyExpr::UnaryOp { op, operand } => if *op == UnaryOpKind::Not {
            InferredType::Bool
        } else {
            infer_ast_type(reg, operand, args, hint)
        },
        PyExpr::Call { func, args: call_args, .. } => match &**func {
            PyExpr::Name { id } => if string_eq_str(id, "timedelta") {
                InferredType::I64
            } else if string_eq_str(id, "len") || string_eq_str(id, "round") || string_eq_str(id, "int") {
                InferredType::I32
            } else if string_eq_str(id, "float") {
                InferredType::F64
            } else if string_eq_str(id, "max") || string_eq_str(id, "min") || string_eq_str(id, "abs") {
                if call_args.len() > 0 {
                    assert(decreases_to!(*node => *call_args));
                    assert(decreases_to!(*call_args => call_args@[0]));
                    infer_ast_type(reg, &call_args[0], args, hint)
                } else {
                    InferredType::Unknown
                }
            } else {
                InferredType::Unknown
            },
            PyExpr::Attribute { value, .. } => match &**value {
                PyExpr::Name { id } => if string_eq_str(id, "math") {
                    InferredType::F64
                } else {
                    InferredType::Unknown
                },
                _ => InferredType::Unknown,
            },
            _ => InferredType::Unknown,
        },
        _ => InferredType::Unknown,
    }
}

// ---------------------------------------------------------------------------
// Guards
// ---------------------------------------------------------------------------

/// Whether an expression is a literal integer zero (`False` counts as 0).
pub open spec fn is_zero_literal(e: PyExpr) -> bool {
    match e {
        PyExpr::Constant { value } => match value {
            Constant::Int { value: v } => v == 0,
            Constant::Bool { value: b } => !b,
            _ => false,
        },
        _ => false,
    }
}

/// Whether an expression is `None`.
pub open spec fn is_none_literal(e: PyExpr) -> bool {
    match e {
        PyExpr::Constant { value } => value is NoneValue,
        PyExpr::Name { id } => id@ == "None"@,
        _ => false,
    }
}

/// Whether a condition reads `len(x) == 0`.
pub open spec fn spec_is_empty_collection_guard(cond: PyExpr) -> bool {
    match cond {
        PyExpr::Compare { left, ops, comparators } => {
            &&& (*left matches PyExpr::Call { func, .. } && (*func matches PyExpr::Name { id } && id@ == "len"@))
            &&& ops@.len() == 1
            &&& ops@[0] == CmpOp::Eq
            &&& comparators@.len() == 1
            &&& is_zero_literal(comparators@[0])
        },
        _ => false,
    }
}

/// Check if a condition is an "empty collection guard": `len(x) == 0`.
pub fn is_empty_collection_guard(cond: &PyExpr) -> (res: bool)
    ensures
        res == spec_is_empty_collection_guard(*cond),
{
    match cond {
        PyExpr::Compare { left, ops, comparators } => {
            let left_is_len = match &**left {
                PyExpr::Call { func, .. } => match &**func {
                    PyExpr::Name { id } => string_eq_str(id, "len"),
                    _ => false,
                },
                _ => false,
            };
            if !left_is_len || ops.len() != 1 || ops[0] != CmpOp::Eq || comparators.len() != 1 {
                return false;
            }
            match &comparators[0] {
                PyExpr::Constant { value } => match value {
                    Constant::Int { value: v } => *v == 0,
                    Constant::Bool { value: b } => !*b,
                    _ => false,
                },
                _ => false,
            }
        },
        _ => false,
    }
}

/// Whether a condition reads `X is not None`.
pub open spec fn spec_is_not_none_check(cond: PyExpr) -> bool {
    match cond {
        PyExpr::Compare { ops, comparators, .. } => {
            &&& ops@.len() == 1
            &&& ops@[0] == CmpOp::IsNot
            &&& comparators@.len() == 1
            &&& is_none_literal(comparators@[0])
        },
        _ => false,
    }
}

/// Check if a condition is an "is not None" check.
pub fn is_not_none_check(cond: &PyExpr) -> (res: bool)
    ensures
        res == spec_is_not_none_check(*cond),
{
    match cond {
        PyExpr::Compare { ops, comparators, .. } => {
            if ops.len() != 1 || ops[0] != CmpOp::IsNot || comparators.len() != 1 {
                return false;
            }
            match &comparators[0] {
                PyExpr::Constant { value } => match value {
                    Constant::NoneValue => true,
                    _ => false,
                },
                PyExpr::Name { id } => string_eq_str(id, "None"),
                _ => false,
            }
        },
        _ => false,
    }
}

} // verus!
