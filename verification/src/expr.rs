//! Expression trees produced by the lambda analyzer.
//!
//! An expression is what a Python predicate or mapping function computes,
//! written over the function's parameters (`Param`), field reads, literals and
//! typed operators. Integer operators come in a 32-bit and a 64-bit flavour
//! and floating-point operators are separate again, so every node carries the
//! machine type it computes with.

use vstd::prelude::*;
use crate::types::{InferredType, spec_promote};

verus! {

/// Machine type of a field read from an object.
#[derive(Debug, Clone, Copy, PartialEq, Eq, Structural)]
pub enum WasmFieldType {
    I32,
    I64,
    F64,
    Bool,
    String,
    Object,
}

/// A floating-point literal: either the exact IEEE-754 bits of a Python
/// float, or the float nearest to an integer written where a float is
/// expected.
#[derive(Debug, Clone, Copy, PartialEq, Eq, Structural)]
pub enum FloatConst {
    Bits(u64),
    FromInt(i64),
}

/// Binary operators.
#[derive(Debug, Clone, Copy, PartialEq, Eq, Structural)]
pub enum BinaryOp {
    Eq,
    Ne,
    Lt,
    Le,
    Gt,
    Ge,
    Eq64,
    Ne64,
    Lt64,
    Le64,
    Gt64,
    Ge64,
    Add,
    Sub,
    Mul,
    Div,
    Add64,
    Sub64,
    Mul64,
    Div64,
    FloatAdd,
    FloatSub,
    FloatMul,
    FloatDiv,
    And,
    Or,
    Atan2,
    ListContains,
}

/// Unary operators.
#[derive(Debug, Clone, Copy, PartialEq, Eq, Structural)]
pub enum UnaryOp {
    Not,
    IsNull,
    IsNotNull,
    IsNull64,
    IsNotNull64,
    Sqrt,
    FloatAbs,
    Round,
    Floor,
    Ceil,
    Sin,
    Cos,
    Asin,
    Acos,
    Atan,
    Radians,
    IntToFloat,
    FloatToInt,
    Length,
}

/// An expression tree.
#[derive(Debug)]
pub enum Expression {
    Null,
    BoolLiteral { value: bool },
    IntLiteral { value: i64 },
    Int64Literal { value: i64 },
    FloatLiteral { value: FloatConst },
    StringLiteral { value: String },
    /// The function parameter with the given position.
    Param { index: u32 },
    FieldAccess {
        object: Box<Expression>,
        class_name: String,
        field_name: String,
        field_type: WasmFieldType,
    },
    Binary { op: BinaryOp, left: Box<Expression>, right: Box<Expression> },
    Unary { op: UnaryOp, operand: Box<Expression> },
    IfThenElse {
        condition: Box<Expression>,
        then_branch: Box<Expression>,
        else_branch: Box<Expression>,
    },
    IfThenElse64 {
        condition: Box<Expression>,
        then_branch: Box<Expression>,
        else_branch: Box<Expression>,
    },
    /// Sum of `accumulator_expr` over the items of `collection`; inside the
    /// accumulator the current item is parameter `item_param_index`.
    Sum {
        collection: Box<Expression>,
        item_var_name: String,
        item_param_index: u32,
        item_class_name: String,
        accumulator_expr: Box<Expression>,
    },
    /// The last item of a collection.
    LastElement { collection: Box<Expression>, item_class_name: String },
    /// A call of a function the host provides, with its arguments in order.
    HostCall { function_name: String, args: HostArgs },
}

/// The arguments of a host call, first to last.
#[derive(Debug)]
pub enum HostArgs {
    Empty,
    Arg { first: Box<Expression>, rest: Box<HostArgs> },
}

/// The arguments of a host call as a sequence.
pub open spec fn host_args_seq(a: HostArgs) -> Seq<Expression>
    decreases a,
{
    match a {
        HostArgs::Empty => Seq::empty(),
        HostArgs::Arg { first, rest } => seq![*first] + host_args_seq(*rest),
    }
}

/// Shorthand for a binary node.
pub open spec fn bin(op: BinaryOp, l: Expression, r: Expression) -> Expression {
    Expression::Binary { op, left: Box::new(l), right: Box::new(r) }
}

/// Shorthand for a unary node.
pub open spec fn un(op: UnaryOp, e: Expression) -> Expression {
    Expression::Unary { op, operand: Box::new(e) }
}

/// Build a binary node.
pub fn mk_bin(op: BinaryOp, l: Expression, r: Expression) -> (res: Expression)
    ensures
        res == bin(op, l, r),
{
    Expression::Binary { op, left: Box::new(l), right: Box::new(r) }
}

/// Build a unary node.
pub fn mk_un(op: UnaryOp, e: Expression) -> (res: Expression)
    ensures
        res == un(op, e),
{
    Expression::Unary { op, operand: Box::new(e) }
}

/// A conditional node.
pub open spec fn ite(c: Expression, t: Expression, e: Expression) -> Expression {
    Expression::IfThenElse { condition: Box::new(c), then_branch: Box::new(t), else_branch: Box::new(e) }
}

/// A conditional node over 64-bit values.
pub open spec fn ite64(c: Expression, t: Expression, e: Expression) -> Expression {
    Expression::IfThenElse64 { condition: Box::new(c), then_branch: Box::new(t), else_branch: Box::new(e) }
}

/// Build a conditional node.
pub fn mk_ite(c: Expression, t: Expression, e: Expression) -> (res: Expression)
    ensures
        res == ite(c, t, e),
{
    Expression::IfThenElse { condition: Box::new(c), then_branch: Box::new(t), else_branch: Box::new(e) }
}

/// Build a conditional node over 64-bit values.
pub fn mk_ite64(c: Expression, t: Expression, e: Expression) -> (res: Expression)
    ensures
        res == ite64(c, t, e),
{
    Expression::IfThenElse64 { condition: Box::new(c), then_branch: Box::new(t), else_branch: Box::new(e) }
}

/// The expression with parameter `from` replaced by `sub` everywhere; a sum
/// whose item parameter lies above `from` has its item index lowered by one.
pub open spec fn spec_substitute(e: Expression, from: u32, sub: Expression) -> Expression
    decreases e,
{
    match e {
        Expression::Param { index } => if index == from { sub } else { e },
        Expression::FieldAccess { object, class_name, field_name, field_type } => Expression::FieldAccess {
            object: Box::new(spec_substitute(*object, from, sub)),
            class_name,
            field_name,
            field_type,
        },
        Expression::Binary { op, left, right } => Expression::Binary {
            op,
            left: Box::new(spec_substitute(*left, from, sub)),
            right: Box::new(spec_substitute(*right, from, sub)),
        },
        Expression::Unary { op, operand } => Expression::Unary {
            op,
            operand: Box::new(spec_substitute(*operand, from, sub)),
        },
        Expression::IfThenElse { condition, then_branch, else_branch } => Expression::IfThenElse {
            condition: Box::new(spec_substitute(*condition, from, sub)),
            then_branch: Box::new(spec_substitute(*then_branch, from, sub)),
            else_branch: Box::new(spec_substitute(*else_branch, from, sub)),
        },
        Expression::IfThenElse64 { condition, then_branch, else_branch } => Expression::IfThenElse64 {
            condition: Box::new(spec_substitute(*condition, from, sub)),
            then_branch: Box::new(spec_substitute(*then_branch, from, sub)),
            else_branch: Box::new(spec_substitute(*else_branch, from, sub)),
        },
        Expression::Sum {
            collection,
            item_var_name,
            item_param_index,
            item_class_name,
            accumulator_expr,
        } => Expression::Sum {
            collection: Box::new(spec_substitute(*collection, from, sub)),
            item_var_name,
            item_param_index: if from < item_param_index {
                (item_param_index - 1) as u32
            } else {
                item_param_index
            },
            item_class_name,
            accumulator_expr: Box::new(spec_substitute(*accumulator_expr, from, sub)),
        },
        Expression::LastElement { collection, item_class_name } => Expression::LastElement {
            collection: Box::new(spec_substitute(*collection, from, sub)),
            item_class_name,
        },
        Expression::HostCall { function_name, args } => Expression::HostCall {
            function_name,
            args: spec_substitute_args(args, from, sub),
        },
        _ => e,
    }
}

/// Substitution in each argument of a host call, in order.
pub open spec fn spec_substitute_args(a: HostArgs, from: u32, sub: Expression) -> HostArgs
    decreases a,
{
    match a {
        HostArgs::Empty => HostArgs::Empty,
        HostArgs::Arg { first, rest } => HostArgs::Arg {
            first: Box::new(spec_substitute(*first, from, sub)),
            rest: Box::new(spec_substitute_args(*rest, from, sub)),
        },
    }
}

/// Whether parameter `p` occurs anywhere in `e`.
pub open spec fn mentions_param(e: Expression, p: u32) -> bool
    decreases e,
{
    match e {
        Expression::Param { index } => index == p,
        Expression::FieldAccess { object, .. } => mentions_param(*object, p),
        Expression::Binary { left, right, .. } => mentions_param(*left, p) || mentions_param(*right, p),
        Expression::Unary { operand, .. } => mentions_param(*operand, p),
        Expression::IfThenElse { condition, then_branch, else_branch } => mentions_param(
            *condition,
            p,
        ) || mentions_param(*then_branch, p) || mentions_param(*else_branch, p),
        Expression::IfThenElse64 { condition, then_branch, else_branch } => mentions_param(
            *condition,
            p,
        ) || mentions_param(*then_branch, p) || mentions_param(*else_branch, p),
        Expression::Sum { collection, accumulator_expr, .. } => mentions_param(*collection, p)
            || mentions_param(*accumulator_expr, p),
        Expression::LastElement { collection, .. } => mentions_param(*collection, p),
        Expression::HostCall { args, .. } => args_mention_param(args, p),
        _ => false,
    }
}

/// Whether parameter `p` occurs in some argument of a host call.
pub open spec fn args_mention_param(a: HostArgs, p: u32) -> bool
    decreases a,
{
    match a {
        HostArgs::Empty => false,
        HostArgs::Arg { first, rest } => mentions_param(*first, p) || args_mention_param(*rest, p),
    }
}

/// Whether `e` contains a sum node.
pub open spec fn has_sum(e: Expression) -> bool
    decreases e,
{
    match e {
        Expression::FieldAccess { object, .. } => has_sum(*object),
        Expression::Binary { left, right, .. } => has_sum(*left) || has_sum(*right),
        Expression::Unary { operand, .. } => has_sum(*operand),
        Expression::IfThenElse { condition, then_branch, else_branch } => has_sum(*condition)
            || has_sum(*then_branch) || has_sum(*else_branch),
        Expression::IfThenElse64 { condition, then_branch, else_branch } => has_sum(*condition)
            || has_sum(*then_branch) || has_sum(*else_branch),
        Expression::Sum { .. } => true,
        Expression::LastElement { collection, .. } => has_sum(*collection),
        Expression::HostCall { args, .. } => args_have_sum(args),
        _ => false,
    }
}

/// Whether some argument of a host call contains a sum node.
pub open spec fn args_have_sum(a: HostArgs) -> bool
    decreases a,
{
    match a {
        HostArgs::Empty => false,
        HostArgs::Arg { first, rest } => has_sum(*first) || args_have_sum(*rest),
    }
}

/// A copy of an expression tree.
pub fn clone_expr(e: &Expression) -> (res: Expression)
    ensures
        res == *e,
    decreases e,
{
    match e {
        Expression::Null => Expression::Null,
        Expression::BoolLiteral { value } => Expression::BoolLiteral { value: *value },
        Expression::IntLiteral { value } => Expression::IntLiteral { value: *value },
        Expression::Int64Literal { value } => Expression::Int64Literal { value: *value },
        Expression::FloatLiteral { value } => Expression::FloatLiteral { value: *value },
        Expression::StringLiteral { value } => Expression::StringLiteral { value: value.clone() },
        Expression::Param { index } => Expression::Param { index: *index },
        Expression::FieldAccess { object, class_name, field_name, field_type } => Expression::FieldAccess {
            object: Box::new(clone_expr(object)),
            class_name: class_name.clone(),
            field_name: field_name.clone(),
            field_type: *field_type,
        },
        Expression::Binary { op, left, right } => Expression::Binary {
            op: *op,
            left: Box::new(clone_expr(left)),
            right: Box::new(clone_expr(right)),
        },
        Expression::Unary { op, operand } => Expression::Unary {
            op: *op,
            operand: Box::new(clone_expr(operand)),
        },
        Expression::IfThenElse { condition, then_branch, else_branch } => Expression::IfThenElse {
            condition: Box::new(clone_expr(condition)),
            then_branch: Box::new(clone_expr(then_branch)),
            else_branch: Box::new(clone_expr(else_branch)),
        },
        Expression::IfThenElse64 { condition, then_branch, else_branch } => Expression::IfThenElse64 {
            condition: Box::new(clone_expr(condition)),
            then_branch: Box::new(clone_expr(then_branch)),
            else_branch: Box::new(clone_expr(else_branch)),
        },
        Expression::Sum {
            collection,
            item_var_name,
            item_param_index,
            item_class_name,
            accumulator_expr,
        } => Expression::Sum {
            collection: Box::new(clone_expr(collection)),
            item_var_name: item_var_name.clone(),
            item_param_index: *item_param_index,
            item_class_name: item_class_name.clone(),
            accumulator_expr: Box::new(clone_expr(accumulator_expr)),
        },
        Expression::LastElement { collection, item_class_name } => Expression::LastElement {
            collection: Box::new(clone_expr(collection)),
            item_class_name: item_class_name.clone(),
        },
        Expression::HostCall { function_name, args } => Expression::HostCall {
            function_name: function_name.clone(),
            args: clone_args(args),
        },
    }
}

/// A copy of the arguments of a host call.
pub fn clone_args(a: &HostArgs) -> (res: HostArgs)
    ensures
        res == *a,
    decreases a,
{
    match a {
        HostArgs::Empty => HostArgs::Empty,
        HostArgs::Arg { first, rest } => HostArgs::Arg {
            first: Box::new(clone_expr(first)),
            rest: Box::new(clone_args(rest)),
        },
    }
}

impl Clone for Expression {
    fn clone(&self) -> (res: Self)
        ensures
            res == *self,
    {
        clone_expr(self)
    }
}

/// Substitute a parameter in an expression tree with another expression.
///
/// Used to inline a method: its body is analyzed with `self` as parameter 0,
/// and the call's receiver is put in its place.
pub fn substitute_param(expr: Expression, from_index: u32, substitute: &Expression) -> (res: Expression)
    ensures
        res == spec_substitute(expr, from_index, *substitute),
    decreases expr,
{
    match expr {
        Expression::Param { index } => {
            if index == from_index {
                clone_expr(substitute)
            } else {
                Expression::Param { index }
            }
        },
        Expression::FieldAccess { object, class_name, field_name, field_type } => Expression::FieldAccess {
            object: Box::new(substitute_param(*object, from_index, substitute)),
            class_name,
            field_name,
            field_type,
        },
        Expression::Binary { op, left, right } => Expression::Binary {
            op,
            left: Box::new(substitute_param(*left, from_index, substitute)),
            right: Box::new(substitute_param(*right, from_index, substitute)),
        },
        Expression::Unary { op, operand } => Expression::Unary {
            op,
            operand: Box::new(substitute_param(*operand, from_index, substitute)),
        },
        Expression::IfThenElse { condition, then_branch, else_branch } => Expression::IfThenElse {
            condition: Box::new(substitute_param(*condition, from_index, substitute)),
            then_branch: Box::new(substitute_param(*then_branch, from_index, substitute)),
            else_branch: Box::new(substitute_param(*else_branch, from_index, substitute)),
        },
        Expression::IfThenElse64 { condition, then_branch, else_branch } => Expression::IfThenElse64 {
            condition: Box::new(substitute_param(*condition, from_index, substitute)),
            then_branch: Box::new(substitute_param(*then_branch, from_index, substitute)),
            else_branch: Box::new(substitute_param(*else_branch, from_index, substitute)),
        },
        Expression::Sum {
            collection,
            item_var_name,
            item_param_index,
            item_class_name,
            accumulator_expr,
        } => {
            let new_index = if from_index < item_param_index {
                item_param_index - 1
            } else {
                item_param_index
            };
            Expression::Sum {
                collection: Box::new(substitute_param(*collection, from_index, substitute)),
                item_var_name,
                item_param_index: new_index,
                item_class_name,
                accumulator_expr: Box::new(substitute_param(*accumulator_expr, from_index, substitute)),
            }
        },
        Expression::LastElement { collection, item_class_name } => Expression::LastElement {
            collection: Box::new(substitute_param(*collection, from_index, substitute)),
            item_class_name,
        },
        Expression::HostCall { function_name, args } => Expression::HostCall {
            function_name,
            args: substitute_args(args, from_index, substitute),
        },
        other => other,
    }
}

/// Substitute a parameter in each argument of a host call, in order.
pub fn substitute_args(args: HostArgs, from_index: u32, substitute: &Expression) -> (res: HostArgs)
    ensures
        res == spec_substitute_args(args, from_index, *substitute),
    decreases args,
{
    match args {
        HostArgs::Empty => HostArgs::Empty,
        HostArgs::Arg { first, rest } => HostArgs::Arg {
            first: Box::new(substitute_param(*first, from_index, substitute)),
            rest: Box::new(substitute_args(*rest, from_index, substitute)),
        },
    }
}

/// The type of a field read.
pub open spec fn field_type_to_inferred(t: WasmFieldType) -> InferredType {
    match t {
        WasmFieldType::I32 => InferredType::I32,
        WasmFieldType::I64 => InferredType::I64,
        WasmFieldType::F64 => InferredType::F64,
        WasmFieldType::Bool => InferredType::Bool,
        WasmFieldType::String => InferredType::String,
        WasmFieldType::Object => InferredType::Unknown,
    }
}

/// The type a binary operator produces (`Unknown` for list membership).
pub open spec fn binary_op_type(op: BinaryOp) -> InferredType {
    match op {
        BinaryOp::Eq | BinaryOp::Ne | BinaryOp::Lt | BinaryOp::Le | BinaryOp::Gt | BinaryOp::Ge
        | BinaryOp::Eq64 | BinaryOp::Ne64 | BinaryOp::Lt64 | BinaryOp::Le64 | BinaryOp::Gt64
        | BinaryOp::Ge64 | BinaryOp::And | BinaryOp::Or => InferredType::Bool,
        BinaryOp::FloatAdd | BinaryOp::FloatSub | BinaryOp::FloatMul | BinaryOp::FloatDiv
        | BinaryOp::Atan2 => InferredType::F64,
        BinaryOp::Add64 | BinaryOp::Sub64 | BinaryOp::Mul64 | BinaryOp::Div64 => InferredType::I64,
        BinaryOp::Add | BinaryOp::Sub | BinaryOp::Mul | BinaryOp::Div => InferredType::I32,
        BinaryOp::ListContains => InferredType::Unknown,
    }
}

/// The type a unary operator produces.
pub open spec fn unary_op_type(op: UnaryOp) -> InferredType {
    match op {
        UnaryOp::Not | UnaryOp::IsNull | UnaryOp::IsNotNull | UnaryOp::IsNull64
        | UnaryOp::IsNotNull64 => InferredType::Bool,
        UnaryOp::Sqrt | UnaryOp::FloatAbs | UnaryOp::Sin | UnaryOp::Cos | UnaryOp::Asin
        | UnaryOp::Acos | UnaryOp::Atan | UnaryOp::Radians | UnaryOp::IntToFloat => InferredType::F64,
        UnaryOp::Round | UnaryOp::Floor | UnaryOp::Ceil | UnaryOp::FloatToInt
        | UnaryOp::Length => InferredType::I32,
    }
}

/// The type an expression computes.
pub open spec fn spec_infer_expression_type(e: Expression) -> InferredType
    decreases e,
{
    match e {
        Expression::BoolLiteral { .. } => InferredType::Bool,
        Expression::FloatLiteral { .. } => InferredType::F64,
        Expression::Int64Literal { .. } => InferredType::I64,
        Expression::IntLiteral { .. } => InferredType::I32,
        Expression::StringLiteral { .. } => InferredType::String,
        Expression::Null => InferredType::Null,
        Expression::Binary { op, .. } => binary_op_type(op),
        Expression::Unary { op, .. } => unary_op_type(op),
        Expression::IfThenElse64 { .. } => InferredType::I64,
        Expression::IfThenElse { then_branch, else_branch, .. } => spec_promote(
            spec_infer_expression_type(*then_branch),
            spec_infer_expression_type(*else_branch),
        ),
        Expression::FieldAccess { field_type, .. } => field_type_to_inferred(field_type),
        _ => InferredType::Unknown,
    }
}

/// The type of a field read, as an inferred type.
pub fn field_type_inferred(t: WasmFieldType) -> (res: InferredType)
    ensures
        res == field_type_to_inferred(t),
{
    match t {
        WasmFieldType::I32 => InferredType::I32,
        WasmFieldType::I64 => InferredType::I64,
        WasmFieldType::F64 => InferredType::F64,
        WasmFieldType::Bool => InferredType::Bool,
        WasmFieldType::String => InferredType::String,
        WasmFieldType::Object => InferredType::Unknown,
    }
}

fn binary_type(op: BinaryOp) -> (res: InferredType)
    ensures
        res == binary_op_type(op),
{
    match op {
        BinaryOp::Eq | BinaryOp::Ne | BinaryOp::Lt | BinaryOp::Le | BinaryOp::Gt | BinaryOp::Ge
        | BinaryOp::Eq64 | BinaryOp::Ne64 | BinaryOp::Lt64 | BinaryOp::Le64 | BinaryOp::Gt64
        | BinaryOp::Ge64 | BinaryOp::And | BinaryOp::Or => InferredType::Bool,
        BinaryOp::FloatAdd | BinaryOp::FloatSub | BinaryOp::FloatMul | BinaryOp::FloatDiv
        | BinaryOp::Atan2 => InferredType::F64,
        BinaryOp::Add64 | BinaryOp::Sub64 | BinaryOp::Mul64 | BinaryOp::Div64 => InferredType::I64,
        BinaryOp::Add | BinaryOp::Sub | BinaryOp::Mul | BinaryOp::Div => InferredType::I32,
        BinaryOp::ListContains => InferredType::Unknown,
    }
}

fn unary_type(op: UnaryOp) -> (res: InferredType)
    ensures
        res == unary_op_type(op),
{
    match op {
        UnaryOp::Not | UnaryOp::IsNull | UnaryOp::IsNotNull | UnaryOp::IsNull64
        | UnaryOp::IsNotNull64 => InferredType::Bool,
        UnaryOp::Sqrt | UnaryOp::FloatAbs | UnaryOp::Sin | UnaryOp::Cos | UnaryOp::Asin
        | UnaryOp::Acos | UnaryOp::Atan | UnaryOp::Radians | UnaryOp::IntToFloat => InferredType::F64,
        UnaryOp::Round | UnaryOp::Floor | UnaryOp::Ceil | UnaryOp::FloatToInt
        | UnaryOp::Length => InferredType::I32,
    }
}

/// Infer the type of an already-converted expression.
pub fn infer_expression_type(expr: &Expression) -> (res: InferredType)
    ensures
        res == spec_infer_expression_type(*expr),
    decreases expr,
{
    match expr {
        Expression::BoolLiteral { .. } => InferredType::Bool,
        Expression::FloatLiteral { .. } => InferredType::F64,
        Expression::Int64Literal { .. } => InferredType::I64,
        Expression::IntLiteral { .. } => InferredType::I32,
        Expression::StringLiteral { .. } => InferredType::String,
        Expression::Null => InferredType::Null,
        Expression::Binary { op, .. } => binary_type(*op),
        Expression::Unary { op, .. } => unary_type(*op),
        Expression::IfThenElse64 { .. } => InferredType::I64,
        Expression::IfThenElse { then_branch, else_branch, .. } => infer_expression_type(
            then_branch,
        ).promote(infer_expression_type(else_branch)),
        Expression::FieldAccess { field_type, .. } => field_type_inferred(*field_type),
        _ => InferredType::Unknown,
    }
}

// ---------------------------------------------------------------------------
// Laws
// ---------------------------------------------------------------------------

/// Substituting a parameter that does not occur, in an expression without
/// sums, changes nothing.
pub proof fn law_substitute_absent_param(e: Expression, from: u32, sub: Expression)
    requires
        !mentions_param(e, from),
        !has_sum(e),
    ensures
        spec_substitute(e, from, sub) == e,
    decreases e,
{
    match e {
        Expression::FieldAccess { object, .. } => law_substitute_absent_param(*object, from, sub),
        Expression::Binary { left, right, .. } => {
            law_substitute_absent_param(*left, from, sub);
            law_substitute_absent_param(*right, from, sub);
        },
        Expression::Unary { operand, .. } => law_substitute_absent_param(*operand, from, sub),
        Expression::IfThenElse { condition, then_branch, else_branch } => {
            law_substitute_absent_param(*condition, from, sub);
            law_substitute_absent_param(*then_branch, from, sub);
            law_substitute_absent_param(*else_branch, from, sub);
        },
        Expression::IfThenElse64 { condition, then_branch, else_branch } => {
            law_substitute_absent_param(*condition, from, sub);
            law_substitute_absent_param(*then_branch, from, sub);
            law_substitute_absent_param(*else_branch, from, sub);
        },
        Expression::LastElement { collection, .. } => law_substitute_absent_param(*collection, from, sub),
        Expression::HostCall { args, .. } => lemma_substitute_absent_args(args, from, sub),
        _ => {},
    }
}

proof fn lemma_substitute_absent_args(a: HostArgs, from: u32, sub: Expression)
    requires
        !args_mention_param(a, from),
        !args_have_sum(a),
    ensures
        spec_substitute_args(a, from, sub) == a,
    decreases a,
{
    match a {
        HostArgs::Empty => {},
        HostArgs::Arg { first, rest } => {
            law_substitute_absent_param(*first, from, sub);
            lemma_substitute_absent_args(*rest, from, sub);
        },
    }
}

/// After substituting parameter `from` by an expression that does not mention
/// it, the parameter no longer occurs.
pub proof fn law_substitute_removes_param(e: Expression, from: u32, sub: Expression)
    requires
        !mentions_param(sub, from),
    ensures
        !mentions_param(spec_substitute(e, from, sub), from),
    decreases e,
{
    match e {
        Expression::FieldAccess { object, .. } => law_substitute_removes_param(*object, from, sub),
        Expression::Binary { left, right, .. } => {
            law_substitute_removes_param(*left, from, sub);
            law_substitute_removes_param(*right, from, sub);
        },
        Expression::Unary { operand, .. } => law_substitute_removes_param(*operand, from, sub),
        Expression::IfThenElse { condition, then_branch, else_branch } => {
            law_substitute_removes_param(*condition, from, sub);
            law_substitute_removes_param(*then_branch, from, sub);
            law_substitute_removes_param(*else_branch, from, sub);
        },
        Expression::IfThenElse64 { condition, then_branch, else_branch } => {
            law_substitute_removes_param(*condition, from, sub);
            law_substitute_removes_param(*then_branch, from, sub);
            law_substitute_removes_param(*else_branch, from, sub);
        },
        Expression::Sum { collection, accumulator_expr, .. } => {
            law_substitute_removes_param(*collection, from, sub);
            law_substitute_removes_param(*accumulator_expr, from, sub);
        },
        Expression::LastElement { collection, .. } => law_substitute_removes_param(*collection, from, sub),
        Expression::HostCall { args, .. } => lemma_substitute_removes_param_args(args, from, sub),
        _ => {},
    }
}

proof fn lemma_substitute_removes_param_args(a: HostArgs, from: u32, sub: Expression)
    requires
        !mentions_param(sub, from),
    ensures
        !args_mention_param(spec_substitute_args(a, from, sub), from),
    decreases a,
{
    match a {
        HostArgs::Empty => {},
        HostArgs::Arg { first, rest } => {
            law_substitute_removes_param(*first, from, sub);
            lemma_substitute_removes_param_args(*rest, from, sub);
        },
    }
}

/// Substitution in each expression of a sequence.
pub open spec fn substitute_each(s: Seq<Expression>, from: u32, sub: Expression) -> Seq<Expression> {
    s.map_values(|x: Expression| spec_substitute(x, from, sub))
}

/// Substitution maps a host call's arguments one by one, in order, and keeps
/// the function's name; a binary, unary or conditional node substitutes in
/// each child and keeps its operator.
pub proof fn law_substitute_maps_children(e: Expression, from: u32, sub: Expression)
    ensures
        (e matches Expression::HostCall { function_name, args } ==> (spec_substitute(e, from, sub) matches
            Expression::HostCall { function_name: n2, args: a2 } && n2 == function_name && host_args_seq(a2)
            == substitute_each(host_args_seq(args), from, sub))),
        (e matches Expression::Binary { op, left, right } ==> spec_substitute(e, from, sub) == (Expression::Binary {
            op,
            left: Box::new(spec_substitute(*left, from, sub)),
            right: Box::new(spec_substitute(*right, from, sub)),
        })),
        (e matches Expression::Unary { op, operand } ==> spec_substitute(e, from, sub) == (Expression::Unary {
            op,
            operand: Box::new(spec_substitute(*operand, from, sub)),
        })),
        (e matches Expression::IfThenElse { condition, then_branch, else_branch } ==> spec_substitute(e, from, sub)
            == (Expression::IfThenElse {
            condition: Box::new(spec_substitute(*condition, from, sub)),
            then_branch: Box::new(spec_substitute(*then_branch, from, sub)),
            else_branch: Box::new(spec_substitute(*else_branch, from, sub)),
        })),
{
    if let Expression::HostCall { function_name, args } = e {
        lemma_substitute_args_seq(args, from, sub);
    }
}

proof fn lemma_substitute_args_seq(a: HostArgs, from: u32, sub: Expression)
    ensures
        host_args_seq(spec_substitute_args(a, from, sub)) == substitute_each(host_args_seq(a), from, sub),
    decreases a,
{
    match a {
        HostArgs::Empty => {
            assert(substitute_each(host_args_seq(a), from, sub) =~= Seq::empty());
        },
        HostArgs::Arg { first, rest } => {
            lemma_substitute_args_seq(*rest, from, sub);
            assert(host_args_seq(spec_substitute_args(a, from, sub)) =~= substitute_each(host_args_seq(a), from, sub));
        },
    }
}

} // verus!

verus! {

/// Whether an expression computes a float: float literals and operators,
/// math functions, int-to-float conversion, and conditionals with a float
/// branch.
pub open spec fn spec_is_float_expr(e: Expression) -> bool
    decreases e,
{
    match e {
        Expression::FloatLiteral { .. } => true,
        Expression::Binary { op, .. } => op == BinaryOp::FloatAdd || op == BinaryOp::FloatSub || op == BinaryOp::FloatMul
            || op == BinaryOp::FloatDiv || op == BinaryOp::Atan2,
        Expression::Unary { op, .. } => op == UnaryOp::Sqrt || op == UnaryOp::FloatAbs || op == UnaryOp::Sin || op
            == UnaryOp::Cos || op == UnaryOp::Asin || op == UnaryOp::Acos || op == UnaryOp::Atan || op == UnaryOp::Radians
            || op == UnaryOp::IntToFloat,
        Expression::IfThenElse { then_branch, else_branch, .. } => spec_is_float_expr(*then_branch)
            || spec_is_float_expr(*else_branch),
        _ => false,
    }
}

/// Whether an expression produces a float result.
pub fn is_float_expr(expr: &Expression) -> (res: bool)
    ensures
        res == spec_is_float_expr(*expr),
    decreases expr,
{
    match expr {
        Expression::FloatLiteral { .. } => true,
        Expression::Binary { op, .. } => *op == BinaryOp::FloatAdd || *op == BinaryOp::FloatSub || *op
            == BinaryOp::FloatMul || *op == BinaryOp::FloatDiv || *op == BinaryOp::Atan2,
        Expression::Unary { op, .. } => *op == UnaryOp::Sqrt || *op == UnaryOp::FloatAbs || *op == UnaryOp::Sin
            || *op == UnaryOp::Cos || *op == UnaryOp::Asin || *op == UnaryOp::Acos || *op == UnaryOp::Atan || *op
            == UnaryOp::Radians || *op == UnaryOp::IntToFloat,
        Expression::IfThenElse { then_branch, else_branch, .. } => is_float_expr(then_branch) || is_float_expr(
            else_branch,
        ),
        _ => false,
    }
}

/// Whether an expression computes a 64-bit integer: 64-bit arithmetic, an
/// integer literal outside the 32-bit range, or a conditional with such a
/// branch.
pub open spec fn spec_is_i64_expr(e: Expression) -> bool
    decreases e,
{
    match e {
        Expression::Binary { op, .. } => op == BinaryOp::Add64 || op == BinaryOp::Sub64 || op == BinaryOp::Mul64 || op
            == BinaryOp::Div64,
        Expression::IntLiteral { value } => value < i32::MIN || value > i32::MAX,
        Expression::IfThenElse { then_branch, else_branch, .. } => spec_is_i64_expr(*then_branch) || spec_is_i64_expr(
            *else_branch,
        ),
        _ => false,
    }
}

/// Whether an expression produces a 64-bit integer result.
pub fn is_i64_expr(expr: &Expression) -> (res: bool)
    ensures
        res == spec_is_i64_expr(*expr),
    decreases expr,
{
    match expr {
        Expression::Binary { op, .. } => *op == BinaryOp::Add64 || *op == BinaryOp::Sub64 || *op == BinaryOp::Mul64
            || *op == BinaryOp::Div64,
        Expression::IntLiteral { value } => *value < -2147483648i64 || *value > 2147483647i64,
        Expression::IfThenElse { then_branch, else_branch, .. } => is_i64_expr(then_branch) || is_i64_expr(else_branch),
        _ => false,
    }
}

} // verus!
