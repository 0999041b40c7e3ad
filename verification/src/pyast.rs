//! A model of the Python syntax trees the analyzer reads.
//!
//! Only what the analyzer looks at is kept; node kinds it never inspects are
//! `Other`. Floats are carried by their IEEE-754 bits.

use vstd::prelude::*;

verus! {

/// A Python literal.
#[derive(Debug)]
pub enum Constant {
    NoneValue,
    Bool { value: bool },
    /// An integer that fits in 64 bits.
    Int { value: i64 },
    /// An integer outside the 64-bit range, with the bits of the float
    /// nearest to it if there is one.
    BigInt { as_float: Option<u64> },
    /// A float, by its bits.
    Float { bits: u64 },
    Str { value: String },
    /// Bytes, complex numbers, `...` and the like.
    Other,
}

/// Comparison operators.
#[derive(Debug, Clone, Copy, PartialEq, Eq, Structural)]
pub enum CmpOp {
    Eq,
    NotEq,
    Lt,
    LtE,
    Gt,
    GtE,
    Is,
    IsNot,
    In,
    NotIn,
}

/// Arithmetic operators (of `a op b` and of `x op= b`).
#[derive(Debug, Clone, Copy, PartialEq, Eq, Structural)]
pub enum BinOpKind {
    Add,
    Sub,
    Mult,
    Div,
    FloorDiv,
    Mod,
    Pow,
    Other,
}

/// `and` / `or`.
#[derive(Debug, Clone, Copy, PartialEq, Eq, Structural)]
pub enum BoolOpKind {
    And,
    Or,
}

/// Unary operators.
#[derive(Debug, Clone, Copy, PartialEq, Eq, Structural)]
pub enum UnaryOpKind {
    Not,
    USub,
    UAdd,
    Invert,
}

/// A Python expression node.
#[derive(Debug)]
pub enum PyExpr {
    Constant { value: Constant },
    Name { id: String },
    Attribute { value: Box<PyExpr>, attr: String },
    Compare { left: Box<PyExpr>, ops: Vec<CmpOp>, comparators: Vec<PyExpr> },
    BoolOp { op: BoolOpKind, values: Vec<PyExpr> },
    UnaryOp { op: UnaryOpKind, operand: Box<PyExpr> },
    BinOp { op: BinOpKind, left: Box<PyExpr>, right: Box<PyExpr> },
    Call { func: Box<PyExpr>, args: Vec<PyExpr>, keywords: Vec<Keyword> },
    Lambda { args: Vec<String>, body: Box<PyExpr> },
    Tuple { elts: Vec<PyExpr> },
    Subscript { value: Box<PyExpr>, slice: Box<PyExpr> },
    /// Any other node that has a `value` attribute: a starred expression,
    /// an assignment expression, `await`, `yield`, `yield from`, a
    /// formatted value or a dict comprehension.
    OtherWithValue,
    /// Any other node.
    Other,
}

/// A keyword argument `arg=value` (`arg` is absent for `**kwargs`).
#[derive(Debug)]
pub struct Keyword {
    pub arg: Option<String>,
    pub value: PyExpr,
}

/// A Python statement node.
#[derive(Debug)]
pub enum PyStmt {
    Expr { value: PyExpr },
    Assign { targets: Vec<PyExpr>, value: PyExpr },
    AugAssign { target: PyExpr, op: BinOpKind, value: PyExpr },
    Return { value: Option<PyExpr> },
    If { test: PyExpr, body: Vec<PyStmt>, orelse: Vec<PyStmt> },
    For { target: PyExpr, iter: PyExpr, body: Vec<PyStmt> },
    /// A function definition (`def` or `async def`) with its positional
    /// parameter names.
    FunctionDef { args: Vec<String>, body: Vec<PyStmt> },
    Other,
}

} // verus!
