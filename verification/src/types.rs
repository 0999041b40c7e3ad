use vstd::prelude::*;

verus! {

/// Inferred type of a value, determined from the syntax of a Python expression.
#[derive(Debug, Clone, Copy, PartialEq, Eq, Structural)]
pub enum InferredType {
    /// 32-bit integer (default for integer literals and operations)
    I32,
    /// 64-bit integer (datetime fields, large integers, timedelta)
    I64,
    /// 64-bit floating point
    F64,
    /// Boolean
    Bool,
    /// String
    String,
    /// Null / None
    Null,
    /// Type could not be determined
    Unknown,
}

/// The type a conversion context expects, so that literals are emitted with
/// the right width.
#[derive(Debug, Clone, Copy, PartialEq, Eq, Structural)]
pub enum ExpectedType {
    /// No specific expectation: integers default to 32 bits.
    Any,
    /// 32-bit integers.
    I32,
    /// 64-bit integers (datetime fields, large integers).
    I64,
    /// Floats.
    F64,
}

impl ExpectedType {
    /// The default expectation.
    pub fn default_expected() -> (res: ExpectedType)
        ensures
            res == ExpectedType::Any,
    {
        ExpectedType::Any
    }
}

/// The common type of two operands of a binary operation.
pub open spec fn spec_promote(a: InferredType, b: InferredType) -> InferredType {
    if a == InferredType::Null {
        b
    } else if b == InferredType::Null {
        a
    } else if a == InferredType::F64 || b == InferredType::F64 {
        InferredType::F64
    } else if a == InferredType::I64 || b == InferredType::I64 {
        InferredType::I64
    } else if a == InferredType::I32 && b == InferredType::I32 {
        InferredType::I32
    } else {
        InferredType::Unknown
    }
}

impl InferredType {
    /// Promote two numeric types to a common type for binary operations.
    pub fn promote(self, other: InferredType) -> (res: InferredType)
        ensures
            res == spec_promote(self, other),
    {
        match (self, other) {
            (InferredType::Null, t) => t,
            (t, InferredType::Null) => t,
            (InferredType::F64, _) => InferredType::F64,
            (_, InferredType::F64) => InferredType::F64,
            (InferredType::I64, _) => InferredType::I64,
            (_, InferredType::I64) => InferredType::I64,
            (InferredType::I32, InferredType::I32) => InferredType::I32,
            _ => InferredType::Unknown,
        }
    }
}

/// Promotion gives the common type of operands whatever their order and
/// grouping, and a `None` operand leaves the other's type.
pub proof fn law_promote_common_type(a: InferredType, b: InferredType, c: InferredType)
    ensures
        spec_promote(a, b) == spec_promote(b, a),
        spec_promote(spec_promote(a, b), c) == spec_promote(a, spec_promote(b, c)),
        spec_promote(InferredType::Null, a) == a,
        spec_promote(a, InferredType::Null) == a,
{
}

} // verus!
