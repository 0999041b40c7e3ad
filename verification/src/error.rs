//! Why an analysis was refused.

use vstd::prelude::*;

verus! {

/// The reasons the lambda analyzer gives for not producing an expression.
#[derive(Debug)]
pub enum AnalysisError {
    /// The item class of a collection field cannot be told from its hints.
    ItemTypeUnknown { class_name: String, field_name: String },
    /// Iteration over something other than a field.
    ItemTypeFromComplexExpression,
    /// A class constant is an integer beyond 64 bits.
    IntegerConstantTooLarge { class_name: String, attr_name: String },
    /// The source of a method or lambda is not available.
    SourceUnavailable,
    /// The source of a method or lambda does not parse.
    SourceParseError,
    /// A method's source holds no function definition.
    NoFunctionDefinition,
    /// A method's source is not a single function definition at top level.
    UnexpectedMethodNode,
    /// No return expression or assignment pattern in a method body.
    NoSimpleReturn,
    /// A property without a getter.
    PropertyWithoutGetter { class_name: String, property_name: String },
    /// A method was found but its body could not be analyzed.
    MethodInliningFailed { class_name: String, method_name: String, cause: Box<AnalysisError> },
    /// The receiver's class is not registered or lacks the method.
    MethodNotRegistered { class_name: String, method_name: String },
    /// A method could not be inlined for a call built from a loop pattern.
    MethodNotInlinable { class_name: String, method_name: String },
    /// `math.<name>()` with a name or arity the analyzer does not know.
    UnsupportedMathFunction { name: String },
    /// `<name>()` with a name or arity the analyzer does not know.
    UnsupportedFunctionCall { name: String },
    /// An operator the analyzer does not translate.
    UnsupportedOperator,
    /// An expression the analyzer does not translate.
    UnsupportedExpression,
    /// A pattern-specific refusal, see [`PatternFailure`].
    Pattern { reason: PatternFailure },
    /// A reference to a name that is neither a parameter nor a literal.
    UnknownVariable { name: String },
    /// A lambda that reads a global, closure or free variable (by the
    /// instruction that does).
    ExternalReference { opname: String },
    /// An instruction whose argument is not of the kind it takes.
    UnexpectedArgument { opname: String },
    /// Bytecode evaluation ended without a usable value.
    BytecodeAnalysisFailed,
    /// A method reference left over after bytecode evaluation.
    UnresolvedMethodReference,
    /// A short-circuit `and` / `or` missing its right operand.
    IncompleteBooleanExpression,
    /// No lambda could be found in the source.
    NoLambdaFound,
    /// Method inlining and local-variable substitution nest deeper than the
    /// analysis budget allows.
    DepthExceeded,
}

/// Refusals of the statement patterns of method bodies.
#[derive(Debug, Clone, Copy, PartialEq, Eq, Structural)]
pub enum PatternFailure {
    CannotConvertCondition,
    IfBodyWithoutReturn,
    IfWithoutElseReturn,
    NoAssignmentPattern,
    AssignmentWithoutElse,
    BranchWithoutValue,
    CannotConvertReturnValue,
    CannotConvertAssignedValue,
    EarlyReturnBodyWithoutReturn,
    RemainderWithoutReturn,
    NotAccumulation,
    ComplexLoopTarget,
    NoSumInLoop,
    NoReturnStatement,
    CannotConvertInitExpression,
    LoopVariableNotFound,
    TupleIndexFromCall,
    CannotConvertExpression,
}

} // verus!

verus! {

/// The text of a pattern refusal.
pub open spec fn pattern_text(p: PatternFailure) -> Seq<char> {
    match p {
        PatternFailure::CannotConvertCondition => "Cannot convert if condition"@,
        PatternFailure::IfBodyWithoutReturn => "If statement body must contain return"@,
        PatternFailure::IfWithoutElseReturn => "If statement must have else branch with return"@,
        PatternFailure::NoAssignmentPattern => "No assignment pattern found"@,
        PatternFailure::AssignmentWithoutElse => "Assignment pattern requires else branch"@,
        PatternFailure::BranchWithoutValue => "Branch must contain return or assignment to self.field"@,
        PatternFailure::CannotConvertReturnValue => "Cannot convert return value"@,
        PatternFailure::CannotConvertAssignedValue => "Cannot convert assigned value"@,
        PatternFailure::EarlyReturnBodyWithoutReturn => "If body must contain return for early-return pattern"@,
        PatternFailure::RemainderWithoutReturn => "Remaining statements must contain return or accumulation pattern"@,
        PatternFailure::NotAccumulation => "Not an accumulation pattern"@,
        PatternFailure::ComplexLoopTarget => "Complex loop targets not supported"@,
        PatternFailure::NoSumInLoop => "Could not extract sum pattern from for loop"@,
        PatternFailure::NoReturnStatement => "No return statement found"@,
        PatternFailure::CannotConvertInitExpression => "Cannot convert init expr"@,
        PatternFailure::LoopVariableNotFound => "Loop var not found"@,
        PatternFailure::TupleIndexFromCall => "Tuple indexing from method call result not yet supported"@,
        PatternFailure::CannotConvertExpression => "Cannot convert expression"@,
    }
}

fn pattern_message(p: PatternFailure) -> (res: &'static str)
    ensures
        res@ == pattern_text(p),
{
    match p {
        PatternFailure::CannotConvertCondition => "Cannot convert if condition",
        PatternFailure::IfBodyWithoutReturn => "If statement body must contain return",
        PatternFailure::IfWithoutElseReturn => "If statement must have else branch with return",
        PatternFailure::NoAssignmentPattern => "No assignment pattern found",
        PatternFailure::AssignmentWithoutElse => "Assignment pattern requires else branch",
        PatternFailure::BranchWithoutValue => "Branch must contain return or assignment to self.field",
        PatternFailure::CannotConvertReturnValue => "Cannot convert return value",
        PatternFailure::CannotConvertAssignedValue => "Cannot convert assigned value",
        PatternFailure::EarlyReturnBodyWithoutReturn => "If body must contain return for early-return pattern",
        PatternFailure::RemainderWithoutReturn => "Remaining statements must contain return or accumulation pattern",
        PatternFailure::NotAccumulation => "Not an accumulation pattern",
        PatternFailure::ComplexLoopTarget => "Complex loop targets not supported",
        PatternFailure::NoSumInLoop => "Could not extract sum pattern from for loop",
        PatternFailure::NoReturnStatement => "No return statement found",
        PatternFailure::CannotConvertInitExpression => "Cannot convert init expr",
        PatternFailure::LoopVariableNotFound => "Loop var not found",
        PatternFailure::TupleIndexFromCall => "Tuple indexing from method call result not yet supported",
        PatternFailure::CannotConvertExpression => "Cannot convert expression",
    }
}

/// The text of a refusal, as the user reads it.
pub open spec fn error_text(e: AnalysisError) -> Seq<char>
    decreases e,
{
    match e {
        AnalysisError::ItemTypeUnknown { class_name, field_name } => "Cannot infer item type for field '"@ + class_name@
            + "."@ + field_name@ + "' - ensure it has type hints"@,
        AnalysisError::ItemTypeFromComplexExpression => "Cannot infer item type from complex collection expression"@,
        AnalysisError::IntegerConstantTooLarge { class_name, attr_name } => "Class constant "@ + class_name@ + "."@
            + attr_name@ + " is too large for a 64-bit integer"@,
        AnalysisError::SourceUnavailable => "Cannot analyze method: source code unavailable. Methods must be defined in source files."@,
        AnalysisError::SourceParseError => "Cannot parse method source"@,
        AnalysisError::NoFunctionDefinition => "Cannot analyze method: no function definition found"@,
        AnalysisError::UnexpectedMethodNode => "Cannot analyze method: unexpected AST node type"@,
        AnalysisError::NoSimpleReturn => "Cannot analyze method: no simple return statement found. Methods must have a single return expression or assignment pattern."@,
        AnalysisError::PropertyWithoutGetter { class_name, property_name } => "Property "@ + class_name@ + "."@
            + property_name@ + " has no getter"@,
        AnalysisError::MethodInliningFailed { class_name, method_name, cause } => "Cannot inline method "@ + class_name@
            + "."@ + method_name@ + "(): "@ + error_text(*cause),
        AnalysisError::MethodNotRegistered { class_name, method_name } => "Cannot inline method "@ + class_name@ + "."@
            + method_name@ + "() - class not registered. Register the class with register_class() first."@,
        AnalysisError::MethodNotInlinable { class_name, method_name } => "Cannot inline method "@ + class_name@ + "."@
            + method_name@ + "() - method not found or inlining failed"@,
        AnalysisError::UnsupportedMathFunction { name } => "Unsupported math function: math."@ + name@ + "()"@,
        AnalysisError::UnsupportedFunctionCall { name } => "Cannot inline function call: "@ + name@ + "()"@,
        AnalysisError::UnsupportedOperator => "Unsupported binary operator"@,
        AnalysisError::UnsupportedExpression => "Unsupported expression: the operand has no value"@,
        AnalysisError::Pattern { reason } => pattern_text(reason),
        AnalysisError::UnknownVariable { name } => "Cannot analyze lambda: unknown variable '"@ + name@
            + "'. Lambda parameters must be used directly."@,
        AnalysisError::ExternalReference { opname } => "Cannot analyze lambda: references external variable. Use only lambda parameters and literals. Found opcode: "@
            + opname@,
        AnalysisError::UnexpectedArgument { opname } => "Cannot analyze lambda: unexpected argument of "@ + opname@,
        AnalysisError::BytecodeAnalysisFailed => "Cannot analyze lambda: bytecode analysis failed. Use a simple lambda like `lambda x: x.field`."@,
        AnalysisError::UnresolvedMethodReference => "Cannot analyze lambda: unresolved method reference."@,
        AnalysisError::IncompleteBooleanExpression => "Cannot analyze lambda: incomplete boolean expression."@,
        AnalysisError::NoLambdaFound => "Cannot extract lambda expression from source"@,
        AnalysisError::DepthExceeded => "Cannot analyze: methods and local variables nest too deeply"@,
    }
}

fn append3(s: &mut String, a: &str, b: &String, c: &str)
    ensures
        final(s)@ == old(s)@ + a@ + b@ + c@,
{
    s.append(a);
    s.append(b.as_str());
    s.append(c);
}

impl AnalysisError {
    /// The text of the refusal.
    pub fn message(&self) -> (res: String)
        ensures
            res@ == error_text(*self),
        decreases self,
    {
        let mut s = String::new();
        match self {
            AnalysisError::ItemTypeUnknown { class_name, field_name } => {
                append3(&mut s, "Cannot infer item type for field '", class_name, ".");
                append3(&mut s, "", field_name, "' - ensure it has type hints");
            },
            AnalysisError::ItemTypeFromComplexExpression => {
                s.append("Cannot infer item type from complex collection expression");
            },
            AnalysisError::IntegerConstantTooLarge { class_name, attr_name } => {
                append3(&mut s, "Class constant ", class_name, ".");
                append3(&mut s, "", attr_name, " is too large for a 64-bit integer");
            },
            AnalysisError::SourceUnavailable => {
                s.append("Cannot analyze method: source code unavailable. Methods must be defined in source files.");
            },
            AnalysisError::SourceParseError => {
                s.append("Cannot parse method source");
            },
            AnalysisError::NoFunctionDefinition => {
                s.append("Cannot analyze method: no function definition found");
            },
            AnalysisError::UnexpectedMethodNode => {
                s.append("Cannot analyze method: unexpected AST node type");
            },
            AnalysisError::NoSimpleReturn => {
                s.append(
                    "Cannot analyze method: no simple return statement found. Methods must have a single return expression or assignment pattern.",
                );
            },
            AnalysisError::PropertyWithoutGetter { class_name, property_name } => {
                append3(&mut s, "Property ", class_name, ".");
                append3(&mut s, "", property_name, " has no getter");
            },
            AnalysisError::MethodInliningFailed { class_name, method_name, cause } => {
                append3(&mut s, "Cannot inline method ", class_name, ".");
                append3(&mut s, "", method_name, "(): ");
                let inner = cause.message();
                s.append(inner.as_str());
            },
            AnalysisError::MethodNotRegistered { class_name, method_name } => {
                append3(&mut s, "Cannot inline method ", class_name, ".");
                append3(
                    &mut s,
                    "",
                    method_name,
                    "() - class not registered. Register the class with register_class() first.",
                );
            },
            AnalysisError::MethodNotInlinable { class_name, method_name } => {
                append3(&mut s, "Cannot inline method ", class_name, ".");
                append3(&mut s, "", method_name, "() - method not found or inlining failed");
            },
            AnalysisError::UnsupportedMathFunction { name } => {
                append3(&mut s, "Unsupported math function: math.", name, "()");
            },
            AnalysisError::UnsupportedFunctionCall { name } => {
                append3(&mut s, "Cannot inline function call: ", name, "()");
            },
            AnalysisError::UnsupportedOperator => {
                s.append("Unsupported binary operator");
            },
            AnalysisError::UnsupportedExpression => {
                s.append("Unsupported expression: the operand has no value");
            },
            AnalysisError::Pattern { reason } => {
                s.append(pattern_message(*reason));
            },
            AnalysisError::UnknownVariable { name } => {
                append3(&mut s, "Cannot analyze lambda: unknown variable '", name, "'. Lambda parameters must be used directly.");
            },
            AnalysisError::ExternalReference { opname } => {
                append3(
                    &mut s,
                    "Cannot analyze lambda: references external variable. Use only lambda parameters and literals. Found opcode: ",
                    opname,
                    "",
                );
            },
            AnalysisError::UnexpectedArgument { opname } => {
                append3(&mut s, "Cannot analyze lambda: unexpected argument of ", opname, "");
            },
            AnalysisError::BytecodeAnalysisFailed => {
                s.append("Cannot analyze lambda: bytecode analysis failed. Use a simple lambda like `lambda x: x.field`.");
            },
            AnalysisError::UnresolvedMethodReference => {
                s.append("Cannot analyze lambda: unresolved method reference.");
            },
            AnalysisError::IncompleteBooleanExpression => {
                s.append("Cannot analyze lambda: incomplete boolean expression.");
            },
            AnalysisError::NoLambdaFound => {
                s.append("Cannot extract lambda expression from source");
            },
            AnalysisError::DepthExceeded => {
                s.append("Cannot analyze: methods and local variables nest too deeply");
            },
        }
        proof {
            reveal_strlit("");
        }
        assert(s@ =~= error_text(*self));
        s
    }
}

} // verus!
