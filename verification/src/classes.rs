//! A model of the Python domain classes the analyzer consults.
//!
//! For each registered class the registry keeps what the analyzer asks of
//! the live class: its resolved type hints, its raw annotations, and what each
//! class attribute is (a function with its parsed source, a property, a
//! literal constant, ...). All lookups go by name.

use vstd::prelude::*;
use crate::pyast::{Constant, PyStmt};
use crate::types::InferredType;
use crate::expr::WasmFieldType;
use crate::text::string_eq_str;
use crate::error::AnalysisError;
use crate::expr::{Expression, FloatConst};

verus! {

/// A Python type object as seen through `__name__`, `__origin__` and
/// `__args__`.
#[derive(Debug)]
pub struct TypeHint {
    /// `__name__`, when present and a string.
    pub name: Option<String>,
    /// Whether `__origin__` is present (a generic alias such as `Optional[X]`).
    pub has_origin: bool,
    /// `__args__`, when present and a tuple.
    pub args: Option<Vec<TypeHint>>,
}

/// The source of a function, as parsed into statements.
#[derive(Debug)]
pub enum MethodSource {
    /// The statements of the module the (dedented) source parses to.
    Parsed { body: Vec<PyStmt> },
    /// The source could not be retrieved.
    Unavailable,
    /// The source did not parse.
    ParseError,
}

/// What a class attribute is.
#[derive(Debug)]
pub enum ClassAttr {
    /// A plain function or bound method.
    Function { source: MethodSource },
    /// A property; `getter` is absent when it has no `fget`.
    Property { getter: Option<MethodSource>, return_hint: Option<TypeHint> },
    /// A non-callable, non-descriptor attribute holding a literal.
    Literal { value: Constant },
    /// Any other data descriptor.
    DataDescriptor,
    /// Any other callable.
    OtherCallable,
    /// Any other value.
    Other,
}

/// A named class attribute.
#[derive(Debug)]
pub struct NamedAttr {
    pub name: String,
    pub attr: ClassAttr,
}

/// A named type hint.
#[derive(Debug)]
pub struct NamedHint {
    pub name: String,
    pub hint: TypeHint,
}

/// What the analyzer knows of one class.
#[derive(Debug)]
pub struct ClassInfo {
    pub name: String,
    /// `typing.get_type_hints(cls)`, absent when that call fails.
    pub type_hints: Option<Vec<NamedHint>>,
    /// `cls.__annotations__` in definition order, absent when missing.
    pub annotations: Option<Vec<NamedHint>>,
    /// The class attributes.
    pub attributes: Vec<NamedAttr>,
}

/// The registered classes.
#[derive(Debug)]
pub struct ClassRegistry {
    pub classes: Vec<ClassInfo>,
}

// ---------------------------------------------------------------------------
// Lookups
// ---------------------------------------------------------------------------

/// The value an optional reference points to.
pub open spec fn deref_opt<T>(o: Option<&T>) -> Option<T> {
    match o {
        Some(r) => Some(*r),
        None => None,
    }
}

/// Index of the first class named `name`.
pub open spec fn class_index(reg: ClassRegistry, name: Seq<char>) -> Option<int> {
    first_class_from(reg.classes@, name, 0)
}

/// Index of the first class at or after `i` named `name`.
pub open spec fn first_class_from(cs: Seq<ClassInfo>, name: Seq<char>, i: int) -> Option<int>
    decreases cs.len() - i,
{
    if i < 0 || i >= cs.len() {
        None
    } else if cs[i].name@ == name {
        Some(i)
    } else {
        first_class_from(cs, name, i + 1)
    }
}

/// Index of the first hint at or after `i` named `name`.
pub open spec fn first_hint_from(hs: Seq<NamedHint>, name: Seq<char>, i: int) -> Option<int>
    decreases hs.len() - i,
{
    if i < 0 || i >= hs.len() {
        None
    } else if hs[i].name@ == name {
        Some(i)
    } else {
        first_hint_from(hs, name, i + 1)
    }
}

/// Index of the first attribute at or after `i` named `name`.
pub open spec fn first_attr_from(xs: Seq<NamedAttr>, name: Seq<char>, i: int) -> Option<int>
    decreases xs.len() - i,
{
    if i < 0 || i >= xs.len() {
        None
    } else if xs[i].name@ == name {
        Some(i)
    } else {
        first_attr_from(xs, name, i + 1)
    }
}

/// The class named `name`, if registered.
pub open spec fn spec_get_class(reg: ClassRegistry, name: Seq<char>) -> Option<ClassInfo> {
    match class_index(reg, name) {
        Some(i) => Some(reg.classes@[i]),
        None => None,
    }
}

/// The type hint of field `field` of a class, if it has one.
pub open spec fn spec_hint_of(c: ClassInfo, field: Seq<char>) -> Option<TypeHint> {
    match c.type_hints {
        Some(hs) => match first_hint_from(hs@, field, 0) {
            Some(i) => Some(hs@[i].hint),
            None => None,
        },
        None => None,
    }
}

/// The raw annotation of `field` of a class, if it has one.
pub open spec fn spec_annotation_of(c: ClassInfo, field: Seq<char>) -> Option<TypeHint> {
    match c.annotations {
        Some(hs) => match first_hint_from(hs@, field, 0) {
            Some(i) => Some(hs@[i].hint),
            None => None,
        },
        None => None,
    }
}

/// The class attribute `name`, if present.
pub open spec fn spec_attr_of(c: ClassInfo, name: Seq<char>) -> Option<ClassAttr> {
    match first_attr_from(c.attributes@, name, 0) {
        Some(i) => Some(c.attributes@[i].attr),
        None => None,
    }
}

fn find_class(reg: &ClassRegistry, name: &String) -> (res: Option<usize>)
    ensures
        match res {
            Some(i) => class_index(*reg, name@) == Some(i as int) && i < reg.classes@.len(),
            None => class_index(*reg, name@) is None,
        },
{
    let n = reg.classes.len();
    let mut i: usize = 0;
    while i < n
        invariant
            n == reg.classes@.len(),
            i <= n,
            first_class_from(reg.classes@, name@, 0) == first_class_from(reg.classes@, name@, i as int),
        decreases n - i,
    {
        if reg.classes[i].name == *name {
            return Some(i);
        }
        i = i + 1;
    }
    None
}

/// The class named `name`, if registered.
pub fn get_class<'a>(reg: &'a ClassRegistry, name: &String) -> (res: Option<&'a ClassInfo>)
    ensures
        deref_opt(res) == spec_get_class(*reg, name@),
{
    match find_class(reg, name) {
        Some(i) => Some(&reg.classes[i]),
        None => None,
    }
}

fn find_hint(hs: &Vec<NamedHint>, name: &String) -> (res: Option<usize>)
    ensures
        match res {
            Some(i) => first_hint_from(hs@, name@, 0) == Some(i as int) && i < hs@.len(),
            None => first_hint_from(hs@, name@, 0) is None,
        },
{
    let n = hs.len();
    let mut i: usize = 0;
    while i < n
        invariant
            n == hs@.len(),
            i <= n,
            first_hint_from(hs@, name@, 0) == first_hint_from(hs@, name@, i as int),
        decreases n - i,
    {
        if hs[i].name == *name {
            return Some(i);
        }
        i = i + 1;
    }
    None
}

/// The type hint of field `field` of a class.
pub fn hint_of<'a>(c: &'a ClassInfo, field: &String) -> (res: Option<&'a TypeHint>)
    ensures
        deref_opt(res) == spec_hint_of(*c, field@),
{
    match &c.type_hints {
        Some(hs) => match find_hint(hs, field) {
            Some(i) => Some(&hs[i].hint),
            None => None,
        },
        None => None,
    }
}

/// The raw annotation of `field` of a class.
pub fn annotation_of<'a>(c: &'a ClassInfo, field: &String) -> (res: Option<&'a TypeHint>)
    ensures
        deref_opt(res) == spec_annotation_of(*c, field@),
{
    match &c.annotations {
        Some(hs) => match find_hint(hs, field) {
            Some(i) => Some(&hs[i].hint),
            None => None,
        },
        None => None,
    }
}

/// The class attribute `name`.
pub fn attr_of<'a>(c: &'a ClassInfo, name: &String) -> (res: Option<&'a ClassAttr>)
    ensures
        deref_opt(res) == spec_attr_of(*c, name@),
{
    let n = c.attributes.len();
    let mut i: usize = 0;
    while i < n
        invariant
            n == c.attributes@.len(),
            i <= n,
            first_attr_from(c.attributes@, name@, 0) == first_attr_from(c.attributes@, name@, i as int),
        decreases n - i,
    {
        if c.attributes[i].name == *name {
            return Some(&c.attributes[i].attr);
        }
        i = i + 1;
    }
    None
}

// ---------------------------------------------------------------------------
// Reading type hints
// ---------------------------------------------------------------------------

/// The arguments of a generic alias (empty when it has none).
pub open spec fn hint_args(t: TypeHint) -> Seq<TypeHint> {
    match t.args {
        Some(a) => a@,
        None => Seq::empty(),
    }
}

/// Whether a hint is named `NoneType`.
pub open spec fn is_none_type(t: TypeHint) -> bool {
    t.name matches Some(n) && n@ == "NoneType"@
}

/// The concrete type name behind a hint: for a generic alias, the first
/// argument not named `NoneType` that has a name, looking into nested
/// aliases; otherwise the hint's own name.
pub open spec fn spec_concrete_type_name(t: TypeHint) -> Option<String>
    decreases t, 1int, 0int,
{
    if t.has_origin {
        spec_concrete_type_name_args(t, 0)
    } else {
        t.name
    }
}

/// The search of `spec_concrete_type_name` over the arguments from `i` on.
pub open spec fn spec_concrete_type_name_args(t: TypeHint, i: int) -> Option<String>
    decreases t, 0int, hint_args(t).len() - i,
{
    if i < 0 || i >= hint_args(t).len() {
        None
    } else {
        let arg = hint_args(t)[i];
        if arg.name is Some && !is_none_type(arg) {
            arg.name
        } else {
            match spec_concrete_type_name(arg) {
                Some(n) => Some(n),
                None => spec_concrete_type_name_args(t, i + 1),
            }
        }
    }
}

/// Like `spec_concrete_type_name`, but a plain hint named `NoneType` gives
/// nothing.
pub open spec fn spec_type_class_name(t: TypeHint) -> Option<String>
    decreases t, 1int, 0int,
{
    if t.has_origin {
        spec_type_class_name_args(t, 0)
    } else if t.name is Some && !is_none_type(t) {
        t.name
    } else {
        None
    }
}

/// The search of `spec_type_class_name` over the arguments from `i` on.
pub open spec fn spec_type_class_name_args(t: TypeHint, i: int) -> Option<String>
    decreases t, 0int, hint_args(t).len() - i,
{
    if i < 0 || i >= hint_args(t).len() {
        None
    } else {
        let arg = hint_args(t)[i];
        if arg.name is Some && !is_none_type(arg) {
            arg.name
        } else {
            match spec_type_class_name(arg) {
                Some(n) => Some(n),
                None => spec_type_class_name_args(t, i + 1),
            }
        }
    }
}

/// The concrete class behind a possibly nested generic hint: arguments
/// named `NoneType` are skipped, the first argument that yields a class
/// wins; a plain hint yields its own name unless it is `NoneType`.
pub open spec fn spec_concrete_class(t: TypeHint) -> Option<String>
    decreases t, 1int, 0int,
{
    if t.has_origin {
        spec_concrete_class_args(t, 0)
    } else if t.name is Some && !is_none_type(t) {
        t.name
    } else {
        None
    }
}

/// The search of `spec_concrete_class` over the arguments from `i` on.
pub open spec fn spec_concrete_class_args(t: TypeHint, i: int) -> Option<String>
    decreases t, 0int, hint_args(t).len() - i,
{
    if i < 0 || i >= hint_args(t).len() {
        None
    } else {
        let arg = hint_args(t)[i];
        if is_none_type(arg) {
            spec_concrete_class_args(t, i + 1)
        } else {
            match spec_concrete_class(arg) {
                Some(n) => Some(n),
                None => spec_concrete_class_args(t, i + 1),
            }
        }
    }
}

fn clone_opt_string(o: &Option<String>) -> (res: Option<String>)
    ensures
        res == *o,
{
    match o {
        Some(s) => Some(s.clone()),
        None => None,
    }
}

fn is_none_type_hint(t: &TypeHint) -> (res: bool)
    ensures
        res == is_none_type(*t),
{
    match &t.name {
        Some(n) => string_eq_str(n, "NoneType"),
        None => false,
    }
}

/// The concrete type name behind a hint.
pub fn get_concrete_type_name(t: &TypeHint) -> (res: Option<String>)
    ensures
        res == spec_concrete_type_name(*t),
    decreases t, 1int, 0int,
{
    if t.has_origin {
        concrete_type_name_args(t, 0)
    } else {
        clone_opt_string(&t.name)
    }
}

fn concrete_type_name_args(t: &TypeHint, i: usize) -> (res: Option<String>)
    ensures
        res == spec_concrete_type_name_args(*t, i as int),
    decreases t, 0int, hint_args(*t).len() - i,
{
    match &t.args {
        Some(args) => {
            if i >= args.len() {
                None
            } else {
                let arg = &args[i];
                assert(decreases_to!(*t => args));
                assert(decreases_to!(args => args@[i as int]));
                if arg.name.is_some() && !is_none_type_hint(arg) {
                    clone_opt_string(&arg.name)
                } else {
                    match get_concrete_type_name(arg) {
                        Some(n) => Some(n),
                        None => concrete_type_name_args(t, i + 1),
                    }
                }
            }
        },
        None => None,
    }
}

/// The class name behind a hint, skipping `NoneType`.
pub fn extract_type_class_name(t: &TypeHint) -> (res: Option<String>)
    ensures
        res == spec_type_class_name(*t),
    decreases t, 1int, 0int,
{
    if t.has_origin {
        type_class_name_args(t, 0)
    } else if t.name.is_some() && !is_none_type_hint(t) {
        clone_opt_string(&t.name)
    } else {
        None
    }
}

fn type_class_name_args(t: &TypeHint, i: usize) -> (res: Option<String>)
    ensures
        res == spec_type_class_name_args(*t, i as int),
    decreases t, 0int, hint_args(*t).len() - i,
{
    match &t.args {
        Some(args) => {
            if i >= args.len() {
                None
            } else {
                let arg = &args[i];
                assert(decreases_to!(*t => args));
                assert(decreases_to!(args => args@[i as int]));
                if arg.name.is_some() && !is_none_type_hint(arg) {
                    clone_opt_string(&arg.name)
                } else {
                    match extract_type_class_name(arg) {
                        Some(n) => Some(n),
                        None => type_class_name_args(t, i + 1),
                    }
                }
            }
        },
        None => None,
    }
}

/// The concrete class behind a possibly nested generic hint.
pub fn extract_concrete_class_from_type(t: &TypeHint) -> (res: Option<String>)
    ensures
        res == spec_concrete_class(*t),
    decreases t, 1int, 0int,
{
    if t.has_origin {
        concrete_class_args(t, 0)
    } else if t.name.is_some() && !is_none_type_hint(t) {
        clone_opt_string(&t.name)
    } else {
        None
    }
}

fn concrete_class_args(t: &TypeHint, i: usize) -> (res: Option<String>)
    ensures
        res == spec_concrete_class_args(*t, i as int),
    decreases t, 0int, hint_args(*t).len() - i,
{
    match &t.args {
        Some(args) => {
            if i >= args.len() {
                None
            } else {
                let arg = &args[i];
                assert(decreases_to!(*t => args));
                assert(decreases_to!(args => args@[i as int]));
                if is_none_type_hint(arg) {
                    concrete_class_args(t, i + 1)
                } else {
                    match extract_concrete_class_from_type(arg) {
                        Some(n) => Some(n),
                        None => concrete_class_args(t, i + 1),
                    }
                }
            }
        },
        None => None,
    }
}

// ---------------------------------------------------------------------------
// Questions about fields
// ---------------------------------------------------------------------------

/// The inferred type of a type named `name`: datetimes and durations are
/// 64-bit, `int` is 32-bit.
pub open spec fn spec_type_name_to_inferred(name: Option<String>) -> Option<InferredType> {
    match name {
        Some(n) => if n@ == "datetime"@ || n@ == "timedelta"@ {
            Some(InferredType::I64)
        } else if n@ == "int"@ {
            Some(InferredType::I32)
        } else if n@ == "float"@ {
            Some(InferredType::F64)
        } else if n@ == "bool"@ {
            Some(InferredType::Bool)
        } else if n@ == "str"@ {
            Some(InferredType::String)
        } else {
            None
        },
        None => None,
    }
}

/// Convert a type name to an inferred type.
pub fn type_name_to_inferred_type(name: &Option<String>) -> (res: Option<InferredType>)
    ensures
        res == spec_type_name_to_inferred(*name),
{
    match name {
        Some(n) => if string_eq_str(n, "datetime") || string_eq_str(n, "timedelta") {
            Some(InferredType::I64)
        } else if string_eq_str(n, "int") {
            Some(InferredType::I32)
        } else if string_eq_str(n, "float") {
            Some(InferredType::F64)
        } else if string_eq_str(n, "bool") {
            Some(InferredType::Bool)
        } else if string_eq_str(n, "str") {
            Some(InferredType::String)
        } else {
            None
        },
        None => None,
    }
}

/// The type of field or property `field` of class `class_name`: from the
/// class's type hints first, then from the return annotation of a property
/// of that name; `Unknown` when neither tells.
pub open spec fn spec_infer_field_type(reg: ClassRegistry, class_name: Seq<char>, field: Seq<char>) -> InferredType {
    match spec_get_class(reg, class_name) {
        None => InferredType::Unknown,
        Some(c) => {
            let from_hint = match spec_hint_of(c, field) {
                Some(h) => spec_type_name_to_inferred(spec_concrete_type_name(h)),
                None => None,
            };
            match from_hint {
                Some(t) => t,
                None => match spec_attr_of(c, field) {
                    Some(ClassAttr::Property { return_hint: Some(h), .. }) => match spec_type_name_to_inferred(
                        spec_concrete_type_name(h),
                    ) {
                        Some(t) => t,
                        None => InferredType::Unknown,
                    },
                    _ => InferredType::Unknown,
                },
            }
        },
    }
}

/// Infer the type of a field or property from the class registry.
pub fn infer_field_type(reg: &ClassRegistry, class_name: &String, field: &String) -> (res: InferredType)
    ensures
        res == spec_infer_field_type(*reg, class_name@, field@),
{
    let c = match get_class(reg, class_name) {
        None => return InferredType::Unknown,
        Some(c) => c,
    };
    let from_hint = match hint_of(c, field) {
        Some(h) => type_name_to_inferred_type(&get_concrete_type_name(h)),
        None => None,
    };
    match from_hint {
        Some(t) => t,
        None => match attr_of(c, field) {
            Some(ClassAttr::Property { return_hint: Some(h), .. }) => match type_name_to_inferred_type(
                &get_concrete_type_name(h),
            ) {
                Some(t) => t,
                None => InferredType::Unknown,
            },
            _ => InferredType::Unknown,
        },
    }
}

/// The machine type used to read a field: the field's inferred type, with
/// every type that is not a number, boolean or string read as an object.
pub open spec fn spec_wasm_field_type(reg: ClassRegistry, class_name: Seq<char>, field: Seq<char>) -> WasmFieldType {
    match spec_infer_field_type(reg, class_name, field) {
        InferredType::I32 => WasmFieldType::I32,
        InferredType::I64 => WasmFieldType::I64,
        InferredType::F64 => WasmFieldType::F64,
        InferredType::Bool => WasmFieldType::Bool,
        InferredType::String => WasmFieldType::String,
        _ => WasmFieldType::Object,
    }
}

/// Look up the machine type for reading a field.
pub fn get_wasm_field_type(reg: &ClassRegistry, class_name: &String, field: &String) -> (res: WasmFieldType)
    ensures
        res == spec_wasm_field_type(*reg, class_name@, field@),
{
    match infer_field_type(reg, class_name, field) {
        InferredType::I32 => WasmFieldType::I32,
        InferredType::I64 => WasmFieldType::I64,
        InferredType::F64 => WasmFieldType::F64,
        InferredType::Bool => WasmFieldType::Bool,
        InferredType::String => WasmFieldType::String,
        _ => WasmFieldType::Object,
    }
}

/// The class name of field `field` of class `class_name`, read from its
/// type hint (skipping `NoneType`).
pub open spec fn spec_field_class_name(reg: ClassRegistry, class_name: Seq<char>, field: Seq<char>) -> Option<String> {
    match spec_get_class(reg, class_name) {
        Some(c) => match spec_hint_of(c, field) {
            Some(h) => spec_type_class_name(h),
            None => None,
        },
        None => None,
    }
}

/// Look up a field's class name from the registry.
pub fn get_field_class_name(reg: &ClassRegistry, class_name: &String, field: &String) -> (res: Option<String>)
    ensures
        res == spec_field_class_name(*reg, class_name@, field@),
{
    match get_class(reg, class_name) {
        Some(c) => match hint_of(c, field) {
            Some(h) => extract_type_class_name(h),
            None => None,
        },
        None => None,
    }
}

/// The concrete class of field `field` of class `class_name`, looking
/// through `Optional`, `ClassVar`, `list` and other generic aliases.
pub open spec fn spec_field_concrete_class(reg: ClassRegistry, class_name: Seq<char>, field: Seq<char>) -> Option<String> {
    match spec_get_class(reg, class_name) {
        Some(c) => match spec_hint_of(c, field) {
            Some(h) => spec_concrete_class(h),
            None => None,
        },
        None => None,
    }
}

/// Look up the concrete class of a field's type.
pub fn get_field_type_class(reg: &ClassRegistry, class_name: &String, field: &String) -> (res: Option<String>)
    ensures
        res == spec_field_concrete_class(*reg, class_name@, field@),
{
    match get_class(reg, class_name) {
        Some(c) => match hint_of(c, field) {
            Some(h) => extract_concrete_class_from_type(h),
            None => None,
        },
        None => None,
    }
}

/// The class of the value an expression denotes: a field's concrete class,
/// or the default class for parameter 0 (`self`).
pub open spec fn spec_infer_expression_class(reg: ClassRegistry, e: Expression, default_class: String) -> Option<String> {
    match e {
        Expression::FieldAccess { class_name, field_name, .. } => spec_field_concrete_class(
            reg,
            class_name@,
            field_name@,
        ),
        Expression::Param { index } => if index == 0 {
            Some(default_class)
        } else {
            None
        },
        _ => None,
    }
}

/// Infer the class of the value an expression denotes.
pub fn infer_expression_class(reg: &ClassRegistry, e: &Expression, default_class: &String) -> (res: Option<String>)
    ensures
        res == spec_infer_expression_class(*reg, *e, *default_class),
{
    match e {
        Expression::FieldAccess { class_name, field_name, .. } => get_field_type_class(
            reg,
            class_name,
            field_name,
        ),
        Expression::Param { index } => if *index == 0 {
            Some(default_class.clone())
        } else {
            None
        },
        _ => None,
    }
}

/// The name of the first argument of a hint, when it has `__args__` with a
/// first element that has a name.
pub open spec fn first_arg_name(h: TypeHint) -> Option<String> {
    match h.args {
        Some(a) => if a@.len() > 0 { a@[0].name } else { None },
        None => None,
    }
}

/// The item class of a collection field, read from the field's type hint
/// (`list[Visit]` gives `Visit`), else from the raw annotation.
pub open spec fn spec_infer_item_type(reg: ClassRegistry, collection: Expression) -> Result<String, AnalysisError> {
    match collection {
        Expression::FieldAccess { class_name, field_name, .. } => {
            let c = spec_get_class(reg, class_name@);
            let from_hints = match c {
                Some(c) => match spec_hint_of(c, field_name@) {
                    Some(h) => first_arg_name(h),
                    None => None,
                },
                None => None,
            };
            match from_hints {
                Some(n) => Ok(n),
                None => {
                    let from_annotation = match c {
                        Some(c) => match spec_annotation_of(c, field_name@) {
                            Some(h) => if h.name is Some {
                                h.name
                            } else if h.has_origin {
                                first_arg_name(h)
                            } else {
                                None
                            },
                            None => None,
                        },
                        None => None,
                    };
                    match from_annotation {
                        Some(n) => Ok(n),
                        None => Err(AnalysisError::ItemTypeUnknown { class_name, field_name }),
                    }
                },
            }
        },
        _ => Err(AnalysisError::ItemTypeFromComplexExpression),
    }
}

fn first_arg_name_of(h: &TypeHint) -> (res: Option<String>)
    ensures
        res == first_arg_name(*h),
{
    match &h.args {
        Some(a) => if a.len() > 0 {
            clone_opt_string(&a[0].name)
        } else {
            None
        },
        None => None,
    }
}

/// Infer the item class of a collection expression from type hints.
pub fn infer_item_type(reg: &ClassRegistry, collection: &Expression) -> (res: Result<String, AnalysisError>)
    ensures
        res == spec_infer_item_type(*reg, *collection),
{
    match collection {
        Expression::FieldAccess { class_name, field_name, .. } => {
            let c = get_class(reg, class_name);
            let from_hints = match c {
                Some(c) => match hint_of(c, field_name) {
                    Some(h) => first_arg_name_of(h),
                    None => None,
                },
                None => None,
            };
            match from_hints {
                Some(n) => Ok(n),
                None => {
                    let from_annotation = match c {
                        Some(c) => match annotation_of(c, field_name) {
                            Some(h) => if h.name.is_some() {
                                clone_opt_string(&h.name)
                            } else if h.has_origin {
                                first_arg_name_of(h)
                            } else {
                                None
                            },
                            None => None,
                        },
                        None => None,
                    };
                    match from_annotation {
                        Some(n) => Ok(n),
                        None => Err(
                            AnalysisError::ItemTypeUnknown {
                                class_name: class_name.clone(),
                                field_name: field_name.clone(),
                            },
                        ),
                    }
                },
            }
        },
        _ => Err(AnalysisError::ItemTypeFromComplexExpression),
    }
}

/// Whether `p` starts with `prefix`.
pub open spec fn has_prefix(p: Seq<char>, prefix: Seq<char>) -> bool {
    prefix.len() <= p.len() && p.subrange(0, prefix.len() as int) == prefix
}

/// Index of the first annotation at or after `i` whose name starts with
/// `previous_`.
pub open spec fn first_previous_from(hs: Seq<NamedHint>, i: int) -> Option<int>
    decreases hs.len() - i,
{
    if i < 0 || i >= hs.len() {
        None
    } else if has_prefix(hs[i].name@, "previous_"@) {
        Some(i)
    } else {
        first_previous_from(hs, i + 1)
    }
}

/// The first annotated field of a class whose name starts with `previous_`.
pub open spec fn spec_previous_shadow_variable(reg: ClassRegistry, class_name: Seq<char>) -> Option<String> {
    match spec_get_class(reg, class_name) {
        Some(c) => match c.annotations {
            Some(hs) => match first_previous_from(hs@, 0) {
                Some(i) => Some(hs@[i].name),
                None => None,
            },
            None => None,
        },
        None => None,
    }
}

/// Whether `s` starts with `prefix`.
pub fn string_starts_with(s: &String, prefix: &str) -> (res: bool)
    ensures
        res == has_prefix(s@, prefix@),
{
    let st = s.as_str();
    let n = st.unicode_len();
    let m = prefix.unicode_len();
    if m > n {
        return false;
    }
    let mut i: usize = 0;
    while i < m
        invariant
            st@ == s@,
            n == s@.len(),
            m == prefix@.len(),
            m <= n,
            i <= m,
            forall|j: int| 0 <= j < i ==> s@[j] == prefix@[j],
        decreases m - i,
    {
        if st.get_char(i) != prefix.get_char(i) {
            assert(s@.subrange(0, m as int)[i as int] != prefix@[i as int]);
            return false;
        }
        i = i + 1;
    }
    assert(s@.subrange(0, m as int) =~= prefix@);
    true
}

/// Find the "previous item" shadow field of a class, e.g. `previous_visit`.
pub fn find_previous_shadow_variable(reg: &ClassRegistry, class_name: &String) -> (res: Option<String>)
    ensures
        res == spec_previous_shadow_variable(*reg, class_name@),
{
    let c = match get_class(reg, class_name) {
        Some(c) => c,
        None => return None,
    };
    let hs = match &c.annotations {
        Some(hs) => hs,
        None => return None,
    };
    let n = hs.len();
    let mut i: usize = 0;
    while i < n
        invariant
            n == hs@.len(),
            i <= n,
            first_previous_from(hs@, 0) == first_previous_from(hs@, i as int),
            spec_get_class(*reg, class_name@) == Some(*c),
            c.annotations == Some(*hs),
        decreases n - i,
    {
        if string_starts_with(&hs[i].name, "previous_") {
            assert(first_previous_from(hs@, i as int) == Some(i as int));
            return Some(hs[i].name.clone());
        }
        i = i + 1;
    }
    None
}

/// Whether a field read is of a field hinted as `datetime`.
pub open spec fn spec_is_i64_field_access(reg: ClassRegistry, e: Expression) -> bool {
    match e {
        Expression::FieldAccess { class_name, field_name, .. } => match spec_get_class(reg, class_name@) {
            Some(c) => match spec_hint_of(c, field_name@) {
                Some(h) => h.name matches Some(n) && n@ == "datetime"@,
                None => false,
            },
            None => false,
        },
        _ => false,
    }
}

/// Check if a field access reads a datetime field (stored as 64 bits).
pub fn is_i64_field_access(reg: &ClassRegistry, e: &Expression) -> (res: bool)
    ensures
        res == spec_is_i64_field_access(*reg, *e),
{
    match e {
        Expression::FieldAccess { class_name, field_name, .. } => match get_class(reg, class_name) {
            Some(c) => match hint_of(c, field_name) {
                Some(h) => match &h.name {
                    Some(n) => string_eq_str(n, "datetime"),
                    None => false,
                },
                None => false,
            },
            None => false,
        },
        _ => false,
    }
}

/// Whether an operand computes a 64-bit integer, by its operators or as a
/// datetime field.
pub fn is_i64_operand(reg: &ClassRegistry, e: &Expression) -> (res: bool)
    ensures
        res == (crate::expr::spec_is_i64_expr(*e) || spec_is_i64_field_access(*reg, *e)),
{
    crate::expr::is_i64_expr(e) || is_i64_field_access(reg, e)
}

/// Whether an annotation named `name` is declared on a class.
pub open spec fn annotated(c: ClassInfo, name: Seq<char>) -> bool {
    spec_annotation_of(c, name) is Some
}

/// The literal value of class constant `attr` of class `class_name`: only
/// attributes that are neither callable nor descriptors nor annotated
/// instance fields, and whose value is a bool, int, float or string.
pub open spec fn spec_get_class_constant(reg: ClassRegistry, class_name: String, attr: String) -> Result<Option<Expression>, AnalysisError> {
    match spec_get_class(reg, class_name@) {
        None => Ok(None),
        Some(c) => match spec_attr_of(c, attr@) {
            Some(ClassAttr::Literal { value }) => if annotated(c, attr@) {
                Ok(None)
            } else {
                match value {
                    Constant::Bool { value } => Ok(Some(Expression::BoolLiteral { value })),
                    Constant::Int { value } => Ok(Some(Expression::IntLiteral { value })),
                    Constant::BigInt { .. } => Err(AnalysisError::IntegerConstantTooLarge { class_name, attr_name: attr }),
                    Constant::Float { bits } => Ok(Some(Expression::FloatLiteral { value: FloatConst::Bits(bits) })),
                    Constant::Str { value } => Ok(Some(Expression::StringLiteral { value })),
                    _ => Ok(None),
                }
            },
            _ => Ok(None),
        },
    }
}

/// Resolve a class constant to a literal expression.
pub fn get_class_constant(reg: &ClassRegistry, class_name: &String, attr: &String) -> (res: Result<Option<Expression>, AnalysisError>)
    ensures
        res == spec_get_class_constant(*reg, *class_name, *attr),
{
    let c = match get_class(reg, class_name) {
        None => return Ok(None),
        Some(c) => c,
    };
    match attr_of(c, attr) {
        Some(ClassAttr::Literal { value }) => {
            if annotation_of(c, attr).is_some() {
                Ok(None)
            } else {
                match value {
                    Constant::Bool { value } => Ok(Some(Expression::BoolLiteral { value: *value })),
                    Constant::Int { value } => Ok(Some(Expression::IntLiteral { value: *value })),
                    Constant::BigInt { .. } => Err(AnalysisError::IntegerConstantTooLarge {
                        class_name: class_name.clone(),
                        attr_name: attr.clone(),
                    }),
                    Constant::Float { bits } => Ok(Some(Expression::FloatLiteral { value: FloatConst::Bits(*bits) })),
                    Constant::Str { value } => Ok(Some(Expression::StringLiteral { value: value.clone() })),
                    _ => Ok(None),
                }
            }
        },
        _ => Ok(None),
    }
}

/// The source of method `method` of class `class_name`, when the class is
/// registered and the attribute is a function.
pub open spec fn spec_get_method(reg: ClassRegistry, class_name: Seq<char>, method: Seq<char>) -> Option<MethodSource> {
    match spec_get_class(reg, class_name) {
        Some(c) => match spec_attr_of(c, method) {
            Some(ClassAttr::Function { source }) => Some(source),
            _ => None,
        },
        None => None,
    }
}

/// Look up a method of a registered class.
pub fn get_method_from_class<'a>(reg: &'a ClassRegistry, class_name: &String, method: &String) -> (res: Option<&'a MethodSource>)
    ensures
        deref_opt(res) == spec_get_method(*reg, class_name@, method@),
{
    match get_class(reg, class_name) {
        Some(c) => match attr_of(c, method) {
            Some(ClassAttr::Function { source }) => Some(source),
            _ => None,
        },
        None => None,
    }
}

} // verus!

verus! {

impl ClassRegistry {
    /// The empty registry.
    pub fn new() -> (res: Self)
        ensures
            res.classes@.len() == 0,
    {
        ClassRegistry { classes: Vec::new() }
    }

    /// Register a class under its name, replacing a class registered under
    /// the same name before.
    pub fn register_class(&mut self, info: ClassInfo)
        ensures
            spec_get_class(*final(self), info.name@) == Some(info),
            forall|n: Seq<char>| n != info.name@ ==> spec_get_class(*final(self), n) == spec_get_class(*old(self), n),
    {
        let ghost g = info;
        let ghost cs = self.classes@;
        match find_class(self, &info.name) {
            Some(i) => {
                self.classes.set(i, info);
                proof {
                    let cs2 = self.classes@;
                    lemma_first_class_found(cs, g.name@, 0);
                    assert forall|j: int| 0 <= j < cs.len() implies cs2[j].name@ == cs[j].name@ by {}
                    assert forall|n: Seq<char>| n != g.name@ implies spec_get_class(*final(self), n) == spec_get_class(*old(self), n) by {
                        lemma_first_class_names(cs, cs2, n, 0);
                        lemma_first_class_found(cs, n, 0);
                    }
                    lemma_first_class_names(cs, cs2, g.name@, 0);
                }
            },
            None => {
                self.classes.push(info);
                proof {
                    let cs2 = self.classes@;
                    lemma_first_class_found(cs, g.name@, 0);
                    assert forall|n: Seq<char>| n != g.name@ implies spec_get_class(*final(self), n) == spec_get_class(*old(self), n) by {
                        lemma_first_class_push(cs, g, n, 0);
                        lemma_first_class_found(cs, n, 0);
                    }
                    lemma_first_class_push(cs, g, g.name@, 0);
                }
            },
        }
    }
}

/// What the search for the first class of a name finds.
proof fn lemma_first_class_found(cs: Seq<ClassInfo>, n: Seq<char>, i: int)
    requires
        0 <= i,
    ensures
        match first_class_from(cs, n, i) {
            Some(k) => i <= k < cs.len() && cs[k].name@ == n,
            None => forall|j: int| i <= j < cs.len() ==> cs[j].name@ != n,
        },
    decreases cs.len() - i,
{
    if i < cs.len() {
        lemma_first_class_found(cs, n, i + 1);
    }
}

/// The search for a name goes by names alone.
proof fn lemma_first_class_names(cs1: Seq<ClassInfo>, cs2: Seq<ClassInfo>, n: Seq<char>, i: int)
    requires
        0 <= i,
        cs1.len() == cs2.len(),
        forall|j: int| 0 <= j < cs1.len() ==> cs1[j].name@ == cs2[j].name@,
    ensures
        first_class_from(cs1, n, i) == first_class_from(cs2, n, i),
    decreases cs1.len() - i,
{
    if i < cs1.len() {
        lemma_first_class_names(cs1, cs2, n, i + 1);
    }
}

/// A class pushed after the others is found only for its own name, when
/// none of the others has it.
proof fn lemma_first_class_push(cs: Seq<ClassInfo>, info: ClassInfo, n: Seq<char>, i: int)
    requires
        0 <= i <= cs.len(),
        forall|j: int| i <= j < cs.len() ==> cs[j].name@ != info.name@,
    ensures
        n != info.name@ ==> first_class_from(cs.push(info), n, i) == first_class_from(cs, n, i),
        n == info.name@ ==> first_class_from(cs.push(info), n, i) == Some(cs.len() as int),
    decreases cs.len() - i,
{
    if i < cs.len() {
        assert(cs.push(info)[i] == cs[i]);
        lemma_first_class_push(cs, info, n, i + 1);
    } else {
        assert(cs.push(info)[i] == info);
        assert(first_class_from(cs.push(info), n, i + 1) is None);
    }
}

} // verus!
