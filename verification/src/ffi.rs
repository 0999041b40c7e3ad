//! The values and errors handed across the C boundary: their tags and codes,
//! and the strings that can be handed over as C strings.

use vstd::prelude::*;
use crate::text::str_contains_char;

verus! {

/// The type tag of a value handed across the C boundary.
#[derive(Debug, Clone, Copy, PartialEq, Eq, Structural)]
pub enum CValueTag {
    Null,
    Bool,
    Int,
    Float,
    String,
    Array,
    Object,
    ObjectRef,
}

/// The byte that stands for a tag on the C side.
pub open spec fn tag_code(t: CValueTag) -> u8 {
    match t {
        CValueTag::Null => 0,
        CValueTag::Bool => 1,
        CValueTag::Int => 2,
        CValueTag::Float => 3,
        CValueTag::String => 4,
        CValueTag::Array => 5,
        CValueTag::Object => 6,
        CValueTag::ObjectRef => 7,
    }
}

/// The tag a byte stands for, if any.
pub open spec fn tag_of_code(c: u8) -> Option<CValueTag> {
    if c == 0 {
        Some(CValueTag::Null)
    } else if c == 1 {
        Some(CValueTag::Bool)
    } else if c == 2 {
        Some(CValueTag::Int)
    } else if c == 3 {
        Some(CValueTag::Float)
    } else if c == 4 {
        Some(CValueTag::String)
    } else if c == 5 {
        Some(CValueTag::Array)
    } else if c == 6 {
        Some(CValueTag::Object)
    } else if c == 7 {
        Some(CValueTag::ObjectRef)
    } else {
        None
    }
}

impl CValueTag {
    /// The byte this tag is written as.
    pub fn code(self) -> (res: u8)
        ensures
            res == tag_code(self),
    {
        match self {
            CValueTag::Null => 0,
            CValueTag::Bool => 1,
            CValueTag::Int => 2,
            CValueTag::Float => 3,
            CValueTag::String => 4,
            CValueTag::Array => 5,
            CValueTag::Object => 6,
            CValueTag::ObjectRef => 7,
        }
    }

    /// The tag a byte read from the C side stands for; `None` for bytes
    /// beyond the last tag.
    pub fn from_code(c: u8) -> (res: Option<CValueTag>)
        ensures
            res == tag_of_code(c),
    {
        if c == 0 {
            Some(CValueTag::Null)
        } else if c == 1 {
            Some(CValueTag::Bool)
        } else if c == 2 {
            Some(CValueTag::Int)
        } else if c == 3 {
            Some(CValueTag::Float)
        } else if c == 4 {
            Some(CValueTag::String)
        } else if c == 5 {
            Some(CValueTag::Array)
        } else if c == 6 {
            Some(CValueTag::Object)
        } else if c == 7 {
            Some(CValueTag::ObjectRef)
        } else {
            None
        }
    }
}

/// Error codes handed across the C boundary, one per kind of error.
#[derive(Debug, Clone, Copy, PartialEq, Eq, Structural)]
pub enum ErrorCode {
    Unknown,
    Serialization,
    Http,
    Solver,
    Wasm,
    Bridge,
    Validation,
    Configuration,
    Service,
    Io,
}

/// The number that stands for an error code on the C side.
pub open spec fn error_code_value(c: ErrorCode) -> u32 {
    match c {
        ErrorCode::Unknown => 0,
        ErrorCode::Serialization => 1,
        ErrorCode::Http => 2,
        ErrorCode::Solver => 3,
        ErrorCode::Wasm => 4,
        ErrorCode::Bridge => 5,
        ErrorCode::Validation => 6,
        ErrorCode::Configuration => 7,
        ErrorCode::Service => 8,
        ErrorCode::Io => 9,
    }
}

/// The error code a number stands for, if any.
pub open spec fn error_code_of_value(v: u32) -> Option<ErrorCode> {
    if v == 0 {
        Some(ErrorCode::Unknown)
    } else if v == 1 {
        Some(ErrorCode::Serialization)
    } else if v == 2 {
        Some(ErrorCode::Http)
    } else if v == 3 {
        Some(ErrorCode::Solver)
    } else if v == 4 {
        Some(ErrorCode::Wasm)
    } else if v == 5 {
        Some(ErrorCode::Bridge)
    } else if v == 6 {
        Some(ErrorCode::Validation)
    } else if v == 7 {
        Some(ErrorCode::Configuration)
    } else if v == 8 {
        Some(ErrorCode::Service)
    } else if v == 9 {
        Some(ErrorCode::Io)
    } else {
        None
    }
}

impl ErrorCode {
    /// The number this code is written as.
    pub fn value(self) -> (res: u32)
        ensures
            res == error_code_value(self),
    {
        match self {
            ErrorCode::Unknown => 0,
            ErrorCode::Serialization => 1,
            ErrorCode::Http => 2,
            ErrorCode::Solver => 3,
            ErrorCode::Wasm => 4,
            ErrorCode::Bridge => 5,
            ErrorCode::Validation => 6,
            ErrorCode::Configuration => 7,
            ErrorCode::Service => 8,
            ErrorCode::Io => 9,
        }
    }

    /// The code a number read from the C side stands for.
    pub fn from_value(v: u32) -> (res: Option<ErrorCode>)
        ensures
            res == error_code_of_value(v),
    {
        if v == 0 {
            Some(ErrorCode::Unknown)
        } else if v == 1 {
            Some(ErrorCode::Serialization)
        } else if v == 2 {
            Some(ErrorCode::Http)
        } else if v == 3 {
            Some(ErrorCode::Solver)
        } else if v == 4 {
            Some(ErrorCode::Wasm)
        } else if v == 5 {
            Some(ErrorCode::Bridge)
        } else if v == 6 {
            Some(ErrorCode::Validation)
        } else if v == 7 {
            Some(ErrorCode::Configuration)
        } else if v == 8 {
            Some(ErrorCode::Service)
        } else if v == 9 {
            Some(ErrorCode::Io)
        } else {
            None
        }
    }
}

/// The kinds of error the solver side reports.
#[derive(Debug, Clone, Copy, PartialEq, Eq, Structural)]
pub enum ErrorKind {
    Serialization,
    Http,
    Solver,
    WasmGeneration,
    Bridge,
    Validation,
    Configuration,
    Service,
    Io,
    Other,
}

/// The code an error of a kind is reported with.
pub open spec fn spec_code_for_kind(k: ErrorKind) -> ErrorCode {
    match k {
        ErrorKind::Serialization => ErrorCode::Serialization,
        ErrorKind::Http => ErrorCode::Http,
        ErrorKind::Solver => ErrorCode::Solver,
        ErrorKind::WasmGeneration => ErrorCode::Wasm,
        ErrorKind::Bridge => ErrorCode::Bridge,
        ErrorKind::Validation => ErrorCode::Validation,
        ErrorKind::Configuration => ErrorCode::Configuration,
        ErrorKind::Service => ErrorCode::Service,
        ErrorKind::Io => ErrorCode::Io,
        ErrorKind::Other => ErrorCode::Unknown,
    }
}

/// The code an error of a kind is reported with.
pub fn code_for_kind(k: ErrorKind) -> (res: ErrorCode)
    ensures
        res == spec_code_for_kind(k),
{
    match k {
        ErrorKind::Serialization => ErrorCode::Serialization,
        ErrorKind::Http => ErrorCode::Http,
        ErrorKind::Solver => ErrorCode::Solver,
        ErrorKind::WasmGeneration => ErrorCode::Wasm,
        ErrorKind::Bridge => ErrorCode::Bridge,
        ErrorKind::Validation => ErrorCode::Validation,
        ErrorKind::Configuration => ErrorCode::Configuration,
        ErrorKind::Service => ErrorCode::Service,
        ErrorKind::Io => ErrorCode::Io,
        ErrorKind::Other => ErrorCode::Unknown,
    }
}

/// The message a C string can carry: a C string ends at its first NUL, so
/// a message holding one is replaced by `fallback`.
pub open spec fn c_message(message: Seq<char>, fallback: Seq<char>) -> Seq<char> {
    if message.contains('\0') {
        fallback
    } else {
        message
    }
}

/// `message`, or `fallback` when `message` holds a NUL.
pub fn c_string_or(message: &str, fallback: &str) -> (res: String)
    ensures
        res@ == c_message(message@, fallback@),
{
    if str_contains_char(message, '\0') {
        String::from_str(fallback)
    } else {
        String::from_str(message)
    }
}

/// An error as handed across the C boundary: a message and a code.
#[derive(Debug)]
pub struct CError {
    pub message: String,
    pub code: u32,
}

impl CError {
    /// An error with a message and a code; a message holding a NUL is
    /// replaced by "Invalid error message".
    pub fn new(message: &str, code: ErrorCode) -> (res: CError)
        ensures
            res.message@ == c_message(message@, "Invalid error message"@),
            res.code == error_code_value(code),
    {
        CError { message: c_string_or(message, "Invalid error message"), code: code.value() }
    }

    /// An error of a kind from the solver side, with its rendered message.
    pub fn from_rust_error(kind: ErrorKind, message: &str) -> (res: CError)
        ensures
            res.message@ == c_message(message@, "Invalid error message"@),
            res.code == error_code_value(spec_code_for_kind(kind)),
    {
        CError::new(message, code_for_kind(kind))
    }
}

/// A tag read back from its byte is the tag written.
pub proof fn law_tag_code_roundtrip(t: CValueTag)
    ensures
        tag_of_code(tag_code(t)) == Some(t),
{
}

/// Every byte that stands for a tag is the byte of that tag.
pub proof fn law_tag_code_exact(c: u8)
    ensures
        tag_of_code(c) matches Some(t) ==> tag_code(t) == c,
        tag_of_code(c) is None <==> c > 7,
{
}

/// An error code read back from its number is the code written.
pub proof fn law_error_code_roundtrip(c: ErrorCode)
    ensures
        error_code_of_value(error_code_value(c)) == Some(c),
{
}

/// Distinct kinds of error other than the catch-all get distinct codes,
/// and none of them gets the catch-all's code.
pub proof fn law_error_kinds_distinguished(a: ErrorKind, b: ErrorKind)
    requires
        a != b,
    ensures
        spec_code_for_kind(a) != spec_code_for_kind(b),
{
}

} // verus!
