//! Tags and error codes handed across the C boundary.

use solverforge_bindings::ffi::{c_string_or, CError, CValueTag, ErrorCode, ErrorKind};

#[test]
fn test_cerror_creation() {
    let error = CError::new("test error", ErrorCode::Bridge);
    assert_eq!(error.code, ErrorCode::Bridge.value());
    assert_eq!(error.message, "test error");
}

#[test]
fn test_from_rust_error() {
    let c_error = CError::from_rust_error(ErrorKind::Bridge, "Bridge error: test bridge error");
    assert_eq!(c_error.code, ErrorCode::Bridge.value());
}

#[test]
fn error_codes_have_fixed_numbers() {
    assert_eq!(ErrorCode::Unknown.value(), 0);
    assert_eq!(ErrorCode::Bridge.value(), 5);
    assert_eq!(ErrorCode::Io.value(), 9);
    assert_eq!(ErrorCode::from_value(7), Some(ErrorCode::Configuration));
    assert_eq!(ErrorCode::from_value(10), None);
    assert_eq!(CError::from_rust_error(ErrorKind::WasmGeneration, "x").code, 4);
    assert_eq!(CError::from_rust_error(ErrorKind::Other, "x").code, 0);
}

#[test]
fn value_tags_roundtrip() {
    assert_eq!(CValueTag::ObjectRef.code(), 7);
    assert_eq!(CValueTag::from_code(3), Some(CValueTag::Float));
    assert_eq!(CValueTag::from_code(8), None);
    for c in 0u8..8 {
        assert_eq!(CValueTag::from_code(c).unwrap().code(), c);
    }
}

#[test]
fn messages_with_nul_are_replaced() {
    let e = CError::new("bad\0message", ErrorCode::Unknown);
    assert_eq!(e.message, "Invalid error message");
    assert_eq!(c_string_or("a\0b", ""), "");
    assert_eq!(c_string_or("ab", ""), "ab");
}
