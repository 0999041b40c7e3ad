//! The public types of the library are reachable from its crate root paths.

use solverforge_bindings::domain::{PyDomainClass, PyDomainModel};
use solverforge_bindings::provider::PyConstraintProvider;
use solverforge_bindings::stream::{PyJoiner, PyJoiners};

fn assert_type<T>() {}

#[test]
fn test_joiner_types_exported() {
    assert_type::<PyJoiner>();
    assert_type::<PyJoiners>();
}

#[test]
fn test_decorator_types_exported() {
    assert_type::<PyConstraintProvider>();
    assert_type::<PyDomainClass>();
    assert_type::<PyDomainModel>();
}
