//! The constraint provider decorator's decision, on what the host reports of
//! the decorated object: its `__name__` (if any) and whether it is callable.

use solverforge_bindings::provider::{constraint_provider, ProviderError, PyConstraintProvider};

#[test]
fn test_constraint_provider_creation() {
    // def define_constraints(factory): return []
    let provider = constraint_provider(Some("define_constraints".to_string()), true).unwrap();
    assert_eq!(provider.name(), "define_constraints");
}

#[test]
fn test_constraint_provider_repr() {
    // def my_provider(factory): return []
    let provider = constraint_provider(Some("my_provider".to_string()), true).unwrap();
    assert_eq!(provider.repr(), "ConstraintProvider(name='my_provider')");
}

#[test]
fn test_constraint_provider_rejects_non_callable() {
    // The integer 42: no `__name__`, not callable.
    let result = constraint_provider(None, false);
    assert!(result.is_err());
    let err = result.unwrap_err();
    assert!(err.message().contains("callable"));
}

#[test]
fn test_constraint_provider_with_lambda() {
    // f = lambda factory: []
    let provider = constraint_provider(Some("<lambda>".to_string()), true).unwrap();
    assert_eq!(provider.name(), "<lambda>");
}

#[test]
fn test_constraint_provider_new() {
    let provider = PyConstraintProvider::new("custom_name".to_string());
    assert_eq!(provider.name(), "custom_name");
}

#[test]
fn nameless_callable_gets_default_name() {
    let provider = constraint_provider(None, true).unwrap();
    assert_eq!(provider.provider_name(), "constraint_provider");
}

#[test]
fn named_non_callable_is_refused() {
    assert_eq!(constraint_provider(Some("x".to_string()), false).unwrap_err(), ProviderError::NotCallable);
    assert_eq!(
        ProviderError::NotCallable.message(),
        "constraint_provider decorator must be applied to a callable"
    );
}
