use solverforge_bindings::registry::{GoFunctionRef, GoObjectRef, HandleRegistry};

#[test]
fn test_registry_object_lifecycle() {
    let mut registry = HandleRegistry::new();

    let handle_id = registry.register_object(100);
    assert_ne!(handle_id, 0);
    assert_eq!(registry.object_count(), 1);

    let obj_ref = registry.get_object(handle_id).unwrap();
    assert_eq!(obj_ref.go_ref_id, 100);

    let released = registry.release_object(handle_id).unwrap();
    assert_eq!(released.go_ref_id, 100);
    assert_eq!(registry.object_count(), 0);
}

#[test]
fn test_registry_function_lifecycle() {
    let mut registry = HandleRegistry::new();

    let handle_id = registry.register_function(200);
    assert_ne!(handle_id, 0);
    assert_eq!(registry.function_count(), 1);

    let func_ref = registry.get_function(handle_id).unwrap();
    assert_eq!(func_ref.go_ref_id, 200);

    let released = registry.release_function(handle_id).unwrap();
    assert_eq!(released.go_ref_id, 200);
    assert_eq!(registry.function_count(), 0);
}

#[test]
fn test_registry_with_class_name() {
    let mut registry = HandleRegistry::new();

    let handle_id = registry.register_object_with_class(100, "TestClass".to_string());
    let obj_ref = registry.get_object(handle_id).unwrap();

    assert_eq!(obj_ref.go_ref_id, 100);
    assert_eq!(obj_ref.class_name.unwrap(), "TestClass");
}

#[test]
fn test_registry_clear() {
    let mut registry = HandleRegistry::new();

    registry.register_object(100);
    registry.register_function(200);

    assert_eq!(registry.object_count(), 1);
    assert_eq!(registry.function_count(), 1);

    registry.clear();

    assert_eq!(registry.object_count(), 0);
    assert_eq!(registry.function_count(), 0);
}

#[test]
fn registry_handles_are_distinct_across_kinds() {
    let mut registry = HandleRegistry::new();
    let a = registry.register_object(7);
    let b = registry.register_function(7);
    let c = registry.register_object_with_class(8, "X".to_string());
    assert!(a < b && b < c);
    assert!(registry.get_function(a).is_none());
    assert!(registry.get_object(b).is_none());
    assert_eq!(registry.get_function(b), Some(GoFunctionRef::new(7)));
    let obj: GoObjectRef = registry.get_object(c).unwrap();
    assert_eq!(obj.class_name.as_deref(), Some("X"));
}

#[test]
fn registry_release_absent_handle_is_none() {
    let mut registry = HandleRegistry::new();
    let h = registry.register_object(1);
    assert!(registry.release_object(h + 10).is_none());
    assert_eq!(registry.object_count(), 1);
    assert!(registry.release_object(h).is_some());
    assert!(registry.get_object(h).is_none());
    assert!(registry.release_object(h).is_none());
}

#[test]
fn registry_clear_keeps_counter_going() {
    let mut registry = HandleRegistry::new();
    let h1 = registry.register_object(1);
    registry.clear();
    let h2 = registry.register_object(1);
    assert!(h2 > h1);
}

#[test]
fn cleared_registry_never_reissues_handles() {
    let mut r = HandleRegistry::new();
    let a = r.register_object(10);
    let f = r.register_function(11);
    assert!(r.get_function(a).is_none());
    assert!(r.get_object(f).is_none());
    r.clear();
    assert!(r.get_object(a).is_none());
    assert!(r.get_function(f).is_none());
    let b = r.register_object(12);
    assert!(b > f && f > a && a >= 1);
    assert_eq!(r.release_object(b).map(|o| o.go_ref_id), Some(12));
    assert!(r.release_object(b).is_none());
    assert_eq!(r.object_count(), 0);
}
