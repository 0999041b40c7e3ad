//! The bridge's decisions: handle lookups, callback checks and the handling
//! of the host's answers.

use solverforge_bindings::bridge::{
    class_info_from_data, BridgeError, Callback, CallbackSet, ClassInfoData, FieldInfoData, FunctionHandle, GoBridge,
    ObjectHandle,
};
use solverforge_bindings::domain::{FieldType, PlanningAnnotation, PrimitiveType};

fn all_callbacks() -> CallbackSet {
    CallbackSet {
        get_field: true,
        set_field: true,
        call_function: true,
        serialize: true,
        deserialize: true,
        get_class_info: true,
        clone_object: true,
        get_list_size: true,
        get_list_item: true,
    }
}

#[test]
fn test_bridge_creation() {
    let bridge = GoBridge::new();
    assert_eq!(bridge.registry().object_count(), 0);
    assert_eq!(bridge.registry().function_count(), 0);
}

#[test]
fn bridge_test_register_object() {
    let mut bridge = GoBridge::new();
    let handle = bridge.register_object(100);
    assert_ne!(handle.id(), 0);
    assert_eq!(bridge.registry().object_count(), 1);
}

#[test]
fn test_register_function() {
    let mut bridge = GoBridge::new();
    let obj_handle = bridge.register_object(100);
    let func_handle = bridge.register_function(obj_handle).unwrap();
    assert_ne!(func_handle.id(), 0);
    assert_eq!(bridge.registry().function_count(), 1);
}

#[test]
fn test_register_object_with_class() {
    let mut bridge = GoBridge::new();
    let handle = bridge.register_object_with_class(100, "TestClass".to_string());
    assert_ne!(handle.id(), 0);
    let obj_ref = bridge.get_go_object(handle).unwrap();
    assert_eq!(obj_ref.class_name, Some("TestClass".to_string()));
}

#[test]
fn test_callbacks_not_set_returns_error() {
    let mut bridge = GoBridge::new();
    let handle = bridge.register_object(100);

    // Every operation on an object fails while its callback is missing.
    assert!(bridge.prepare_object_call(handle, Callback::GetField).is_err());
    assert!(bridge.prepare_object_call(handle, Callback::SetField).is_err());
    assert!(bridge.prepare_object_call(handle, Callback::Serialize).is_err());
    assert!(bridge.prepare_object_call(handle, Callback::GetClassInfo).is_err());
    assert!(bridge.prepare_object_call(handle, Callback::CloneObject).is_err());
    assert!(bridge.prepare_object_call(handle, Callback::GetListSize).is_err());
    assert!(bridge.prepare_object_call(handle, Callback::GetListItem).is_err());
}

#[test]
fn missing_callback_error_names_it() {
    let mut bridge = GoBridge::new();
    let handle = bridge.register_object(7);
    let err = bridge.prepare_object_call(handle, Callback::GetListItem).unwrap_err();
    assert_eq!(err.message(), "get_list_item callback not set");
    let err = bridge.prepare_object_call(handle, Callback::CloneObject).unwrap_err();
    assert_eq!(err.message(), "clone callback not set");
    assert_eq!(bridge.prepare_deserialize().unwrap_err().message(), "deserialize callback not set");
}

#[test]
fn unknown_handle_is_reported_before_missing_callback() {
    let bridge = GoBridge::new();
    let err = bridge.prepare_object_call(ObjectHandle::new(42), Callback::GetField).unwrap_err();
    assert!(matches!(err, BridgeError::ObjectNotFound { handle: 42 }));
    assert_eq!(err.message(), "Object handle 42 not found");
    let err = bridge.prepare_function_call(FunctionHandle::new(9)).unwrap_err();
    assert_eq!(err.message(), "Function handle 9 not found");
}

#[test]
fn callbacks_present_lets_calls_through() {
    let mut bridge = GoBridge::with_callbacks(all_callbacks());
    let handle = bridge.register_object(55);
    let r = bridge.prepare_object_call(handle, Callback::GetField).unwrap();
    assert_eq!(r.go_ref_id, 55);
    let f = bridge.register_function(handle).unwrap();
    assert_eq!(bridge.prepare_function_call(f).unwrap().go_ref_id, 55);
    assert!(bridge.prepare_deserialize().is_ok());
}

#[test]
fn set_callbacks_keeps_registry() {
    let mut bridge = GoBridge::new();
    let handle = bridge.register_object(3);
    bridge.set_callbacks(all_callbacks());
    assert_eq!(bridge.registry().object_count(), 1);
    assert!(bridge.prepare_object_call(handle, Callback::Serialize).is_ok());
}

#[test]
fn register_function_of_unknown_object_fails() {
    let mut bridge = GoBridge::new();
    let err = bridge.register_function(ObjectHandle::new(5)).unwrap_err();
    assert!(matches!(err, BridgeError::ObjectNotFound { handle: 5 }));
    assert_eq!(bridge.registry().function_count(), 0);
}

#[test]
fn zero_reference_from_host_is_failure() {
    let mut bridge = GoBridge::with_callbacks(all_callbacks());
    let err = bridge.deserialize_reply(0, "Lesson".to_string()).unwrap_err();
    assert_eq!(err.message(), "Deserialize callback returned 0 (failure)");
    assert_eq!(bridge.registry().object_count(), 0);
    let h = bridge.deserialize_reply(12, "Lesson".to_string()).unwrap();
    let r = bridge.get_go_object(h).unwrap();
    assert_eq!(r.go_ref_id, 12);
    assert_eq!(r.class_name, Some("Lesson".to_string()));
}

#[test]
fn clone_keeps_class_name() {
    let mut bridge = GoBridge::with_callbacks(all_callbacks());
    let h = bridge.register_object_with_class(1, "Room".to_string());
    let source = bridge.get_go_object(h).unwrap();
    let err = bridge.clone_reply(&source, 0).unwrap_err();
    assert_eq!(err.message(), "Clone callback returned 0 (failure)");
    let c = bridge.clone_reply(&source, 2).unwrap();
    assert_ne!(c.id(), h.id());
    let copy = bridge.get_go_object(c).unwrap();
    assert_eq!(copy.go_ref_id, 2);
    assert_eq!(copy.class_name, Some("Room".to_string()));

    let plain = bridge.register_object(3);
    let plain_ref = bridge.get_go_object(plain).unwrap();
    let c2 = bridge.clone_reply(&plain_ref, 4).unwrap();
    assert_eq!(bridge.get_go_object(c2).unwrap().class_name, None);
}

#[test]
fn host_replies_are_checked() {
    assert_eq!(GoBridge::text_reply(Callback::GetField, Some("1".to_string())).unwrap(), "1");
    let err = GoBridge::text_reply(Callback::GetField, None).unwrap_err();
    assert_eq!(err.message(), "Callback returned null JSON");
    let err = GoBridge::text_reply(Callback::Serialize, None).unwrap_err();
    assert_eq!(err.message(), "Serialize callback returned null");
    let err = GoBridge::text_reply(Callback::GetClassInfo, None).unwrap_err();
    assert_eq!(err.message(), "get_class_info callback returned null");
    assert!(GoBridge::set_field_reply(true, "room").is_ok());
    let err = GoBridge::set_field_reply(false, "room").unwrap_err();
    assert_eq!(err.message(), "Failed to set field 'room' on object");
}

#[test]
fn class_description_becomes_domain_class() {
    let data = ClassInfoData {
        name: "Lesson".to_string(),
        fields: vec![
            FieldInfoData {
                name: "id".to_string(),
                field_type: FieldType::Primitive { primitive: PrimitiveType::String },
                annotations: vec![PlanningAnnotation::PlanningId],
            },
            FieldInfoData {
                name: "pinned".to_string(),
                field_type: FieldType::Primitive { primitive: PrimitiveType::Bool },
                annotations: vec![PlanningAnnotation::PlanningPin],
            },
        ],
        annotations: vec![PlanningAnnotation::PlanningEntity],
    };
    let class = class_info_from_data(data);
    assert_eq!(class.name, "Lesson");
    assert_eq!(class.fields.len(), 2);
    assert_eq!(class.fields[0].name, "id");
    assert_eq!(class.fields[1].name, "pinned");
    assert!(matches!(class.fields[1].annotations[0], PlanningAnnotation::PlanningPin));
    assert!(class.is_planning_entity());
}
