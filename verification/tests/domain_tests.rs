//! Domain classes read from type annotations.

use solverforge_bindings::domain::{
    build_domain_class, extract_annotations, initial_domain_model, pending_referenced_classes, planning_entity,
    planning_solution, python_type_to_field_type,
    DomainClass, DomainModel, FieldDescriptor, FieldType, Marker, PlanningAnnotation, PrimitiveType, PyDomainClass,
    PyDomainModel,
    PyTypeExpr, RawAnnotation,
};

#[test]
fn test_domain_class_wrapper() {
    let dc = DomainClass::new("TestEntity")
        .with_annotation(PlanningAnnotation::PlanningEntity)
        .with_field(
            FieldDescriptor::new("id", FieldType::Primitive { primitive: PrimitiveType::String })
                .with_annotation(PlanningAnnotation::PlanningId),
        );
    let py_dc = PyDomainClass::from_rust(dc);
    assert_eq!(py_dc.name(), "TestEntity");
    assert_eq!(py_dc.field_count(), 1);
    assert!(py_dc.is_planning_entity());
    assert!(!py_dc.is_planning_solution());
    assert_eq!(py_dc.repr(), "DomainClass(name='TestEntity', fields=1)");
    assert_eq!(py_dc.field_names(), vec!["id".to_string()]);
}

fn named(n: &str) -> PyTypeExpr {
    PyTypeExpr::Named { name: n.to_string() }
}

#[test]
fn type_hints_map_to_field_types() {
    assert!(matches!(python_type_to_field_type(&PyTypeExpr::BuiltinInt), FieldType::Primitive { primitive: PrimitiveType::Long }));
    assert!(matches!(python_type_to_field_type(&PyTypeExpr::BuiltinFloat), FieldType::Primitive { primitive: PrimitiveType::Double }));
    assert!(matches!(python_type_to_field_type(&PyTypeExpr::BuiltinStr), FieldType::Primitive { primitive: PrimitiveType::String }));
    assert!(matches!(python_type_to_field_type(&PyTypeExpr::BuiltinBool), FieldType::Primitive { primitive: PrimitiveType::Bool }));
    assert!(matches!(python_type_to_field_type(&PyTypeExpr::NoneValue), FieldType::Object { class_name } if class_name == "object"));
    // Optional['Timeslot']
    let opt = PyTypeExpr::Union { args: vec![PyTypeExpr::ForwardRef { arg: "Timeslot".to_string() }, PyTypeExpr::NoneType] };
    assert!(matches!(python_type_to_field_type(&opt), FieldType::Object { class_name } if class_name == "Timeslot"));
    // None | Room
    let opt = PyTypeExpr::Union { args: vec![PyTypeExpr::NoneType, named("Room")] };
    assert!(matches!(python_type_to_field_type(&opt), FieldType::Object { class_name } if class_name == "Room"));
    // list[Visit]
    let list = PyTypeExpr::Generic { origin_repr: "<class 'list'>".to_string(), args: vec![named("Visit")], name: Some("list".to_string()) };
    match python_type_to_field_type(&list) {
        FieldType::List { element_type } => assert!(matches!(*element_type, FieldType::Object { ref class_name } if class_name == "Visit")),
        other => panic!("Expected List, got {:?}", other),
    }
    // dict[str, int]
    let dict = PyTypeExpr::Generic { origin_repr: "<class 'dict'>".to_string(), args: vec![], name: Some("dict".to_string()) };
    assert!(matches!(python_type_to_field_type(&dict), FieldType::Object { class_name } if class_name == "dict"));
}

#[test]
fn annotated_fields_collect_their_markers() {
    // Annotated[Optional['Timeslot'], PlanningVariable(value_range_provider_refs=['timeslots'])]
    let raw = RawAnnotation::Annotated {
        base: PyTypeExpr::Union { args: vec![PyTypeExpr::Str { value: "Timeslot".to_string() }, PyTypeExpr::NoneType] },
        markers: vec![Marker::PlanningVariable { instance: Some((vec!["timeslots".to_string()], false)) }, Marker::Other],
    };
    let (ft, anns) = extract_annotations(raw);
    assert!(matches!(ft, FieldType::Object { ref class_name } if class_name == "Timeslot"));
    assert_eq!(anns.len(), 1);
    assert!(matches!(&anns[0], PlanningAnnotation::PlanningVariable { value_range_provider_refs, allows_unassigned: false }
        if value_range_provider_refs == &vec!["timeslots".to_string()]));

    // Annotated[str, PlanningId] with the marker class itself, and a bare
    // shadow-variable class, which stands for nothing.
    let raw = RawAnnotation::Annotated {
        base: PyTypeExpr::BuiltinStr,
        markers: vec![Marker::PlanningId, Marker::InverseRelationShadowVariable { instance: None }, Marker::PlanningVariable { instance: None }],
    };
    let (_, anns) = extract_annotations(raw);
    assert_eq!(anns.len(), 2);
    assert!(matches!(anns[0], PlanningAnnotation::PlanningId));
    assert!(matches!(&anns[1], PlanningAnnotation::PlanningVariable { value_range_provider_refs, allows_unassigned: false } if value_range_provider_refs.is_empty()));
}

#[test]
fn planning_entity_class_from_fields() {
    let fields = vec![
        ("id".to_string(), RawAnnotation::Annotated { base: PyTypeExpr::BuiltinStr, markers: vec![Marker::PlanningId] }),
        ("subject".to_string(), RawAnnotation::Plain { hint: PyTypeExpr::BuiltinStr }),
        ("room".to_string(), RawAnnotation::Plain { hint: named("Room") }),
    ];
    let c = planning_entity("Lesson".to_string(), fields);
    assert_eq!(c.name, "Lesson");
    assert!(c.is_planning_entity());
    assert_eq!(c.fields.len(), 3);
    assert_eq!(c.fields[1].name, "subject");
    assert!(c.fields[1].annotations.is_empty());
    let model = DomainModel::new().add_class(c);
    assert_eq!(model.entity_classes, vec!["Lesson".to_string()]);
    assert_eq!(pending_referenced_classes(&model.classes), vec!["Room".to_string()]);
    assert!(model.get_class("Lesson").is_some());
    assert!(model.get_class("Room").is_none());
}

#[test]
fn class_without_annotations_is_empty() {
    let c = build_domain_class("Plain".to_string(), vec![]);
    assert_eq!(c.fields.len(), 0);
    assert!(!c.is_planning_entity());
}

#[test]
fn domain_model_collects_solution_entities_and_references() {
    let solution = planning_solution(
        "Timetable".to_string(),
        vec![(
            "lessons".to_string(),
            RawAnnotation::Plain {
                hint: PyTypeExpr::Generic {
                    origin_repr: "<class 'list'>".to_string(),
                    args: vec![named("Lesson")],
                    name: None,
                },
            },
        )],
    );
    let lesson = planning_entity(
        "Lesson".to_string(),
        vec![
            ("room".to_string(), RawAnnotation::Plain { hint: named("Room") }),
            ("slot".to_string(), RawAnnotation::Plain { hint: named("Timeslot") }),
        ],
    );
    let mut model = initial_domain_model(solution, vec![lesson]);
    assert_eq!(model.solution_class, Some("Timetable".to_string()));
    assert_eq!(model.entity_classes, vec!["Lesson".to_string()]);
    let pending = pending_referenced_classes(&model.classes);
    assert_eq!(pending, vec!["Room".to_string(), "Timeslot".to_string()]);
    for name in pending {
        if model.needs_class(&name) {
            model = model.add_class(build_domain_class(name, vec![]));
        }
    }
    assert_eq!(model.class_count(), 4);
    assert!(!model.needs_class(&"Room".to_string()));
    assert_eq!(model.entity_classes, vec!["Lesson".to_string()]);
}

#[test]
fn domain_model_wrapper_reports_its_classes() {
    let empty = PyDomainModel::new();
    assert_eq!(empty.repr(), "DomainModel(solution='None', entities=[], classes=0)");
    let model = initial_domain_model(
        DomainClass::new("Timetable").with_annotation(PlanningAnnotation::PlanningSolution),
        vec![DomainClass::new("Lesson").with_annotation(PlanningAnnotation::PlanningEntity)],
    );
    let py = PyDomainModel::from_rust(model);
    assert_eq!(py.solution_class(), Some("Timetable".to_string()));
    assert_eq!(py.entity_classes(), vec!["Lesson".to_string()]);
    assert_eq!(py.class_names(), vec!["Timetable".to_string(), "Lesson".to_string()]);
    assert_eq!(py.class_count(), 2);
    assert_eq!(py.repr(), "DomainModel(solution='Timetable', entities=[\"Lesson\"], classes=2)");
    let lesson = py.get_class("Lesson").unwrap();
    assert!(lesson.is_planning_entity());
    assert!(py.get_class("Room").is_none());
    let copy = py.to_rust();
    assert_eq!(copy.classes.len(), 2);
    assert_eq!(copy.solution_class, Some("Timetable".to_string()));
}
