//! Annotation markers: their fields, their `repr` and the marker each stands for.

use solverforge_bindings::annotations::{
    PyInverseRelationShadowVariable, PyPlanningEntityCollectionProperty, PyPlanningEntityProperty,
    PyPlanningId, PyPlanningListVariable, PyPlanningPin, PyPlanningScore, PyPlanningVariable,
    PyProblemFactCollectionProperty, PyProblemFactProperty, PyValueRangeProvider,
};
use solverforge_bindings::domain::Marker;

#[test]
fn test_planning_id() {
    let id = PyPlanningId::new();
    assert_eq!(id.repr(), "PlanningId()");
}

#[test]
fn test_planning_variable() {
    let var = PyPlanningVariable::new(vec!["timeslots".to_string()], false);
    assert_eq!(var.value_range_provider_refs, vec!["timeslots"]);
    assert!(!var.allows_unassigned);
    assert!(var.repr().contains("timeslots"));
}

#[test]
fn test_planning_variable_allows_unassigned() {
    let var = PyPlanningVariable::new(vec!["rooms".to_string()], true);
    assert!(var.allows_unassigned);
}

#[test]
fn test_planning_list_variable() {
    let var = PyPlanningListVariable::new(vec!["visits".to_string()]);
    assert_eq!(var.value_range_provider_refs, vec!["visits"]);
}

#[test]
fn test_planning_score() {
    let score = PyPlanningScore::new();
    assert_eq!(score.repr(), "PlanningScore()");
}

#[test]
fn test_value_range_provider_with_id() {
    let vrp = PyValueRangeProvider::new(Some("timeslots".to_string()));
    assert_eq!(vrp.id, Some("timeslots".to_string()));
    assert!(vrp.repr().contains("timeslots"));
}

#[test]
fn test_value_range_provider_without_id() {
    let vrp = PyValueRangeProvider::new(None);
    assert_eq!(vrp.id, None);
    assert_eq!(vrp.repr(), "ValueRangeProvider()");
}

#[test]
fn test_problem_fact_property() {
    let prop = PyProblemFactProperty::new();
    assert_eq!(prop.repr(), "ProblemFactProperty()");
}

#[test]
fn test_problem_fact_collection_property() {
    let prop = PyProblemFactCollectionProperty::new();
    assert_eq!(prop.repr(), "ProblemFactCollectionProperty()");
}

#[test]
fn test_planning_entity_property() {
    let prop = PyPlanningEntityProperty::new();
    assert_eq!(prop.repr(), "PlanningEntityProperty()");
}

#[test]
fn test_planning_entity_collection_property() {
    let prop = PyPlanningEntityCollectionProperty::new();
    assert_eq!(prop.repr(), "PlanningEntityCollectionProperty()");
}

#[test]
fn test_planning_pin() {
    let pin = PyPlanningPin::new();
    assert_eq!(pin.repr(), "PlanningPin()");
}

#[test]
fn test_inverse_relation_shadow_variable() {
    let shadow = PyInverseRelationShadowVariable::new("visits".to_string());
    assert_eq!(shadow.source_variable_name, "visits");
    assert!(shadow.repr().contains("visits"));
}

#[test]
fn planning_variable_repr_is_exact() {
    let var = PyPlanningVariable::new(vec!["rooms".to_string(), "slots".to_string()], true);
    assert_eq!(
        var.repr(),
        format!("PlanningVariable(value_range_provider_refs={:?}, allows_unassigned=true)", vec!["rooms", "slots"])
    );
    let empty = PyPlanningVariable::new(vec![], false);
    assert_eq!(empty.repr(), "PlanningVariable(value_range_provider_refs=[], allows_unassigned=false)");
}

#[test]
fn list_repr_escapes_like_debug() {
    let odd = vec!["a\"b".to_string(), "c\\d".to_string(), "e\nf\t\u{1b}".to_string()];
    let var = PyPlanningListVariable::new(odd.clone());
    assert_eq!(var.repr(), format!("PlanningListVariable(value_range_provider_refs={:?})", odd));
}

#[test]
fn value_range_provider_repr_quotes_id() {
    let vrp = PyValueRangeProvider::new(Some("rooms".to_string()));
    assert_eq!(vrp.repr(), "ValueRangeProvider(id='rooms')");
}

#[test]
fn inverse_shadow_repr_is_exact() {
    let shadow = PyInverseRelationShadowVariable::new("visits".to_string());
    assert_eq!(shadow.repr(), "InverseRelationShadowVariable(source_variable_name='visits')");
}

#[test]
fn markers_stand_for_their_annotation_kind() {
    assert!(matches!(PyPlanningId::new().to_marker(), Marker::PlanningId));
    assert!(matches!(PyPlanningPin::new().to_marker(), Marker::PlanningPin));
    match PyPlanningVariable::new(vec!["rooms".to_string()], true).to_marker() {
        Marker::PlanningVariable { instance: Some((refs, unassigned)) } => {
            assert_eq!(refs, vec!["rooms"]);
            assert!(unassigned);
        }
        _ => panic!("expected a planning variable marker"),
    }
    match PyValueRangeProvider::new(None).to_marker() {
        Marker::ValueRangeProvider { instance: Some(None) } => {}
        _ => panic!("expected a value range provider marker without id"),
    }
}
