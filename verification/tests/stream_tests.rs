//! Constraint streams, joiners and constraints.

use solverforge_bindings::classes::ClassRegistry;
use solverforge_bindings::lambda::{LambdaCode, LambdaNamer};
use solverforge_bindings::pyast::{CmpOp, Constant, PyExpr, PyStmt};
use solverforge_bindings::score::{HardSoftScore, SimpleScore};
use solverforge_bindings::stream::{
    Joiner, PyBiConstraintStream, PyConstraintFactory, PyJoiner, PyJoiners, PyUniConstraintStream, StreamComponent,
};

const FUEL: u64 = 64;

fn name(s: &str) -> PyExpr {
    PyExpr::Name { id: s.to_string() }
}

fn attr(v: PyExpr, a: &str) -> PyExpr {
    PyExpr::Attribute { value: Box::new(v), attr: a.to_string() }
}

fn lambda_code(args: &[&str], body: PyExpr) -> LambdaCode {
    let l = PyExpr::Lambda { args: args.iter().map(|a| a.to_string()).collect(), body: Box::new(body) };
    LambdaCode::Source { module: vec![PyStmt::Assign { targets: vec![name("_")], value: l }] }
}

/// `lambda x: x.room is not None`
fn room_is_set() -> LambdaCode {
    lambda_code(
        &["x"],
        PyExpr::Compare {
            left: Box::new(attr(name("x"), "room")),
            ops: vec![CmpOp::IsNot],
            comparators: vec![PyExpr::Constant { value: Constant::NoneValue }],
        },
    )
}

#[test]
fn test_constraint_factory_creation() {
    let factory = PyConstraintFactory::create();
    assert_eq!(factory.repr(), "ConstraintFactory()");
}

#[test]
fn test_uni_constraint_builder() {
    let stream = PyUniConstraintStream::new("Lesson".to_string(), false);
    assert!(stream.repr().contains("Lesson"));
    assert!(stream.repr().contains("components=1"));
    assert_eq!(stream.repr(), "UniConstraintStream(class='Lesson', components=1)");
}

#[test]
fn test_uni_stream_filter_stores_predicate() {
    let reg = ClassRegistry::new();
    let mut namer = LambdaNamer::new();
    let stream = PyUniConstraintStream::new("Lesson".to_string(), false);
    let filtered = stream.filter_with(&mut namer, &reg, &room_is_set(), 1, FUEL).unwrap();
    assert_eq!(filtered.components.len(), 2);
    assert_eq!(filtered.predicates().len(), 1);
    assert!(filtered.predicates()[0].name.starts_with("filter_"));
}

#[test]
fn test_bi_stream_filter_stores_predicate() {
    // f = lambda a, b: a.id != b.id
    let reg = ClassRegistry::new();
    let mut namer = LambdaNamer::new();
    let code = lambda_code(
        &["a", "b"],
        PyExpr::Compare { left: Box::new(attr(name("a"), "id")), ops: vec![CmpOp::NotEq], comparators: vec![attr(name("b"), "id")] },
    );
    let stream = PyBiConstraintStream::from_unique_pair("Lesson".to_string(), vec![]);
    let filtered = stream.filter_with(&mut namer, &reg, &code, 2, FUEL).unwrap();
    assert_eq!(filtered.components.len(), 2);
    assert_eq!(filtered.predicates().len(), 1);
    assert!(filtered.predicates()[0].name.starts_with("filter_bi_"));
}

#[test]
fn test_filter_unique_names() {
    let reg = ClassRegistry::new();
    let mut namer = LambdaNamer::new();
    let stream = PyUniConstraintStream::new("Lesson".to_string(), false);
    let filtered1 = stream.filter_with(&mut namer, &reg, &room_is_set(), 1, FUEL).unwrap();
    let filtered2 = filtered1.filter_with(&mut namer, &reg, &room_is_set(), 1, FUEL).unwrap();
    assert_ne!(filtered2.predicates()[0].name, filtered2.predicates()[1].name);
}

#[test]
fn test_joiner_repr() {
    let joiner = PyJoiner {
        inner: Joiner::Equal { map: None, left_map: None, right_map: None, relation_predicate: None, hasher: None },
        lambdas: vec![],
    };
    assert!(joiner.repr().contains("equal"));
}

#[test]
fn penalties_and_rewards_carry_their_weight() {
    let stream = PyUniConstraintStream::new("Lesson".to_string(), false);
    let c = stream.penalize_weight("Room conflict", 2);
    assert_eq!(c.name(), "Room conflict");
    assert_eq!(c.component_count(), 2);
    assert!(matches!(&c.inner.components[1], StreamComponent::Penalize { weight, scale_by: None } if weight == "2hard"));
    assert_eq!(c.repr(), "Constraint(name='Room conflict', components=2)");

    let stream = PyUniConstraintStream::new("Lesson".to_string(), true);
    assert!(matches!(&stream.components[0], StreamComponent::ForEachIncludingUnassigned { class_name } if class_name == "Lesson"));
    let c = stream.reward_weight("Preference", -3);
    assert!(matches!(&c.inner.components[1], StreamComponent::Reward { weight, .. } if weight == "-3soft"));
}

#[test]
fn score_weights_use_the_score_text() {
    let b = PyUniConstraintStream::new("Lesson".to_string(), false).penalize(&HardSoftScore::one_hard());
    assert!(matches!(&b.components[1], StreamComponent::Penalize { weight, .. } if weight == "1hard/0soft"));
    assert_eq!(b.repr(), "UniConstraintBuilder(components=2)");
    let c = b.as_constraint("Hard");
    assert_eq!(c.name(), "Hard");
    let b = PyUniConstraintStream::new("Lesson".to_string(), false).penalize_simple(&SimpleScore::of(3));
    assert!(matches!(&b.components[1], StreamComponent::Penalize { weight, .. } if weight == "3"));
}

#[test]
fn joins_and_existence_filters() {
    let stream = PyUniConstraintStream::new("Lesson".to_string(), false);
    let stream = stream.if_exists("Room".to_string(), vec![]);
    let stream = stream.if_not_exists("Teacher".to_string(), vec![]);
    assert_eq!(stream.components.len(), 3);
    let bi = stream.join("Timeslot".to_string(), vec![]);
    assert_eq!(bi.class_names, vec!["Lesson".to_string()]);
    assert!(matches!(&bi.components[3], StreamComponent::Join { class_name, .. } if class_name == "Timeslot"));
    assert_eq!(bi.repr(), "BiConstraintStream(classes=[\"Lesson\"], components=4)");
    let b = bi.reward(&HardSoftScore::one_soft());
    assert_eq!(b.repr(), "BiConstraintBuilder(components=5)");
}

#[test]
fn joiners_name_their_lambdas() {
    let reg = ClassRegistry::new();
    let mut namer = LambdaNamer::new();
    let timeslot = lambda_code(&["l"], attr(name("l"), "timeslot"));
    let j = PyJoiners::equal_joiner(&mut namer, &reg, &timeslot, 1, FUEL).unwrap();
    assert_eq!(j.lambdas.len(), 1);
    assert!(matches!(&j.inner, Joiner::Equal { map: Some(f), .. } if f.name == "equal_map_0"));
    assert_eq!(j.repr(), "Joiner.equal(...)");
    let lt = PyJoiners::less_than(&mut namer, &reg, &timeslot, 1, FUEL).unwrap();
    assert!(matches!(&lt.inner, Joiner::LessThan { comparator, .. } if comparator.name == "compare"));
    assert_eq!(lt.repr(), "Joiner.less_than(...)");
    let start = lambda_code(&["s"], attr(name("s"), "start"));
    let end = lambda_code(&["s"], attr(name("s"), "end"));
    let o = PyJoiners::overlapping(&mut namer, &reg, &start, 1, &end, 1, FUEL).unwrap();
    assert!(matches!(&o.inner, Joiner::Overlapping { start_map: Some(s), end_map: Some(e), .. }
        if s.name == "overlapping_start_2" && e.name == "overlapping_end_3"));

    let pair = PyConstraintFactory::create().for_each_unique_pair_by_name("Lesson", vec![j]);
    assert!(matches!(&pair.components[0], StreamComponent::ForEachUniquePair { joiners, .. } if joiners.len() == 1));
}
