//! Scores: levels, feasibility, order, arithmetic and text.

use solverforge_bindings::score::{HardMediumSoftScore, HardSoftScore, SimpleScore};

#[test]
fn test_simple_score() {
    let score = SimpleScore::of(-10);
    assert_eq!(score.score(), -10);
    assert!(!score.is_feasible());
}

#[test]
fn test_hard_soft_score_of() {
    let score = HardSoftScore::of(-2, 10);
    assert_eq!(score.hard_score(), -2);
    assert_eq!(score.soft_score(), 10);
    assert!(!score.is_feasible());
}

#[test]
fn test_hard_soft_score_feasible() {
    let feasible = HardSoftScore::of(0, -100);
    assert!(feasible.is_feasible());
}

#[test]
fn test_hard_soft_score_comparison() {
    let a = HardSoftScore::of(0, 10);
    let b = HardSoftScore::of(0, 5);
    assert!(a.gt(&b));
    assert!(b.lt(&a));
}

#[test]
fn test_hard_soft_score_arithmetic() {
    let a = HardSoftScore::of(-2, 10);
    let b = HardSoftScore::of(-1, 5);
    let sum = a.add(&b);
    assert_eq!(sum.hard_score(), -3);
    assert_eq!(sum.soft_score(), 15);
    let diff = a.sub(&b);
    assert_eq!(diff.hard_score(), -1);
    assert_eq!(diff.soft_score(), 5);
    let neg = a.neg();
    assert_eq!(neg.hard_score(), 2);
    assert_eq!(neg.soft_score(), -10);
}

#[test]
fn test_hard_medium_soft_score() {
    let score = HardMediumSoftScore::of(-1, 5, 10);
    assert_eq!(score.hard_score(), -1);
    assert_eq!(score.medium_score(), 5);
    assert_eq!(score.soft_score(), 10);
    assert!(!score.is_feasible());
}

#[test]
fn test_hard_medium_soft_score_comparison() {
    let a = HardMediumSoftScore::of(0, 1, 0);
    let b = HardMediumSoftScore::of(0, 0, 100);
    assert!(a.gt(&b));
}

#[test]
fn test_repr_and_str() {
    let score = HardSoftScore::of(-5, 10);
    assert_eq!(score.repr(), "HardSoftScore(-5, 10)");
    assert_eq!(score.to_display_string(), "-5hard/10soft");
}

#[test]
fn hard_level_outweighs_soft() {
    assert!(HardSoftScore::of(-1, 1000).lt(&HardSoftScore::of(0, -1000)));
    assert!(HardSoftScore::of(0, 0).ge(&HardSoftScore::of(0, 0)));
    assert!(HardSoftScore::of(0, 0).le(&HardSoftScore::of(0, 0)));
}

#[test]
fn constants_and_levels() {
    assert_eq!(HardSoftScore::one_hard().hard_score(), 1);
    assert_eq!(HardSoftScore::one_soft().soft_score(), 1);
    assert_eq!(HardSoftScore::zero().hard_score(), 0);
    assert_eq!(HardSoftScore::of_hard(-3).soft_score(), 0);
    assert_eq!(HardMediumSoftScore::one_medium().medium_score(), 1);
    assert_eq!(HardMediumSoftScore::of_soft(7).soft_score(), 7);
    assert_eq!(SimpleScore::one().score(), 1);
    assert_eq!(SimpleScore::zero().score(), 0);
}

#[test]
fn score_texts() {
    assert_eq!(SimpleScore::of(-10).to_display_string(), "-10");
    assert_eq!(SimpleScore::of(-10).repr(), "SimpleScore(-10)");
    assert_eq!(HardMediumSoftScore::of(-1, 5, 10).to_display_string(), "-1hard/5medium/10soft");
    assert_eq!(HardMediumSoftScore::of(-1, 5, 10).repr(), "HardMediumSoftScore(-1, 5, 10)");
    assert_eq!(HardSoftScore::of(i64::MIN, 0).to_display_string(), "-9223372036854775808hard/0soft");
}

#[test]
fn score_hashes() {
    assert_eq!(SimpleScore::of(-1).hash_code(), u64::MAX);
    assert_eq!(HardSoftScore::of(1, 2).hash_code(), 33);
    assert_eq!(HardMediumSoftScore::of(1, 2, 3).hash_code(), (31 + 2) * 31 + 3);
}
