//! Score types: how good a solution is, in one, two or three levels.
//!
//! Scores compare level by level: a higher hard score always wins, the medium
//! score decides between equal hard scores, and the soft score decides last.
//! A score is feasible when its hard part (or, for a simple score, its only
//! part) is not negative.

use vstd::prelude::*;
use crate::text::{int_to_decimal, push_i64_decimal};

verus! {

/// Whether `x` is a value of `i64`.
pub open spec fn fits_i64(x: int) -> bool {
    i64::MIN <= x <= i64::MAX
}

/// A score with a single value.
#[derive(Debug, Clone, Copy, PartialEq, Eq, Hash, Structural)]
pub struct SimpleScore {
    pub score: i64,
}

/// A score with a hard and a soft level.
#[derive(Debug, Clone, Copy, PartialEq, Eq, Hash, Structural)]
pub struct HardSoftScore {
    pub hard_score: i64,
    pub soft_score: i64,
}

/// A score with a hard, a medium and a soft level.
#[derive(Debug, Clone, Copy, PartialEq, Eq, Hash, Structural)]
pub struct HardMediumSoftScore {
    pub hard_score: i64,
    pub medium_score: i64,
    pub soft_score: i64,
}

// ---------------------------------------------------------------------------
// SimpleScore
// ---------------------------------------------------------------------------

impl SimpleScore {
    /// `self` is worse than `other`.
    pub open spec fn spec_lt(self, other: Self) -> bool {
        self.score < other.score
    }

    /// The score with the given value.
    pub fn of(score: i64) -> (res: Self)
        ensures
            res.score == score,
    {
        SimpleScore { score }
    }

    /// The zero score.
    pub fn zero() -> (res: Self)
        ensures
            res.score == 0,
    {
        SimpleScore { score: 0 }
    }

    /// The score 1.
    pub fn one() -> (res: Self)
        ensures
            res.score == 1,
    {
        SimpleScore { score: 1 }
    }

    /// The value.
    pub fn score(&self) -> (res: i64)
        ensures
            res == self.score,
    {
        self.score
    }

    /// Whether the score is feasible (not negative).
    pub fn is_feasible(&self) -> (res: bool)
        ensures
            res == (self.score >= 0),
    {
        self.score >= 0
    }

    /// Strictly worse than `other`.
    pub fn lt(&self, other: &Self) -> (res: bool)
        ensures
            res == self.spec_lt(*other),
    {
        self.score < other.score
    }

    /// Worse than or equal to `other`.
    pub fn le(&self, other: &Self) -> (res: bool)
        ensures
            res == (self.spec_lt(*other) || *self == *other),
    {
        self.score <= other.score
    }

    /// Strictly better than `other`.
    pub fn gt(&self, other: &Self) -> (res: bool)
        ensures
            res == other.spec_lt(*self),
    {
        self.score > other.score
    }

    /// Better than or equal to `other`.
    pub fn ge(&self, other: &Self) -> (res: bool)
        ensures
            res == (other.spec_lt(*self) || *self == *other),
    {
        self.score >= other.score
    }

    /// Level-wise sum.
    pub fn add(&self, other: &Self) -> (res: Self)
        requires
            fits_i64(self.score + other.score),
        ensures
            res.score == self.score + other.score,
    {
        SimpleScore { score: self.score + other.score }
    }

    /// Level-wise difference.
    pub fn sub(&self, other: &Self) -> (res: Self)
        requires
            fits_i64(self.score - other.score),
        ensures
            res.score == self.score - other.score,
    {
        SimpleScore { score: self.score - other.score }
    }

    /// Level-wise negation.
    pub fn neg(&self) -> (res: Self)
        requires
            self.score != i64::MIN,
        ensures
            res.score == -self.score,
    {
        SimpleScore { score: -self.score }
    }

    /// Hash of the score: its value reinterpreted as unsigned.
    pub fn hash_code(&self) -> (res: u64)
        ensures
            res == self.score as u64,
    {
        self.score as u64
    }

    /// The text of the score, e.g. `-10`.
    pub fn to_display_string(&self) -> (res: String)
        ensures
            res@ == int_to_decimal(self.score as int),
    {
        let mut s = String::new();
        push_i64_decimal(&mut s, self.score);
        assert(s@ =~= int_to_decimal(self.score as int));
        s
    }

    /// The constructor-like text of the score, e.g. `SimpleScore(-10)`.
    pub fn repr(&self) -> (res: String)
        ensures
            res@ == "SimpleScore("@ + int_to_decimal(self.score as int) + ")"@,
    {
        let mut s = String::from_str("SimpleScore(");
        push_i64_decimal(&mut s, self.score);
        s.append(")");
        s
    }
}

// ---------------------------------------------------------------------------
// HardSoftScore
// ---------------------------------------------------------------------------

impl HardSoftScore {
    /// `self` is worse than `other`: lower hard score, or equal hard score and
    /// lower soft score.
    pub open spec fn spec_lt(self, other: Self) -> bool {
        self.hard_score < other.hard_score || (self.hard_score == other.hard_score
            && self.soft_score < other.soft_score)
    }

    /// The score with the given levels.
    pub fn of(hard_score: i64, soft_score: i64) -> (res: Self)
        ensures
            res.hard_score == hard_score,
            res.soft_score == soft_score,
    {
        HardSoftScore { hard_score, soft_score }
    }

    /// A score with only a hard level.
    pub fn of_hard(hard_score: i64) -> (res: Self)
        ensures
            res.hard_score == hard_score,
            res.soft_score == 0,
    {
        HardSoftScore { hard_score, soft_score: 0 }
    }

    /// A score with only a soft level.
    pub fn of_soft(soft_score: i64) -> (res: Self)
        ensures
            res.hard_score == 0,
            res.soft_score == soft_score,
    {
        HardSoftScore { hard_score: 0, soft_score }
    }

    /// `0hard/0soft`.
    pub fn zero() -> (res: Self)
        ensures
            res.hard_score == 0,
            res.soft_score == 0,
    {
        HardSoftScore { hard_score: 0, soft_score: 0 }
    }

    /// `1hard/0soft`.
    pub fn one_hard() -> (res: Self)
        ensures
            res.hard_score == 1,
            res.soft_score == 0,
    {
        HardSoftScore { hard_score: 1, soft_score: 0 }
    }

    /// `0hard/1soft`.
    pub fn one_soft() -> (res: Self)
        ensures
            res.hard_score == 0,
            res.soft_score == 1,
    {
        HardSoftScore { hard_score: 0, soft_score: 1 }
    }

    /// The hard level.
    pub fn hard_score(&self) -> (res: i64)
        ensures
            res == self.hard_score,
    {
        self.hard_score
    }

    /// The soft level.
    pub fn soft_score(&self) -> (res: i64)
        ensures
            res == self.soft_score,
    {
        self.soft_score
    }

    /// Whether the score is feasible (hard level not negative).
    pub fn is_feasible(&self) -> (res: bool)
        ensures
            res == (self.hard_score >= 0),
    {
        self.hard_score >= 0
    }

    /// Strictly worse than `other`.
    pub fn lt(&self, other: &Self) -> (res: bool)
        ensures
            res == self.spec_lt(*other),
    {
        self.hard_score < other.hard_score || (self.hard_score == other.hard_score
            && self.soft_score < other.soft_score)
    }

    /// Worse than or equal to `other`.
    pub fn le(&self, other: &Self) -> (res: bool)
        ensures
            res == (self.spec_lt(*other) || *self == *other),
    {
        self.lt(other) || (self.hard_score == other.hard_score && self.soft_score == other.soft_score)
    }

    /// Strictly better than `other`.
    pub fn gt(&self, other: &Self) -> (res: bool)
        ensures
            res == other.spec_lt(*self),
    {
        other.lt(self)
    }

    /// Better than or equal to `other`.
    pub fn ge(&self, other: &Self) -> (res: bool)
        ensures
            res == (other.spec_lt(*self) || *self == *other),
    {
        other.le(self)
    }

    /// Level-wise sum.
    pub fn add(&self, other: &Self) -> (res: Self)
        requires
            fits_i64(self.hard_score + other.hard_score),
            fits_i64(self.soft_score + other.soft_score),
        ensures
            res.hard_score == self.hard_score + other.hard_score,
            res.soft_score == self.soft_score + other.soft_score,
    {
        HardSoftScore {
            hard_score: self.hard_score + other.hard_score,
            soft_score: self.soft_score + other.soft_score,
        }
    }

    /// Level-wise difference.
    pub fn sub(&self, other: &Self) -> (res: Self)
        requires
            fits_i64(self.hard_score - other.hard_score),
            fits_i64(self.soft_score - other.soft_score),
        ensures
            res.hard_score == self.hard_score - other.hard_score,
            res.soft_score == self.soft_score - other.soft_score,
    {
        HardSoftScore {
            hard_score: self.hard_score - other.hard_score,
            soft_score: self.soft_score - other.soft_score,
        }
    }

    /// Level-wise negation.
    pub fn neg(&self) -> (res: Self)
        requires
            self.hard_score != i64::MIN,
            self.soft_score != i64::MIN,
        ensures
            res.hard_score == -self.hard_score,
            res.soft_score == -self.soft_score,
    {
        HardSoftScore { hard_score: -self.hard_score, soft_score: -self.soft_score }
    }

    /// Hash of the score: `hard * 31 + soft` over unsigned 64-bit words.
    pub fn hash_code(&self) -> (res: u64)
        ensures
            res == vstd::wrapping::u64_specs::wrapping_add(
                vstd::wrapping::u64_specs::wrapping_mul(self.hard_score as u64, 31),
                self.soft_score as u64,
            ),
    {
        let h = self.hard_score as u64;
        let s = self.soft_score as u64;
        h.wrapping_mul(31).wrapping_add(s)
    }

    /// The text of the score, e.g. `-5hard/10soft`.
    pub open spec fn display(self) -> Seq<char> {
        int_to_decimal(self.hard_score as int) + "hard/"@ + int_to_decimal(self.soft_score as int) + "soft"@
    }

    /// The text of the score, e.g. `-5hard/10soft`.
    pub fn to_display_string(&self) -> (res: String)
        ensures
            res@ == self.display(),
    {
        let mut s = String::new();
        push_i64_decimal(&mut s, self.hard_score);
        s.append("hard/");
        push_i64_decimal(&mut s, self.soft_score);
        s.append("soft");
        assert(s@ =~= int_to_decimal(self.hard_score as int) + "hard/"@ + int_to_decimal(
            self.soft_score as int,
        ) + "soft"@);
        s
    }

    /// The constructor-like text of the score, e.g. `HardSoftScore(-5, 10)`.
    pub fn repr(&self) -> (res: String)
        ensures
            res@ == "HardSoftScore("@ + int_to_decimal(self.hard_score as int) + ", "@
                + int_to_decimal(self.soft_score as int) + ")"@,
    {
        let mut s = String::from_str("HardSoftScore(");
        push_i64_decimal(&mut s, self.hard_score);
        s.append(", ");
        push_i64_decimal(&mut s, self.soft_score);
        s.append(")");
        s
    }
}

// ---------------------------------------------------------------------------
// HardMediumSoftScore
// ---------------------------------------------------------------------------

impl HardMediumSoftScore {
    /// `self` is worse than `other`, comparing hard, then medium, then soft.
    pub open spec fn spec_lt(self, other: Self) -> bool {
        self.hard_score < other.hard_score || (self.hard_score == other.hard_score && (
        self.medium_score < other.medium_score || (self.medium_score == other.medium_score
            && self.soft_score < other.soft_score)))
    }

    /// The score with the given levels.
    pub fn of(hard_score: i64, medium_score: i64, soft_score: i64) -> (res: Self)
        ensures
            res == (HardMediumSoftScore { hard_score, medium_score, soft_score }),
    {
        HardMediumSoftScore { hard_score, medium_score, soft_score }
    }

    /// A score with only a hard level.
    pub fn of_hard(hard_score: i64) -> (res: Self)
        ensures
            res == (HardMediumSoftScore { hard_score, medium_score: 0, soft_score: 0 }),
    {
        HardMediumSoftScore { hard_score, medium_score: 0, soft_score: 0 }
    }

    /// A score with only a medium level.
    pub fn of_medium(medium_score: i64) -> (res: Self)
        ensures
            res == (HardMediumSoftScore { hard_score: 0, medium_score, soft_score: 0 }),
    {
        HardMediumSoftScore { hard_score: 0, medium_score, soft_score: 0 }
    }

    /// A score with only a soft level.
    pub fn of_soft(soft_score: i64) -> (res: Self)
        ensures
            res == (HardMediumSoftScore { hard_score: 0, medium_score: 0, soft_score }),
    {
        HardMediumSoftScore { hard_score: 0, medium_score: 0, soft_score }
    }

    /// `0hard/0medium/0soft`.
    pub fn zero() -> (res: Self)
        ensures
            res == (HardMediumSoftScore { hard_score: 0, medium_score: 0, soft_score: 0 }),
    {
        HardMediumSoftScore { hard_score: 0, medium_score: 0, soft_score: 0 }
    }

    /// `1hard/0medium/0soft`.
    pub fn one_hard() -> (res: Self)
        ensures
            res == (HardMediumSoftScore { hard_score: 1, medium_score: 0, soft_score: 0 }),
    {
        HardMediumSoftScore { hard_score: 1, medium_score: 0, soft_score: 0 }
    }

    /// `0hard/1medium/0soft`.
    pub fn one_medium() -> (res: Self)
        ensures
            res == (HardMediumSoftScore { hard_score: 0, medium_score: 1, soft_score: 0 }),
    {
        HardMediumSoftScore { hard_score: 0, medium_score: 1, soft_score: 0 }
    }

    /// `0hard/0medium/1soft`.
    pub fn one_soft() -> (res: Self)
        ensures
            res == (HardMediumSoftScore { hard_score: 0, medium_score: 0, soft_score: 1 }),
    {
        HardMediumSoftScore { hard_score: 0, medium_score: 0, soft_score: 1 }
    }

    /// The hard level.
    pub fn hard_score(&self) -> (res: i64)
        ensures
            res == self.hard_score,
    {
        self.hard_score
    }

    /// The medium level.
    pub fn medium_score(&self) -> (res: i64)
        ensures
            res == self.medium_score,
    {
        self.medium_score
    }

    /// The soft level.
    pub fn soft_score(&self) -> (res: i64)
        ensures
            res == self.soft_score,
    {
        self.soft_score
    }

    /// Whether the score is feasible (hard level not negative).
    pub fn is_feasible(&self) -> (res: bool)
        ensures
            res == (self.hard_score >= 0),
    {
        self.hard_score >= 0
    }

    /// Strictly worse than `other`.
    pub fn lt(&self, other: &Self) -> (res: bool)
        ensures
            res == self.spec_lt(*other),
    {
        self.hard_score < other.hard_score || (self.hard_score == other.hard_score && (
        self.medium_score < other.medium_score || (self.medium_score == other.medium_score
            && self.soft_score < other.soft_score)))
    }

    /// Worse than or equal to `other`.
    pub fn le(&self, other: &Self) -> (res: bool)
        ensures
            res == (self.spec_lt(*other) || *self == *other),
    {
        self.lt(other) || (self.hard_score == other.hard_score && self.medium_score
            == other.medium_score && self.soft_score == other.soft_score)
    }

    /// Strictly better than `other`.
    pub fn gt(&self, other: &Self) -> (res: bool)
        ensures
            res == other.spec_lt(*self),
    {
        other.lt(self)
    }

    /// Better than or equal to `other`.
    pub fn ge(&self, other: &Self) -> (res: bool)
        ensures
            res == (other.spec_lt(*self) || *self == *other),
    {
        other.le(self)
    }

    /// Level-wise sum.
    pub fn add(&self, other: &Self) -> (res: Self)
        requires
            fits_i64(self.hard_score + other.hard_score),
            fits_i64(self.medium_score + other.medium_score),
            fits_i64(self.soft_score + other.soft_score),
        ensures
            res.hard_score == self.hard_score + other.hard_score,
            res.medium_score == self.medium_score + other.medium_score,
            res.soft_score == self.soft_score + other.soft_score,
    {
        HardMediumSoftScore {
            hard_score: self.hard_score + other.hard_score,
            medium_score: self.medium_score + other.medium_score,
            soft_score: self.soft_score + other.soft_score,
        }
    }

    /// Level-wise difference.
    pub fn sub(&self, other: &Self) -> (res: Self)
        requires
            fits_i64(self.hard_score - other.hard_score),
            fits_i64(self.medium_score - other.medium_score),
            fits_i64(self.soft_score - other.soft_score),
        ensures
            res.hard_score == self.hard_score - other.hard_score,
            res.medium_score == self.medium_score - other.medium_score,
            res.soft_score == self.soft_score - other.soft_score,
    {
        HardMediumSoftScore {
            hard_score: self.hard_score - other.hard_score,
            medium_score: self.medium_score - other.medium_score,
            soft_score: self.soft_score - other.soft_score,
        }
    }

    /// Level-wise negation.
    pub fn neg(&self) -> (res: Self)
        requires
            self.hard_score != i64::MIN,
            self.medium_score != i64::MIN,
            self.soft_score != i64::MIN,
        ensures
            res.hard_score == -self.hard_score,
            res.medium_score == -self.medium_score,
            res.soft_score == -self.soft_score,
    {
        HardMediumSoftScore {
            hard_score: -self.hard_score,
            medium_score: -self.medium_score,
            soft_score: -self.soft_score,
        }
    }

    /// Hash of the score: `(hard * 31 + medium) * 31 + soft` over unsigned
    /// 64-bit words.
    pub fn hash_code(&self) -> (res: u64)
        ensures
            res == vstd::wrapping::u64_specs::wrapping_add(
                vstd::wrapping::u64_specs::wrapping_mul(
                    vstd::wrapping::u64_specs::wrapping_add(
                        vstd::wrapping::u64_specs::wrapping_mul(self.hard_score as u64, 31),
                        self.medium_score as u64,
                    ),
                    31,
                ),
                self.soft_score as u64,
            ),
    {
        let h = self.hard_score as u64;
        let m = self.medium_score as u64;
        let s = self.soft_score as u64;
        h.wrapping_mul(31).wrapping_add(m).wrapping_mul(31).wrapping_add(s)
    }

    /// The text of the score, e.g. `-1hard/5medium/10soft`.
    pub open spec fn display(self) -> Seq<char> {
        int_to_decimal(self.hard_score as int) + "hard/"@ + int_to_decimal(self.medium_score as int) + "medium/"@
            + int_to_decimal(self.soft_score as int) + "soft"@
    }

    /// The text of the score, e.g. `-1hard/5medium/10soft`.
    pub fn to_display_string(&self) -> (res: String)
        ensures
            res@ == self.display(),
    {
        let mut s = String::new();
        push_i64_decimal(&mut s, self.hard_score);
        s.append("hard/");
        push_i64_decimal(&mut s, self.medium_score);
        s.append("medium/");
        push_i64_decimal(&mut s, self.soft_score);
        s.append("soft");
        assert(s@ =~= int_to_decimal(self.hard_score as int) + "hard/"@ + int_to_decimal(
            self.medium_score as int,
        ) + "medium/"@ + int_to_decimal(self.soft_score as int) + "soft"@);
        s
    }

    /// The constructor-like text of the score, e.g.
    /// `HardMediumSoftScore(-1, 5, 10)`.
    pub fn repr(&self) -> (res: String)
        ensures
            res@ == "HardMediumSoftScore("@ + int_to_decimal(self.hard_score as int) + ", "@
                + int_to_decimal(self.medium_score as int) + ", "@ + int_to_decimal(
                self.soft_score as int,
            ) + ")"@,
    {
        let mut s = String::from_str("HardMediumSoftScore(");
        push_i64_decimal(&mut s, self.hard_score);
        s.append(", ");
        push_i64_decimal(&mut s, self.medium_score);
        s.append(", ");
        push_i64_decimal(&mut s, self.soft_score);
        s.append(")");
        s
    }
}

// ---------------------------------------------------------------------------
// Laws
// ---------------------------------------------------------------------------

/// Comparison of hard/soft scores is a strict total order: exactly one of
/// `a < b`, `a == b`, `b < a` holds, and `<` is transitive.
pub proof fn law_hard_soft_order_total(a: HardSoftScore, b: HardSoftScore, c: HardSoftScore)
    ensures
        (a.spec_lt(b) as int) + ((a == b) as int) + (b.spec_lt(a) as int) == 1,
        a.spec_lt(b) && b.spec_lt(c) ==> a.spec_lt(c),
{
}

/// Comparison of hard/medium/soft scores is a strict total order.
pub proof fn law_hard_medium_soft_order_total(
    a: HardMediumSoftScore,
    b: HardMediumSoftScore,
    c: HardMediumSoftScore,
)
    ensures
        (a.spec_lt(b) as int) + ((a == b) as int) + (b.spec_lt(a) as int) == 1,
        a.spec_lt(b) && b.spec_lt(c) ==> a.spec_lt(c),
{
}

/// A higher hard level wins whatever the lower levels are, and with equal
/// hard levels a higher medium level wins whatever the soft levels are.
pub proof fn law_levels_take_precedence(a: HardMediumSoftScore, b: HardMediumSoftScore)
    ensures
        a.hard_score < b.hard_score ==> a.spec_lt(b),
        a.hard_score == b.hard_score && a.medium_score < b.medium_score ==> a.spec_lt(b),
{
}

/// Level-wise sums of hard/soft scores.
pub open spec fn hard_soft_sum(a: HardSoftScore, b: HardSoftScore) -> (int, int) {
    (a.hard_score + b.hard_score, a.soft_score + b.soft_score)
}

/// Addition of hard/soft scores is commutative and associative, zero is
/// neutral, `a - b` is `a + (-b)`, and adding a score to both sides keeps
/// their order.
pub proof fn law_hard_soft_arithmetic(a: HardSoftScore, b: HardSoftScore, c: HardSoftScore)
    ensures
        hard_soft_sum(a, b) == hard_soft_sum(b, a),
        a.hard_score + (b.hard_score + c.hard_score) == (a.hard_score + b.hard_score) + c.hard_score,
        a.soft_score + (b.soft_score + c.soft_score) == (a.soft_score + b.soft_score) + c.soft_score,
        hard_soft_sum(a, HardSoftScore { hard_score: 0, soft_score: 0 }) == (
            a.hard_score as int,
            a.soft_score as int,
        ),
        a.hard_score - b.hard_score == a.hard_score + (-b.hard_score),
        a.soft_score - b.soft_score == a.soft_score + (-b.soft_score),
        a.spec_lt(b) ==> (a.hard_score + c.hard_score < b.hard_score + c.hard_score || (
        a.hard_score + c.hard_score == b.hard_score + c.hard_score && a.soft_score + c.soft_score
            < b.soft_score + c.soft_score)),
{
}

/// The sum of two feasible scores is feasible, and negating twice gives the
/// score back.
pub proof fn law_hard_soft_feasible_and_negation(a: HardSoftScore, b: HardSoftScore)
    requires
        a.hard_score != i64::MIN,
        a.soft_score != i64::MIN,
    ensures
        a.hard_score >= 0 && b.hard_score >= 0 ==> a.hard_score + b.hard_score >= 0,
        -(-a.hard_score) == a.hard_score,
        -(-a.soft_score) == a.soft_score,
        (HardSoftScore { hard_score: (-a.hard_score) as i64, soft_score: (-a.soft_score) as i64 }).spec_lt(
            HardSoftScore { hard_score: 0, soft_score: 0 },
        ) <==> (HardSoftScore { hard_score: 0, soft_score: 0 }).spec_lt(a),
{
}

/// Adding a score to both sides keeps the order of hard/medium/soft scores.
pub proof fn law_hard_medium_soft_add_monotone(
    a: HardMediumSoftScore,
    b: HardMediumSoftScore,
    c: HardMediumSoftScore,
)
    requires
        fits_i64(a.hard_score + c.hard_score),
        fits_i64(a.medium_score + c.medium_score),
        fits_i64(a.soft_score + c.soft_score),
        fits_i64(b.hard_score + c.hard_score),
        fits_i64(b.medium_score + c.medium_score),
        fits_i64(b.soft_score + c.soft_score),
        a.spec_lt(b),
    ensures
        (HardMediumSoftScore {
            hard_score: (a.hard_score + c.hard_score) as i64,
            medium_score: (a.medium_score + c.medium_score) as i64,
            soft_score: (a.soft_score + c.soft_score) as i64,
        }).spec_lt(
            HardMediumSoftScore {
                hard_score: (b.hard_score + c.hard_score) as i64,
                medium_score: (b.medium_score + c.medium_score) as i64,
                soft_score: (b.soft_score + c.soft_score) as i64,
            },
        ),
{
}

/// Simple scores order by their value, adding a score to both sides keeps the
/// order, and a score plus its negation is zero.
pub proof fn law_simple_score(a: SimpleScore, b: SimpleScore, c: SimpleScore)
    requires
        a.score != i64::MIN,
    ensures
        (a.spec_lt(b) as int) + ((a == b) as int) + (b.spec_lt(a) as int) == 1,
        a.spec_lt(b) ==> a.score + c.score < b.score + c.score,
        a.score + (-a.score) == 0,
{
}

} // verus!
