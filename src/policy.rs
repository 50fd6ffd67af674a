//! Payout policies: how many points a settlement consumes, and what they pay.
//!
//! The standard policy has the tiers 40, 60, 80 and 100 and no lower one;
//! consumed points pay a flat rate of 50 each.
use vstd::prelude::*;

verus! {

/// Points consumed by the standard policy: the balance is tiered down to the
/// nearest of 100, 80, 60 or 40; a balance under 40 consumes nothing.
pub open spec fn standard_consumption(points: int) -> int {
    if points >= 100 {
        100
    } else if points >= 80 {
        80
    } else if points >= 60 {
        60
    } else if points >= 40 {
        40
    } else {
        0
    }
}

/// The amounts the standard policy may consume besides nothing.
pub open spec fn is_tier(t: int) -> bool {
    t == 40 || t == 60 || t == 80 || t == 100
}

/// Points consumed by the deadline policy: everything owed, up to 100.
pub open spec fn deadline_consumption(points: int) -> int {
    if points >= 100 {
        100
    } else {
        points
    }
}

/// Currency paid for each consumed point.
pub const POINT_RATE: i32 = 50;

/// Payout for a number of consumed points.
pub open spec fn payout_of(consumed: int) -> int {
    consumed * POINT_RATE
}

/// A rule that turns a point total into the number of points consumed.
pub trait ScoreStrategy {
    spec fn consumption(&self, score: int) -> int;

    fn consumed_score(&self, score: i32) -> (r: i32)
        ensures
            r as int == self.consumption(score as int),
    ;
}

/// Standard rule: tiers of 40, 60, 80 and 100 points.
pub struct CommonScore;

impl ScoreStrategy for CommonScore {
    open spec fn consumption(&self, score: int) -> int {
        standard_consumption(score)
    }

    fn consumed_score(&self, score: i32) -> (r: i32) {
        if score >= 100 {
            100
        } else if score >= 80 {
            80
        } else if score >= 60 {
            60
        } else if score >= 40 {
            40
        } else {
            0
        }
    }
}

/// Rule once the contract has ended: at most 100 points, and all of a smaller
/// balance.
pub struct DeadlineScore;

impl ScoreStrategy for DeadlineScore {
    open spec fn consumption(&self, score: int) -> int {
        deadline_consumption(score)
    }

    fn consumed_score(&self, score: i32) -> (r: i32) {
        if score >= 100 {
            100
        } else {
            score
        }
    }
}

/// The policy chosen for one student at settlement time.
#[derive(Clone, Copy, Debug, PartialEq, Eq, Structural)]
pub enum PayoutPolicy {
    Standard,
    Deadline,
}

impl PayoutPolicy {
    pub open spec fn consumption_of(self, score: int) -> int {
        match self {
            PayoutPolicy::Standard => standard_consumption(score),
            PayoutPolicy::Deadline => deadline_consumption(score),
        }
    }
}

impl ScoreStrategy for PayoutPolicy {
    open spec fn consumption(&self, score: int) -> int {
        self.consumption_of(score)
    }

    fn consumed_score(&self, score: i32) -> (r: i32) {
        match self {
            PayoutPolicy::Standard => CommonScore.consumed_score(score),
            PayoutPolicy::Deadline => DeadlineScore.consumed_score(score),
        }
    }
}

/// Payout for `consumed` points at the fixed rate.
pub fn payout(consumed: i32) -> (r: i32)
    requires
        -42_949_672 <= consumed <= 42_949_672,
    ensures
        r as int == payout_of(consumed as int),
{
    consumed * POINT_RATE
}

/// The standard policy consumes a tier value, the greatest tier not above the
/// balance, or nothing when no tier fits.
pub proof fn lemma_standard_is_greatest_tier(p: int)
    requires
        p >= 0,
    ensures
        ({
            let c = standard_consumption(p);
            &&& c == 0 || is_tier(c)
            &&& c <= p
            &&& forall|t: int| #[trigger] is_tier(t) && t <= p ==> t <= c
        }),
{
}

/// The deadline policy consumes the balance, capped at 100.
pub proof fn lemma_deadline_is_capped_balance(p: int)
    ensures
        deadline_consumption(p) == if p <= 100 { p } else { 100 },
{
}

} // verus!
