use r2cn_core::policy::{payout, CommonScore, DeadlineScore, PayoutPolicy, ScoreStrategy};

#[test]
fn standard_policy_takes_the_greatest_tier() {
    let s = CommonScore;
    assert_eq!(s.consumed_score(45), 40);
    assert_eq!(s.consumed_score(99), 80);
    assert_eq!(s.consumed_score(150), 100);
    assert_eq!(s.consumed_score(100), 100);
    assert_eq!(s.consumed_score(80), 80);
    assert_eq!(s.consumed_score(60), 60);
    assert_eq!(s.consumed_score(40), 40);
    assert_eq!(s.consumed_score(39), 0);
    assert_eq!(s.consumed_score(25), 0);
    assert_eq!(s.consumed_score(0), 0);
}

#[test]
fn deadline_policy_takes_everything_up_to_a_hundred() {
    let d = DeadlineScore;
    assert_eq!(d.consumed_score(25), 25);
    assert_eq!(d.consumed_score(0), 0);
    assert_eq!(d.consumed_score(100), 100);
    assert_eq!(d.consumed_score(150), 100);
    assert_eq!(d.consumed_score(-5), -5);
}

#[test]
fn policy_enum_dispatches() {
    assert_eq!(PayoutPolicy::Standard.consumed_score(45), 40);
    assert_eq!(PayoutPolicy::Deadline.consumed_score(45), 45);
}

#[test]
fn payout_is_fifty_per_point() {
    assert_eq!(payout(0), 0);
    assert_eq!(payout(25), 1250);
    assert_eq!(payout(100), 5000);
}
