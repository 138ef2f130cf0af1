use credence::penalty as early_exit_penalty;
use credence::penalty as math;
use credence::penalty::BPS_DENOMINATOR;

#[test]
fn test_calculate_penalty_unit() {
    // remaining = total -> full penalty rate applied
    let p = early_exit_penalty::calculate_penalty(1000, 100, 100, 500);
    assert_eq!(p, 50); // 5% of 1000
    let p = early_exit_penalty::calculate_penalty(1000, 0, 100, 500);
    assert_eq!(p, 0);
    let p = early_exit_penalty::calculate_penalty(1000, 50, 100, math::BPS_DENOMINATOR as u32);
    assert_eq!(p, 500);
}

#[test]
fn penalty_halfway_through_lock_up() {
    // 10% rate on 2000 with half of one day left: 200 * 1/2 = 100
    let p = early_exit_penalty::calculate_penalty(2000, 43_200, 86_400, 1000);
    assert_eq!(p, 100);
    assert_eq!(2000 - p, 1900);
}

#[test]
fn penalty_rounds_down_and_never_exceeds_amount() {
    assert_eq!(early_exit_penalty::calculate_penalty(999, 1, 3, 1), 0);
    assert_eq!(early_exit_penalty::calculate_penalty(10_000, 1, 3, 3000), 1000);
    assert_eq!(early_exit_penalty::calculate_penalty(7, 9, 9, BPS_DENOMINATOR as u32), 7);
    assert_eq!(early_exit_penalty::calculate_penalty(1000, 100, 100, 0), 0);
}

#[test]
fn penalty_rounds_toward_zero_for_negative_amounts() {
    // base = -500_000 / 10_000 = -50; -50 * 1 / 3 rounds toward zero to -16
    assert_eq!(early_exit_penalty::calculate_penalty(-1000, 1, 3, 500), -16);
}
