//! Early-exit penalty: a penalty rate in basis points, scaled by the share
//! of the lock-up period that remains.
use vstd::prelude::*;

verus! {

/// Basis points in one whole (100%).
pub const BPS_DENOMINATOR: i128 = 10_000;

/// Integer division rounding toward zero, for a positive divisor.
pub open spec fn div_toward_zero(a: int, b: int) -> int {
    if a >= 0 {
        a / b
    } else {
        -((-a) / b)
    }
}

/// The base penalty `amount * penalty_bps / 10_000`, rounded toward zero.
pub open spec fn base_penalty(amount: int, penalty_bps: int) -> int {
    div_toward_zero(amount * penalty_bps, BPS_DENOMINATOR as int)
}

/// The penalty on withdrawing `amount` early with `remaining` of `total`
/// seconds of lock-up left, at `penalty_bps` basis points: the base penalty
/// scaled by `remaining / total`, each division rounding toward zero.
pub open spec fn penalty_of(amount: int, remaining: int, total: int, penalty_bps: int) -> int {
    div_toward_zero(base_penalty(amount, penalty_bps) * remaining, total)
}

/// Early-exit penalty for withdrawing `amount` with `remaining` of `total`
/// seconds of lock-up left, at `penalty_bps` basis points.
pub fn calculate_penalty(amount: i128, remaining: u64, total: u64, penalty_bps: u32) -> (penalty: i128)
    requires
        total > 0,
        i128::MIN <= amount * penalty_bps <= i128::MAX,
        i128::MIN <= base_penalty(amount as int, penalty_bps as int) * remaining <= i128::MAX,
    ensures
        penalty == penalty_of(amount as int, remaining as int, total as int, penalty_bps as int),
{
    let base = amount * (penalty_bps as i128) / BPS_DENOMINATOR;
    base * (remaining as i128) / (total as i128)
}

/// The penalty never exceeds the amount when the rate is at most 100% and at
/// most the whole period remains; it is zero when nothing remains or the
/// rate is zero, and the payout `amount - penalty` is never negative.
pub proof fn law_penalty_bounded(amount: int, remaining: int, total: int, penalty_bps: int)
    requires
        amount >= 0,
        0 <= remaining <= total,
        total > 0,
        0 <= penalty_bps <= BPS_DENOMINATOR,
    ensures
        0 <= penalty_of(amount, remaining, total, penalty_bps) <= amount,
        remaining == 0 ==> penalty_of(amount, remaining, total, penalty_bps) == 0,
        penalty_bps == 0 ==> penalty_of(amount, remaining, total, penalty_bps) == 0,
        amount - penalty_of(amount, remaining, total, penalty_bps) >= 0,
{
    let base = base_penalty(amount, penalty_bps);
    assert(0 <= amount * penalty_bps <= amount * 10_000) by (nonlinear_arith)
        requires
            amount >= 0,
            0 <= penalty_bps <= 10_000,
    ;
    assert(0 <= base <= amount) by (nonlinear_arith)
        requires
            0 <= amount * penalty_bps <= amount * 10_000,
            base == (amount * penalty_bps) / 10_000,
            amount >= 0,
    ;
    assert(0 <= base * remaining <= base * total) by (nonlinear_arith)
        requires
            0 <= base,
            0 <= remaining <= total,
    ;
    assert(0 <= base * remaining / total <= base) by (nonlinear_arith)
        requires
            0 <= base * remaining <= base * total,
            total > 0,
            base >= 0,
    ;
    if remaining == 0 {
        assert(base * remaining == 0) by (nonlinear_arith)
            requires
                remaining == 0,
        ;
    }
    if penalty_bps == 0 {
        assert(amount * penalty_bps == 0) by (nonlinear_arith)
            requires
                penalty_bps == 0,
        ;
    }
}

} // verus!
