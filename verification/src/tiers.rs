//! Tiered bond system: identity tiers (Bronze, Silver, Gold, Platinum)
//! assigned from the bonded amount and three exclusive upper thresholds.
use vstd::prelude::*;
use crate::accounts::AccountId;

verus! {

/// Upper bound (exclusive) of the Bronze tier when no thresholds are configured.
pub const TIER_BRONZE_MAX: i128 = 1_000_000_000_000_000_000_000;
/// Upper bound (exclusive) of the Silver tier when no thresholds are configured.
pub const TIER_SILVER_MAX: i128 = 5_000_000_000_000_000_000_000;
/// Upper bound (exclusive) of the Gold tier when no thresholds are configured.
pub const TIER_GOLD_MAX: i128 = 20_000_000_000_000_000_000_000;

/// Identity tier of a bond.
#[derive(Clone, Copy, Debug, PartialEq, Eq, Structural)]
pub enum BondTier {
    Bronze,
    Silver,
    Gold,
    Platinum,
}

/// Admin-configured tier thresholds (each an exclusive upper bound).
#[derive(Clone, Copy, Debug, PartialEq, Eq, Structural)]
pub struct TierThresholds {
    pub bronze_max: i128,
    pub silver_max: i128,
    pub gold_max: i128,
}

/// The thresholds in force: the configured ones, or the defaults.
pub open spec fn effective_thresholds(configured: Option<TierThresholds>) -> TierThresholds {
    match configured {
        Some(t) => t,
        None => TierThresholds {
            bronze_max: TIER_BRONZE_MAX,
            silver_max: TIER_SILVER_MAX,
            gold_max: TIER_GOLD_MAX,
        },
    }
}

/// The tier of `amount` under thresholds `t`: the first band whose upper
/// bound exceeds the amount.
pub open spec fn tier_of(t: TierThresholds, amount: int) -> BondTier {
    if amount < t.bronze_max {
        BondTier::Bronze
    } else if amount < t.silver_max {
        BondTier::Silver
    } else if amount < t.gold_max {
        BondTier::Gold
    } else {
        BondTier::Platinum
    }
}

/// Rank of a tier: Bronze=0, Silver=1, Gold=2, Platinum=3.
pub open spec fn rank_of(t: BondTier) -> int {
    match t {
        BondTier::Bronze => 0,
        BondTier::Silver => 1,
        BondTier::Gold => 2,
        BondTier::Platinum => 3,
    }
}

/// Tier for a bonded `amount`, using the `configured` thresholds when the
/// admin has stored some, and the default constants otherwise.
pub fn get_tier_for_amount(configured: Option<TierThresholds>, amount: i128) -> (tier: BondTier)
    ensures
        tier == tier_of(effective_thresholds(configured), amount as int),
{
    let thresholds = match configured {
        Some(t) => t,
        None => TierThresholds {
            bronze_max: TIER_BRONZE_MAX,
            silver_max: TIER_SILVER_MAX,
            gold_max: TIER_GOLD_MAX,
        },
    };
    if amount < thresholds.bronze_max {
        BondTier::Bronze
    } else if amount < thresholds.silver_max {
        BondTier::Silver
    } else if amount < thresholds.gold_max {
        BondTier::Gold
    } else {
        BondTier::Platinum
    }
}

/// Comparator for tiers: Bronze=0, Silver=1, Gold=2, Platinum=3.
pub fn tier_rank(t: &BondTier) -> (rank: u8)
    ensures
        rank as int == rank_of(*t),
{
    match t {
        BondTier::Bronze => 0,
        BondTier::Silver => 1,
        BondTier::Gold => 2,
        BondTier::Platinum => 3,
    }
}

/// A tier transition of one identity, as announced to indexers: the identity,
/// the tier before and after, and the ledger time of the transition.
#[derive(Debug, PartialEq, Eq)]
pub struct TierChange {
    pub identity: AccountId,
    pub old_tier: BondTier,
    pub new_tier: BondTier,
    pub timestamp: u64,
}

/// Decides whether a bond crossed a tier threshold, and if so gives the
/// transition to announce (both the v1 `tier_changed` and the v2
/// `tier_changed_v2` event carry it). No transition when the tier is the same.
pub fn emit_tier_change_if_needed(
    identity: &AccountId,
    old_tier: BondTier,
    new_tier: BondTier,
    timestamp: u64,
) -> (change: Option<TierChange>)
    ensures
        change is Some <==> old_tier != new_tier,
        change matches Some(c) ==> c.identity@ == identity@ && c.old_tier == old_tier
            && c.new_tier == new_tier && c.timestamp == timestamp,
{
    if old_tier == new_tier {
        None
    } else {
        Some(TierChange { identity: identity.duplicate(), old_tier, new_tier, timestamp })
    }
}

/// Thresholds that are ordered: each band's upper bound is at least the
/// previous one's.
pub open spec fn thresholds_ordered(t: TierThresholds) -> bool {
    t.bronze_max <= t.silver_max <= t.gold_max
}

/// No sticky tier: the tier only ever moves in the direction of the bonded
/// amount. For any thresholds, a larger amount never has a lower rank.
pub proof fn law_tier_monotone(t: TierThresholds, a: int, b: int)
    requires
        a <= b,
    ensures
        rank_of(tier_of(t, a)) <= rank_of(tier_of(t, b)),
{
}

/// Each threshold is an exclusive upper bound: with ordered thresholds an
/// amount is Bronze below `bronze_max`, Silver from `bronze_max` up to (not
/// including) `silver_max`, Gold from `silver_max` up to `gold_max`, and
/// Platinum from `gold_max` on.
pub proof fn law_tier_bands(t: TierThresholds, a: int)
    requires
        thresholds_ordered(t),
    ensures
        (tier_of(t, a) == BondTier::Bronze) == (a < t.bronze_max),
        (tier_of(t, a) == BondTier::Silver) == (t.bronze_max <= a < t.silver_max),
        (tier_of(t, a) == BondTier::Gold) == (t.silver_max <= a < t.gold_max),
        (tier_of(t, a) == BondTier::Platinum) == (t.gold_max <= a),
{
}

/// The default thresholds are ordered, and they are the ones used when none
/// are configured.
pub proof fn law_default_thresholds()
    ensures
        thresholds_ordered(effective_thresholds(None)),
        effective_thresholds(None).bronze_max == TIER_BRONZE_MAX,
        effective_thresholds(None).silver_max == TIER_SILVER_MAX,
        effective_thresholds(None).gold_max == TIER_GOLD_MAX,
{
}

/// The rank identifies the tier: distinct tiers have distinct ranks, all
/// between 0 and 3.
pub proof fn law_rank_injective(x: BondTier, y: BondTier)
    ensures
        0 <= rank_of(x) <= 3,
        (rank_of(x) == rank_of(y)) == (x == y),
{
}

/// Configured thresholds are used exactly as the admin stored them, never
/// adjusted toward the defaults: with thresholds `t` configured, an amount is
/// Bronze below `t.bronze_max`, Silver from `t.bronze_max` up to (not
/// including) `t.silver_max`, Gold from `t.silver_max` up to `t.gold_max`,
/// and Platinum from `t.gold_max` on, whatever the defaults are.
pub proof fn law_configured_thresholds_used_as_given(t: TierThresholds, amount: i128)
    requires
        t.bronze_max <= t.silver_max <= t.gold_max,
    ensures
        effective_thresholds(Some(t)) == t,
        (tier_of(effective_thresholds(Some(t)), amount as int) == BondTier::Bronze) == (amount
            < t.bronze_max),
        (tier_of(effective_thresholds(Some(t)), amount as int) == BondTier::Silver) == (
        t.bronze_max <= amount && amount < t.silver_max),
        (tier_of(effective_thresholds(Some(t)), amount as int) == BondTier::Gold) == (t.silver_max
            <= amount && amount < t.gold_max),
        (tier_of(effective_thresholds(Some(t)), amount as int) == BondTier::Platinum) == (
        t.gold_max <= amount),
{
}

} // verus!
