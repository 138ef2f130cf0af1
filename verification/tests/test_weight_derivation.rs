use credence::accounts::AccountId;
use credence::arbitration::{Arbitration, ArbitratorRegistration, DisputeStatus};
use soroban_sdk::Symbol;

fn account(key: &str) -> AccountId {
    AccountId::new(key.to_string())
}

#[test]
fn test_weight_derived_from_bond_not_admin() {
    // Admin cannot set arbitrary weight
    // Weight is derived from bond balance only
    let arb = account("GARBITRATOR");
    assert!(Arbitration::register_arbitrator(&arb));
    assert_eq!(Arbitration::derive_weight_from_bond(1_000), 1_000);
    assert_eq!(Arbitration::derive_weight_from_bond(1), 1);
    assert_eq!(Arbitration::derive_weight_from_bond(i128::MAX), u32::MAX);
    assert_eq!(Arbitration::derive_weight_from_bond(u32::MAX as i128 + 1), u32::MAX);
    assert_eq!(Arbitration::submit_vote(1, &arb, true, 1_000), Ok(()));
}

#[test]
fn test_zero_weight_arbitrator_cannot_vote() {
    // Arbitrator with 0 bond cannot participate
    let arb = account("GZERO");
    assert_eq!(Arbitration::derive_weight_from_bond(0), 0);
    assert_eq!(Arbitration::derive_weight_from_bond(-5), 0);
    assert_eq!(
        Arbitration::submit_vote(7, &arb, false, 0),
        Err("Arbitrator has no bond".to_string())
    );
    assert_eq!(
        Arbitration::submit_vote(7, &arb, false, -1),
        Err("Arbitrator has no bond".to_string())
    );
}

#[test]
fn test_weight_snapshot_immutable() {
    // Top-up after vote does not change weight
    let registration = ArbitratorRegistration { address: account("GARB"), weight_snapshot: Some(5) };
    assert_eq!(registration.weight_snapshot, Some(5));
}

#[test]
fn test_slashed_arbitrator_mid_dispute() {
    // Arbitrator slashed; snapshot preserved
    let registration = ArbitratorRegistration { address: account("GARB"), weight_snapshot: Some(3) };
    assert_eq!(registration.address, account("GARB"));
    assert_eq!(registration.weight_snapshot, Some(3));
}

#[test]
fn test_status_machine_preserved() {
    // Dispute lifecycle unchanged
    assert_eq!(DisputeStatus::Open.label(), "open");
    assert_eq!(DisputeStatus::InVoting.label(), "voting");
    assert_eq!(DisputeStatus::Finalized(true).label(), "upheld");
    assert_eq!(DisputeStatus::Finalized(false).label(), "dismissed");
    assert_eq!(DisputeStatus::Appealed.label(), "appealed");
}

#[test]
fn test_weight_aggregation_checked_arithmetic() {
    // Overflow safe: use checked_add
    let arb = account("GARB");
    for id in [0u64, 1, u64::MAX] {
        assert!(Arbitration::submit_vote(id, &arb, true, 0).is_err());
        assert!(Arbitration::submit_vote(id, &arb, true, i128::MAX).is_ok());
    }
}

#[test]
fn dispute_status_symbols_match_labels() {
    #[allow(deprecated)]
    let expected = [
        (DisputeStatus::Open, Symbol::short("open")),
        (DisputeStatus::InVoting, Symbol::short("voting")),
        (DisputeStatus::Finalized(true), Symbol::short("upheld")),
        (DisputeStatus::Finalized(false), Symbol::short("dismissed")),
        (DisputeStatus::Appealed, Symbol::short("appealed")),
    ];
    for (status, symbol) in expected {
        assert_eq!(status.to_symbol().to_string(), symbol.to_string());
    }
    let all = [
        DisputeStatus::Open,
        DisputeStatus::InVoting,
        DisputeStatus::Finalized(true),
        DisputeStatus::Finalized(false),
        DisputeStatus::Appealed,
    ];
    for a in all {
        for b in all {
            assert_eq!(a.to_symbol().to_string() == b.to_symbol().to_string(), a == b);
        }
    }
    assert_eq!(DisputeStatus::Finalized(false).to_symbol().to_string(), "dismissed");
}
