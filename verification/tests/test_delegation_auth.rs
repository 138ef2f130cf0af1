use credence::accounts::AccountId;
use credence::delegation::{
    AttestationStatus, DelegationError, DelegationRegistry, DelegationType, PauseState,
    MAX_DELEGATION_DURATION, MAX_NONCE_INVALIDATION_SPAN,
};

fn account(key: &str) -> AccountId {
    AccountId::new(key.to_string())
}

fn setup() -> (DelegationRegistry, AccountId, AccountId) {
    let mut registry = DelegationRegistry::new();
    let admin = account("GADMIN");
    registry.initialize(admin.duplicate()).unwrap();
    (registry, admin, account("GOWNER"))
}

const NOW: u64 = 1_000;

fn future_ts(secs: u64) -> u64 {
    NOW + secs
}

#[test]
fn delegate_succeeds_when_owner_authorizes() {
    let (mut registry, _admin, owner) = setup();
    let delegate = account("GDELEGATE");
    let expires_at = future_ts(3600);
    let delegation = registry
        .delegate(NOW, owner.duplicate(), delegate.duplicate(), DelegationType::Attestation, expires_at, 0)
        .unwrap();
    assert_eq!(delegation.owner, owner);
    assert_eq!(delegation.delegate, delegate);
    assert!(!delegation.revoked);
    assert_eq!(registry.get_nonce(&owner), 1);
}

#[test]
fn revoke_delegation_succeeds_when_owner_authorizes() {
    let (mut registry, _admin, owner) = setup();
    let delegate = account("GDELEGATE");
    let expires_at = future_ts(3600);
    registry
        .delegate(NOW, owner.duplicate(), delegate.duplicate(), DelegationType::Attestation, expires_at, 0)
        .unwrap();
    registry.revoke_delegation(&owner, &delegate, DelegationType::Attestation, 1).unwrap();
    let d = registry.get_delegation(&owner, &delegate, DelegationType::Attestation).unwrap();
    assert!(d.revoked);
    assert_eq!(registry.get_nonce(&owner), 2);
}

#[test]
fn revoke_delegation_rejected_when_delegation_does_not_exist_for_caller() {
    let (mut registry, _admin, owner) = setup();
    let delegate = account("GDELEGATE");
    registry
        .delegate(NOW, owner.duplicate(), delegate.duplicate(), DelegationType::Attestation, future_ts(3600), 0)
        .unwrap();
    let stranger = account("GSTRANGER");
    assert_eq!(
        registry.revoke_delegation(&stranger, &delegate, DelegationType::Attestation, 0),
        Err(DelegationError::DelegationNotFound)
    );
    // The refusal consumed nothing.
    assert_eq!(registry.get_nonce(&stranger), 0);
}

#[test]
fn test_auth_revoke_attestation_succeeds_when_attester_authorizes() {
    let (mut registry, _admin, attester) = setup();
    let subject = account("GSUBJECT");
    let expires_at = future_ts(3600);
    registry
        .delegate(NOW, attester.duplicate(), subject.duplicate(), DelegationType::Attestation, expires_at, 0)
        .unwrap();
    registry.revoke_attestation(&attester, &subject, 1).unwrap();
    let d = registry.get_delegation(&attester, &subject, DelegationType::Attestation).unwrap();
    assert!(d.revoked);
}

#[test]
fn invalidate_nonce_range_succeeds_when_identity_authorizes() {
    let (mut registry, _admin, owner) = setup();
    let nonce_before = registry.get_nonce(&owner);
    assert_eq!(
        registry.invalidate_nonce_range(&owner, nonce_before + 5),
        Ok((nonce_before, nonce_before + 5))
    );
    assert_eq!(registry.get_nonce(&owner), nonce_before + 5);
}

#[test]
fn invalidate_nonce_range_must_move_forward_within_span() {
    let (mut registry, _admin, owner) = setup();
    assert_eq!(registry.invalidate_nonce_range(&owner, 0), Err(DelegationError::InvalidNonce));
    assert_eq!(
        registry.invalidate_nonce_range(&owner, MAX_NONCE_INVALIDATION_SPAN + 1),
        Err(DelegationError::NonceRangeTooLarge)
    );
    assert_eq!(
        registry.invalidate_nonce_range(&owner, MAX_NONCE_INVALIDATION_SPAN),
        Ok((0, MAX_NONCE_INVALIDATION_SPAN))
    );
    assert_eq!(
        registry.invalidate_nonce_range(&owner, MAX_NONCE_INVALIDATION_SPAN),
        Err(DelegationError::InvalidNonce)
    );
    // Payloads signed with skipped nonces are now refused.
    assert_eq!(
        registry.delegate(NOW, owner.duplicate(), account("GD"), DelegationType::Management, future_ts(5), 3),
        Err(DelegationError::InvalidNonce)
    );
}

#[test]
fn nonces_are_sequential_and_not_replayable() {
    let (mut registry, _admin, owner) = setup();
    let delegate = account("GDELEGATE");
    assert_eq!(registry.get_nonce(&owner), 0);
    assert_eq!(
        registry.delegate(NOW, owner.duplicate(), delegate.duplicate(), DelegationType::Management, future_ts(50), 1),
        Err(DelegationError::InvalidNonce)
    );
    assert_eq!(registry.get_nonce(&owner), 0);
    registry
        .delegate(NOW, owner.duplicate(), delegate.duplicate(), DelegationType::Management, future_ts(50), 0)
        .unwrap();
    // Replaying nonce 0 is refused and changes nothing.
    assert_eq!(
        registry.revoke_delegation(&owner, &delegate, DelegationType::Management, 0),
        Err(DelegationError::InvalidNonce)
    );
    assert!(registry.is_valid_delegate(NOW, &owner, &delegate, DelegationType::Management));
    // A bad expiry does not burn the nonce.
    assert_eq!(
        registry.delegate(NOW, owner.duplicate(), delegate.duplicate(), DelegationType::Attestation, NOW, 1),
        Err(DelegationError::ExpiryInPast)
    );
    assert_eq!(registry.get_nonce(&owner), 1);
    // Other identities keep their own nonce streams.
    assert_eq!(registry.get_nonce(&delegate), 0);
}

#[test]
fn nonce_cannot_advance_past_max() {
    let (mut registry, _admin, owner) = setup();
    let delegate = account("GDELEGATE");
    let restored = DelegationRegistry::restore(
        None,
        PauseState { paused: false, pause_signer_count: 0, pause_threshold: 0, pause_proposal_counter: 0 },
        vec![],
        vec![(owner.duplicate(), u64::MAX)],
    );
    let mut full = restored.expect("one nonce per identity");
    assert_eq!(
        full.delegate(NOW, owner.duplicate(), delegate.duplicate(), DelegationType::Management, future_ts(5), u64::MAX),
        Err(DelegationError::NonceOverflow)
    );
    assert_eq!(registry.get_nonce(&owner), 0);
    assert!(registry
        .delegate(NOW, owner, delegate, DelegationType::Management, future_ts(5), 0)
        .is_ok());
}

#[test]
fn paused_registry_refuses_changes() {
    let owner = account("GOWNER");
    let delegate = account("GDELEGATE");
    let paused = PauseState { paused: true, pause_signer_count: 2, pause_threshold: 1, pause_proposal_counter: 7 };
    let mut registry = DelegationRegistry::restore(Some(account("GADMIN")), paused, vec![], vec![]).unwrap();
    assert!(registry.is_paused());
    assert_eq!(registry.pause_state(), paused);
    assert_eq!(
        registry.delegate(NOW, owner.duplicate(), delegate.duplicate(), DelegationType::Attestation, future_ts(5), 0),
        Err(DelegationError::Paused)
    );
    assert_eq!(
        registry.revoke_attestation(&owner, &delegate, 0),
        Err(DelegationError::Paused)
    );
    assert_eq!(registry.invalidate_nonce_range(&owner, 3), Err(DelegationError::Paused));
    assert_eq!(registry.get_nonce(&owner), 0);
    assert_eq!(registry.get_attestation_status(&owner, &delegate), AttestationStatus::NotFound);
}

#[test]
fn initialize_sets_the_pause_state() {
    let (registry, _admin, _owner) = setup();
    assert!(!registry.is_paused());
    assert_eq!(
        registry.pause_state(),
        PauseState { paused: false, pause_signer_count: 0, pause_threshold: 0, pause_proposal_counter: 0 }
    );
}

#[test]
fn restore_refuses_duplicate_keys_and_nonces() {
    let owner = account("GOWNER");
    let pause = PauseState { paused: false, pause_signer_count: 0, pause_threshold: 0, pause_proposal_counter: 0 };
    assert!(DelegationRegistry::restore(
        None,
        pause,
        vec![],
        vec![(owner.duplicate(), 1), (owner.duplicate(), 2)]
    )
    .is_none());
    let (mut registry, _admin, _) = setup();
    let d = registry
        .delegate(NOW, owner.duplicate(), account("GD"), DelegationType::Attestation, future_ts(5), 0)
        .unwrap();
    assert!(DelegationRegistry::restore(None, pause, vec![d.duplicate(), d], vec![]).is_none());
}

#[test]
fn delegate_rejects_past_and_too_distant_expiry() {
    let (mut registry, _admin, owner) = setup();
    let delegate = account("GDELEGATE");
    let now = NOW + 7200;
    assert_eq!(
        registry.delegate(now, owner.duplicate(), delegate.duplicate(), DelegationType::Attestation, now - 1, 0),
        Err(DelegationError::ExpiryInPast)
    );
    assert_eq!(
        registry.delegate(now, owner.duplicate(), delegate.duplicate(), DelegationType::Attestation, now, 0),
        Err(DelegationError::ExpiryInPast)
    );
    assert_eq!(
        registry.delegate(
            now,
            owner.duplicate(),
            delegate.duplicate(),
            DelegationType::Attestation,
            now + MAX_DELEGATION_DURATION + 1,
            0
        ),
        Err(DelegationError::DelegationExpiryTooLong)
    );
    assert!(registry
        .delegate(now, owner.duplicate(), delegate.duplicate(), DelegationType::Attestation, now + MAX_DELEGATION_DURATION, 0)
        .is_ok());
    // Near the end of time the bound saturates at u64::MAX.
    assert!(registry
        .delegate(u64::MAX - 5, owner, delegate, DelegationType::Management, u64::MAX, 1)
        .is_ok());
}

#[test]
fn revoke_requires_existing_live_delegation() {
    let (mut registry, _admin, owner) = setup();
    let delegate = account("GDELEGATE");
    registry
        .delegate(NOW, owner.duplicate(), delegate.duplicate(), DelegationType::Attestation, future_ts(3600), 0)
        .unwrap();
    let stranger = account("GSTRANGER");
    assert_eq!(
        registry.revoke_delegation(&stranger, &delegate, DelegationType::Attestation, 0),
        Err(DelegationError::DelegationNotFound)
    );
    assert_eq!(
        registry.revoke_delegation(&owner, &delegate, DelegationType::Management, 1),
        Err(DelegationError::DelegationNotFound)
    );
    registry.revoke_delegation(&owner, &delegate, DelegationType::Attestation, 1).unwrap();
    assert_eq!(
        registry.revoke_delegation(&owner, &delegate, DelegationType::Attestation, 2),
        Err(DelegationError::AlreadyRevoked)
    );
    assert_eq!(registry.get_nonce(&owner), 2);
}

#[test]
fn validity_follows_expiry_and_revocation() {
    let (mut registry, _admin, owner) = setup();
    let delegate = account("GDELEGATE");
    let expires_at = future_ts(100);
    registry
        .delegate(NOW, owner.duplicate(), delegate.duplicate(), DelegationType::Management, expires_at, 0)
        .unwrap();
    assert!(registry.is_valid_delegate(NOW, &owner, &delegate, DelegationType::Management));
    assert!(registry.is_valid_delegate(expires_at - 1, &owner, &delegate, DelegationType::Management));
    assert!(!registry.is_valid_delegate(expires_at, &owner, &delegate, DelegationType::Management));
    assert!(!registry.is_valid_delegate(NOW, &owner, &delegate, DelegationType::Attestation));
    registry.revoke_delegation(&owner, &delegate, DelegationType::Management, 1).unwrap();
    assert!(!registry.is_valid_delegate(NOW, &owner, &delegate, DelegationType::Management));
    // Delegating again reactivates the key.
    registry
        .delegate(NOW, owner.duplicate(), delegate.duplicate(), DelegationType::Management, expires_at, 2)
        .unwrap();
    assert!(registry.is_valid_delegate(NOW, &owner, &delegate, DelegationType::Management));
}

#[test]
fn attestation_status_tracks_lifecycle() {
    let (mut registry, _admin, attester) = setup();
    let subject = account("GSUBJECT");
    assert_eq!(registry.get_attestation_status(&attester, &subject), AttestationStatus::NotFound);
    registry
        .delegate(NOW, attester.duplicate(), subject.duplicate(), DelegationType::Attestation, future_ts(10), 0)
        .unwrap();
    assert_eq!(registry.get_attestation_status(&attester, &subject), AttestationStatus::Active);
    registry.revoke_attestation(&attester, &subject, 1).unwrap();
    assert_eq!(registry.get_attestation_status(&attester, &subject), AttestationStatus::Revoked);
    assert_eq!(
        registry.get_delegation(&subject, &attester, DelegationType::Attestation),
        Err(DelegationError::DelegationNotFound)
    );
}

#[test]
fn initialize_only_once() {
    let (mut registry, _admin, _owner) = setup();
    assert_eq!(registry.initialize(account("GOTHER")), Err(DelegationError::AlreadyInitialized));
}

#[test]
fn delegate_rejected_when_expiry_is_in_the_past() {
    let (mut registry, _admin, owner) = setup();
    let delegate = account("GDELEGATE");
    let now = NOW + 7200;
    let past_expiry = now - 1;
    assert_eq!(
        registry.delegate(now, owner.duplicate(), delegate, DelegationType::Attestation, past_expiry, 0),
        Err(DelegationError::ExpiryInPast)
    );
    assert_eq!(registry.get_nonce(&owner), 0);
}
