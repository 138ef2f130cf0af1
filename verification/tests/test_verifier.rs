use credence::scheme::SchemeTag;

#[test]
fn test_verifier_scheme_tag_values() {
    // Test wire-stable encoding: scheme tag values must never change
    assert_eq!(SchemeTag::Ed25519.to_u8(), 0);
    assert_eq!(SchemeTag::Secp256r1.to_u8(), 1);
    assert_eq!(SchemeTag::MLDSA44.to_u8(), 2);

    // Test round-trip conversion
    assert_eq!(SchemeTag::try_from_u8(0), Some(SchemeTag::Ed25519));
    assert_eq!(SchemeTag::try_from_u8(1), Some(SchemeTag::Secp256r1));
    assert_eq!(SchemeTag::try_from_u8(2), Some(SchemeTag::MLDSA44));
}

#[test]
fn test_unknown_scheme_rejection() {
    // Unknown scheme tags should not be recognized
    assert_eq!(SchemeTag::try_from_u8(3), None);
    assert_eq!(SchemeTag::try_from_u8(255), None);

    // But SchemeTag::is_known should allow known schemes
    assert!(SchemeTag::is_known(0));
    assert!(SchemeTag::is_known(1));
    assert!(SchemeTag::is_known(2));
    assert!(!SchemeTag::is_known(3));
    assert!(!SchemeTag::is_known(100));
}

#[test]
fn test_default_scheme_ed25519() {
    // Default scheme must remain Ed25519 for backwards compatibility
    assert_eq!(SchemeTag::default_scheme(), SchemeTag::Ed25519);
    assert_eq!(SchemeTag::default_scheme().to_u8(), 0);
}

#[test]
fn test_scheme_ordering() {
    // Schemes should be ordered for potential sorting/iteration
    assert!(SchemeTag::Ed25519 < SchemeTag::Secp256r1);
    assert!(SchemeTag::Secp256r1 < SchemeTag::MLDSA44);
    assert!(SchemeTag::Ed25519 <= SchemeTag::Ed25519);
}

#[test]
fn test_scheme_copy_semantics() {
    let scheme1 = SchemeTag::Ed25519;
    let scheme2 = scheme1;
    assert_eq!(scheme1, scheme2);
    assert_eq!(scheme1, SchemeTag::Ed25519);
}

#[test]
fn scheme_round_trip_over_all_bytes() {
    for v in 0u8..=255 {
        match SchemeTag::try_from_u8(v) {
            Some(t) => {
                assert_eq!(t.to_u8(), v);
                assert!(SchemeTag::is_known(v));
            }
            None => {
                assert!(v > 2);
                assert!(!SchemeTag::is_known(v));
            }
        }
    }
}
