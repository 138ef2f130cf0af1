//! Signature scheme tags carried by delegated payloads. The wire values are
//! stable: 0 = Ed25519, 1 = Secp256r1, 2 = ML-DSA-44; every other value is
//! unknown, and Ed25519 is the default for legacy payloads.
use vstd::prelude::*;

verus! {

/// A signature scheme understood by the verifier registry.
#[derive(Clone, Copy, Debug, PartialEq, Eq, PartialOrd, Ord, Hash, Structural)]
pub enum SchemeTag {
    Ed25519,
    Secp256r1,
    MLDSA44,
}

/// The wire value of a scheme.
pub open spec fn tag_value(t: SchemeTag) -> u8 {
    match t {
        SchemeTag::Ed25519 => 0,
        SchemeTag::Secp256r1 => 1,
        SchemeTag::MLDSA44 => 2,
    }
}

impl SchemeTag {
    /// The wire value of the scheme.
    pub fn to_u8(&self) -> (v: u8)
        ensures
            v == tag_value(*self),
    {
        match self {
            SchemeTag::Ed25519 => 0,
            SchemeTag::Secp256r1 => 1,
            SchemeTag::MLDSA44 => 2,
        }
    }

    /// The scheme with wire value `v`, if there is one.
    pub fn try_from_u8(v: u8) -> (t: Option<SchemeTag>)
        ensures
            t is Some <==> v <= 2,
            t matches Some(s) ==> tag_value(s) == v,
    {
        match v {
            0 => Some(SchemeTag::Ed25519),
            1 => Some(SchemeTag::Secp256r1),
            2 => Some(SchemeTag::MLDSA44),
            _ => None,
        }
    }

    /// Whether `v` is the wire value of a known scheme.
    pub fn is_known(v: u8) -> (known: bool)
        ensures
            known <==> v <= 2,
    {
        v <= 2
    }

    /// The scheme assumed for payloads that carry none: Ed25519.
    pub fn default_scheme() -> (t: SchemeTag)
        ensures
            t == SchemeTag::Ed25519,
            tag_value(t) == 0,
    {
        SchemeTag::Ed25519
    }
}

/// Wire stability: encoding then decoding gives the scheme back, every known
/// value decodes to the scheme that encodes to it, and the values order the
/// schemes Ed25519 < Secp256r1 < MLDSA44.
pub proof fn law_scheme_round_trip(t: SchemeTag, v: u8)
    ensures
        tag_value(t) <= 2,
        v <= 2 ==> exists|s: SchemeTag| tag_value(s) == v,
        forall|s: SchemeTag| tag_value(s) == tag_value(t) ==> s == t,
        tag_value(SchemeTag::Ed25519) < tag_value(SchemeTag::Secp256r1) < tag_value(
            SchemeTag::MLDSA44,
        ),
{
    if v == 0 {
        assert(tag_value(SchemeTag::Ed25519) == v);
    } else if v == 1 {
        assert(tag_value(SchemeTag::Secp256r1) == v);
    } else if v == 2 {
        assert(tag_value(SchemeTag::MLDSA44) == v);
    }
}

} // verus!
