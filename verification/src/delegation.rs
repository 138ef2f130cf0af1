//! Delegation registry: owners delegate attestation or management rights to
//! a delegate until an expiry, and may revoke them. Delegations are keyed by
//! (owner, delegate, type); a delegation is valid while it is not revoked and
//! the ledger time is strictly before its expiry.
use vstd::prelude::*;
use crate::accounts::AccountId;

verus! {

/// Maximum lifetime, in seconds, allowed for a newly created delegation
/// (365 days): `now < expires_at <= now + MAX_DELEGATION_DURATION`.
pub const MAX_DELEGATION_DURATION: u64 = 31_536_000;

/// The contract that holds the delegation registry.
pub struct CredenceDelegation;

/// The kind of right a delegation grants.
#[derive(Clone, Copy, Debug, PartialEq, Eq, Structural)]
pub enum DelegationType {
    Attestation,
    Management,
}

/// Status of an attestation-type delegation.
#[derive(Clone, Copy, Debug, PartialEq, Eq, Structural)]
pub enum AttestationStatus {
    Active,
    Revoked,
    NotFound,
}

/// Why a delegation request was refused.
#[derive(Clone, Copy, Debug, PartialEq, Eq, Structural)]
pub enum DelegationError {
    /// The registry already has an admin.
    AlreadyInitialized,
    /// The expiry is not after the current ledger time.
    ExpiryInPast,
    /// The expiry is more than [`MAX_DELEGATION_DURATION`] away.
    DelegationExpiryTooLong,
    /// No delegation exists under the given key.
    DelegationNotFound,
    /// The delegation is already revoked.
    AlreadyRevoked,
    /// The contract is paused.
    Paused,
    /// The nonce is not the identity's current nonce, or a new nonce is not
    /// above the current one.
    InvalidNonce,
    /// The identity's nonce cannot advance past `u64::MAX`.
    NonceOverflow,
    /// A nonce invalidation spans more than [`MAX_NONCE_INVALIDATION_SPAN`].
    NonceRangeTooLarge,
}

/// Largest number of nonces one invalidation may skip.
pub const MAX_NONCE_INVALIDATION_SPAN: u64 = 10_000;

/// The pause machinery's state: the pause flag, the number of pause signers,
/// the approval threshold and the pause proposal counter.
#[derive(Clone, Copy, Debug, PartialEq, Eq, Structural)]
pub struct PauseState {
    pub paused: bool,
    pub pause_signer_count: u32,
    pub pause_threshold: u32,
    pub pause_proposal_counter: u64,
}

/// The pause state of a freshly initialized contract: not paused, no pause
/// signers, threshold 0, no proposals.
pub open spec fn initial_pause_state() -> PauseState {
    PauseState { paused: false, pause_signer_count: 0, pause_threshold: 0, pause_proposal_counter: 0 }
}

/// A delegation from `owner` to `delegate`.
#[derive(Debug, PartialEq, Eq)]
pub struct Delegation {
    pub owner: AccountId,
    pub delegate: AccountId,
    pub delegation_type: DelegationType,
    pub expires_at: u64,
    pub revoked: bool,
}

/// Mathematical content of a delegation.
pub struct DelegationView {
    pub owner: Seq<char>,
    pub delegate: Seq<char>,
    pub delegation_type: DelegationType,
    pub expires_at: u64,
    pub revoked: bool,
}

impl View for Delegation {
    type V = DelegationView;

    open spec fn view(&self) -> DelegationView {
        DelegationView {
            owner: self.owner@,
            delegate: self.delegate@,
            delegation_type: self.delegation_type,
            expires_at: self.expires_at,
            revoked: self.revoked,
        }
    }
}

impl Delegation {
    /// A second copy of the delegation.
    pub fn duplicate(&self) -> (copy: Delegation)
        ensures
            copy@ == self@,
    {
        Delegation {
            owner: self.owner.duplicate(),
            delegate: self.delegate.duplicate(),
            delegation_type: self.delegation_type,
            expires_at: self.expires_at,
            revoked: self.revoked,
        }
    }
}

/// The key a delegation is stored under: (owner, delegate, type).
pub open spec fn key_of(d: DelegationView) -> (Seq<char>, Seq<char>, DelegationType) {
    (d.owner, d.delegate, d.delegation_type)
}

/// The registry as a map from key to delegation, built from a list in which
/// a later entry for a key stands over an earlier one.
pub open spec fn as_map(s: Seq<DelegationView>) -> Map<
    (Seq<char>, Seq<char>, DelegationType),
    DelegationView,
>
    decreases s.len(),
{
    if s.len() == 0 {
        Map::empty()
    } else {
        as_map(s.drop_last()).insert(key_of(s.last()), s.last())
    }
}

/// No two entries of the list share a key.
pub open spec fn keys_unique(s: Seq<DelegationView>) -> bool {
    forall|i: int, j: int|
        0 <= i < s.len() && 0 <= j < s.len() && i != j ==> key_of(s[i]) != key_of(s[j])
}

/// A list of (key, value) pairs as a map, a later pair for a key standing
/// over an earlier one.
pub open spec fn pairs_map<K, V>(s: Seq<(K, V)>) -> Map<K, V>
    decreases s.len(),
{
    if s.len() == 0 {
        Map::empty()
    } else {
        pairs_map(s.drop_last()).insert(s.last().0, s.last().1)
    }
}

/// No two pairs of the list share a key.
pub open spec fn pair_keys_unique<K, V>(s: Seq<(K, V)>) -> bool {
    forall|i: int, j: int| 0 <= i < s.len() && 0 <= j < s.len() && i != j ==> s[i].0 != s[j].0
}

/// The map of a list with unique keys holds exactly its pairs.
proof fn lemma_pairs_map_entries<K, V>(s: Seq<(K, V)>)
    requires
        pair_keys_unique(s),
    ensures
        forall|i: int| 0 <= i < s.len() ==> #[trigger] pairs_map(s).contains_key(s[i].0)
            && pairs_map(s)[s[i].0] == s[i].1,
        forall|k: K| #[trigger] pairs_map(s).contains_key(k) ==> exists|i: int|
            0 <= i < s.len() && s[i].0 == k,
    decreases s.len(),
{
    if s.len() > 0 {
        let p = s.drop_last();
        assert(pair_keys_unique(p)) by {
            assert forall|i: int, j: int|
                0 <= i < p.len() && 0 <= j < p.len() && i != j implies p[i].0 != p[j].0 by {
                assert(p[i] == s[i] && p[j] == s[j]);
            }
        }
        lemma_pairs_map_entries(p);
        assert forall|i: int| 0 <= i < s.len() implies #[trigger] pairs_map(s).contains_key(s[i].0)
            && pairs_map(s)[s[i].0] == s[i].1 by {
            if i < s.len() - 1 {
                assert(p[i] == s[i]);
                assert(pairs_map(p).contains_key(p[i].0));
                assert(s[i].0 != s[s.len() - 1].0);
            }
        }
        assert forall|k: K| #[trigger] pairs_map(s).contains_key(k) implies exists|i: int|
            0 <= i < s.len() && s[i].0 == k by {
            if k == s.last().0 {
                assert(s[s.len() - 1].0 == k);
            } else {
                assert(pairs_map(p).contains_key(k));
                let i = choose|i: int| 0 <= i < p.len() && p[i].0 == k;
                assert(s[i].0 == k);
            }
        }
    }
}

/// Appending a pair inserts it into the map.
proof fn lemma_pairs_map_push<K, V>(s: Seq<(K, V)>, v: (K, V))
    ensures
        pairs_map(s.push(v)) == pairs_map(s).insert(v.0, v.1),
{
    assert(s.push(v).drop_last() =~= s);
}

/// Replacing the pair at `i` by one with the same key replaces it in the map.
proof fn lemma_pairs_map_update<K, V>(s: Seq<(K, V)>, i: int, v: (K, V))
    requires
        pair_keys_unique(s),
        0 <= i < s.len(),
        v.0 == s[i].0,
    ensures
        pairs_map(s.update(i, v)) == pairs_map(s).insert(v.0, v.1),
    decreases s.len(),
{
    let u = s.update(i, v);
    let p = s.drop_last();
    if i == s.len() - 1 {
        assert(u.drop_last() =~= p);
        assert(pairs_map(u) =~= pairs_map(s).insert(v.0, v.1));
    } else {
        assert(pair_keys_unique(p)) by {
            assert forall|a: int, b: int|
                0 <= a < p.len() && 0 <= b < p.len() && a != b implies p[a].0 != p[b].0 by {
                assert(p[a] == s[a] && p[b] == s[b]);
            }
        }
        assert(p[i] == s[i]);
        lemma_pairs_map_update(p, i, v);
        assert(u.drop_last() =~= p.update(i, v));
        assert(u.last() == s.last());
        assert(s.last().0 != v.0) by {
            assert(s[s.len() - 1].0 != s[i].0);
        }
        assert(pairs_map(u) =~= pairs_map(s).insert(v.0, v.1));
    }
}

/// Mathematical state of the registry: its admin, if initialized, the pause
/// state, the delegations by key, and each identity's nonce where one was
/// ever consumed.
pub struct RegistryView {
    pub admin: Option<Seq<char>>,
    pub pause: PauseState,
    pub delegations: Map<(Seq<char>, Seq<char>, DelegationType), DelegationView>,
    pub nonces: Map<Seq<char>, u64>,
}

/// The current nonce of `identity`: 0 until it first consumes one.
pub open spec fn nonce_of(r: RegistryView, identity: Seq<char>) -> u64 {
    if r.nonces.contains_key(identity) {
        r.nonces[identity]
    } else {
        0
    }
}

/// Outcome of checking that `nonce` is `identity`'s current nonce and can
/// be consumed.
pub open spec fn nonce_check(r: RegistryView, identity: Seq<char>, nonce: u64) -> Result<
    (),
    DelegationError,
> {
    if nonce != nonce_of(r, identity) {
        Err(DelegationError::InvalidNonce)
    } else if nonce == u64::MAX {
        Err(DelegationError::NonceOverflow)
    } else {
        Ok(())
    }
}

/// The registry with `identity`'s nonce advanced past `nonce`.
pub open spec fn consume(r: RegistryView, identity: Seq<char>, nonce: u64) -> RegistryView {
    RegistryView { nonces: r.nonces.insert(identity, (nonce + 1) as u64), ..r }
}

/// The latest permitted expiry for a delegation created at `now`.
pub open spec fn max_expiry(now: u64) -> int {
    if now + MAX_DELEGATION_DURATION > u64::MAX {
        u64::MAX as int
    } else {
        now + MAX_DELEGATION_DURATION
    }
}

/// Outcome of checking a requested expiry at ledger time `now`.
pub open spec fn expiry_check(now: u64, expires_at: u64) -> Result<(), DelegationError> {
    if expires_at <= now {
        Err(DelegationError::ExpiryInPast)
    } else if expires_at > max_expiry(now) {
        Err(DelegationError::DelegationExpiryTooLong)
    } else {
        Ok(())
    }
}

/// Outcome of delegating at ledger time `now` with the owner's `nonce`:
/// refused while paused, then the expiry is checked (so a bad expiry never
/// burns a nonce), then the nonce; on success the delegation is stored
/// (replacing any earlier one under the same key) as not revoked and the
/// owner's nonce advances. A refusal changes nothing.
pub open spec fn delegate_outcome(
    r: RegistryView,
    now: u64,
    owner: Seq<char>,
    delegate: Seq<char>,
    delegation_type: DelegationType,
    expires_at: u64,
    nonce: u64,
) -> (Result<DelegationView, DelegationError>, RegistryView) {
    if r.pause.paused {
        (Err(DelegationError::Paused), r)
    } else if let Err(e) = expiry_check(now, expires_at) {
        (Err(e), r)
    } else if let Err(e) = nonce_check(r, owner, nonce) {
        (Err(e), r)
    } else {
        let d = DelegationView { owner, delegate, delegation_type, expires_at, revoked: false };
        let stored = RegistryView { delegations: r.delegations.insert(key_of(d), d), ..r };
        (Ok(d), consume(stored, owner, nonce))
    }
}

/// Outcome of `owner` revoking the delegation under (owner, delegate, type)
/// with its `nonce`: refused while paused, then the nonce is checked, then
/// the delegation must exist and not be revoked yet; on success it is marked
/// revoked and the owner's nonce advances. A refusal changes nothing.
pub open spec fn revoke_outcome(
    r: RegistryView,
    owner: Seq<char>,
    delegate: Seq<char>,
    delegation_type: DelegationType,
    nonce: u64,
) -> (Result<(), DelegationError>, RegistryView) {
    let k = (owner, delegate, delegation_type);
    if r.pause.paused {
        (Err(DelegationError::Paused), r)
    } else if let Err(e) = nonce_check(r, owner, nonce) {
        (Err(e), r)
    } else if !r.delegations.contains_key(k) {
        (Err(DelegationError::DelegationNotFound), r)
    } else if r.delegations[k].revoked {
        (Err(DelegationError::AlreadyRevoked), r)
    } else {
        let d = DelegationView { revoked: true, ..r.delegations[k] };
        let stored = RegistryView { delegations: r.delegations.insert(k, d), ..r };
        (Ok(()), consume(stored, owner, nonce))
    }
}

/// Outcome of `identity` moving its nonce to `new_nonce`, which invalidates
/// every nonce in `[current, new_nonce)`: refused while paused, when
/// `new_nonce` is not above the current nonce, or when it skips more than
/// [`MAX_NONCE_INVALIDATION_SPAN`]. Returns the range `(current, new_nonce)`.
pub open spec fn invalidate_outcome(r: RegistryView, identity: Seq<char>, new_nonce: u64) -> (
    Result<(u64, u64), DelegationError>,
    RegistryView,
) {
    let current = nonce_of(r, identity);
    if r.pause.paused {
        (Err(DelegationError::Paused), r)
    } else if new_nonce <= current {
        (Err(DelegationError::InvalidNonce), r)
    } else if new_nonce - current > MAX_NONCE_INVALIDATION_SPAN {
        (Err(DelegationError::NonceRangeTooLarge), r)
    } else {
        (Ok((current, new_nonce)), RegistryView { nonces: r.nonces.insert(identity, new_nonce), ..r })
    }
}

/// Whether the delegate is valid at ledger time `now`: the delegation exists,
/// is not revoked, and has not expired (it expires exactly at `expires_at`).
pub open spec fn valid_at(
    r: RegistryView,
    now: u64,
    owner: Seq<char>,
    delegate: Seq<char>,
    delegation_type: DelegationType,
) -> bool {
    let k = (owner, delegate, delegation_type);
    r.delegations.contains_key(k) && !r.delegations[k].revoked && r.delegations[k].expires_at > now
}

/// Status of the attestation from `attester` about `subject`.
pub open spec fn status_of(r: RegistryView, attester: Seq<char>, subject: Seq<char>) -> AttestationStatus {
    let k = (attester, subject, DelegationType::Attestation);
    if !r.delegations.contains_key(k) {
        AttestationStatus::NotFound
    } else if r.delegations[k].revoked {
        AttestationStatus::Revoked
    } else {
        AttestationStatus::Active
    }
}

/// The map of a list with unique keys holds exactly its entries.
proof fn lemma_as_map_entries(s: Seq<DelegationView>)
    requires
        keys_unique(s),
    ensures
        forall|i: int| 0 <= i < s.len() ==> #[trigger] as_map(s).contains_key(key_of(s[i]))
            && as_map(s)[key_of(s[i])] == s[i],
        forall|k: (Seq<char>, Seq<char>, DelegationType)|
            #[trigger] as_map(s).contains_key(k) ==> exists|i: int|
                0 <= i < s.len() && key_of(s[i]) == k,
    decreases s.len(),
{
    if s.len() > 0 {
        let p = s.drop_last();
        assert(keys_unique(p)) by {
            assert forall|i: int, j: int|
                0 <= i < p.len() && 0 <= j < p.len() && i != j implies key_of(p[i]) != key_of(
                p[j],
            ) by {
                assert(p[i] == s[i] && p[j] == s[j]);
            }
        }
        lemma_as_map_entries(p);
        assert forall|i: int| 0 <= i < s.len() implies #[trigger] as_map(s).contains_key(
            key_of(s[i]),
        ) && as_map(s)[key_of(s[i])] == s[i] by {
            if i < s.len() - 1 {
                assert(p[i] == s[i]);
                assert(as_map(p).contains_key(key_of(p[i])));
                assert(key_of(s[i]) != key_of(s[s.len() - 1]));
            }
        }
        assert forall|k: (Seq<char>, Seq<char>, DelegationType)|
            #[trigger] as_map(s).contains_key(k) implies exists|i: int|
                0 <= i < s.len() && key_of(s[i]) == k by {
            if k == key_of(s.last()) {
                assert(key_of(s[s.len() - 1]) == k);
            } else {
                assert(as_map(p).contains_key(k));
                let i = choose|i: int| 0 <= i < p.len() && key_of(p[i]) == k;
                assert(key_of(s[i]) == k);
            }
        }
    }
}

/// Appending an entry with a new key inserts it into the map.
proof fn lemma_as_map_push(s: Seq<DelegationView>, v: DelegationView)
    ensures
        as_map(s.push(v)) == as_map(s).insert(key_of(v), v),
{
    assert(s.push(v).drop_last() =~= s);
}

/// Replacing the entry at `i` by one with the same key replaces it in the map.
proof fn lemma_as_map_update(s: Seq<DelegationView>, i: int, v: DelegationView)
    requires
        keys_unique(s),
        0 <= i < s.len(),
        key_of(v) == key_of(s[i]),
    ensures
        as_map(s.update(i, v)) == as_map(s).insert(key_of(v), v),
    decreases s.len(),
{
    let u = s.update(i, v);
    let p = s.drop_last();
    if i == s.len() - 1 {
        assert(u.drop_last() =~= p);
        assert(as_map(u) =~= as_map(s).insert(key_of(v), v));
    } else {
        assert(keys_unique(p)) by {
            assert forall|a: int, b: int|
                0 <= a < p.len() && 0 <= b < p.len() && a != b implies key_of(p[a]) != key_of(
                p[b],
            ) by {
                assert(p[a] == s[a] && p[b] == s[b]);
            }
        }
        assert(p[i] == s[i]);
        lemma_as_map_update(p, i, v);
        assert(u.drop_last() =~= p.update(i, v));
        assert(u.last() == s.last());
        assert(key_of(s.last()) != key_of(v)) by {
            assert(key_of(s[s.len() - 1]) != key_of(s[i]));
        }
        assert(as_map(u) =~= as_map(s).insert(key_of(v), v));
    }
}

/// The delegation registry of one contract.
pub struct DelegationRegistry {
    admin: Option<AccountId>,
    pause: PauseState,
    entries: Vec<Delegation>,
    nonces: Vec<(AccountId, u64)>,
}

/// The mathematical content of a list of delegations.
pub open spec fn delegation_views(entries: Seq<Delegation>) -> Seq<DelegationView> {
    entries.map_values(|d: Delegation| d@)
}

/// The mathematical content of a list of (identity, nonce) pairs.
pub open spec fn nonce_pairs(nonces: Seq<(AccountId, u64)>) -> Seq<(Seq<char>, u64)> {
    nonces.map_values(|p: (AccountId, u64)| (p.0@, p.1))
}

/// The admin of an optional account, as a view.
pub open spec fn admin_view(admin: Option<AccountId>) -> Option<Seq<char>> {
    match admin {
        Some(a) => Some(a@),
        None => None,
    }
}

impl View for DelegationRegistry {
    type V = RegistryView;

    closed spec fn view(&self) -> RegistryView {
        RegistryView {
            admin: admin_view(self.admin),
            pause: self.pause,
            delegations: as_map(delegation_views(self.entries@)),
            nonces: pairs_map(nonce_pairs(self.nonces@)),
        }
    }
}

/// Whether `entries` and `nonces` can form a registry: no delegation key
/// and no identity occurs twice.
pub open spec fn storable(entries: Seq<Delegation>, nonces: Seq<(AccountId, u64)>) -> bool {
    keys_unique(delegation_views(entries)) && pair_keys_unique(nonce_pairs(nonces))
}

impl DelegationRegistry {
    /// Each delegation key and each identity occurs at most once.
    pub closed spec fn wf(&self) -> bool {
        storable(self.entries@, self.nonces@)
    }

    /// An uninitialized, unpaused registry with no delegations and every
    /// nonce at 0.
    pub fn new() -> (r: DelegationRegistry)
        ensures
            r.wf(),
            r@.admin is None,
            r@.pause == initial_pause_state(),
            r@.delegations == Map::<(Seq<char>, Seq<char>, DelegationType), DelegationView>::empty(),
            r@.nonces == Map::<Seq<char>, u64>::empty(),
    {
        let r = DelegationRegistry {
            admin: None,
            pause: PauseState {
                paused: false,
                pause_signer_count: 0,
                pause_threshold: 0,
                pause_proposal_counter: 0,
            },
            entries: Vec::new(),
            nonces: Vec::new(),
        };
        assert(delegation_views(r.entries@) =~= Seq::<DelegationView>::empty());
        assert(nonce_pairs(r.nonces@) =~= Seq::<(Seq<char>, u64)>::empty());
        r
    }

    /// Whether no identity occurs twice in `nonces`.
    fn nonces_unique(nonces: &Vec<(AccountId, u64)>) -> (unique: bool)
        ensures
            unique == pair_keys_unique(nonce_pairs(nonces@)),
    {
        let ghost s = nonce_pairs(nonces@);
        let n = nonces.len();
        let mut i: usize = 0;
        while i < n
            invariant
                n == nonces@.len(),
                s == nonce_pairs(nonces@),
                i <= n,
                forall|a: int, b: int| 0 <= a < i && 0 <= b < n && a != b ==> s[a].0 != s[b].0,
            decreases n - i,
        {
            let mut j: usize = 0;
            while j < n
                invariant
                    n == nonces@.len(),
                    s == nonce_pairs(nonces@),
                    i < n,
                    j <= n,
                    forall|a: int, b: int| 0 <= a < i && 0 <= b < n && a != b ==> s[a].0 != s[b].0,
                    forall|b: int| 0 <= b < j && i != b ==> s[i as int].0 != s[b].0,
                decreases n - j,
            {
                assert(s[i as int] == (nonces@[i as int].0@, nonces@[i as int].1));
                assert(s[j as int] == (nonces@[j as int].0@, nonces@[j as int].1));
                if j != i && nonces[i].0.same_as(&nonces[j].0) {
                    return false;
                }
                j = j + 1;
            }
            i = i + 1;
        }
        true
    }

    /// Whether no delegation key occurs twice in `entries`.
    fn entries_unique(entries: &Vec<Delegation>) -> (unique: bool)
        ensures
            unique == keys_unique(delegation_views(entries@)),
    {
        let ghost s = delegation_views(entries@);
        let n = entries.len();
        let mut i: usize = 0;
        while i < n
            invariant
                n == entries@.len(),
                s == delegation_views(entries@),
                i <= n,
                forall|a: int, b: int|
                    0 <= a < i && 0 <= b < n && a != b ==> key_of(s[a]) != key_of(s[b]),
            decreases n - i,
        {
            let mut j: usize = 0;
            while j < n
                invariant
                    n == entries@.len(),
                    s == delegation_views(entries@),
                    i < n,
                    j <= n,
                    forall|a: int, b: int|
                        0 <= a < i && 0 <= b < n && a != b ==> key_of(s[a]) != key_of(s[b]),
                    forall|b: int| 0 <= b < j && i != b ==> key_of(s[i as int]) != key_of(s[b]),
                decreases n - j,
            {
                if j != i {
                    let x = &entries[i];
                    let y = &entries[j];
                    assert(s[i as int] == entries@[i as int]@);
                    assert(s[j as int] == entries@[j as int]@);
                    if x.owner.same_as(&y.owner) && x.delegate.same_as(&y.delegate)
                        && x.delegation_type == y.delegation_type {
                        return false;
                    }
                }
                j = j + 1;
            }
            i = i + 1;
        }
        true
    }

    /// Rebuilds a registry from its stored admin, pause state, delegations
    /// and nonces; `None` when two delegations share a key or an identity
    /// has two nonces.
    pub fn restore(
        admin: Option<AccountId>,
        pause: PauseState,
        entries: Vec<Delegation>,
        nonces: Vec<(AccountId, u64)>,
    ) -> (r: Option<DelegationRegistry>)
        ensures
            r is Some <==> storable(entries@, nonces@),
            r matches Some(reg) ==> reg.wf() && reg@ == (RegistryView {
                admin: admin_view(admin),
                pause,
                delegations: as_map(delegation_views(entries@)),
                nonces: pairs_map(nonce_pairs(nonces@)),
            }),
    {
        if !Self::entries_unique(&entries) {
            return None;
        }
        if !Self::nonces_unique(&nonces) {
            return None;
        }
        Some(DelegationRegistry { admin, pause, entries, nonces })
    }

    /// Sets the admin and the initial pause state (not paused, no pause
    /// signers, threshold 0, no proposals); refused, with nothing changed,
    /// when the registry already has an admin.
    pub fn initialize(&mut self, admin: AccountId) -> (result: Result<(), DelegationError>)
        requires
            old(self).wf(),
        ensures
            final(self).wf(),
            final(self)@.delegations == old(self)@.delegations,
            final(self)@.nonces == old(self)@.nonces,
            old(self)@.admin is Some ==> result == Err::<(), DelegationError>(
                DelegationError::AlreadyInitialized,
            ) && final(self)@ == old(self)@,
            old(self)@.admin is None ==> result is Ok && final(self)@.admin == Some(admin@)
                && final(self)@.pause == initial_pause_state(),
    {
        if self.admin.is_some() {
            return Err(DelegationError::AlreadyInitialized);
        }
        self.admin = Some(admin);
        self.pause = PauseState {
            paused: false,
            pause_signer_count: 0,
            pause_threshold: 0,
            pause_proposal_counter: 0,
        };
        Ok(())
    }

    /// The pause state.
    pub fn pause_state(&self) -> (pause: PauseState)
        ensures
            pause == self@.pause,
    {
        self.pause
    }

    /// Whether the contract is paused.
    pub fn is_paused(&self) -> (paused: bool)
        ensures
            paused == self@.pause.paused,
    {
        self.pause.paused
    }

    /// Position of `identity` in the nonce list.
    fn find_nonce(&self, identity: &AccountId) -> (idx: Option<usize>)
        ensures
            idx matches Some(i) ==> i < self.nonces@.len() && self.nonces@[i as int].0@ == identity@,
            idx is None ==> forall|i: int|
                0 <= i < self.nonces@.len() ==> (#[trigger] self.nonces@[i]).0@ != identity@,
    {
        let n = self.nonces.len();
        let mut i: usize = 0;
        while i < n
            invariant
                n == self.nonces@.len(),
                i <= n,
                forall|j: int| 0 <= j < i ==> (#[trigger] self.nonces@[j]).0@ != identity@,
            decreases n - i,
        {
            if self.nonces[i].0.same_as(identity) {
                return Some(i);
            }
            i = i + 1;
        }
        None
    }

    /// The current nonce of `identity` (0 until it first consumes one).
    pub fn get_nonce(&self, identity: &AccountId) -> (nonce: u64)
        requires
            self.wf(),
        ensures
            nonce == nonce_of(self@, identity@),
    {
        let ghost s = nonce_pairs(self.nonces@);
        proof {
            lemma_pairs_map_entries(s);
        }
        match self.find_nonce(identity) {
            Some(i) => {
                assert(s[i as int] == (self.nonces@[i as int].0@, self.nonces@[i as int].1));
                self.nonces[i].1
            },
            None => {
                proof {
                    if pairs_map(s).contains_key(identity@) {
                        let j = choose|j: int| 0 <= j < s.len() && s[j].0 == identity@;
                        assert(s[j] == (self.nonces@[j].0@, self.nonces@[j].1));
                        assert(self.nonces@[j].0@ != identity@);
                    }
                }
                0
            },
        }
    }

    /// Sets the nonce of `identity` to `nonce`.
    fn set_nonce(&mut self, identity: &AccountId, nonce: u64)
        requires
            old(self).wf(),
        ensures
            final(self).wf(),
            final(self)@.admin == old(self)@.admin,
            final(self)@.pause == old(self)@.pause,
            final(self)@.delegations == old(self)@.delegations,
            final(self)@.nonces == old(self)@.nonces.insert(identity@, nonce),
    {
        let ghost s = nonce_pairs(self.nonces@);
        let ghost pv = (identity@, nonce);
        match self.find_nonce(identity) {
            Some(i) => {
                proof {
                    assert(s[i as int] == (self.nonces@[i as int].0@, self.nonces@[i as int].1));
                    lemma_pairs_map_update(s, i as int, pv);
                }
                self.nonces.set(i, (identity.duplicate(), nonce));
                proof {
                    assert(nonce_pairs(self.nonces@) =~= s.update(i as int, pv));
                    assert forall|a: int, b: int|
                        0 <= a < s.len() && 0 <= b < s.len() && a != b implies s.update(
                        i as int,
                        pv,
                    )[a].0 != s.update(i as int, pv)[b].0 by {
                        assert(s[a] == (old(self).nonces@[a].0@, old(self).nonces@[a].1));
                        assert(s[b] == (old(self).nonces@[b].0@, old(self).nonces@[b].1));
                    }
                }
            },
            None => {
                proof {
                    lemma_pairs_map_push(s, pv);
                }
                self.nonces.push((identity.duplicate(), nonce));
                proof {
                    assert(nonce_pairs(self.nonces@) =~= s.push(pv));
                    assert forall|a: int, b: int|
                        0 <= a < s.len() + 1 && 0 <= b < s.len() + 1 && a != b implies s.push(
                        pv,
                    )[a].0 != s.push(pv)[b].0 by {
                        if a < s.len() {
                            assert(s[a] == (old(self).nonces@[a].0@, old(self).nonces@[a].1));
                        }
                        if b < s.len() {
                            assert(s[b] == (old(self).nonces@[b].0@, old(self).nonces@[b].1));
                        }
                    }
                }
            },
        }
    }

    /// Checks that `nonce` is the current nonce of `identity` and can be
    /// consumed.
    fn check_nonce(&self, identity: &AccountId, nonce: u64) -> (result: Result<(), DelegationError>)
        requires
            self.wf(),
        ensures
            result == nonce_check(self@, identity@, nonce),
    {
        let current = self.get_nonce(identity);
        if nonce != current {
            return Err(DelegationError::InvalidNonce);
        }
        if nonce == u64::MAX {
            return Err(DelegationError::NonceOverflow);
        }
        Ok(())
    }

    /// Position of the delegation stored under (owner, delegate, type).
    fn find(&self, owner: &AccountId, delegate: &AccountId, delegation_type: DelegationType) -> (idx:
        Option<usize>)
        ensures
            idx matches Some(i) ==> i < self.entries@.len() && key_of(self.entries@[i as int]@) == (
            owner@,
            delegate@,
            delegation_type,
            ),
            idx is None ==> forall|i: int|
                0 <= i < self.entries@.len() ==> key_of(#[trigger] self.entries@[i]@) != (
                owner@,
                delegate@,
                delegation_type,
                ),
    {
        let n = self.entries.len();
        let mut i: usize = 0;
        while i < n
            invariant
                n == self.entries@.len(),
                i <= n,
                forall|j: int|
                    0 <= j < i ==> key_of(#[trigger] self.entries@[j]@) != (
                    owner@,
                    delegate@,
                    delegation_type,
                    ),
            decreases n - i,
        {
            let e = &self.entries[i];
            if e.owner.same_as(owner) && e.delegate.same_as(delegate) && e.delegation_type
                == delegation_type {
                return Some(i);
            }
            i = i + 1;
        }
        None
    }

    /// Facts about the map view of the stored list.
    proof fn lemma_view(&self)
        requires
            self.wf(),
        ensures
            forall|i: int|
                0 <= i < self.entries@.len() ==> #[trigger] self@.delegations.contains_key(
                    key_of(self.entries@[i]@),
                ) && self@.delegations[key_of(self.entries@[i]@)] == self.entries@[i]@,
            forall|k: (Seq<char>, Seq<char>, DelegationType)|
                #[trigger] self@.delegations.contains_key(k) ==> exists|i: int|
                    0 <= i < self.entries@.len() && key_of(self.entries@[i]@) == k,
    {
        let s = delegation_views(self.entries@);
        lemma_as_map_entries(s);
        assert forall|i: int| 0 <= i < self.entries@.len() implies #[trigger] self@.delegations.contains_key(
            key_of(self.entries@[i]@),
        ) && self@.delegations[key_of(self.entries@[i]@)] == self.entries@[i]@ by {
            assert(s[i] == self.entries@[i]@);
            assert(as_map(s).contains_key(key_of(s[i])));
        }
        assert forall|k: (Seq<char>, Seq<char>, DelegationType)|
            #[trigger] self@.delegations.contains_key(k) implies exists|i: int|
                0 <= i < self.entries@.len() && key_of(self.entries@[i]@) == k by {
            let i = choose|i: int| 0 <= i < s.len() && key_of(s[i]) == k;
            assert(s[i] == self.entries@[i]@);
        }
    }

    /// Stores `d` under its key, replacing any earlier delegation there.
    fn store(&mut self, d: Delegation)
        requires
            old(self).wf(),
        ensures
            final(self).wf(),
            final(self)@.admin == old(self)@.admin,
            final(self)@.pause == old(self)@.pause,
            final(self)@.nonces == old(self)@.nonces,
            final(self)@.delegations == old(self)@.delegations.insert(key_of(d@), d@),
    {
        let ghost s = delegation_views(self.entries@);
        let ghost dv = d@;
        match self.find(&d.owner, &d.delegate, d.delegation_type) {
            Some(i) => {
                proof {
                    assert(s[i as int] == self.entries@[i as int]@);
                    lemma_as_map_update(s, i as int, dv);
                }
                self.entries.set(i, d);
                proof {
                    assert(delegation_views(self.entries@) =~= s.update(i as int, dv));
                    assert forall|a: int, b: int|
                        0 <= a < s.len() && 0 <= b < s.len() && a != b implies key_of(
                        s.update(i as int, dv)[a],
                    ) != key_of(s.update(i as int, dv)[b]) by {
                        assert(s[a] == old(self).entries@[a]@);
                        assert(s[b] == old(self).entries@[b]@);
                    }
                }
            },
            None => {
                proof {
                    lemma_as_map_push(s, dv);
                }
                self.entries.push(d);
                proof {
                    assert(delegation_views(self.entries@) =~= s.push(dv));
                    assert forall|a: int, b: int|
                        0 <= a < s.len() + 1 && 0 <= b < s.len() + 1 && a != b implies key_of(
                        s.push(dv)[a],
                    ) != key_of(s.push(dv)[b]) by {
                        if a < s.len() {
                            assert(s[a] == old(self).entries@[a]@);
                        }
                        if b < s.len() {
                            assert(s[b] == old(self).entries@[b]@);
                        }
                    }
                }
            },
        }
    }

    /// Checks that `expires_at` lies in `(now, now + MAX_DELEGATION_DURATION]`
    /// (the upper end saturating at `u64::MAX`).
    pub fn validate_delegation_expiry(now: u64, expires_at: u64) -> (result: Result<(), DelegationError>)
        ensures
            result == expiry_check(now, expires_at),
    {
        if expires_at <= now {
            return Err(DelegationError::ExpiryInPast);
        }
        let max_expires_at = now.saturating_add(MAX_DELEGATION_DURATION);
        if expires_at > max_expires_at {
            return Err(DelegationError::DelegationExpiryTooLong);
        }
        Ok(())
    }

    /// Creates (or replaces), with the owner's current `nonce`, the delegation
    /// from `owner` to `delegate` of the given type, expiring at
    /// `expires_at`, as seen at ledger time `now`; the owner's nonce then
    /// advances. Refused, with nothing changed, while paused, for an expiry
    /// outside `(now, now + MAX_DELEGATION_DURATION]`, or for a wrong nonce.
    pub fn delegate(
        &mut self,
        now: u64,
        owner: AccountId,
        delegate: AccountId,
        delegation_type: DelegationType,
        expires_at: u64,
        nonce: u64,
    ) -> (result: Result<Delegation, DelegationError>)
        requires
            old(self).wf(),
        ensures
            final(self).wf(),
            ({
                let (r, after) = delegate_outcome(
                    old(self)@,
                    now,
                    owner@,
                    delegate@,
                    delegation_type,
                    expires_at,
                    nonce,
                );
                &&& final(self)@ == after
                &&& r is Ok <==> result is Ok
                &&& result matches Ok(d) ==> r == Ok::<DelegationView, DelegationError>(d@)
                &&& result matches Err(e) ==> r == Err::<DelegationView, DelegationError>(e)
            }),
    {
        if self.pause.paused {
            return Err(DelegationError::Paused);
        }
        if let Err(e) = Self::validate_delegation_expiry(now, expires_at) {
            return Err(e);
        }
        if let Err(e) = self.check_nonce(&owner, nonce) {
            return Err(e);
        }
        let owner_key = owner.duplicate();
        let d = Delegation { owner, delegate, delegation_type, expires_at, revoked: false };
        let copy = d.duplicate();
        self.store(d);
        self.set_nonce(&owner_key, nonce + 1);
        Ok(copy)
    }

    /// Marks, with the owner's current `nonce`, the delegation under
    /// (owner, delegate, type) as revoked; the owner's nonce then advances.
    /// Refused, with nothing changed, while paused, for a wrong nonce, when
    /// no such delegation exists, or when it is already revoked.
    pub fn revoke_delegation(
        &mut self,
        owner: &AccountId,
        delegate: &AccountId,
        delegation_type: DelegationType,
        nonce: u64,
    ) -> (result: Result<(), DelegationError>)
        requires
            old(self).wf(),
        ensures
            final(self).wf(),
            (result, final(self)@) == revoke_outcome(
                old(self)@,
                owner@,
                delegate@,
                delegation_type,
                nonce,
            ),
    {
        if self.pause.paused {
            return Err(DelegationError::Paused);
        }
        if let Err(e) = self.check_nonce(owner, nonce) {
            return Err(e);
        }
        proof {
            self.lemma_view();
        }
        match self.find(owner, delegate, delegation_type) {
            None => Err(DelegationError::DelegationNotFound),
            Some(i) => {
                if self.entries[i].revoked {
                    return Err(DelegationError::AlreadyRevoked);
                }
                let mut d = self.entries[i].duplicate();
                d.revoked = true;
                self.store(d);
                self.set_nonce(owner, nonce + 1);
                Ok(())
            },
        }
    }

    /// Revokes, with the attester's current `nonce`, the attestation from
    /// `attester` about `subject`.
    pub fn revoke_attestation(&mut self, attester: &AccountId, subject: &AccountId, nonce: u64) -> (result:
        Result<(), DelegationError>)
        requires
            old(self).wf(),
        ensures
            final(self).wf(),
            (result, final(self)@) == revoke_outcome(
                old(self)@,
                attester@,
                subject@,
                DelegationType::Attestation,
                nonce,
            ),
    {
        self.revoke_delegation(attester, subject, DelegationType::Attestation, nonce)
    }

    /// Moves the nonce of `identity` to `new_nonce`, invalidating every nonce
    /// in `[current, new_nonce)`, and returns that range. Refused, with
    /// nothing changed, while paused, when `new_nonce` is not above the
    /// current nonce, or when it skips more than
    /// [`MAX_NONCE_INVALIDATION_SPAN`] nonces.
    pub fn invalidate_nonce_range(&mut self, identity: &AccountId, new_nonce: u64) -> (result: Result<
        (u64, u64),
        DelegationError,
    >)
        requires
            old(self).wf(),
        ensures
            final(self).wf(),
            (result, final(self)@) == invalidate_outcome(old(self)@, identity@, new_nonce),
    {
        if self.pause.paused {
            return Err(DelegationError::Paused);
        }
        let current = self.get_nonce(identity);
        if new_nonce <= current {
            return Err(DelegationError::InvalidNonce);
        }
        if new_nonce - current > MAX_NONCE_INVALIDATION_SPAN {
            return Err(DelegationError::NonceRangeTooLarge);
        }
        self.set_nonce(identity, new_nonce);
        Ok((current, new_nonce))
    }

    /// The delegation stored under (owner, delegate, type).
    pub fn get_delegation(
        &self,
        owner: &AccountId,
        delegate: &AccountId,
        delegation_type: DelegationType,
    ) -> (result: Result<Delegation, DelegationError>)
        requires
            self.wf(),
        ensures
            ({
                let k = (owner@, delegate@, delegation_type);
                &&& result is Ok <==> self@.delegations.contains_key(k)
                &&& result matches Ok(d) ==> d@ == self@.delegations[k]
                &&& result matches Err(e) ==> e == DelegationError::DelegationNotFound
            }),
    {
        proof {
            self.lemma_view();
        }
        match self.find(owner, delegate, delegation_type) {
            None => Err(DelegationError::DelegationNotFound),
            Some(i) => {
                proof {
                    assert(self@.delegations.contains_key(key_of(self.entries@[i as int]@)));
                }
                Ok(self.entries[i].duplicate())
            },
        }
    }

    /// Whether the delegate is currently valid: the delegation exists, is
    /// not revoked, and `now` is strictly before its expiry.
    pub fn is_valid_delegate(
        &self,
        now: u64,
        owner: &AccountId,
        delegate: &AccountId,
        delegation_type: DelegationType,
    ) -> (valid: bool)
        requires
            self.wf(),
        ensures
            valid == valid_at(self@, now, owner@, delegate@, delegation_type),
    {
        proof {
            self.lemma_view();
        }
        match self.find(owner, delegate, delegation_type) {
            None => false,
            Some(i) => {
                proof {
                    assert(self@.delegations.contains_key(key_of(self.entries@[i as int]@)));
                }
                !self.entries[i].revoked && self.entries[i].expires_at > now
            },
        }
    }

    /// Whether the attestation from `attester` about `subject` is active,
    /// revoked, or absent. Expiry does not enter into it.
    pub fn get_attestation_status(&self, attester: &AccountId, subject: &AccountId) -> (status:
        AttestationStatus)
        requires
            self.wf(),
        ensures
            status == status_of(self@, attester@, subject@),
    {
        proof {
            self.lemma_view();
        }
        match self.find(attester, subject, DelegationType::Attestation) {
            None => AttestationStatus::NotFound,
            Some(i) => {
                proof {
                    assert(self@.delegations.contains_key(key_of(self.entries@[i as int]@)));
                }
                if self.entries[i].revoked {
                    AttestationStatus::Revoked
                } else {
                    AttestationStatus::Active
                }
            },
        }
    }
}

/// A delegation is valid from its creation until its expiry: after a
/// successful delegation at `now`, the delegate is valid at any later query
/// time `t` exactly when `t < expires_at`, and the expiry lies in
/// `(now, now + MAX_DELEGATION_DURATION]`. An attestation-type delegation
/// reads as active.
pub proof fn law_delegation_valid_until_expiry(
    r: RegistryView,
    now: u64,
    owner: Seq<char>,
    delegate: Seq<char>,
    delegation_type: DelegationType,
    expires_at: u64,
    nonce: u64,
    t: u64,
)
    requires
        delegate_outcome(r, now, owner, delegate, delegation_type, expires_at, nonce).0 is Ok,
    ensures
        ({
            let after = delegate_outcome(r, now, owner, delegate, delegation_type, expires_at, nonce).1;
            &&& now < expires_at <= max_expiry(now)
            &&& valid_at(after, t, owner, delegate, delegation_type) == (t < expires_at)
            &&& delegation_type == DelegationType::Attestation ==> status_of(after, owner, delegate)
                == AttestationStatus::Active
        }),
{
}

/// Revocation is final: after a successful revocation the delegate is
/// invalid at every time, an attestation reads as revoked, and revoking
/// again, with the next nonce, is refused as already revoked without any
/// change.
pub proof fn law_revocation_is_final(
    r: RegistryView,
    owner: Seq<char>,
    delegate: Seq<char>,
    delegation_type: DelegationType,
    nonce: u64,
    t: u64,
)
    requires
        revoke_outcome(r, owner, delegate, delegation_type, nonce).0 is Ok,
    ensures
        ({
            let after = revoke_outcome(r, owner, delegate, delegation_type, nonce).1;
            &&& !valid_at(after, t, owner, delegate, delegation_type)
            &&& delegation_type == DelegationType::Attestation ==> status_of(after, owner, delegate)
                == AttestationStatus::Revoked
            &&& nonce + 1 < u64::MAX ==> revoke_outcome(
                after,
                owner,
                delegate,
                delegation_type,
                (nonce + 1) as u64,
            ) == (Err::<(), DelegationError>(DelegationError::AlreadyRevoked), after)
        }),
{
}

/// Only an existing delegation can be revoked: with a valid nonce on an
/// unpaused contract, revoking a key that holds no delegation is refused as
/// not found, and revoking succeeds exactly when the delegation exists and
/// is not yet revoked.
pub proof fn law_revoke_requires_live_delegation(
    r: RegistryView,
    owner: Seq<char>,
    delegate: Seq<char>,
    delegation_type: DelegationType,
    nonce: u64,
)
    requires
        !r.pause.paused,
        nonce_check(r, owner, nonce) is Ok,
    ensures
        !r.delegations.contains_key((owner, delegate, delegation_type)) ==> revoke_outcome(
            r,
            owner,
            delegate,
            delegation_type,
            nonce,
        ) == (Err::<(), DelegationError>(DelegationError::DelegationNotFound), r),
        revoke_outcome(r, owner, delegate, delegation_type, nonce).0 is Ok <==> (
        r.delegations.contains_key((owner, delegate, delegation_type)) && !r.delegations[(
            owner,
            delegate,
            delegation_type,
        )].revoked),
{
}

/// Delegating again under a revoked key stores a fresh, unrevoked
/// delegation: the delegate is valid again until the new expiry.
pub proof fn law_redelegation_reactivates(
    r: RegistryView,
    owner: Seq<char>,
    delegate: Seq<char>,
    delegation_type: DelegationType,
    nonce: u64,
    now: u64,
    expires_at: u64,
)
    requires
        revoke_outcome(r, owner, delegate, delegation_type, nonce).0 is Ok,
        expiry_check(now, expires_at) is Ok,
        nonce + 1 < u64::MAX,
    ensures
        ({
            let revoked = revoke_outcome(r, owner, delegate, delegation_type, nonce).1;
            let again = delegate_outcome(
                revoked,
                now,
                owner,
                delegate,
                delegation_type,
                expires_at,
                (nonce + 1) as u64,
            );
            &&& again.0 is Ok
            &&& valid_at(again.1, now, owner, delegate, delegation_type)
        }),
{
}

/// Operations on one key leave every other key as it was, never change the
/// admin or the pause state, and advance only the acting identity's nonce.
pub proof fn law_keys_independent(
    r: RegistryView,
    now: u64,
    owner: Seq<char>,
    delegate: Seq<char>,
    delegation_type: DelegationType,
    expires_at: u64,
    nonce: u64,
    k: (Seq<char>, Seq<char>, DelegationType),
    other: Seq<char>,
)
    requires
        k != (owner, delegate, delegation_type),
        other != owner,
    ensures
        ({
            let d = delegate_outcome(r, now, owner, delegate, delegation_type, expires_at, nonce).1;
            let v = revoke_outcome(r, owner, delegate, delegation_type, nonce).1;
            &&& d.admin == r.admin && v.admin == r.admin
            &&& d.pause == r.pause && v.pause == r.pause
            &&& d.delegations.contains_key(k) == r.delegations.contains_key(k)
            &&& v.delegations.contains_key(k) == r.delegations.contains_key(k)
            &&& r.delegations.contains_key(k) ==> d.delegations[k] == r.delegations[k]
                && v.delegations[k] == r.delegations[k]
            &&& nonce_of(d, other) == nonce_of(r, other)
            &&& nonce_of(v, other) == nonce_of(r, other)
        }),
{
}

/// Nonces prevent replay: a successful delegation or revocation with nonce
/// `n` advances the identity's nonce to `n + 1`, after which any request
/// carrying `n` again is refused as an invalid nonce and changes nothing.
pub proof fn law_nonce_not_replayable(
    r: RegistryView,
    now: u64,
    owner: Seq<char>,
    delegate: Seq<char>,
    delegation_type: DelegationType,
    expires_at: u64,
    nonce: u64,
    now2: u64,
    delegate2: Seq<char>,
    delegation_type2: DelegationType,
    expires_at2: u64,
)
    ensures
        delegate_outcome(r, now, owner, delegate, delegation_type, expires_at, nonce).0 is Ok ==> {
            let after = delegate_outcome(r, now, owner, delegate, delegation_type, expires_at, nonce).1;
            &&& nonce_of(after, owner) == nonce + 1
            &&& revoke_outcome(after, owner, delegate2, delegation_type2, nonce) == (
            Err::<(), DelegationError>(DelegationError::InvalidNonce),
            after,
            )
            &&& expiry_check(now2, expires_at2) is Ok ==> delegate_outcome(
                after,
                now2,
                owner,
                delegate2,
                delegation_type2,
                expires_at2,
                nonce,
            ).0 == Err::<DelegationView, DelegationError>(DelegationError::InvalidNonce)
        },
        revoke_outcome(r, owner, delegate, delegation_type, nonce).0 is Ok ==> {
            let after = revoke_outcome(r, owner, delegate, delegation_type, nonce).1;
            &&& nonce_of(after, owner) == nonce + 1
            &&& revoke_outcome(after, owner, delegate2, delegation_type2, nonce) == (
            Err::<(), DelegationError>(DelegationError::InvalidNonce),
            after,
            )
        },
{
}

/// A paused contract refuses every delegation, revocation and nonce
/// invalidation, and none of them changes anything.
pub proof fn law_paused_refuses_changes(
    r: RegistryView,
    now: u64,
    owner: Seq<char>,
    delegate: Seq<char>,
    delegation_type: DelegationType,
    expires_at: u64,
    nonce: u64,
)
    requires
        r.pause.paused,
    ensures
        delegate_outcome(r, now, owner, delegate, delegation_type, expires_at, nonce) == (
        Err::<DelegationView, DelegationError>(DelegationError::Paused),
        r,
        ),
        revoke_outcome(r, owner, delegate, delegation_type, nonce) == (
        Err::<(), DelegationError>(DelegationError::Paused),
        r,
        ),
        invalidate_outcome(r, owner, nonce) == (
        Err::<(u64, u64), DelegationError>(DelegationError::Paused),
        r,
        ),
{
}

/// Nonces only move forward: every successful operation leaves each
/// identity's nonce at or above where it was, and the acting identity's
/// strictly above.
pub proof fn law_nonces_monotone(
    r: RegistryView,
    now: u64,
    owner: Seq<char>,
    delegate: Seq<char>,
    delegation_type: DelegationType,
    expires_at: u64,
    nonce: u64,
    new_nonce: u64,
    id: Seq<char>,
)
    ensures
        delegate_outcome(r, now, owner, delegate, delegation_type, expires_at, nonce).0 is Ok ==> {
            let after = delegate_outcome(r, now, owner, delegate, delegation_type, expires_at, nonce).1;
            nonce_of(after, id) >= nonce_of(r, id) && nonce_of(after, owner) > nonce_of(r, owner)
        },
        revoke_outcome(r, owner, delegate, delegation_type, nonce).0 is Ok ==> {
            let after = revoke_outcome(r, owner, delegate, delegation_type, nonce).1;
            nonce_of(after, id) >= nonce_of(r, id) && nonce_of(after, owner) > nonce_of(r, owner)
        },
        invalidate_outcome(r, owner, new_nonce).0 is Ok ==> {
            let after = invalidate_outcome(r, owner, new_nonce).1;
            nonce_of(after, id) >= nonce_of(r, id) && nonce_of(after, owner) == new_nonce
                && new_nonce > nonce_of(r, owner)
        },
{
}

/// Delegating always writes: on an unpaused registry, with an expiry in
/// `(now, now + MAX_DELEGATION_DURATION]` and the owner's current nonce
/// (below `u64::MAX`), delegating succeeds whatever is already stored under
/// (owner, delegate, type), live or revoked. The new delegation replaces the
/// old one, the owner's nonce advances by one, and the delegate is valid at
/// exactly the times before the new expiry.
pub proof fn law_delegate_always_replaces(
    r: RegistryView,
    now: u64,
    owner: Seq<char>,
    delegate: Seq<char>,
    delegation_type: DelegationType,
    expires_at: u64,
    nonce: u64,
    t: u64,
)
    requires
        !r.pause.paused,
        now < expires_at,
        expires_at <= now + MAX_DELEGATION_DURATION,
        nonce == nonce_of(r, owner),
        nonce < u64::MAX,
    ensures
        ({
            let (res, after) = delegate_outcome(
                r,
                now,
                owner,
                delegate,
                delegation_type,
                expires_at,
                nonce,
            );
            let k = (owner, delegate, delegation_type);
            let d = DelegationView { owner, delegate, delegation_type, expires_at, revoked: false };
            &&& res == Ok::<DelegationView, DelegationError>(d)
            &&& after.delegations.contains_key(k)
            &&& after.delegations[k] == d
            &&& nonce_of(after, owner) == nonce + 1
            &&& valid_at(after, t, owner, delegate, delegation_type) == (t < expires_at)
        }),
{
}

/// Any forward jump of at most [`MAX_NONCE_INVALIDATION_SPAN`] nonces is
/// accepted: on an unpaused registry, moving an identity from its current
/// nonce `c` to any `new_nonce` with `c < new_nonce <= c + span` succeeds,
/// returns the range `(c, new_nonce)` and leaves the nonce at `new_nonce`.
/// A forward jump is refused as too large exactly when it skips more than
/// the span, whatever the absolute value of the nonces.
pub proof fn law_invalidate_accepts_any_bounded_range(
    r: RegistryView,
    identity: Seq<char>,
    new_nonce: u64,
)
    requires
        !r.pause.paused,
        nonce_of(r, identity) < new_nonce,
    ensures
        new_nonce <= nonce_of(r, identity) + MAX_NONCE_INVALIDATION_SPAN ==> {
            let (res, after) = invalidate_outcome(r, identity, new_nonce);
            &&& res == Ok::<(u64, u64), DelegationError>((nonce_of(r, identity), new_nonce))
            &&& nonce_of(after, identity) == new_nonce
        },
        (invalidate_outcome(r, identity, new_nonce).0 == Err::<(u64, u64), DelegationError>(
            DelegationError::NonceRangeTooLarge,
        )) == (new_nonce - nonce_of(r, identity) > MAX_NONCE_INVALIDATION_SPAN),
{
}

} // verus!
