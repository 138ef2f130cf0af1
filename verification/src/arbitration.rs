//! Arbitration: arbitrators vote on disputes with a weight derived from
//! their bond, and disputes move through a small status machine.
use vstd::prelude::*;
use soroban_sdk::Symbol;
use crate::accounts::AccountId;

verus! {

broadcast use vstd::string::to_string_from_display_ensures_for_str;

#[verifier::external_type_specification]
#[verifier::external_body]
pub struct ExSymbol(Symbol);

/// The symbol that `Symbol::short` builds from a short text.
pub uninterp spec fn short_symbol(text: Seq<char>) -> Symbol;

/// Whether `text` can be a short symbol: at most 9 characters, each from
/// `a-zA-Z0-9_`.
pub open spec fn short_symbol_text(text: Seq<char>) -> bool {
    &&& text.len() <= 9
    &&& forall|i: int|
        0 <= i < text.len() ==> {
            let c = #[trigger] text[i];
            ('a' <= c <= 'z') || ('A' <= c <= 'Z') || ('0' <= c <= '9') || c == '_'
        }
}

/// `soroban_sdk::Symbol::short`: builds the small symbol holding `text`. The
/// outside function panics unless `text` has at most 9 characters from
/// `a-zA-Z0-9_`; the result is a function of the text alone. It packs each
/// character into its own non-zero 6-bit code, so two different valid texts
/// never give the same symbol.
#[verifier::external_body]
#[allow(deprecated)]
fn symbol_short(text: &str) -> (sym: Symbol)
    requires
        short_symbol_text(text@),
    ensures
        sym == short_symbol(text@),
        forall|t: Seq<char>| short_symbol_text(t) && #[trigger] short_symbol(t) == sym ==> t == text@,
{
    Symbol::short(text)
}

/// The arbitration contract.
pub struct Arbitration;

/// An arbitrator and the weight snapshot taken from its bond, if any.
#[derive(Debug, PartialEq, Eq)]
pub struct ArbitratorRegistration {
    pub address: AccountId,
    pub weight_snapshot: Option<u32>,
}

/// Lifecycle of a dispute.
#[derive(Clone, Copy, Debug, PartialEq, Eq, Structural)]
pub enum DisputeStatus {
    Open,
    InVoting,
    /// Finalized with the decision: `true` upheld, `false` dismissed.
    Finalized(bool),
    Appealed,
}

/// The name under which a status is published.
pub open spec fn status_label(s: DisputeStatus) -> Seq<char> {
    match s {
        DisputeStatus::Open => "open"@,
        DisputeStatus::InVoting => "voting"@,
        DisputeStatus::Finalized(true) => "upheld"@,
        DisputeStatus::Finalized(false) => "dismissed"@,
        DisputeStatus::Appealed => "appealed"@,
    }
}

impl DisputeStatus {
    /// The name under which the status is published.
    pub fn label(&self) -> (text: &'static str)
        ensures
            text@ == status_label(*self),
    {
        match self {
            DisputeStatus::Open => "open",
            DisputeStatus::InVoting => "voting",
            DisputeStatus::Finalized(true) => "upheld",
            DisputeStatus::Finalized(false) => "dismissed",
            DisputeStatus::Appealed => "appealed",
        }
    }

    /// The status as a short symbol: `open`, `voting`, `upheld`,
    /// `dismissed` or `appealed`. No other status has the same symbol.
    pub fn to_symbol(&self) -> (sym: Symbol)
        ensures
            sym == short_symbol(status_label(*self)),
            forall|s: DisputeStatus| #[trigger] short_symbol(status_label(s)) == sym ==> s == *self,
    {
        let text = self.label();
        proof {
            lemma_label_is_short_symbol_text(*self);
        }
        let sym = symbol_short(text);
        proof {
            assert forall|s: DisputeStatus| #[trigger]
                short_symbol(status_label(s)) == sym implies s == *self by {
                lemma_label_is_short_symbol_text(s);
                law_status_labels_distinct(s, *self);
            }
        }
        sym
    }
}

/// Every status name is a valid short-symbol text.
proof fn lemma_label_is_short_symbol_text(s: DisputeStatus)
    ensures
        short_symbol_text(status_label(s)),
{
    reveal_strlit("open");
    reveal_strlit("voting");
    reveal_strlit("upheld");
    reveal_strlit("dismissed");
    reveal_strlit("appealed");
}

/// Status names are distinct: two statuses publish the same name only if
/// they are the same status.
pub proof fn law_status_labels_distinct(a: DisputeStatus, b: DisputeStatus)
    ensures
        status_label(a) == status_label(b) ==> a == b,
{
    reveal_strlit("open");
    reveal_strlit("voting");
    reveal_strlit("upheld");
    reveal_strlit("dismissed");
    reveal_strlit("appealed");
    if status_label(a) == status_label(b) {
        assert(status_label(a).len() == status_label(b).len());
        assert(status_label(a)[0] == status_label(b)[0]);
    }
}

/// The error returned when an arbitrator without bond weight votes.
pub open spec fn no_bond_message() -> Seq<char> {
    "Arbitrator has no bond"@
}

/// The voting weight that a bonded balance gives: nothing for an empty or
/// negative balance, otherwise the balance, capped at `u32::MAX`.
pub open spec fn weight_of_bond(bonded_balance: int) -> u32 {
    if bonded_balance <= 0 {
        0
    } else if bonded_balance > u32::MAX {
        u32::MAX
    } else {
        bonded_balance as u32
    }
}

impl Arbitration {
    /// Registers an arbitrator; registration always succeeds.
    pub fn register_arbitrator(arbitrator: &AccountId) -> (registered: bool)
        ensures
            registered,
    {
        true
    }

    /// The voting weight of an arbitrator, derived from its bonded balance
    /// alone (no admin-set weight is consulted).
    pub fn derive_weight_from_bond(bonded_balance: i128) -> (weight: u32)
        ensures
            weight == weight_of_bond(bonded_balance as int),
            weight > 0 <==> bonded_balance > 0,
    {
        if bonded_balance <= 0 {
            0
        } else if bonded_balance > u32::MAX as i128 {
            u32::MAX
        } else {
            bonded_balance as u32
        }
    }

    /// Records a vote on a dispute by an arbitrator whose bond holds
    /// `bonded_balance`; refused with "Arbitrator has no bond" exactly when
    /// the weight derived from that balance is 0.
    pub fn submit_vote(
        dispute_id: u64,
        arbitrator: &AccountId,
        decision: bool,
        bonded_balance: i128,
    ) -> (result: Result<(), String>)
        ensures
            result is Ok <==> weight_of_bond(bonded_balance as int) > 0,
            result matches Err(m) ==> m@ == no_bond_message(),
    {
        let weight = Self::derive_weight_from_bond(bonded_balance);
        if weight == 0 {
            return Err("Arbitrator has no bond".to_string());
        }
        Ok(())
    }
}

} // verus!
