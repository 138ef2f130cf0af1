//! Account and contract addresses, held by their strkey text (`G…` / `C…`).
use vstd::prelude::*;

verus! {

/// An account or contract address, identified by its strkey text.
///
/// Two addresses are the same exactly when their texts are equal.
#[derive(Debug, PartialEq, Eq)]
pub struct AccountId {
    pub key: String,
}

impl View for AccountId {
    type V = Seq<char>;

    open spec fn view(&self) -> Seq<char> {
        self.key@
    }
}

impl AccountId {
    /// Wraps the strkey text of an address.
    pub fn new(key: String) -> (id: AccountId)
        ensures
            id@ == key@,
    {
        AccountId { key }
    }

    /// Whether `self` and `other` denote the same address.
    pub fn same_as(&self, other: &AccountId) -> (same: bool)
        ensures
            same == (self@ == other@),
    {
        self.key == other.key
    }

    /// A second handle on the same address.
    pub fn duplicate(&self) -> (copy: AccountId)
        ensures
            copy@ == self@,
    {
        AccountId { key: self.key.clone() }
    }
}

} // verus!
