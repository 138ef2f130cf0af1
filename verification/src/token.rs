//! Bond token configuration and the checks around token transfers: admin-only
//! token selection restricted to accepted tokens, the USDC network label, and
//! the balance-delta guard that rejects fee-on-transfer tokens.
use vstd::prelude::*;
use crate::accounts::AccountId;

verus! {

broadcast use vstd::string::to_string_from_display_ensures_for_str;

/// Network label for USDC on Stellar mainnet.
pub const STELLAR_MAINNET: &'static str = "mainnet";

/// Network label for USDC on Stellar testnet.
pub const STELLAR_TESTNET: &'static str = "testnet";

/// Source classification for funds leaving the bond contract.
#[derive(Clone, Copy, Debug, PartialEq, Eq, Structural)]
pub enum FundSource {
    /// Protocol fees, including early-exit penalties.
    ProtocolFee,
    /// Slashed bond funds.
    SlashedFunds,
}

impl FundSource {
    /// The wire code of the source: ProtocolFee = 0, SlashedFunds = 1.
    pub fn code(&self) -> (code: u32)
        ensures
            code == (match *self {
                FundSource::ProtocolFee => 0u32,
                FundSource::SlashedFunds => 1u32,
            }),
    {
        match self {
            FundSource::ProtocolFee => 0,
            FundSource::SlashedFunds => 1,
        }
    }
}

/// Why a token operation was refused.
#[derive(Clone, Copy, Debug, PartialEq, Eq, Structural)]
pub enum TokenError {
    /// No admin is stored ("not initialized").
    NotInitialized,
    /// The caller is not the stored admin ("not admin").
    NotAdmin,
    /// The token is not in the accepted-token set.
    UnauthorizedToken,
    /// The network label is neither "mainnet" nor "testnet".
    UnsupportedNetwork,
    /// No bond token is configured.
    TokenNotConfigured,
    /// The amount is negative ("amount must be non-negative").
    NegativeAmount,
    /// The allowance granted to the contract is below the amount.
    InsufficientAllowance,
    /// The balance delta does not fit in an `i128` ("balance underflow").
    BalanceUnderflow,
    /// The balance moved by a different amount than requested (code 213).
    TransferAmountMismatch,
    /// The token contract refused the transfer ("token transfer failed").
    TransferFailed,
}

/// Mathematical state of the token configuration.
pub struct TokenConfigView {
    pub bond_token: Option<Seq<char>>,
    pub usdc_network: Option<Seq<char>>,
}

/// The view of an optional address.
pub open spec fn opt_view(a: Option<AccountId>) -> Option<Seq<char>> {
    match a {
        Some(x) => Some(x@),
        None => None,
    }
}

/// Whether `network` is one of the two supported labels.
pub open spec fn network_supported(network: Seq<char>) -> bool {
    network == STELLAR_MAINNET@ || network == STELLAR_TESTNET@
}

/// Outcome of setting the bond token: the caller must be the stored admin,
/// and the token must be accepted.
pub open spec fn set_token_outcome(
    c: TokenConfigView,
    stored_admin: Option<Seq<char>>,
    admin: Seq<char>,
    token: Seq<char>,
    token_accepted: bool,
) -> (Result<(), TokenError>, TokenConfigView) {
    if stored_admin is None {
        (Err(TokenError::NotInitialized), c)
    } else if admin != stored_admin->0 {
        (Err(TokenError::NotAdmin), c)
    } else if !token_accepted {
        (Err(TokenError::UnauthorizedToken), c)
    } else {
        (Ok(()), TokenConfigView { bond_token: Some(token), usdc_network: c.usdc_network })
    }
}

/// Outcome of setting the USDC token together with its network label: the
/// label is checked first, then the token as in [`set_token_outcome`].
pub open spec fn set_usdc_token_outcome(
    c: TokenConfigView,
    stored_admin: Option<Seq<char>>,
    admin: Seq<char>,
    token: Seq<char>,
    network: Seq<char>,
    token_accepted: bool,
) -> (Result<(), TokenError>, TokenConfigView) {
    if !network_supported(network) {
        (Err(TokenError::UnsupportedNetwork), c)
    } else {
        let (r, c2) = set_token_outcome(c, stored_admin, admin, token, token_accepted);
        match r {
            Err(e) => (Err(e), c),
            Ok(()) => (Ok(()), TokenConfigView { bond_token: c2.bond_token, usdc_network: Some(network) }),
        }
    }
}

/// The bond token configuration of one contract.
pub struct TokenConfig {
    bond_token: Option<AccountId>,
    usdc_network: Option<String>,
}

impl View for TokenConfig {
    type V = TokenConfigView;

    closed spec fn view(&self) -> TokenConfigView {
        TokenConfigView {
            bond_token: opt_view(self.bond_token),
            usdc_network: match self.usdc_network {
                Some(n) => Some(n@),
                None => None,
            },
        }
    }
}

/// Whether `network` is "mainnet" or "testnet".
pub fn is_supported_network(network: &str) -> (supported: bool)
    ensures
        supported == network_supported(network@),
{
    let n = network.to_owned();
    let mainnet = STELLAR_MAINNET.to_string();
    let testnet = STELLAR_TESTNET.to_string();
    n == mainnet || n == testnet
}

impl TokenConfig {
    /// No token and no network configured.
    pub fn new() -> (c: TokenConfig)
        ensures
            c@.bond_token is None,
            c@.usdc_network is None,
    {
        TokenConfig { bond_token: None, usdc_network: None }
    }

    /// A configuration holding the given stored values.
    pub fn restore(bond_token: Option<AccountId>, usdc_network: Option<String>) -> (c: TokenConfig)
        ensures
            c@.bond_token == opt_view(bond_token),
            c@.usdc_network == (match usdc_network {
                Some(n) => Some(n@),
                None => None::<Seq<char>>,
            }),
    {
        TokenConfig { bond_token, usdc_network }
    }

    /// Sets the bond token; only the stored admin may, and only to an
    /// accepted token.
    pub fn set_token(
        &mut self,
        stored_admin: Option<&AccountId>,
        admin: &AccountId,
        token: AccountId,
        token_accepted: bool,
    ) -> (result: Result<(), TokenError>)
        ensures
            (result, final(self)@) == set_token_outcome(
                old(self)@,
                match stored_admin {
                    Some(a) => Some(a@),
                    None => None,
                },
                admin@,
                token@,
                token_accepted,
            ),
    {
        match stored_admin {
            None => Err(TokenError::NotInitialized),
            Some(stored) => {
                if !admin.same_as(stored) {
                    return Err(TokenError::NotAdmin);
                }
                if !token_accepted {
                    return Err(TokenError::UnauthorizedToken);
                }
                self.bond_token = Some(token);
                Ok(())
            },
        }
    }

    /// Sets the USDC token and records its network label, which must be
    /// "mainnet" or "testnet".
    pub fn set_usdc_token(
        &mut self,
        stored_admin: Option<&AccountId>,
        admin: &AccountId,
        token: AccountId,
        network: String,
        token_accepted: bool,
    ) -> (result: Result<(), TokenError>)
        ensures
            (result, final(self)@) == set_usdc_token_outcome(
                old(self)@,
                match stored_admin {
                    Some(a) => Some(a@),
                    None => None,
                },
                admin@,
                token@,
                network@,
                token_accepted,
            ),
    {
        if !is_supported_network(network.as_str()) {
            return Err(TokenError::UnsupportedNetwork);
        }
        match self.set_token(stored_admin, admin, token, token_accepted) {
            Err(e) => Err(e),
            Ok(()) => {
                self.usdc_network = Some(network);
                Ok(())
            },
        }
    }

    /// The configured bond token.
    pub fn get_token(&self) -> (token: Result<AccountId, TokenError>)
        ensures
            token is Ok <==> self@.bond_token is Some,
            token matches Ok(t) ==> self@.bond_token == Some(t@),
            token matches Err(e) ==> e == TokenError::TokenNotConfigured,
    {
        match &self.bond_token {
            None => Err(TokenError::TokenNotConfigured),
            Some(t) => Ok(t.duplicate()),
        }
    }

    /// Whether a bond token has been configured.
    pub fn has_token(&self) -> (configured: bool)
        ensures
            configured == self@.bond_token is Some,
    {
        self.bond_token.is_some()
    }

    /// The configured USDC network label, if set.
    pub fn get_usdc_network(&self) -> (network: Option<String>)
        ensures
            network matches Some(n) ==> self@.usdc_network == Some(n@),
            network is None ==> self@.usdc_network is None,
    {
        match &self.usdc_network {
            None => None,
            Some(n) => Some(n.clone()),
        }
    }
}

/// First step of a transfer into the contract: a negative amount is refused,
/// a zero amount needs no transfer (`Ok(false)`), a positive one does
/// (`Ok(true)`).
pub fn transfer_needed(amount: i128) -> (needed: Result<bool, TokenError>)
    ensures
        amount < 0 ==> needed == Err::<bool, TokenError>(TokenError::NegativeAmount),
        amount >= 0 ==> needed == Ok::<bool, TokenError>(amount > 0),
{
    if amount < 0 {
        Err(TokenError::NegativeAmount)
    } else {
        Ok(amount > 0)
    }
}

/// The allowance granted by the owner to the contract must cover the amount.
pub fn check_allowance(allowance: i128, amount: i128) -> (ok: Result<(), TokenError>)
    ensures
        ok is Ok <==> allowance >= amount,
        ok matches Err(e) ==> e == TokenError::InsufficientAllowance,
{
    if allowance < amount {
        Err(TokenError::InsufficientAllowance)
    } else {
        Ok(())
    }
}

/// Fee-on-transfer guard for incoming transfers: the contract's balance
/// must have grown by exactly `amount`.
pub fn verify_received(balance_before: i128, balance_after: i128, amount: i128) -> (ok: Result<
    (),
    TokenError,
>)
    ensures
        ok is Ok <==> balance_after - balance_before == amount,
        ok == (if balance_after - balance_before < i128::MIN || balance_after - balance_before
            > i128::MAX {
            Err::<(), TokenError>(TokenError::BalanceUnderflow)
        } else if balance_after - balance_before != amount {
            Err::<(), TokenError>(TokenError::TransferAmountMismatch)
        } else {
            Ok::<(), TokenError>(())
        }),
{
    match balance_after.checked_sub(balance_before) {
        None => Err(TokenError::BalanceUnderflow),
        Some(received) => if received != amount {
            Err(TokenError::TransferAmountMismatch)
        } else {
            Ok(())
        },
    }
}

/// Fee-on-transfer guard for outgoing transfers: the contract's balance
/// must have shrunk by exactly `amount`.
pub fn verify_sent(balance_before: i128, balance_after: i128, amount: i128) -> (ok: Result<
    (),
    TokenError,
>)
    ensures
        ok is Ok <==> balance_before - balance_after == amount,
        ok == (if balance_before - balance_after < i128::MIN || balance_before - balance_after
            > i128::MAX {
            Err::<(), TokenError>(TokenError::BalanceUnderflow)
        } else if balance_before - balance_after != amount {
            Err::<(), TokenError>(TokenError::TransferAmountMismatch)
        } else {
            Ok::<(), TokenError>(())
        }),
{
    match balance_before.checked_sub(balance_after) {
        None => Err(TokenError::BalanceUnderflow),
        Some(sent) => if sent != amount {
            Err(TokenError::TransferAmountMismatch)
        } else {
            Ok(())
        },
    }
}

/// Which way a guarded transfer moves funds.
#[derive(Clone, Copy, Debug, PartialEq, Eq, Structural)]
pub enum TransferDirection {
    /// From an owner into the bond contract (`transfer_from`, after an
    /// allowance check).
    IntoContract,
    /// From the bond contract to a recipient (`transfer`).
    FromContract,
}

/// Where a guarded transfer stands between two token-contract calls.
#[derive(Clone, Copy, Debug, PartialEq, Eq, Structural)]
pub enum TransferState {
    /// Nothing done yet.
    Start,
    /// Waiting for the owner's allowance to the contract.
    AwaitAllowance,
    /// Waiting for the contract's balance before the transfer.
    AwaitBalanceBefore,
    /// Waiting for the outcome of the transfer; `before` is the contract's
    /// balance before it.
    AwaitTransfer { before: i128 },
    /// Waiting for the contract's balance after the transfer.
    AwaitBalanceAfter { before: i128 },
    /// The transfer is complete (or was not needed).
    Done,
    /// The transfer was refused.
    Failed(TokenError),
}

/// What the token contract answered, or the signal to begin.
#[derive(Clone, Copy, Debug, PartialEq, Eq, Structural)]
pub enum TransferEvent {
    Begin,
    Allowance(i128),
    Balance(i128),
    /// Whether the transfer call succeeded.
    Transferred(bool),
}

/// The next token-contract call to make, or the end of the transfer.
#[derive(Clone, Copy, Debug, PartialEq, Eq, Structural)]
pub enum TransferAction {
    ReadAllowance,
    ReadBalance,
    /// Transfer the amount (`transfer_from` into the contract, `transfer` out
    /// of it).
    Transfer,
    Finish,
    Abort(TokenError),
}

/// Whether `event` is the answer that `state` waits for.
pub open spec fn step_expected(state: TransferState, event: TransferEvent) -> bool {
    match (state, event) {
        (TransferState::Start, TransferEvent::Begin) => true,
        (TransferState::AwaitAllowance, TransferEvent::Allowance(_)) => true,
        (TransferState::AwaitBalanceBefore, TransferEvent::Balance(_)) => true,
        (TransferState::AwaitTransfer { .. }, TransferEvent::Transferred(_)) => true,
        (TransferState::AwaitBalanceAfter { .. }, TransferEvent::Balance(_)) => true,
        _ => false,
    }
}

/// The refusal of a failed check: the next state and the abort action.
pub open spec fn refuse(e: TokenError) -> (TransferState, TransferAction) {
    (TransferState::Failed(e), TransferAction::Abort(e))
}

/// One step of a guarded transfer of `amount`: a negative amount is refused
/// and a zero amount finishes at once; into the contract, the allowance must
/// cover the amount; then the contract's balance is read, the transfer made
/// and the balance read again, and the balance must have moved by exactly
/// `amount`.
pub open spec fn transfer_step(
    direction: TransferDirection,
    amount: i128,
    state: TransferState,
    event: TransferEvent,
) -> (TransferState, TransferAction) {
    match (state, event) {
        (TransferState::Start, TransferEvent::Begin) => if amount < 0 {
            refuse(TokenError::NegativeAmount)
        } else if amount == 0 {
            (TransferState::Done, TransferAction::Finish)
        } else if direction == TransferDirection::IntoContract {
            (TransferState::AwaitAllowance, TransferAction::ReadAllowance)
        } else {
            (TransferState::AwaitBalanceBefore, TransferAction::ReadBalance)
        },
        (TransferState::AwaitAllowance, TransferEvent::Allowance(a)) => if a < amount {
            refuse(TokenError::InsufficientAllowance)
        } else {
            (TransferState::AwaitBalanceBefore, TransferAction::ReadBalance)
        },
        (TransferState::AwaitBalanceBefore, TransferEvent::Balance(b)) => (
            TransferState::AwaitTransfer { before: b },
            TransferAction::Transfer,
        ),
        (TransferState::AwaitTransfer { before }, TransferEvent::Transferred(ok)) => if ok {
            (TransferState::AwaitBalanceAfter { before }, TransferAction::ReadBalance)
        } else {
            refuse(TokenError::TransferFailed)
        },
        (TransferState::AwaitBalanceAfter { before }, TransferEvent::Balance(after)) => {
            let delta = if direction == TransferDirection::IntoContract {
                after - before
            } else {
                before - after
            };
            if delta < i128::MIN || delta > i128::MAX {
                refuse(TokenError::BalanceUnderflow)
            } else if delta != amount {
                refuse(TokenError::TransferAmountMismatch)
            } else {
                (TransferState::Done, TransferAction::Finish)
            }
        },
        _ => (state, TransferAction::Abort(TokenError::TransferFailed)),
    }
}

/// Whether `state` waits for `event`.
pub fn step_expects(state: TransferState, event: TransferEvent) -> (expected: bool)
    ensures
        expected == step_expected(state, event),
{
    match (state, event) {
        (TransferState::Start, TransferEvent::Begin) => true,
        (TransferState::AwaitAllowance, TransferEvent::Allowance(_)) => true,
        (TransferState::AwaitBalanceBefore, TransferEvent::Balance(_)) => true,
        (TransferState::AwaitTransfer { .. }, TransferEvent::Transferred(_)) => true,
        (TransferState::AwaitBalanceAfter { .. }, TransferEvent::Balance(_)) => true,
        _ => false,
    }
}

/// The decision of one step of a guarded transfer: from the state and the
/// token contract's answer, the next state and the next call to make.
pub fn next_transfer_step(
    direction: TransferDirection,
    amount: i128,
    state: TransferState,
    event: TransferEvent,
) -> (next: (TransferState, TransferAction))
    requires
        step_expected(state, event),
    ensures
        next == transfer_step(direction, amount, state, event),
{
    match (state, event) {
        (TransferState::Start, TransferEvent::Begin) => match transfer_needed(amount) {
            Err(e) => (TransferState::Failed(e), TransferAction::Abort(e)),
            Ok(false) => (TransferState::Done, TransferAction::Finish),
            Ok(true) => match direction {
                TransferDirection::IntoContract => (
                    TransferState::AwaitAllowance,
                    TransferAction::ReadAllowance,
                ),
                TransferDirection::FromContract => (
                    TransferState::AwaitBalanceBefore,
                    TransferAction::ReadBalance,
                ),
            },
        },
        (TransferState::AwaitAllowance, TransferEvent::Allowance(a)) => match check_allowance(
            a,
            amount,
        ) {
            Err(e) => (TransferState::Failed(e), TransferAction::Abort(e)),
            Ok(()) => (TransferState::AwaitBalanceBefore, TransferAction::ReadBalance),
        },
        (TransferState::AwaitBalanceBefore, TransferEvent::Balance(b)) => (
            TransferState::AwaitTransfer { before: b },
            TransferAction::Transfer,
        ),
        (TransferState::AwaitTransfer { before }, TransferEvent::Transferred(ok)) => if ok {
            (TransferState::AwaitBalanceAfter { before }, TransferAction::ReadBalance)
        } else {
            (
                TransferState::Failed(TokenError::TransferFailed),
                TransferAction::Abort(TokenError::TransferFailed),
            )
        },
        (TransferState::AwaitBalanceAfter { before }, TransferEvent::Balance(after)) => {
            let checked = match direction {
                TransferDirection::IntoContract => verify_received(before, after, amount),
                TransferDirection::FromContract => verify_sent(before, after, amount),
            };
            match checked {
                Err(e) => (TransferState::Failed(e), TransferAction::Abort(e)),
                Ok(()) => (TransferState::Done, TransferAction::Finish),
            }
        },
        _ => (state, TransferAction::Abort(TokenError::TransferFailed)),
    }
}

/// A guarded transfer completes only as documented: run from the start with
/// the answers `allowance` (into the contract only), `before`, a successful
/// transfer and `after`, it finishes exactly when the amount is zero, or when
/// it is positive, the allowance covers it (into the contract) and the
/// contract's balance moved by exactly the amount; otherwise it aborts.
pub proof fn law_transfer_completes_only_with_exact_delta(
    direction: TransferDirection,
    amount: i128,
    allowance: i128,
    before: i128,
    after: i128,
)
    ensures
        ({
            let (s1, a1) = transfer_step(direction, amount, TransferState::Start, TransferEvent::Begin);
            let (s2, a2) = if direction == TransferDirection::IntoContract {
                transfer_step(direction, amount, s1, TransferEvent::Allowance(allowance))
            } else {
                (s1, a1)
            };
            let (s3, a3) = transfer_step(direction, amount, s2, TransferEvent::Balance(before));
            let (s4, a4) = transfer_step(direction, amount, s3, TransferEvent::Transferred(true));
            let (s5, a5) = transfer_step(direction, amount, s4, TransferEvent::Balance(after));
            let delta = if direction == TransferDirection::IntoContract {
                after - before
            } else {
                before - after
            };
            &&& amount < 0 ==> a1 == TransferAction::Abort(TokenError::NegativeAmount)
            &&& amount == 0 ==> a1 == TransferAction::Finish
            &&& amount > 0 ==> (a5 == TransferAction::Finish <==> ((direction
                == TransferDirection::FromContract || allowance >= amount) && delta == amount))
            &&& amount > 0 && a5 == TransferAction::Finish ==> a4 == TransferAction::ReadBalance
                && a3 == TransferAction::Transfer && s5 == TransferState::Done
        }),
{
}

/// A refused transfer stays refused, and a finished one stays finished: no
/// answer moves a transfer out of `Done` or `Failed`.
pub proof fn law_transfer_end_is_final(
    direction: TransferDirection,
    amount: i128,
    e: TokenError,
    event: TransferEvent,
)
    ensures
        !step_expected(TransferState::Done, event),
        !step_expected(TransferState::Failed(e), event),
        transfer_step(direction, amount, TransferState::Done, event).0 == TransferState::Done,
        transfer_step(direction, amount, TransferState::Failed(e), event).0
            == TransferState::Failed(e),
{
}

/// An attributed outgoing transfer, as announced by `bond_fund_transfer`.
#[derive(Debug, PartialEq, Eq)]
pub struct FundTransfer {
    pub recipient: AccountId,
    pub amount: i128,
    pub source: FundSource,
}

/// The attribution to announce after a transfer out of the contract: one
/// exactly when something was transferred (`amount > 0`).
pub fn fund_transfer_attribution(recipient: &AccountId, amount: i128, source: FundSource) -> (event:
    Option<FundTransfer>)
    ensures
        event is Some <==> amount > 0,
        event matches Some(e) ==> e.recipient@ == recipient@ && e.amount == amount && e.source
            == source,
{
    if amount > 0 {
        Some(FundTransfer { recipient: recipient.duplicate(), amount, source })
    } else {
        None
    }
}

/// Read after write: once the bond token is set, the configuration reports
/// it, and an unsupported network label is never stored.
pub proof fn law_token_read_after_write(
    c: TokenConfigView,
    stored_admin: Option<Seq<char>>,
    admin: Seq<char>,
    token: Seq<char>,
    network: Seq<char>,
    token_accepted: bool,
)
    ensures
        set_token_outcome(c, stored_admin, admin, token, token_accepted).0 is Ok ==> set_token_outcome(
            c,
            stored_admin,
            admin,
            token,
            token_accepted,
        ).1.bond_token == Some(token),
        set_usdc_token_outcome(c, stored_admin, admin, token, network, token_accepted).0 is Ok
            ==> set_usdc_token_outcome(c, stored_admin, admin, token, network, token_accepted).1
            == (TokenConfigView { bond_token: Some(token), usdc_network: Some(network) }),
        !network_supported(network) ==> set_usdc_token_outcome(
            c,
            stored_admin,
            admin,
            token,
            network,
            token_accepted,
        ) == (Err::<(), TokenError>(TokenError::UnsupportedNetwork), c),
{
}

/// Only the stored admin changes the token: any other caller is refused and
/// the configuration is unchanged.
pub proof fn law_only_admin_sets_token(
    c: TokenConfigView,
    stored_admin: Seq<char>,
    caller: Seq<char>,
    token: Seq<char>,
    network: Seq<char>,
    token_accepted: bool,
)
    requires
        caller != stored_admin,
    ensures
        set_token_outcome(c, Some(stored_admin), caller, token, token_accepted).1 == c,
        set_token_outcome(c, Some(stored_admin), caller, token, token_accepted).0 is Err,
        set_usdc_token_outcome(c, Some(stored_admin), caller, token, network, token_accepted).1
            == c,
        set_usdc_token_outcome(c, Some(stored_admin), caller, token, network, token_accepted).0 is Err,
{
}

/// Both supported labels are accepted: when the stored admin sets an
/// accepted USDC token with the label "mainnet" or "testnet", the call
/// succeeds and afterwards the bond token is that token and the network
/// label is that label. Any other label is refused, with nothing changed.
pub proof fn law_supported_usdc_label_accepted(
    c: TokenConfigView,
    admin: Seq<char>,
    token: Seq<char>,
    network: Seq<char>,
)
    ensures
        (network == STELLAR_MAINNET@ || network == STELLAR_TESTNET@) ==> {
            let (r, after) = set_usdc_token_outcome(c, Some(admin), admin, token, network, true);
            &&& r is Ok
            &&& after.bond_token == Some(token)
            &&& after.usdc_network == Some(network)
        },
        !(network == STELLAR_MAINNET@ || network == STELLAR_TESTNET@) ==> set_usdc_token_outcome(
            c,
            Some(admin),
            admin,
            token,
            network,
            true,
        ) == (Err::<(), TokenError>(TokenError::UnsupportedNetwork), c),
{
}

/// The stored admin can always set an accepted token: the call succeeds,
/// the bond token becomes that token and the network label is kept. A caller
/// other than the stored admin, or a token outside the accepted set, is
/// refused with nothing changed.
pub proof fn law_admin_sets_accepted_token(
    c: TokenConfigView,
    stored_admin: Seq<char>,
    admin: Seq<char>,
    token: Seq<char>,
    token_accepted: bool,
)
    ensures
        admin == stored_admin && token_accepted ==> {
            let (r, after) = set_token_outcome(c, Some(stored_admin), admin, token, true);
            &&& r is Ok
            &&& after.bond_token == Some(token)
            &&& after.usdc_network == c.usdc_network
        },
        !(admin == stored_admin && token_accepted) ==> set_token_outcome(
            c,
            Some(stored_admin),
            admin,
            token,
            token_accepted,
        ).0 is Err && set_token_outcome(c, Some(stored_admin), admin, token, token_accepted).1 == c,
{
}

} // verus!
