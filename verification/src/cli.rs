//! Admin command planning: which contract function each admin command
//! invokes, with which encoded arguments, and the dry-run report fields.
use vstd::prelude::*;
use stellar_baselib::address::{Address, AddressTrait};
use stellar_baselib::contract::{ContractBehavior, Contracts};
use stellar_baselib::keypair::{Keypair, KeypairBehavior};
use stellar_strkey::ed25519::PrivateKey;

verus! {

broadcast use vstd::string::to_string_from_display_ensures_for_str;

/// Contract used when none is given: the all-zero contract address.
pub const PLACEHOLDER_CONTRACT_ID: &'static str = "CAAAAAAAAAAAAAAAAAAAAAAAAAAAAAAAAAAAAAAAAAAAAAAAAAAABSC4";

/// Source account of dry runs: the all-zero account address.
pub const DRY_RUN_SOURCE: &'static str = "GAAAAAAAAAAAAAAAAAAAAAAAAAAAAAAAAAAAAAAAAAAAAAAAAAAAAWHF";

/// Whether the address parser of `stellar_baselib` accepts `addr` (an
/// account `G…`, contract `C…` or muxed `M…` strkey with a valid checksum).
pub uninterp spec fn stellar_address_accepted(addr: Seq<char>) -> bool;

/// The message of every address the parser rejects.
pub open spec fn unsupported_address_message() -> Seq<char> {
    "Unsupported address type"@
}

/// `stellar_baselib::address::Address::new`: parses a strkey address. The
/// contract claims that acceptance depends on the text alone, and that every
/// rejection carries the message "Unsupported address type", the only error
/// the function returns.
#[verifier::external_body]
fn parse_stellar_address(addr: &str) -> (parsed: Result<(), String>)
    ensures
        parsed is Ok <==> stellar_address_accepted(addr@),
        parsed matches Err(m) ==> m@ == unsupported_address_message(),
{
    match <Address as AddressTrait>::new(addr) {
        Ok(_) => Ok(()),
        Err(e) => Err(e.to_string()),
    }
}

#[verifier::external_type_specification]
#[verifier::external_body]
pub struct ExContracts(Contracts);

/// Whether the contract constructor of `stellar_baselib` accepts `id` (a
/// contract strkey `C…` with a valid checksum).
pub uninterp spec fn contract_id_accepted(id: Seq<char>) -> bool;

/// The message of every contract id the constructor rejects.
pub open spec fn contract_decode_message() -> Seq<char> {
    "Failed to decode contract ID"@
}

/// The contract handle that `Contracts::new` decodes from `id`.
pub uninterp spec fn contract_handle(id: Seq<char>) -> Contracts;

/// `stellar_baselib::contract::Contracts::new`: decodes a contract strkey
/// into the contract handle that builds invocations. The contract claims
/// that acceptance and the decoded handle depend on the text alone, and that
/// every rejection carries the message "Failed to decode contract ID", the
/// only error the function returns.
#[verifier::external_body]
fn parse_contract_id(id: &str) -> (parsed: Result<Contracts, String>)
    ensures
        parsed is Ok <==> contract_id_accepted(id@),
        parsed matches Ok(c) ==> c == contract_handle(id@),
        parsed matches Err(m) ==> m@ == contract_decode_message(),
{
    match <Contracts as ContractBehavior>::new(id) {
        Ok(c) => Ok(c),
        Err(e) => Err(e.to_string()),
    }
}

#[verifier::external_type_specification]
#[verifier::external_body]
pub struct ExKeypair(Keypair);

/// Whether `secret` decodes as an ed25519 secret-seed strkey (`S…`, a
/// 32-byte payload with a valid checksum).
pub uninterp spec fn secret_seed_decodes(secret: Seq<char>) -> bool;

/// `stellar_strkey::ed25519::PrivateKey::from_string`: whether the text
/// decodes as a secret seed. The decode never panics and depends on the text
/// alone.
#[verifier::external_body]
fn decode_secret_seed(secret: &str) -> (decodes: bool)
    ensures
        decodes == secret_seed_decodes(secret@),
{
    PrivateKey::from_string(secret).is_ok()
}

/// The keypair that `Keypair::from_secret` builds from a decodable seed.
pub uninterp spec fn secret_keypair(secret: Seq<char>) -> Keypair;

/// `stellar_baselib::keypair::Keypair::from_secret`: the signing keypair of
/// a secret seed. The outside function unwraps the same strkey decode, so it
/// panics unless the seed decodes; a decoded seed has 32 bytes, and for such
/// a seed the function always builds the keypair, which depends on the seed
/// alone.
#[verifier::external_body]
fn keypair_from_secret(secret: &str) -> (kp: Result<Keypair, String>)
    requires
        secret_seed_decodes(secret@),
    ensures
        kp is Ok,
        kp->Ok_0 == secret_keypair(secret@),
{
    match <Keypair as KeypairBehavior>::from_secret(secret) {
        Ok(kp) => Ok(kp),
        Err(e) => Err(e.to_string()),
    }
}

/// The account strkey (`G…`) that `Keypair::public_key` gives for the
/// keypair of the secret seed `secret`.
pub uninterp spec fn signing_account(secret: Seq<char>) -> Seq<char>;

/// `stellar_baselib::keypair::Keypair::public_key`: the account strkey
/// (`G…`) of a keypair, a function of the keypair alone. For the keypair
/// built from a decodable seed, it is that seed's signing account.
#[verifier::external_body]
fn keypair_public_key(kp: &Keypair) -> (key: String)
    ensures
        forall|s: Seq<char>|
            secret_seed_decodes(s) && #[trigger] secret_keypair(s) == *kp ==> key@
                == signing_account(s),
{
    kp.public_key()
}

/// The lowercase hexadecimal digit for `n < 16`.
pub open spec fn hex_digit(n: int) -> char {
    if n < 10 {
        (('0' as int) + n) as char
    } else {
        (('a' as int) + n - 10) as char
    }
}

/// Lowercase hexadecimal text of `bytes`: two digits per byte, high nibble
/// first.
pub open spec fn hex_lower(bytes: Seq<u8>) -> Seq<char>
    decreases bytes.len(),
{
    if bytes.len() == 0 {
        Seq::empty()
    } else {
        seq![hex_digit(bytes[0] as int / 16), hex_digit(bytes[0] as int % 16)] + hex_lower(bytes.drop_first())
    }
}

/// `hex::encode`: lowercase hexadecimal text of the bytes, two digits per
/// byte, high nibble first, as its documentation and source show.
#[verifier::external_body]
fn hex_encode(bytes: &[u8]) -> (text: String)
    ensures
        text@ == hex_lower(bytes@),
{
    hex::encode(bytes)
}

/// An argument of a contract invocation.
#[derive(Debug, PartialEq, Eq)]
pub enum InvokeArg {
    /// An address, by its strkey text.
    Address(String),
    U32(u32),
    Bool(bool),
}

/// Mathematical content of an invocation argument.
pub enum InvokeArgView {
    Address(Seq<char>),
    U32(u32),
    Bool(bool),
}

impl View for InvokeArg {
    type V = InvokeArgView;

    open spec fn view(&self) -> InvokeArgView {
        match self {
            InvokeArg::Address(s) => InvokeArgView::Address(s@),
            InvokeArg::U32(v) => InvokeArgView::U32(*v),
            InvokeArg::Bool(b) => InvokeArgView::Bool(*b),
        }
    }
}

/// The mathematical content of a list of arguments.
pub open spec fn args_view(args: Seq<InvokeArg>) -> Seq<InvokeArgView> {
    args.map_values(|a: InvokeArg| a@)
}

/// Why an admin command could not be planned or run.
#[derive(Debug, PartialEq, Eq)]
pub enum CliError {
    /// The address was rejected by the parser, for the given reason.
    InvalidAddress { address: String, reason: String },
    /// `--submit` was given without a signer key.
    MissingSigner,
    /// The contract id was rejected by the decoder, for the given reason.
    InvalidContract { contract: String, reason: String },
    /// The signer key does not decode as a secret seed.
    InvalidSigner,
}

/// An admin operation on a Credence contract.
#[derive(Debug, PartialEq, Eq)]
pub enum AdminCommand {
    /// `set_early_exit_config(admin, treasury, penalty_bps)` on a bond contract.
    BondSetEarlyExitConfig { admin: String, treasury: String, bps: u32 },
    /// `set_weight_config(admin, multiplier_bps, max_weight)` on a bond contract.
    BondSetWeights { admin: String, multiplier_bps: u32, max_weight: u32 },
    /// `set_pause_signer(admin, signer, enabled)` on a delegation contract.
    DelegationSetPauseSigner { admin: String, pause_signer: String, enabled: bool },
}

/// The error for a rejected address.
pub open spec fn is_invalid_address_error(e: CliError, addr: Seq<char>) -> bool {
    e matches CliError::InvalidAddress { address, reason } && address@ == addr && reason@
        == unsupported_address_message()
}

/// Encodes an address argument; refused when the parser rejects the address.
pub fn addr_to_sc_val(addr: &str) -> (arg: Result<InvokeArg, CliError>)
    ensures
        arg is Ok <==> stellar_address_accepted(addr@),
        arg matches Ok(a) ==> a@ == InvokeArgView::Address(addr@),
        arg matches Err(e) ==> is_invalid_address_error(e, addr@),
{
    match parse_stellar_address(addr) {
        Ok(()) => Ok(InvokeArg::Address(addr.to_string())),
        Err(reason) => Err(CliError::InvalidAddress { address: addr.to_string(), reason }),
    }
}

/// Outcome of encoding the arguments `(a1, a2, third)` where the first two
/// are addresses: the first rejected address decides the error.
pub open spec fn two_address_args_ok(a1: Seq<char>, a2: Seq<char>) -> bool {
    stellar_address_accepted(a1) && stellar_address_accepted(a2)
}

/// Arguments of `set_early_exit_config(admin, treasury, penalty_bps)`.
pub fn build_early_exit_args(admin: &str, treasury: &str, bps: u32) -> (args: Result<
    Vec<InvokeArg>,
    CliError,
>)
    ensures
        args is Ok <==> two_address_args_ok(admin@, treasury@),
        args matches Ok(v) ==> args_view(v@) == seq![
            InvokeArgView::Address(admin@),
            InvokeArgView::Address(treasury@),
            InvokeArgView::U32(bps),
        ],
        args matches Err(e) ==> if !stellar_address_accepted(admin@) {
            is_invalid_address_error(e, admin@)
        } else {
            is_invalid_address_error(e, treasury@)
        },
{
    let a = match addr_to_sc_val(admin) {
        Ok(a) => a,
        Err(e) => {
            return Err(e);
        },
    };
    let t = match addr_to_sc_val(treasury) {
        Ok(t) => t,
        Err(e) => {
            return Err(e);
        },
    };
    let v = vec![a, t, InvokeArg::U32(bps)];
    assert(args_view(v@) =~= seq![
        InvokeArgView::Address(admin@),
        InvokeArgView::Address(treasury@),
        InvokeArgView::U32(bps),
    ]);
    Ok(v)
}

/// Arguments of `set_weight_config(admin, multiplier_bps, max_weight)`.
pub fn build_weight_args(admin: &str, multiplier_bps: u32, max_weight: u32) -> (args: Result<
    Vec<InvokeArg>,
    CliError,
>)
    ensures
        args is Ok <==> stellar_address_accepted(admin@),
        args matches Ok(v) ==> args_view(v@) == seq![
            InvokeArgView::Address(admin@),
            InvokeArgView::U32(multiplier_bps),
            InvokeArgView::U32(max_weight),
        ],
        args matches Err(e) ==> is_invalid_address_error(e, admin@),
{
    let a = match addr_to_sc_val(admin) {
        Ok(a) => a,
        Err(e) => {
            return Err(e);
        },
    };
    let v = vec![a, InvokeArg::U32(multiplier_bps), InvokeArg::U32(max_weight)];
    assert(args_view(v@) =~= seq![
        InvokeArgView::Address(admin@),
        InvokeArgView::U32(multiplier_bps),
        InvokeArgView::U32(max_weight),
    ]);
    Ok(v)
}

/// Arguments of `set_pause_signer(admin, signer, enabled)`.
pub fn build_pause_signer_args(admin: &str, signer: &str, enabled: bool) -> (args: Result<
    Vec<InvokeArg>,
    CliError,
>)
    ensures
        args is Ok <==> two_address_args_ok(admin@, signer@),
        args matches Ok(v) ==> args_view(v@) == seq![
            InvokeArgView::Address(admin@),
            InvokeArgView::Address(signer@),
            InvokeArgView::Bool(enabled),
        ],
        args matches Err(e) ==> if !stellar_address_accepted(admin@) {
            is_invalid_address_error(e, admin@)
        } else {
            is_invalid_address_error(e, signer@)
        },
{
    let a = match addr_to_sc_val(admin) {
        Ok(a) => a,
        Err(e) => {
            return Err(e);
        },
    };
    let s = match addr_to_sc_val(signer) {
        Ok(s) => s,
        Err(e) => {
            return Err(e);
        },
    };
    let v = vec![a, s, InvokeArg::Bool(enabled)];
    assert(args_view(v@) =~= seq![
        InvokeArgView::Address(admin@),
        InvokeArgView::Address(signer@),
        InvokeArgView::Bool(enabled),
    ]);
    Ok(v)
}

/// A planned contract invocation: the function name and its arguments.
#[derive(Debug, PartialEq, Eq)]
pub struct Invocation {
    pub function: &'static str,
    pub args: Vec<InvokeArg>,
}

/// The contract function an admin command invokes.
pub open spec fn function_of(cmd: AdminCommand) -> Seq<char> {
    match cmd {
        AdminCommand::BondSetEarlyExitConfig { .. } => "set_early_exit_config"@,
        AdminCommand::BondSetWeights { .. } => "set_weight_config"@,
        AdminCommand::DelegationSetPauseSigner { .. } => "set_pause_signer"@,
    }
}

/// The invocation an admin command stands for: the function it maps to, with
/// its arguments encoded as by the matching builder.
pub fn plan_invocation(cmd: &AdminCommand) -> (plan: Result<Invocation, CliError>)
    ensures
        plan matches Ok(inv) ==> inv.function@ == function_of(*cmd),
        match *cmd {
            AdminCommand::BondSetEarlyExitConfig { admin, treasury, bps } => {
                &&& plan is Ok <==> two_address_args_ok(admin@, treasury@)
                &&& plan matches Ok(inv) ==> args_view(inv.args@) == seq![
                    InvokeArgView::Address(admin@),
                    InvokeArgView::Address(treasury@),
                    InvokeArgView::U32(bps),
                ]
                &&& plan matches Err(e) ==> if !stellar_address_accepted(admin@) {
                    is_invalid_address_error(e, admin@)
                } else {
                    is_invalid_address_error(e, treasury@)
                }
            },
            AdminCommand::BondSetWeights { admin, multiplier_bps, max_weight } => {
                &&& plan is Ok <==> stellar_address_accepted(admin@)
                &&& plan matches Ok(inv) ==> args_view(inv.args@) == seq![
                    InvokeArgView::Address(admin@),
                    InvokeArgView::U32(multiplier_bps),
                    InvokeArgView::U32(max_weight),
                ]
                &&& plan matches Err(e) ==> is_invalid_address_error(e, admin@)
            },
            AdminCommand::DelegationSetPauseSigner { admin, pause_signer, enabled } => {
                &&& plan is Ok <==> two_address_args_ok(admin@, pause_signer@)
                &&& plan matches Ok(inv) ==> args_view(inv.args@) == seq![
                    InvokeArgView::Address(admin@),
                    InvokeArgView::Address(pause_signer@),
                    InvokeArgView::Bool(enabled),
                ]
                &&& plan matches Err(e) ==> if !stellar_address_accepted(admin@) {
                    is_invalid_address_error(e, admin@)
                } else {
                    is_invalid_address_error(e, pause_signer@)
                }
            },
        },
{
    match cmd {
        AdminCommand::BondSetEarlyExitConfig { admin, treasury, bps } => {
            match build_early_exit_args(admin.as_str(), treasury.as_str(), *bps) {
                Ok(args) => Ok(Invocation { function: "set_early_exit_config", args }),
                Err(e) => Err(e),
            }
        },
        AdminCommand::BondSetWeights { admin, multiplier_bps, max_weight } => {
            match build_weight_args(admin.as_str(), *multiplier_bps, *max_weight) {
                Ok(args) => Ok(Invocation { function: "set_weight_config", args }),
                Err(e) => Err(e),
            }
        },
        AdminCommand::DelegationSetPauseSigner { admin, pause_signer, enabled } => {
            match build_pause_signer_args(admin.as_str(), pause_signer.as_str(), *enabled) {
                Ok(args) => Ok(Invocation { function: "set_pause_signer", args }),
                Err(e) => Err(e),
            }
        },
    }
}

/// The contract to invoke: the given one, or the placeholder when none is
/// given.
pub fn resolve_contract_id<'a>(contract: Option<&'a str>) -> (id: &'a str)
    ensures
        id@ == (match contract {
            Some(c) => c@,
            None => PLACEHOLDER_CONTRACT_ID@,
        }),
{
    match contract {
        Some(c) => c,
        None => PLACEHOLDER_CONTRACT_ID,
    }
}

/// The signer key to use: required when submitting, unused in a dry run.
pub fn required_signer<'a>(submit: bool, signer: Option<&'a str>) -> (key: Result<
    Option<&'a str>,
    CliError,
>)
    ensures
        !submit ==> key matches Ok(None),
        submit && signer is None ==> key matches Err(CliError::MissingSigner),
        submit && signer is Some ==> (key matches Ok(Some(k)) && k@ == signer->0@),
{
    if !submit {
        return Ok(None);
    }
    match signer {
        Some(k) => Ok(Some(k)),
        None => Err(CliError::MissingSigner),
    }
}

/// The error for a rejected contract id.
pub open spec fn is_invalid_contract_error(e: CliError, id: Seq<char>) -> bool {
    e matches CliError::InvalidContract { contract, reason } && contract@ == id && reason@
        == contract_decode_message()
}

/// What a run needs before it builds the transaction: the decoded contract,
/// the signing keypair (only when submitting) and the source account.
#[derive(Debug)]
pub struct RunPlan {
    pub contract: Contracts,
    pub keypair: Option<Keypair>,
    pub source: String,
}

/// Prepares a run against contract `contract_id`. In order: the contract id
/// must decode; when submitting, a signer key must be given and must decode
/// as a secret seed. The plan invokes the contract decoded from
/// `contract_id`; when submitting it signs with the signer's keypair and
/// sends from the signer's account, in a dry run it has no keypair and uses
/// the all-zero account.
pub fn plan_run(contract_id: &str, submit: bool, signer: Option<&str>) -> (planned: Result<
    RunPlan,
    CliError,
>)
    ensures
        !contract_id_accepted(contract_id@) ==> (planned matches Err(e)
            && is_invalid_contract_error(e, contract_id@)),
        contract_id_accepted(contract_id@) && !submit ==> (planned matches Ok(p) && p.keypair is None
            && p.source@ == DRY_RUN_SOURCE@),
        contract_id_accepted(contract_id@) && submit && signer is None ==> planned matches Err(
            CliError::MissingSigner,
        ),
        contract_id_accepted(contract_id@) && submit && signer is Some && !secret_seed_decodes(
            signer->0@,
        ) ==> planned matches Err(CliError::InvalidSigner),
        contract_id_accepted(contract_id@) && submit && signer is Some && secret_seed_decodes(
            signer->0@,
        ) ==> (planned matches Ok(p) && p.keypair == Some(secret_keypair(signer->0@))
            && p.source@ == signing_account(signer->0@)),
        planned matches Ok(p) ==> p.contract == contract_handle(contract_id@),
{
    let contract = match parse_contract_id(contract_id) {
        Ok(c) => c,
        Err(reason) => {
            return Err(CliError::InvalidContract { contract: contract_id.to_string(), reason });
        },
    };
    let secret = match required_signer(submit, signer) {
        Ok(key) => key,
        Err(e) => {
            return Err(e);
        },
    };
    match secret {
        None => Ok(RunPlan { contract, keypair: None, source: source_account(None) }),
        Some(secret) => {
            if !decode_secret_seed(secret) {
                return Err(CliError::InvalidSigner);
            }
            let kp = match keypair_from_secret(secret) {
                Ok(kp) => kp,
                Err(_) => {
                    return Err(CliError::InvalidSigner);
                },
            };
            let source = source_account(Some(keypair_public_key(&kp)));
            Ok(RunPlan { contract, keypair: Some(kp), source })
        },
    }
}

/// The source account of the transaction: the signer's public key, or the
/// all-zero account in a dry run.
pub fn source_account(signer_public_key: Option<String>) -> (source: String)
    ensures
        source@ == (match signer_public_key {
            Some(k) => k@,
            None => DRY_RUN_SOURCE@,
        }),
{
    match signer_public_key {
        Some(k) => k,
        None => DRY_RUN_SOURCE.to_string(),
    }
}

/// The fields of a dry-run report.
#[derive(Debug, PartialEq, Eq)]
pub struct DryRunReport {
    pub status: String,
    pub contract: String,
    pub function: String,
    pub network: String,
    pub source: String,
    pub envelope_xdr: String,
    pub tx_hash: String,
}

/// The dry-run report of a built transaction: status "dry_run", the given
/// fields, and the transaction hash in lowercase hexadecimal.
pub fn dry_run_report(
    contract: &str,
    function: &str,
    network: &str,
    source: &str,
    envelope_xdr: String,
    tx_hash: &[u8],
) -> (report: DryRunReport)
    ensures
        report.status@ == "dry_run"@,
        report.contract@ == contract@,
        report.function@ == function@,
        report.network@ == network@,
        report.source@ == source@,
        report.envelope_xdr@ == envelope_xdr@,
        report.tx_hash@ == hex_lower(tx_hash@),
{
    DryRunReport {
        status: "dry_run".to_string(),
        contract: contract.to_string(),
        function: function.to_string(),
        network: network.to_string(),
        source: source.to_string(),
        envelope_xdr,
        tx_hash: hex_encode(tx_hash),
    }
}

/// Distinct commands invoke distinct functions.
pub proof fn law_commands_map_to_distinct_functions(a: AdminCommand, b: AdminCommand)
    ensures
        function_of(a) == function_of(b) ==> (a is BondSetEarlyExitConfig && b is BondSetEarlyExitConfig)
            || (a is BondSetWeights && b is BondSetWeights) || (a is DelegationSetPauseSigner
            && b is DelegationSetPauseSigner),
{
    reveal_strlit("set_early_exit_config");
    reveal_strlit("set_weight_config");
    reveal_strlit("set_pause_signer");
    assert("set_early_exit_config"@.len() == 21);
    assert("set_weight_config"@.len() == 17);
    assert("set_pause_signer"@.len() == 16);
}

/// Each byte becomes exactly two hexadecimal digits.
pub proof fn law_hex_length(bytes: Seq<u8>)
    ensures
        hex_lower(bytes).len() == 2 * bytes.len(),
    decreases bytes.len(),
{
    if bytes.len() > 0 {
        law_hex_length(bytes.drop_first());
    }
}

} // verus!
