//! Wallet creation: the request that is signed and sent for each kind of
//! wallet, and the checks on the address that comes back.
//!
//! Creating a wallet takes three steps. `Turnkey::prepare_create_wallet`
//! builds the request body and its stamp; the caller sends them; the
//! `*_wallet_response` function of the wallet's chain turns the reply into a
//! response, refusing an address of the wrong chain or type.

pub mod bitcoin;
pub mod ethereum;
pub mod solana;

use crate::client::{api_stamp_text, Turnkey};
use crate::clock::ClockReading;
use crate::errors::{TurnkeyError, TurnkeyResult};
use crate::json::{json_string, push_json_string};
use crate::text::{push_char, push_signed_decimal, signed_decimal};
use crate::utils::wallet::{
    address_format_api_name, bitcoin_mainnet, curve_api_name, ethereum_account, hardened_path, lemma_path_index_injective,
    is_account, path_format_api_name, solana_account, AddressFormat, Curve, WalletAccountParams,
};
use self::bitcoin::{
    accepts_bitcoin_address, bitcoin_address_from_str, bitcoin_refusal_message, validate_bitcoin_address, BitcoinAddress,
    BitcoinAddressKind,
};
use self::ethereum::{ethereum_address_bytes, validate_eth_address, EthereumAddress};
use self::solana::{solana_pubkey_from_str, validate_solana_address, SolanaPubkey};
use rand::Rng;
use vstd::prelude::*;

verus! {

/// Settings for a new wallet.
#[derive(Debug)]
pub struct WalletConfig {
    /// Custom name for the wallet. If None, a random name will be generated
    pub wallet_name: Option<String>,
    /// Custom path index for derivation. If None, defaults to 0
    pub path_index: Option<u32>,
    /// Length of mnemonic phrase. If None, defaults to 24 words
    pub mnemonic_length: Option<u32>,
}

impl Default for WalletConfig {
    fn default() -> (config: Self)
        ensures
            config.wallet_name is None,
            config.path_index is None,
            config.mnemonic_length == Some(24u32),
    {
        WalletConfig { wallet_name: None, path_index: None, mnemonic_length: Some(24) }
    }
}

pub type EthereumWalletConfig = WalletConfig;
pub type SolanaWalletConfig = WalletConfig;
pub type BitcoinP2pkhWalletConfig = WalletConfig;
pub type BitcoinP2shWalletConfig = WalletConfig;
pub type BitcoinP2wpkhWalletConfig = WalletConfig;
pub type BitcoinP2wshWalletConfig = WalletConfig;
pub type BitcoinP2trWalletConfig = WalletConfig;

/// A created wallet.
#[derive(Debug)]
pub struct WalletResponse<A> {
    /// The unique identifier for the created wallet
    pub wallet_id: String,
    /// The wallet's name
    pub wallet_name: String,
    /// The wallet's address
    pub address: A,
}

pub type EthereumWalletResponse = WalletResponse<EthereumAddress>;
pub type SolanaWalletResponse = WalletResponse<SolanaPubkey>;
pub type BitcoinP2pkhWalletResponse = WalletResponse<BitcoinAddress>;
pub type BitcoinP2shWalletResponse = WalletResponse<BitcoinAddress>;
pub type BitcoinP2wpkhWalletResponse = WalletResponse<BitcoinAddress>;
pub type BitcoinP2wshWalletResponse = WalletResponse<BitcoinAddress>;
pub type BitcoinP2trWalletResponse = WalletResponse<BitcoinAddress>;

/// The kinds of wallet this library creates: the chain and, for Bitcoin,
/// the address type.
#[derive(Debug, Clone, Copy, PartialEq, Eq, Structural)]
pub enum WalletKind {
    Ethereum,
    Solana,
    BitcoinP2pkh,
    BitcoinP2sh,
    BitcoinP2wpkh,
    BitcoinP2wsh,
    BitcoinP2tr,
}

/// The intent of a wallet-creation request.
#[derive(Debug)]
pub struct CreateWalletIntent {
    pub wallet_name: String,
    pub mnemonic_length: Option<i32>,
    pub accounts: Vec<WalletAccountParams>,
}

/// A wallet-creation request (activity type `ACTIVITY_TYPE_CREATE_WALLET`).
#[derive(Debug)]
pub struct CreateWalletRequest {
    pub timestamp_ms: String,
    pub organization_id: String,
    pub parameters: CreateWalletIntent,
}

/// What the service reports of a created wallet.
#[derive(Debug)]
pub struct CreateWalletResult {
    pub wallet_id: String,
    pub addresses: Vec<String>,
}

/// A request ready to be sent: the request, its JSON body and the stamp
/// that authenticates the body.
#[derive(Debug)]
pub struct PreparedWalletRequest {
    /// The clock reading the request is stamped with.
    pub clock: ClockReading,
    pub request: CreateWalletRequest,
    pub body: String,
    pub stamp: String,
}

/// The name of a wallet kind, which starts generated wallet names.
pub open spec fn wallet_kind_name(kind: WalletKind) -> Seq<char> {
    match kind {
        WalletKind::Ethereum => "Ethereum"@,
        WalletKind::Solana => "Solana"@,
        WalletKind::BitcoinP2pkh => "BitcoinP2pkh"@,
        WalletKind::BitcoinP2sh => "BitcoinP2sh"@,
        WalletKind::BitcoinP2wpkh => "BitcoinP2wpkh"@,
        WalletKind::BitcoinP2wsh => "BitcoinP2wsh"@,
        WalletKind::BitcoinP2tr => "BitcoinP2tr"@,
    }
}

/// The account a wallet of this kind is created with, at the given index.
pub open spec fn is_kind_account(kind: WalletKind, account: WalletAccountParams, index: u32) -> bool {
    match kind {
        WalletKind::Ethereum => is_account(account, Curve::CurveSecp256K1, hardened_path("44"@, "60"@, index, "/0/0"@), AddressFormat::AddressFormatEthereum),
        WalletKind::Solana => is_account(account, Curve::CurveEd25519, hardened_path("44"@, "501"@, index, "/0'"@), AddressFormat::AddressFormatSolana),
        WalletKind::BitcoinP2pkh => is_account(account, Curve::CurveSecp256K1, hardened_path("44"@, "0"@, index, "/0/0"@), AddressFormat::AddressFormatBitcoinMainnetP2Pkh),
        WalletKind::BitcoinP2sh => is_account(account, Curve::CurveSecp256K1, hardened_path("49"@, "0"@, index, "/0/0"@), AddressFormat::AddressFormatBitcoinMainnetP2Sh),
        WalletKind::BitcoinP2wpkh => is_account(account, Curve::CurveSecp256K1, hardened_path("84"@, "0"@, index, "/0/0"@), AddressFormat::AddressFormatBitcoinMainnetP2Wpkh),
        WalletKind::BitcoinP2wsh => is_account(account, Curve::CurveSecp256K1, hardened_path("48"@, "0"@, index, "/2'/0/0"@), AddressFormat::AddressFormatBitcoinMainnetP2Wsh),
        WalletKind::BitcoinP2tr => is_account(account, Curve::CurveSecp256K1, hardened_path("86"@, "0"@, index, "/0/0"@), AddressFormat::AddressFormatBitcoinMainnetP2Tr),
    }
}

/// The wallet name a configuration asks for, if any.
pub open spec fn config_wallet_name(config: Option<WalletConfig>) -> Option<Seq<char>> {
    match config {
        Some(c) => match c.wallet_name {
            Some(name) => Some(name@),
            None => None,
        },
        None => None,
    }
}

/// The account index a configuration asks for (0 by default).
pub open spec fn config_path_index(config: Option<WalletConfig>) -> u32 {
    match config {
        Some(c) => match c.path_index {
            Some(i) => i,
            None => 0,
        },
        None => 0,
    }
}

/// The mnemonic length a configuration asks for (24 words without a
/// configuration).
pub open spec fn config_mnemonic_length(config: Option<WalletConfig>) -> Option<u32> {
    match config {
        Some(c) => c.mnemonic_length,
        None => Some(24),
    }
}

/// The name of a new wallet: the configured name, or the kind's name,
/// ` Wallet ` and the random suffix.
pub open spec fn wallet_name_for(kind: WalletKind, configured: Option<Seq<char>>, suffix: Seq<char>) -> Seq<char> {
    match configured {
        Some(name) => name,
        None => wallet_kind_name(kind) + " Wallet "@ + suffix,
    }
}

/// Whether a character is an ASCII letter or digit.
pub open spec fn is_ascii_alphanumeric(c: char) -> bool {
    ('0' <= c && c <= '9') || ('A' <= c && c <= 'Z') || ('a' <= c && c <= 'z')
}

/// A random wallet-name suffix: four ASCII letters or digits.
pub open spec fn is_name_suffix(suffix: Seq<char>) -> bool {
    suffix.len() == 4 && forall|i: int| 0 <= i < 4 ==> is_ascii_alphanumeric(#[trigger] suffix[i])
}

/// The request a wallet of this kind is created with, for a configuration,
/// name suffix, time and organization.
pub open spec fn is_create_wallet_request(
    request: CreateWalletRequest,
    kind: WalletKind,
    config: Option<WalletConfig>,
    suffix: Seq<char>,
    timestamp_ms: i64,
    organization_id: Seq<char>,
) -> bool {
    &&& request.timestamp_ms@ == signed_decimal(timestamp_ms as int)
    &&& request.organization_id@ == organization_id
    &&& request.parameters.wallet_name@ == wallet_name_for(kind, config_wallet_name(config), suffix)
    &&& request.parameters.mnemonic_length == match config_mnemonic_length(config) {
        Some(m) => Some(m as i32),
        None => None::<i32>,
    }
    &&& request.parameters.accounts@.len() == 1
    &&& is_kind_account(kind, request.parameters.accounts@[0], config_path_index(config))
}

/// The JSON of one account.
pub open spec fn account_json(account: WalletAccountParams) -> Seq<char> {
    "{\"curve\":"@ + json_string(curve_api_name(account.curve)) + ",\"pathFormat\":"@ + json_string(
        path_format_api_name(account.path_format),
    ) + ",\"path\":"@ + json_string(account.path@) + ",\"addressFormat\":"@ + json_string(
        address_format_api_name(account.address_format),
    ) + "}"@
}

/// The comma-separated JSON of a list of accounts.
pub open spec fn account_list_json(accounts: Seq<WalletAccountParams>) -> Seq<char>
    decreases accounts.len(),
{
    if accounts.len() == 0 {
        Seq::empty()
    } else if accounts.len() == 1 {
        account_json(accounts[0])
    } else {
        account_list_json(accounts.drop_last()) + ","@ + account_json(accounts.last())
    }
}

/// Texts joined by a separator, first to last: `t0 sep t1 sep … tn`.
pub open spec fn join_with(items: Seq<Seq<char>>, sep: Seq<char>) -> Seq<char>
    decreases items.len(),
{
    if items.len() == 0 {
        Seq::empty()
    } else if items.len() == 1 {
        items[0]
    } else {
        items[0] + sep + join_with(items.subrange(1, items.len() as int), sep)
    }
}

/// The JSON of a wallet intent; `mnemonicLength` only where one is set.
pub open spec fn intent_json(intent: CreateWalletIntent) -> Seq<char> {
    "{\"walletName\":"@ + json_string(intent.wallet_name@) + ",\"accounts\":["@ + account_list_json(
        intent.accounts@,
    ) + "]"@ + match intent.mnemonic_length {
        Some(m) => ",\"mnemonicLength\":"@ + signed_decimal(m as int),
        None => Seq::empty(),
    } + "}"@
}

/// The JSON body of a wallet-creation request.
pub open spec fn request_json(request: CreateWalletRequest) -> Seq<char> {
    "{\"type\":\"ACTIVITY_TYPE_CREATE_WALLET\",\"timestampMs\":"@ + json_string(request.timestamp_ms@)
        + ",\"organizationId\":"@ + json_string(request.organization_id@) + ",\"parameters\":"@
        + intent_json(request.parameters) + "}"@
}

proof fn lemma_join_push(items: Seq<Seq<char>>, item: Seq<char>, sep: Seq<char>)
    requires
        items.len() >= 1,
    ensures
        join_with(items.push(item), sep) == join_with(items, sep) + sep + item,
    decreases items.len(),
{
    if items.len() == 1 {
        let two = items.push(item);
        assert(two.subrange(1, 2) =~= seq![item]);
        assert(join_with(two.subrange(1, 2), sep) == item);
        assert(join_with(two, sep) =~= items[0] + sep + item);
    } else {
        let rest = items.subrange(1, items.len() as int);
        lemma_join_push(rest, item, sep);
        assert(items.push(item).subrange(1, items.len() + 1int) =~= rest.push(item));
        assert(join_with(items.push(item), sep) =~= items[0] + sep + join_with(rest, sep) + sep + item);
    }
}

/// The accounts of a request form a JSON array body: the account objects,
/// in order, separated by commas.
pub proof fn lemma_account_list_is_comma_separated(accounts: Seq<WalletAccountParams>)
    ensures
        account_list_json(accounts) == join_with(accounts.map_values(|a: WalletAccountParams| account_json(a)), ","@),
    decreases accounts.len(),
{
    let items = accounts.map_values(|a: WalletAccountParams| account_json(a));
    if accounts.len() == 1 {
        assert(join_with(items, ","@) == items[0]);
    } else if accounts.len() >= 2 {
        let pre = accounts.drop_last();
        lemma_account_list_is_comma_separated(pre);
        let pre_items = pre.map_values(|a: WalletAccountParams| account_json(a));
        assert(items =~= pre_items.push(account_json(accounts.last())));
        lemma_join_push(pre_items, account_json(accounts.last()), ","@);
    } else {
        assert(items.len() == 0);
    }
}

/// Two accounts are written as `[first,second]`: both objects, a comma between.
pub proof fn lemma_two_accounts_json(a: WalletAccountParams, b: WalletAccountParams)
    ensures
        account_list_json(seq![a, b]) == account_json(a) + ","@ + account_json(b),
{
    lemma_account_list_is_comma_separated(seq![a, b]);
    let items = seq![a, b].map_values(|x: WalletAccountParams| account_json(x));
    assert(items.subrange(1, 2) =~= seq![account_json(b)]);
    assert(join_with(items.subrange(1, 2), ","@) == account_json(b));
}

/// The account of a wallet kind is built at the requested index: accounts of
/// one kind at two indices have the same path only when the indices agree.
pub proof fn lemma_kind_account_index(
    kind: WalletKind,
    a: WalletAccountParams,
    b: WalletAccountParams,
    i: u32,
    j: u32,
)
    requires
        is_kind_account(kind, a, i),
        is_kind_account(kind, b, j),
        a.path@ == b.path@,
    ensures
        i == j,
{
    match kind {
        WalletKind::Ethereum => lemma_path_index_injective("44"@, "60"@, "/0/0"@, i, j),
        WalletKind::Solana => lemma_path_index_injective("44"@, "501"@, "/0'"@, i, j),
        WalletKind::BitcoinP2pkh => lemma_path_index_injective("44"@, "0"@, "/0/0"@, i, j),
        WalletKind::BitcoinP2sh => lemma_path_index_injective("49"@, "0"@, "/0/0"@, i, j),
        WalletKind::BitcoinP2wpkh => lemma_path_index_injective("84"@, "0"@, "/0/0"@, i, j),
        WalletKind::BitcoinP2wsh => lemma_path_index_injective("48"@, "0"@, "/2'/0/0"@, i, j),
        WalletKind::BitcoinP2tr => lemma_path_index_injective("86"@, "0"@, "/0/0"@, i, j),
    }
}

/// The request's account follows the configured path index: two requests of
/// one kind whose configurations ask for different indices have different
/// account paths.
pub proof fn lemma_request_path_follows_index(
    r1: CreateWalletRequest,
    r2: CreateWalletRequest,
    kind: WalletKind,
    c1: Option<WalletConfig>,
    c2: Option<WalletConfig>,
    s1: Seq<char>,
    s2: Seq<char>,
    t1: i64,
    t2: i64,
    org: Seq<char>,
)
    requires
        is_create_wallet_request(r1, kind, c1, s1, t1, org),
        is_create_wallet_request(r2, kind, c2, s2, t2, org),
        config_path_index(c1) != config_path_index(c2),
    ensures
        r1.parameters.accounts@[0].path@ != r2.parameters.accounts@[0].path@,
{
    if r1.parameters.accounts@[0].path@ == r2.parameters.accounts@[0].path@ {
        lemma_kind_account_index(kind, r1.parameters.accounts@[0], r2.parameters.accounts@[0], config_path_index(c1), config_path_index(c2));
    }
}

impl WalletKind {
    /// The kind's name.
    pub fn name(&self) -> (name: &'static str)
        ensures
            name@ == wallet_kind_name(*self),
    {
        match self {
            WalletKind::Ethereum => "Ethereum",
            WalletKind::Solana => "Solana",
            WalletKind::BitcoinP2pkh => "BitcoinP2pkh",
            WalletKind::BitcoinP2sh => "BitcoinP2sh",
            WalletKind::BitcoinP2wpkh => "BitcoinP2wpkh",
            WalletKind::BitcoinP2wsh => "BitcoinP2wsh",
            WalletKind::BitcoinP2tr => "BitcoinP2tr",
        }
    }

    /// The account a wallet of this kind is created with.
    pub fn account(&self, path_index: u32) -> (account: WalletAccountParams)
        ensures
            is_kind_account(*self, account, path_index),
    {
        match self {
            WalletKind::Ethereum => ethereum_account(path_index),
            WalletKind::Solana => solana_account(path_index),
            WalletKind::BitcoinP2pkh => bitcoin_mainnet::p2pkh_account(path_index),
            WalletKind::BitcoinP2sh => bitcoin_mainnet::p2sh_account(path_index),
            WalletKind::BitcoinP2wpkh => bitcoin_mainnet::p2wpkh_account(path_index),
            WalletKind::BitcoinP2wsh => bitcoin_mainnet::p2wsh_account(path_index),
            WalletKind::BitcoinP2tr => bitcoin_mainnet::p2tr_account(path_index),
        }
    }
}

/// Builds the wallet-creation request from a configuration (the defaults
/// where there is none), a random name suffix, the time in milliseconds and
/// the organization.
pub fn build_create_wallet_request(
    kind: WalletKind,
    config: Option<WalletConfig>,
    random_suffix: &str,
    timestamp_ms: i64,
    organization_id: &str,
) -> (request: CreateWalletRequest)
    ensures
        is_create_wallet_request(request, kind, config, random_suffix@, timestamp_ms, organization_id@),
{
    let ghost given = config;
    let config = match config {
        Some(c) => c,
        None => WalletConfig::default(),
    };
    let wallet_name = match config.wallet_name {
        Some(name) => name,
        None => {
            let mut name = kind.name().to_owned();
            name.append(" Wallet ");
            name.append(random_suffix);
            name
        },
    };
    let path_index = match config.path_index {
        Some(i) => i,
        None => 0,
    };
    let mnemonic_length = match config.mnemonic_length {
        Some(m) => Some(m as i32),
        None => None,
    };
    let mut timestamp = String::new();
    push_signed_decimal(&mut timestamp, timestamp_ms);
    let parameters = CreateWalletIntent {
        wallet_name,
        mnemonic_length,
        accounts: vec![kind.account(path_index)],
    };
    CreateWalletRequest { timestamp_ms: timestamp, organization_id: organization_id.to_owned(), parameters }
}

fn push_account_json(out: &mut String, account: &WalletAccountParams)
    ensures
        final(out)@ == old(out)@ + account_json(*account),
{
    out.append("{\"curve\":");
    push_json_string(out, account.curve.api_name());
    out.append(",\"pathFormat\":");
    push_json_string(out, account.path_format.api_name());
    out.append(",\"path\":");
    push_json_string(out, account.path.as_str());
    out.append(",\"addressFormat\":");
    push_json_string(out, account.address_format.api_name());
    out.append("}");
    assert(final(out)@ =~= old(out)@ + account_json(*account));
}

impl CreateWalletRequest {
    /// The request as the JSON body that is stamped and sent.
    pub fn to_json(&self) -> (json: String)
        ensures
            json@ == request_json(*self),
    {
        let mut json = "{\"type\":\"ACTIVITY_TYPE_CREATE_WALLET\",\"timestampMs\":".to_owned();
        push_json_string(&mut json, self.timestamp_ms.as_str());
        json.append(",\"organizationId\":");
        push_json_string(&mut json, self.organization_id.as_str());
        json.append(",\"parameters\":");
        let ghost before_intent = json@;
        json.append("{\"walletName\":");
        push_json_string(&mut json, self.parameters.wallet_name.as_str());
        json.append(",\"accounts\":[");
        let accounts = &self.parameters.accounts;
        let n = accounts.len();
        let ghost list_start = json@;
        for i in 0..n
            invariant
                n == accounts@.len(),
                json@ == list_start + account_list_json(accounts@.take(i as int)),
        {
            if i > 0 {
                json.append(",");
            }
            push_account_json(&mut json, &accounts[i]);
            proof {
                let t = accounts@.take(i + 1);
                assert(t.drop_last() =~= accounts@.take(i as int));
                assert(t.last() == accounts@[i as int]);
                if i == 0 {
                    assert(account_list_json(accounts@.take(0)) =~= Seq::<char>::empty());
                }
                assert(json@ =~= list_start + account_list_json(t));
            }
        }
        assert(accounts@.take(n as int) =~= accounts@);
        json.append("]");
        match self.parameters.mnemonic_length {
            Some(m) => {
                json.append(",\"mnemonicLength\":");
                push_signed_decimal(&mut json, m as i64);
            },
            None => {},
        }
        json.append("}");
        assert(json@ =~= before_intent + intent_json(self.parameters));
        json.append("}");
        assert(json@ =~= request_json(*self));
        json
    }
}

/// One random ASCII letter or digit (`rand::distr::Alphanumeric` sampled
/// from `rand::rng()`, the thread-local generator). Claimed: the character
/// is an ASCII letter or digit, as the distribution documents.
#[verifier::external_body]
fn random_alphanumeric() -> (c: char)
    ensures
        is_ascii_alphanumeric(c),
{
    char::from(rand::rng().sample(rand::distr::Alphanumeric))
}

/// Four random ASCII letters or digits.
pub fn random_name_suffix() -> (suffix: String)
    ensures
        is_name_suffix(suffix@),
{
    let mut suffix = String::new();
    for i in 0..4usize
        invariant
            suffix@.len() == i,
            forall|j: int| 0 <= j < i ==> is_ascii_alphanumeric(#[trigger] suffix@[j]),
    {
        let c = random_alphanumeric();
        push_char(&mut suffix, c);
    }
    suffix
}

/// The refusal of a reply without a wallet result.
pub open spec fn is_missing_result_error(e: TurnkeyError) -> bool {
    e matches TurnkeyError::OtherError(m) && m@ == "Missing intent in response"@
}

/// The refusal of a reply whose address fails validation: the message
/// starts with `Invalid address: `.
pub open spec fn is_invalid_address_error(e: TurnkeyError) -> bool {
    e matches TurnkeyError::OtherError(m) && m@.len() >= 17 && m@.take(17) == "Invalid address: "@
}

fn missing_result_error() -> (e: TurnkeyError)
    ensures
        is_missing_result_error(e),
{
    TurnkeyError::OtherError("Missing intent in response".to_owned())
}

fn invalid_address_error(detail: &str) -> (e: TurnkeyError)
    ensures
        is_invalid_address_error(e),
        e matches TurnkeyError::OtherError(m) && m@ == "Invalid address: "@ + detail@,
{
    let mut msg = "Invalid address: ".to_owned();
    msg.append(detail);
    proof {
        reveal_strlit("Invalid address: ");
        assert(msg@.take(17) =~= "Invalid address: "@);
    }
    TurnkeyError::OtherError(msg)
}

/// The message of a Solana public key parse error (its `Display`).
#[verifier::external_body]
fn pubkey_error_message(e: &solana_sdk::pubkey::ParsePubkeyError) -> String {
    e.to_string()
}

/// Turns the reply to an Ethereum wallet request into a response; the first
/// reported address must be an Ethereum address.
pub fn ethereum_wallet_response(wallet_name: String, result: Option<CreateWalletResult>) -> (res: TurnkeyResult<EthereumWalletResponse>)
    requires
        result matches Some(r) ==> r.addresses.len() > 0,
    ensures
        result is None ==> (res matches Err(e) && is_missing_result_error(e)),
        result matches Some(r) ==> (res is Ok <==> ethereum_address_bytes(r.addresses@[0]@) is Some),
        result matches Some(r) ==> (res matches Ok(w) ==> w.wallet_id@ == r.wallet_id@ && w.wallet_name@ == wallet_name@
            && ethereum_address_bytes(r.addresses@[0]@) == Some(w.address.bytes@)),
        result is Some ==> (res matches Err(e) ==> is_invalid_address_error(e)),
        result is Some ==> (res matches Err(TurnkeyError::OtherError(m)) ==> m@.len() >= 43 && m@.take(43)
            == "Invalid address: Invalid Ethereum address: "@),
{
    let r = match result {
        Some(r) => r,
        None => return Err(missing_result_error()),
    };
    match validate_eth_address(r.addresses[0].as_str()) {
        Ok(address) => Ok(WalletResponse { wallet_id: r.wallet_id, wallet_name, address }),
        Err(msg) => {
            let e = invalid_address_error(msg.as_str());
            proof {
                reveal_strlit("Invalid address: ");
                reveal_strlit("Invalid Ethereum address: ");
                reveal_strlit("Invalid address: Invalid Ethereum address: ");
                let m = e->OtherError_0@;
                assert(m.take(43) =~= "Invalid address: "@ + msg@.take(26));
            }
            Err(e)
        },
    }
}

/// Turns the reply to a Solana wallet request into a response; the first
/// reported address must be a Solana public key.
pub fn solana_wallet_response(wallet_name: String, result: Option<CreateWalletResult>) -> (res: TurnkeyResult<SolanaWalletResponse>)
    requires
        result matches Some(r) ==> r.addresses.len() > 0,
    ensures
        result is None ==> (res matches Err(e) && is_missing_result_error(e)),
        result matches Some(r) ==> (res is Ok <==> solana_pubkey_from_str(r.addresses@[0]@) is Some),
        result matches Some(r) ==> (res matches Ok(w) ==> w.wallet_id@ == r.wallet_id@ && w.wallet_name@ == wallet_name@
            && solana_pubkey_from_str(r.addresses@[0]@) == Some(w.address.bytes@)),
        result is Some ==> (res matches Err(e) ==> is_invalid_address_error(e)),
{
    let r = match result {
        Some(r) => r,
        None => return Err(missing_result_error()),
    };
    match validate_solana_address(r.addresses[0].as_str()) {
        Ok(address) => Ok(WalletResponse { wallet_id: r.wallet_id, wallet_name, address }),
        Err(e) => {
            let detail = pubkey_error_message(&e);
            Err(invalid_address_error(detail.as_str()))
        },
    }
}

/// Turns the reply to a Bitcoin wallet request into a response; the first
/// reported address must be a mainnet address of the wallet's type.
pub fn bitcoin_wallet_response(kind: BitcoinAddressKind, wallet_name: String, result: Option<CreateWalletResult>) -> (res: TurnkeyResult<WalletResponse<BitcoinAddress>>)
    requires
        result matches Some(r) ==> r.addresses.len() > 0,
    ensures
        result is None ==> (res matches Err(e) && is_missing_result_error(e)),
        result matches Some(r) ==> (res is Ok <==> accepts_bitcoin_address(r.addresses@[0]@, kind)),
        result matches Some(r) ==> (res matches Ok(w) ==> w.wallet_id@ == r.wallet_id@ && w.wallet_name@ == wallet_name@
            && bitcoin_address_from_str(r.addresses@[0]@) == Some(w.address@)),
        result is Some ==> (res matches Err(e) ==> is_invalid_address_error(e)),
        (result matches Some(r) && bitcoin_address_from_str(r.addresses@[0]@) is Some
            && !accepts_bitcoin_address(r.addresses@[0]@, kind)) ==> (res matches Err(TurnkeyError::OtherError(m))
            && m@ == "Invalid address: "@ + bitcoin_refusal_message(
            bitcoin_address_from_str(result->0.addresses@[0]@)->0,
        )),
{
    let r = match result {
        Some(r) => r,
        None => return Err(missing_result_error()),
    };
    match validate_bitcoin_address(r.addresses[0].as_str(), kind) {
        Ok(address) => Ok(WalletResponse { wallet_id: r.wallet_id, wallet_name, address }),
        Err(e) => {
            let detail = e.message();
            Err(invalid_address_error(detail.as_str()))
        },
    }
}

/// A wallet created without a configured name is named after its kind: the
/// name starts with `{Kind} Wallet`; a configured name is kept as given.
pub proof fn lemma_wallet_name(kind: WalletKind, configured: Option<Seq<char>>, suffix: Seq<char>)
    ensures
        configured is None ==> wallet_name_for(kind, configured, suffix).take(
            wallet_kind_name(kind).len() + 7int,
        ) == wallet_kind_name(kind) + " Wallet"@,
        configured matches Some(name) ==> wallet_name_for(kind, configured, suffix) == name,
{
    if configured is None {
        reveal_strlit(" Wallet ");
        reveal_strlit(" Wallet");
        let k = wallet_kind_name(kind);
        assert(wallet_name_for(kind, configured, suffix).take(k.len() + 7int) =~= k + " Wallet"@);
    }
}

impl Turnkey {
    /// Prepares the creation of a wallet of the given kind: the request (its
    /// name drawn at random where the configuration gives none, stamped with
    /// the clock reading taken during the call, which it returns), its JSON
    /// body and the stamp of that body.
    pub fn prepare_create_wallet(&self, kind: WalletKind, config: Option<WalletConfig>) -> (res: TurnkeyResult<PreparedWalletRequest>)
        ensures
            res matches Ok(prepared) && (exists|suffix: Seq<char>| is_name_suffix(suffix)
                && #[trigger] is_create_wallet_request(prepared.request, kind, config, suffix, prepared.clock.value(), self.organization_id@))
                && prepared.request.timestamp_ms@ == signed_decimal(prepared.clock.value() as int)
                && prepared.body@ == request_json(prepared.request)
                && prepared.stamp@ == api_stamp_text(self.api_public_key@, self.signing_key.secret_key(), prepared.body@),
    {
        let suffix = random_name_suffix();
        let clock = ClockReading::now();
        let timestamp_ms = clock.millis();
        let request = build_create_wallet_request(kind, config, suffix.as_str(), timestamp_ms, self.organization_id.as_str());
        let body = request.to_json();
        let stamp = self.stamp(body.as_str())?;
        let prepared = PreparedWalletRequest { clock, request, body, stamp };
        assert(is_create_wallet_request(prepared.request, kind, config, suffix@, prepared.clock.value(), self.organization_id@));
        Ok(prepared)
    }
}

} // verus!
