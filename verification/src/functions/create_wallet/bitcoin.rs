//! Bitcoin mainnet addresses returned for new wallets, checked against the
//! address type each wallet kind derives.

use ::bitcoin::address::Payload;
use ::bitcoin::Network;
use std::str::FromStr;
use vstd::prelude::*;

verus! {

/// The bitcoin address parse error.
#[verifier::external_type_specification]
#[verifier::external_body]
pub struct ExBitcoinAddressError(::bitcoin::address::Error);

/// The network an address belongs to.
#[derive(Debug, Clone, Copy, PartialEq, Eq, Structural)]
pub enum BitcoinNetwork {
    Bitcoin,
    Testnet,
    Signet,
    Regtest,
    /// A network that this library does not know by name.
    Unknown,
}

/// What an address pays to.
#[derive(Debug)]
pub enum BitcoinPayload {
    /// Pay to public key hash (legacy): the 20-byte hash.
    PubkeyHash(Vec<u8>),
    /// Pay to script hash (legacy): the 20-byte hash.
    ScriptHash(Vec<u8>),
    /// A segwit witness program of the given version.
    WitnessProgram { version: u8, program: Vec<u8> },
    /// A payload kind that this library does not know by name.
    Unknown,
}

/// What a payload is, as values.
pub enum BitcoinPayloadView {
    PubkeyHash(Seq<u8>),
    ScriptHash(Seq<u8>),
    WitnessProgram { version: u8, program: Seq<u8> },
    Unknown,
}

impl View for BitcoinPayload {
    type V = BitcoinPayloadView;

    open spec fn view(&self) -> BitcoinPayloadView {
        match self {
            BitcoinPayload::PubkeyHash(h) => BitcoinPayloadView::PubkeyHash(h@),
            BitcoinPayload::ScriptHash(h) => BitcoinPayloadView::ScriptHash(h@),
            BitcoinPayload::WitnessProgram { version, program } => BitcoinPayloadView::WitnessProgram {
                version: *version,
                program: program@,
            },
            BitcoinPayload::Unknown => BitcoinPayloadView::Unknown,
        }
    }
}

/// A parsed Bitcoin address: its network, its payload, and its canonical
/// text (as the bitcoin crate prints it; lower case for bech32).
#[derive(Debug)]
pub struct BitcoinAddress {
    pub network: BitcoinNetwork,
    pub payload: BitcoinPayload,
    pub text: String,
}

/// What a parsed address is, as values.
pub struct BitcoinAddressView {
    pub network: BitcoinNetwork,
    pub payload: BitcoinPayloadView,
    pub text: Seq<char>,
}

impl View for BitcoinAddress {
    type V = BitcoinAddressView;

    open spec fn view(&self) -> BitcoinAddressView {
        BitcoinAddressView { network: self.network, payload: self.payload@, text: self.text@ }
    }
}

/// The address types a Bitcoin wallet can be created with.
#[derive(Debug, Clone, Copy, PartialEq, Eq, Structural)]
pub enum BitcoinAddressKind {
    P2pkh,
    P2sh,
    P2wpkh,
    P2wsh,
    P2tr,
}

/// Why an address was refused.
#[derive(Debug)]
pub enum BitcoinAddressError {
    /// The text is not a Bitcoin address.
    Parse(::bitcoin::address::Error),
    /// The address (in canonical text) belongs to another network than the
    /// required one.
    NetworkValidation { required: BitcoinNetwork, found: BitcoinNetwork, address: String },
    /// The address is not of the required type.
    UnrecognizedScript,
}

/// What `bitcoin::Address::<NetworkUnchecked>::from_str` reads from a text:
/// the network, the payload and the canonical text of the address, or
/// `None` where it returns an error.
pub uninterp spec fn bitcoin_address_from_str(text: Seq<char>) -> Option<BitcoinAddressView>;

/// `bitcoin::Address::<NetworkUnchecked>::from_str` (base58check or bech32
/// decoding); the parsed address is converted to its network, its payload
/// (hash or witness version and program bytes) and its `Display` text.
/// Claimed: it succeeds exactly where the named parse gives a value, and that
/// value is what it returns; the error value is left unsaid.
#[verifier::external_body]
fn parse_bitcoin_address(text: &str) -> (res: Result<BitcoinAddress, ::bitcoin::address::Error>)
    ensures
        res is Ok <==> bitcoin_address_from_str(text@) is Some,
        res matches Ok(address) ==> bitcoin_address_from_str(text@) == Some(address@),
{
    let a = ::bitcoin::Address::from_str(text)?;
    let network = match a.network {
        Network::Bitcoin => BitcoinNetwork::Bitcoin, Network::Testnet => BitcoinNetwork::Testnet,
        Network::Signet => BitcoinNetwork::Signet, Network::Regtest => BitcoinNetwork::Regtest,
        _ => BitcoinNetwork::Unknown,
    };
    let payload = match &a.payload {
        Payload::PubkeyHash(h) => BitcoinPayload::PubkeyHash(h[..].to_vec()),
        Payload::ScriptHash(h) => BitcoinPayload::ScriptHash(h[..].to_vec()),
        Payload::WitnessProgram(p) => BitcoinPayload::WitnessProgram { version: p.version().to_num(), program: p.program().as_bytes().to_vec() },
        _ => BitcoinPayload::Unknown,
    };
    Ok(BitcoinAddress { network, payload, text: a.assume_checked().to_string() })
}

/// Whether an address counts as valid on the `required` network (the rule
/// of `bitcoin::Address::is_valid_for_network`): always on its own network;
/// never across mainnet; legacy (P2PKH, P2SH) addresses of the test networks
/// count on every test network, segwit ones not on regtest from elsewhere or
/// elsewhere from regtest.
pub open spec fn is_valid_for_network(address: BitcoinAddressView, required: BitcoinNetwork) -> bool {
    let legacy = address.payload is PubkeyHash || address.payload is ScriptHash;
    if address.network == required {
        true
    } else if address.network == BitcoinNetwork::Bitcoin || required == BitcoinNetwork::Bitcoin {
        false
    } else if (address.network == BitcoinNetwork::Regtest || required == BitcoinNetwork::Regtest) && !legacy {
        false
    } else {
        address.network == BitcoinNetwork::Testnet || address.network == BitcoinNetwork::Regtest
            || address.network == BitcoinNetwork::Signet
    }
}

/// Whether a payload is of the given address type: P2PKH and P2SH by their
/// payload, P2WPKH and P2WSH as version-0 programs of 20 and 32 bytes, P2TR as
/// a version-1 program of 32 bytes (a Taproot output key).
pub open spec fn payload_is_kind(payload: BitcoinPayloadView, kind: BitcoinAddressKind) -> bool {
    match kind {
        BitcoinAddressKind::P2pkh => payload is PubkeyHash,
        BitcoinAddressKind::P2sh => payload is ScriptHash,
        BitcoinAddressKind::P2wpkh => payload matches BitcoinPayloadView::WitnessProgram { version, program }
            && version == 0 && program.len() == 20,
        BitcoinAddressKind::P2wsh => payload matches BitcoinPayloadView::WitnessProgram { version, program }
            && version == 0 && program.len() == 32,
        BitcoinAddressKind::P2tr => payload matches BitcoinPayloadView::WitnessProgram { version, program }
            && version == 1 && program.len() == 32,
    }
}

/// Whether a text is accepted as a mainnet address of the given type.
pub open spec fn accepts_bitcoin_address(text: Seq<char>, kind: BitcoinAddressKind) -> bool {
    match bitcoin_address_from_str(text) {
        Some(address) => is_valid_for_network(address, BitcoinNetwork::Bitcoin) && payload_is_kind(address.payload, kind),
        None => false,
    }
}

fn network_eq(a: BitcoinNetwork, b: BitcoinNetwork) -> (res: bool)
    ensures
        res == (a == b),
{
    a == b
}

/// Checks that an address is usable on the `required` network (the rule of
/// `bitcoin::Address::require_network`).
pub fn require_network(address: BitcoinAddress, required: BitcoinNetwork) -> (res: Result<BitcoinAddress, BitcoinAddressError>)
    ensures
        is_valid_for_network(address@, required) ==> (res matches Ok(a) && a@ == address@),
        !is_valid_for_network(address@, required) ==> (res matches Err(BitcoinAddressError::NetworkValidation { required: r, found, address: a })
            && r == required && found == address.network && a@ == address.text@),
{
    let found = address.network;
    let legacy = match &address.payload {
        BitcoinPayload::PubkeyHash(_) => true,
        BitcoinPayload::ScriptHash(_) => true,
        _ => false,
    };
    let valid = if network_eq(found, required) {
        true
    } else if network_eq(found, BitcoinNetwork::Bitcoin) || network_eq(required, BitcoinNetwork::Bitcoin) {
        false
    } else if (network_eq(found, BitcoinNetwork::Regtest) || network_eq(required, BitcoinNetwork::Regtest)) && !legacy {
        false
    } else {
        network_eq(found, BitcoinNetwork::Testnet) || network_eq(found, BitcoinNetwork::Regtest)
            || network_eq(found, BitcoinNetwork::Signet)
    };
    if valid {
        Ok(address)
    } else {
        Err(BitcoinAddressError::NetworkValidation { required, found, address: address.text })
    }
}

/// Checks that a parsed address is a mainnet address of the given type.
pub fn check_bitcoin_address(address: BitcoinAddress, kind: BitcoinAddressKind) -> (res: Result<BitcoinAddress, BitcoinAddressError>)
    ensures
        !is_valid_for_network(address@, BitcoinNetwork::Bitcoin) ==> (res matches Err(BitcoinAddressError::NetworkValidation { required, found, address: a })
            && required == BitcoinNetwork::Bitcoin && found == address.network && a@ == address.text@),
        is_valid_for_network(address@, BitcoinNetwork::Bitcoin) && !payload_is_kind(address.payload@, kind)
            ==> (res matches Err(BitcoinAddressError::UnrecognizedScript)),
        is_valid_for_network(address@, BitcoinNetwork::Bitcoin) && payload_is_kind(address.payload@, kind)
            ==> (res matches Ok(a) && a@ == address@),
{
    let address = require_network(address, BitcoinNetwork::Bitcoin)?;
    let matches = match (kind, &address.payload) {
        (BitcoinAddressKind::P2pkh, BitcoinPayload::PubkeyHash(_)) => true,
        (BitcoinAddressKind::P2sh, BitcoinPayload::ScriptHash(_)) => true,
        (BitcoinAddressKind::P2wpkh, BitcoinPayload::WitnessProgram { version, program }) => *version == 0
            && program.len() == 20,
        (BitcoinAddressKind::P2wsh, BitcoinPayload::WitnessProgram { version, program }) => *version == 0
            && program.len() == 32,
        (BitcoinAddressKind::P2tr, BitcoinPayload::WitnessProgram { version, program }) => *version == 1
            && program.len() == 32,
        _ => false,
    };
    if matches {
        Ok(address)
    } else {
        Err(BitcoinAddressError::UnrecognizedScript)
    }
}

/// Parses `addr` and checks that it is a mainnet address of the given type.
pub fn validate_bitcoin_address(addr: &str, kind: BitcoinAddressKind) -> (res: Result<BitcoinAddress, BitcoinAddressError>)
    ensures
        res is Ok <==> accepts_bitcoin_address(addr@, kind),
        res matches Ok(a) ==> Some(a@) == bitcoin_address_from_str(addr@),
        res matches Err(BitcoinAddressError::Parse(_)) <==> bitcoin_address_from_str(addr@) is None,
        res matches Err(BitcoinAddressError::NetworkValidation { .. }) <==> (
            bitcoin_address_from_str(addr@) matches Some(parsed) && !is_valid_for_network(parsed, BitcoinNetwork::Bitcoin)),
        res matches Err(BitcoinAddressError::NetworkValidation { required, found, address }) ==> required == BitcoinNetwork::Bitcoin
            && (bitcoin_address_from_str(addr@) matches Some(parsed) && parsed.network == found && parsed.text == address@),
{
    match parse_bitcoin_address(addr) {
        Ok(address) => check_bitcoin_address(address, kind),
        Err(e) => Err(BitcoinAddressError::Parse(e)),
    }
}

/// Checks that `addr` is a Bitcoin mainnet P2PKH address.
pub fn validate_p2pkh_address(addr: &str) -> (res: Result<BitcoinAddress, BitcoinAddressError>)
    ensures
        res is Ok <==> accepts_bitcoin_address(addr@, BitcoinAddressKind::P2pkh),
        res matches Ok(a) ==> Some(a@) == bitcoin_address_from_str(addr@),
        res matches Err(BitcoinAddressError::Parse(_)) <==> bitcoin_address_from_str(addr@) is None,
        res matches Err(BitcoinAddressError::NetworkValidation { .. }) <==> (
            bitcoin_address_from_str(addr@) matches Some(parsed) && !is_valid_for_network(parsed, BitcoinNetwork::Bitcoin)),
        res matches Err(BitcoinAddressError::NetworkValidation { required, found, address }) ==> required == BitcoinNetwork::Bitcoin
            && (bitcoin_address_from_str(addr@) matches Some(parsed) && parsed.network == found && parsed.text == address@),
{
    validate_bitcoin_address(addr, BitcoinAddressKind::P2pkh)
}

/// Checks that `addr` is a Bitcoin mainnet P2SH address.
pub fn validate_p2sh_address(addr: &str) -> (res: Result<BitcoinAddress, BitcoinAddressError>)
    ensures
        res is Ok <==> accepts_bitcoin_address(addr@, BitcoinAddressKind::P2sh),
        res matches Ok(a) ==> Some(a@) == bitcoin_address_from_str(addr@),
        res matches Err(BitcoinAddressError::Parse(_)) <==> bitcoin_address_from_str(addr@) is None,
        res matches Err(BitcoinAddressError::NetworkValidation { .. }) <==> (
            bitcoin_address_from_str(addr@) matches Some(parsed) && !is_valid_for_network(parsed, BitcoinNetwork::Bitcoin)),
        res matches Err(BitcoinAddressError::NetworkValidation { required, found, address }) ==> required == BitcoinNetwork::Bitcoin
            && (bitcoin_address_from_str(addr@) matches Some(parsed) && parsed.network == found && parsed.text == address@),
{
    validate_bitcoin_address(addr, BitcoinAddressKind::P2sh)
}

/// Checks that `addr` is a Bitcoin mainnet P2WPKH (version-0, 20-byte program) address.
pub fn validate_p2wpkh_address(addr: &str) -> (res: Result<BitcoinAddress, BitcoinAddressError>)
    ensures
        res is Ok <==> accepts_bitcoin_address(addr@, BitcoinAddressKind::P2wpkh),
        res matches Ok(a) ==> Some(a@) == bitcoin_address_from_str(addr@),
        res matches Err(BitcoinAddressError::Parse(_)) <==> bitcoin_address_from_str(addr@) is None,
        res matches Err(BitcoinAddressError::NetworkValidation { .. }) <==> (
            bitcoin_address_from_str(addr@) matches Some(parsed) && !is_valid_for_network(parsed, BitcoinNetwork::Bitcoin)),
        res matches Err(BitcoinAddressError::NetworkValidation { required, found, address }) ==> required == BitcoinNetwork::Bitcoin
            && (bitcoin_address_from_str(addr@) matches Some(parsed) && parsed.network == found && parsed.text == address@),
{
    validate_bitcoin_address(addr, BitcoinAddressKind::P2wpkh)
}

/// Checks that `addr` is a Bitcoin mainnet P2WSH (version-0, 32-byte program) address.
pub fn validate_p2wsh_address(addr: &str) -> (res: Result<BitcoinAddress, BitcoinAddressError>)
    ensures
        res is Ok <==> accepts_bitcoin_address(addr@, BitcoinAddressKind::P2wsh),
        res matches Ok(a) ==> Some(a@) == bitcoin_address_from_str(addr@),
        res matches Err(BitcoinAddressError::Parse(_)) <==> bitcoin_address_from_str(addr@) is None,
        res matches Err(BitcoinAddressError::NetworkValidation { .. }) <==> (
            bitcoin_address_from_str(addr@) matches Some(parsed) && !is_valid_for_network(parsed, BitcoinNetwork::Bitcoin)),
        res matches Err(BitcoinAddressError::NetworkValidation { required, found, address }) ==> required == BitcoinNetwork::Bitcoin
            && (bitcoin_address_from_str(addr@) matches Some(parsed) && parsed.network == found && parsed.text == address@),
{
    validate_bitcoin_address(addr, BitcoinAddressKind::P2wsh)
}

/// Checks that `addr` is a Bitcoin mainnet P2TR (version-1, 32-byte program) address.
pub fn validate_p2tr_address(addr: &str) -> (res: Result<BitcoinAddress, BitcoinAddressError>)
    ensures
        res is Ok <==> accepts_bitcoin_address(addr@, BitcoinAddressKind::P2tr),
        res matches Ok(a) ==> Some(a@) == bitcoin_address_from_str(addr@),
        res matches Err(BitcoinAddressError::Parse(_)) <==> bitcoin_address_from_str(addr@) is None,
        res matches Err(BitcoinAddressError::NetworkValidation { .. }) <==> (
            bitcoin_address_from_str(addr@) matches Some(parsed) && !is_valid_for_network(parsed, BitcoinNetwork::Bitcoin)),
        res matches Err(BitcoinAddressError::NetworkValidation { required, found, address }) ==> required == BitcoinNetwork::Bitcoin
            && (bitcoin_address_from_str(addr@) matches Some(parsed) && parsed.network == found && parsed.text == address@),
{
    validate_bitcoin_address(addr, BitcoinAddressKind::P2tr)
}

/// The lower-case name of a network.
pub open spec fn network_name(network: BitcoinNetwork) -> Seq<char> {
    match network {
        BitcoinNetwork::Bitcoin => "bitcoin"@,
        BitcoinNetwork::Testnet => "testnet"@,
        BitcoinNetwork::Signet => "signet"@,
        BitcoinNetwork::Regtest => "regtest"@,
        BitcoinNetwork::Unknown => "unknown"@,
    }
}

fn network_name_exec(network: BitcoinNetwork) -> (name: &'static str)
    ensures
        name@ == network_name(network),
{
    match network {
        BitcoinNetwork::Bitcoin => "bitcoin",
        BitcoinNetwork::Testnet => "testnet",
        BitcoinNetwork::Signet => "signet",
        BitcoinNetwork::Regtest => "regtest",
        BitcoinNetwork::Unknown => "unknown",
    }
}

/// The message of a bitcoin address parse error (its `Display`).
#[verifier::external_body]
fn parse_error_message(e: &::bitcoin::address::Error) -> String {
    e.to_string()
}

impl BitcoinAddressError {
    /// The error in words, as the bitcoin crate words it.
    pub fn message(&self) -> (msg: String)
        ensures
            self matches BitcoinAddressError::NetworkValidation { required, found, address } ==> msg@ == "address "@
                + address@ + " belongs to network "@ + network_name(*found) + " which is different from required "@
                + network_name(*required),
            self is UnrecognizedScript ==> msg@ == "script is not a p2pkh, p2sh or witness program"@,
    {
        match self {
            BitcoinAddressError::Parse(e) => parse_error_message(e),
            BitcoinAddressError::NetworkValidation { required, found, address } => {
                let mut msg = "address ".to_owned();
                msg.append(address.as_str());
                msg.append(" belongs to network ");
                msg.append(network_name_exec(*found));
                msg.append(" which is different from required ");
                msg.append(network_name_exec(*required));
                msg
            },
            BitcoinAddressError::UnrecognizedScript => "script is not a p2pkh, p2sh or witness program".to_owned(),
        }
    }
}

/// Why a parsed address is refused as a mainnet address of a type: the
/// message for a network error where it is not a mainnet address, and for an
/// unrecognized script otherwise.
pub open spec fn bitcoin_refusal_message(address: BitcoinAddressView) -> Seq<char> {
    if !is_valid_for_network(address, BitcoinNetwork::Bitcoin) {
        "address "@ + address.text + " belongs to network "@ + network_name(address.network)
            + " which is different from required "@ + network_name(BitcoinNetwork::Bitcoin)
    } else {
        "script is not a p2pkh, p2sh or witness program"@
    }
}

/// Two address types never accept the same text: the five validators are
/// mutually exclusive.
pub proof fn lemma_bitcoin_kinds_exclusive(text: Seq<char>, k1: BitcoinAddressKind, k2: BitcoinAddressKind)
    requires
        accepts_bitcoin_address(text, k1),
        accepts_bitcoin_address(text, k2),
    ensures
        k1 == k2,
{
}

/// An address is always usable on the network it belongs to.
pub proof fn lemma_valid_on_own_network(address: BitcoinAddressView)
    ensures
        is_valid_for_network(address, address.network),
{
}

/// An accepted address is always a mainnet address.
pub proof fn lemma_accepted_is_mainnet(text: Seq<char>, kind: BitcoinAddressKind)
    requires
        accepts_bitcoin_address(text, kind),
    ensures
        bitcoin_address_from_str(text) matches Some(address) && address.network == BitcoinNetwork::Bitcoin,
{
}

} // verus!
