//! Wallet account parameters: the elliptic curve, the BIP32 derivation path
//! and the address format of each account that a wallet is created with.
//!
//! Every account path has the shape `m/{purpose}'/{coin}'/{index}'{rest}`:
//! the purpose, the coin type and the account index are hardened, the index
//! is the caller's `path_index` in decimal, and `rest` is fixed per chain.

pub mod bitcoin_mainnet;
pub mod bitcoin_regtest;
pub mod bitcoin_signet;
pub mod bitcoin_testnet;
pub mod dogecoin;
pub mod ton;

use crate::text::{decimal, is_decimal_digit, lemma_decimal_digits, lemma_decimal_injective,
    lemma_digit_run_cancel, push_decimal};
use crate::functions::create_wallet::bitcoin::{BitcoinAddressKind, BitcoinNetwork};
use vstd::prelude::*;

verus! {

/// The elliptic curve an account key lives on.
#[derive(Debug, Clone, Copy, PartialEq, Eq, Structural)]
pub enum Curve {
    CurveSecp256K1,
    CurveEd25519,
}

/// How the account path is written.
#[derive(Debug, Clone, Copy, PartialEq, Eq, Structural)]
pub enum PathFormat {
    PathFormatBip32,
}

/// The address format derived for an account.
#[derive(Debug, Clone, Copy, PartialEq, Eq, Structural)]
pub enum AddressFormat {
    AddressFormatEthereum,
    AddressFormatCosmos,
    AddressFormatTron,
    AddressFormatSolana,
    AddressFormatSui,
    AddressFormatAptos,
    AddressFormatXlm,
    AddressFormatTonV3R2,
    AddressFormatTonV4R2,
    AddressFormatDogeMainnet,
    AddressFormatDogeTestnet,
    AddressFormatBitcoinMainnetP2Pkh,
    AddressFormatBitcoinMainnetP2Wpkh,
    AddressFormatBitcoinMainnetP2Wsh,
    AddressFormatBitcoinMainnetP2Tr,
    AddressFormatBitcoinMainnetP2Sh,
    AddressFormatBitcoinTestnetP2Pkh,
    AddressFormatBitcoinTestnetP2Wpkh,
    AddressFormatBitcoinTestnetP2Wsh,
    AddressFormatBitcoinTestnetP2Tr,
    AddressFormatBitcoinTestnetP2Sh,
    AddressFormatBitcoinSignetP2Pkh,
    AddressFormatBitcoinSignetP2Wpkh,
    AddressFormatBitcoinSignetP2Wsh,
    AddressFormatBitcoinSignetP2Tr,
    AddressFormatBitcoinSignetP2Sh,
    AddressFormatBitcoinRegtestP2Pkh,
    AddressFormatBitcoinRegtestP2Wpkh,
    AddressFormatBitcoinRegtestP2Wsh,
    AddressFormatBitcoinRegtestP2Tr,
    AddressFormatBitcoinRegtestP2Sh,
}

/// One account of a wallet to be created.
#[derive(Debug, PartialEq)]
pub struct WalletAccountParams {
    pub curve: Curve,
    pub path_format: PathFormat,
    pub path: String,
    pub address_format: AddressFormat,
}

/// The name the Turnkey API gives a curve.
pub open spec fn curve_api_name(curve: Curve) -> Seq<char> {
    match curve {
        Curve::CurveSecp256K1 => "CURVE_SECP256K1"@,
        Curve::CurveEd25519 => "CURVE_ED25519"@,
    }
}

/// The name the Turnkey API gives a path format.
pub open spec fn path_format_api_name(format: PathFormat) -> Seq<char> {
    match format {
        PathFormat::PathFormatBip32 => "PATH_FORMAT_BIP32"@,
    }
}

/// The name the Turnkey API gives an address format.
pub open spec fn address_format_api_name(format: AddressFormat) -> Seq<char> {
    match format {
        AddressFormat::AddressFormatEthereum => "ADDRESS_FORMAT_ETHEREUM"@,
        AddressFormat::AddressFormatCosmos => "ADDRESS_FORMAT_COSMOS"@,
        AddressFormat::AddressFormatTron => "ADDRESS_FORMAT_TRON"@,
        AddressFormat::AddressFormatSolana => "ADDRESS_FORMAT_SOLANA"@,
        AddressFormat::AddressFormatSui => "ADDRESS_FORMAT_SUI"@,
        AddressFormat::AddressFormatAptos => "ADDRESS_FORMAT_APTOS"@,
        AddressFormat::AddressFormatXlm => "ADDRESS_FORMAT_XLM"@,
        AddressFormat::AddressFormatTonV3R2 => "ADDRESS_FORMAT_TON_V3R2"@,
        AddressFormat::AddressFormatTonV4R2 => "ADDRESS_FORMAT_TON_V4R2"@,
        AddressFormat::AddressFormatDogeMainnet => "ADDRESS_FORMAT_DOGE_MAINNET"@,
        AddressFormat::AddressFormatDogeTestnet => "ADDRESS_FORMAT_DOGE_TESTNET"@,
        AddressFormat::AddressFormatBitcoinMainnetP2Pkh => "ADDRESS_FORMAT_BITCOIN_MAINNET_P2PKH"@,
        AddressFormat::AddressFormatBitcoinMainnetP2Wpkh => "ADDRESS_FORMAT_BITCOIN_MAINNET_P2WPKH"@,
        AddressFormat::AddressFormatBitcoinMainnetP2Wsh => "ADDRESS_FORMAT_BITCOIN_MAINNET_P2WSH"@,
        AddressFormat::AddressFormatBitcoinMainnetP2Tr => "ADDRESS_FORMAT_BITCOIN_MAINNET_P2TR"@,
        AddressFormat::AddressFormatBitcoinMainnetP2Sh => "ADDRESS_FORMAT_BITCOIN_MAINNET_P2SH"@,
        AddressFormat::AddressFormatBitcoinTestnetP2Pkh => "ADDRESS_FORMAT_BITCOIN_TESTNET_P2PKH"@,
        AddressFormat::AddressFormatBitcoinTestnetP2Wpkh => "ADDRESS_FORMAT_BITCOIN_TESTNET_P2WPKH"@,
        AddressFormat::AddressFormatBitcoinTestnetP2Wsh => "ADDRESS_FORMAT_BITCOIN_TESTNET_P2WSH"@,
        AddressFormat::AddressFormatBitcoinTestnetP2Tr => "ADDRESS_FORMAT_BITCOIN_TESTNET_P2TR"@,
        AddressFormat::AddressFormatBitcoinTestnetP2Sh => "ADDRESS_FORMAT_BITCOIN_TESTNET_P2SH"@,
        AddressFormat::AddressFormatBitcoinSignetP2Pkh => "ADDRESS_FORMAT_BITCOIN_SIGNET_P2PKH"@,
        AddressFormat::AddressFormatBitcoinSignetP2Wpkh => "ADDRESS_FORMAT_BITCOIN_SIGNET_P2WPKH"@,
        AddressFormat::AddressFormatBitcoinSignetP2Wsh => "ADDRESS_FORMAT_BITCOIN_SIGNET_P2WSH"@,
        AddressFormat::AddressFormatBitcoinSignetP2Tr => "ADDRESS_FORMAT_BITCOIN_SIGNET_P2TR"@,
        AddressFormat::AddressFormatBitcoinSignetP2Sh => "ADDRESS_FORMAT_BITCOIN_SIGNET_P2SH"@,
        AddressFormat::AddressFormatBitcoinRegtestP2Pkh => "ADDRESS_FORMAT_BITCOIN_REGTEST_P2PKH"@,
        AddressFormat::AddressFormatBitcoinRegtestP2Wpkh => "ADDRESS_FORMAT_BITCOIN_REGTEST_P2WPKH"@,
        AddressFormat::AddressFormatBitcoinRegtestP2Wsh => "ADDRESS_FORMAT_BITCOIN_REGTEST_P2WSH"@,
        AddressFormat::AddressFormatBitcoinRegtestP2Tr => "ADDRESS_FORMAT_BITCOIN_REGTEST_P2TR"@,
        AddressFormat::AddressFormatBitcoinRegtestP2Sh => "ADDRESS_FORMAT_BITCOIN_REGTEST_P2SH"@,
    }
}

impl Curve {
    /// The curve's name in the Turnkey API.
    pub fn api_name(&self) -> (name: &'static str)
        ensures
            name@ == curve_api_name(*self),
    {
        match self {
            Curve::CurveSecp256K1 => "CURVE_SECP256K1",
            Curve::CurveEd25519 => "CURVE_ED25519",
        }
    }
}

impl PathFormat {
    /// The path format's name in the Turnkey API.
    pub fn api_name(&self) -> (name: &'static str)
        ensures
            name@ == path_format_api_name(*self),
    {
        match self {
            PathFormat::PathFormatBip32 => "PATH_FORMAT_BIP32",
        }
    }
}

impl AddressFormat {
    /// The address format's name in the Turnkey API.
    pub fn api_name(&self) -> (name: &'static str)
        ensures
            name@ == address_format_api_name(*self),
    {
        match self {
            AddressFormat::AddressFormatEthereum => "ADDRESS_FORMAT_ETHEREUM",
            AddressFormat::AddressFormatCosmos => "ADDRESS_FORMAT_COSMOS",
            AddressFormat::AddressFormatTron => "ADDRESS_FORMAT_TRON",
            AddressFormat::AddressFormatSolana => "ADDRESS_FORMAT_SOLANA",
            AddressFormat::AddressFormatSui => "ADDRESS_FORMAT_SUI",
            AddressFormat::AddressFormatAptos => "ADDRESS_FORMAT_APTOS",
            AddressFormat::AddressFormatXlm => "ADDRESS_FORMAT_XLM",
            AddressFormat::AddressFormatTonV3R2 => "ADDRESS_FORMAT_TON_V3R2",
            AddressFormat::AddressFormatTonV4R2 => "ADDRESS_FORMAT_TON_V4R2",
            AddressFormat::AddressFormatDogeMainnet => "ADDRESS_FORMAT_DOGE_MAINNET",
            AddressFormat::AddressFormatDogeTestnet => "ADDRESS_FORMAT_DOGE_TESTNET",
            AddressFormat::AddressFormatBitcoinMainnetP2Pkh => "ADDRESS_FORMAT_BITCOIN_MAINNET_P2PKH",
            AddressFormat::AddressFormatBitcoinMainnetP2Wpkh => "ADDRESS_FORMAT_BITCOIN_MAINNET_P2WPKH",
            AddressFormat::AddressFormatBitcoinMainnetP2Wsh => "ADDRESS_FORMAT_BITCOIN_MAINNET_P2WSH",
            AddressFormat::AddressFormatBitcoinMainnetP2Tr => "ADDRESS_FORMAT_BITCOIN_MAINNET_P2TR",
            AddressFormat::AddressFormatBitcoinMainnetP2Sh => "ADDRESS_FORMAT_BITCOIN_MAINNET_P2SH",
            AddressFormat::AddressFormatBitcoinTestnetP2Pkh => "ADDRESS_FORMAT_BITCOIN_TESTNET_P2PKH",
            AddressFormat::AddressFormatBitcoinTestnetP2Wpkh => "ADDRESS_FORMAT_BITCOIN_TESTNET_P2WPKH",
            AddressFormat::AddressFormatBitcoinTestnetP2Wsh => "ADDRESS_FORMAT_BITCOIN_TESTNET_P2WSH",
            AddressFormat::AddressFormatBitcoinTestnetP2Tr => "ADDRESS_FORMAT_BITCOIN_TESTNET_P2TR",
            AddressFormat::AddressFormatBitcoinTestnetP2Sh => "ADDRESS_FORMAT_BITCOIN_TESTNET_P2SH",
            AddressFormat::AddressFormatBitcoinSignetP2Pkh => "ADDRESS_FORMAT_BITCOIN_SIGNET_P2PKH",
            AddressFormat::AddressFormatBitcoinSignetP2Wpkh => "ADDRESS_FORMAT_BITCOIN_SIGNET_P2WPKH",
            AddressFormat::AddressFormatBitcoinSignetP2Wsh => "ADDRESS_FORMAT_BITCOIN_SIGNET_P2WSH",
            AddressFormat::AddressFormatBitcoinSignetP2Tr => "ADDRESS_FORMAT_BITCOIN_SIGNET_P2TR",
            AddressFormat::AddressFormatBitcoinSignetP2Sh => "ADDRESS_FORMAT_BITCOIN_SIGNET_P2SH",
            AddressFormat::AddressFormatBitcoinRegtestP2Pkh => "ADDRESS_FORMAT_BITCOIN_REGTEST_P2PKH",
            AddressFormat::AddressFormatBitcoinRegtestP2Wpkh => "ADDRESS_FORMAT_BITCOIN_REGTEST_P2WPKH",
            AddressFormat::AddressFormatBitcoinRegtestP2Wsh => "ADDRESS_FORMAT_BITCOIN_REGTEST_P2WSH",
            AddressFormat::AddressFormatBitcoinRegtestP2Tr => "ADDRESS_FORMAT_BITCOIN_REGTEST_P2TR",
            AddressFormat::AddressFormatBitcoinRegtestP2Sh => "ADDRESS_FORMAT_BITCOIN_REGTEST_P2SH",
        }
    }
}

/// A few characters of an API name that tell the names apart: its length,
/// the three characters after `ADDRESS_FORMAT_`, the character where a
/// Bitcoin name spells its network, and the three before the last.
pub open spec fn api_name_signature(name: Seq<char>) -> (nat, char, char, char, char, char, char, char) {
    (
        name.len(),
        name[15],
        name[16],
        name[17],
        if name.len() > 23 { name[23] } else { ' ' },
        name[name.len() - 2],
        name[name.len() - 3],
        name[name.len() - 4],
    )
}

spec fn expected_api_name_signature(format: AddressFormat) -> (nat, char, char, char, char, char, char, char) {
    match format {
        AddressFormat::AddressFormatEthereum => (23, 'E', 'T', 'H', ' ', 'U', 'E', 'R'),
        AddressFormat::AddressFormatCosmos => (21, 'C', 'O', 'S', ' ', 'O', 'M', 'S'),
        AddressFormat::AddressFormatTron => (19, 'T', 'R', 'O', ' ', 'O', 'R', 'T'),
        AddressFormat::AddressFormatSolana => (21, 'S', 'O', 'L', ' ', 'N', 'A', 'L'),
        AddressFormat::AddressFormatSui => (18, 'S', 'U', 'I', ' ', 'U', 'S', '_'),
        AddressFormat::AddressFormatAptos => (20, 'A', 'P', 'T', ' ', 'O', 'T', 'P'),
        AddressFormat::AddressFormatXlm => (18, 'X', 'L', 'M', ' ', 'L', 'X', '_'),
        AddressFormat::AddressFormatTonV3R2 => (23, 'T', 'O', 'N', ' ', 'R', '3', 'V'),
        AddressFormat::AddressFormatTonV4R2 => (23, 'T', 'O', 'N', ' ', 'R', '4', 'V'),
        AddressFormat::AddressFormatDogeMainnet => (27, 'D', 'O', 'G', 'N', 'E', 'N', 'N'),
        AddressFormat::AddressFormatDogeTestnet => (27, 'D', 'O', 'G', 'T', 'E', 'N', 'T'),
        AddressFormat::AddressFormatBitcoinMainnetP2Pkh => (36, 'B', 'I', 'T', 'M', 'K', 'P', '2'),
        AddressFormat::AddressFormatBitcoinMainnetP2Wpkh => (37, 'B', 'I', 'T', 'M', 'K', 'P', 'W'),
        AddressFormat::AddressFormatBitcoinMainnetP2Wsh => (36, 'B', 'I', 'T', 'M', 'S', 'W', '2'),
        AddressFormat::AddressFormatBitcoinMainnetP2Tr => (35, 'B', 'I', 'T', 'M', 'T', '2', 'P'),
        AddressFormat::AddressFormatBitcoinMainnetP2Sh => (35, 'B', 'I', 'T', 'M', 'S', '2', 'P'),
        AddressFormat::AddressFormatBitcoinTestnetP2Pkh => (36, 'B', 'I', 'T', 'T', 'K', 'P', '2'),
        AddressFormat::AddressFormatBitcoinTestnetP2Wpkh => (37, 'B', 'I', 'T', 'T', 'K', 'P', 'W'),
        AddressFormat::AddressFormatBitcoinTestnetP2Wsh => (36, 'B', 'I', 'T', 'T', 'S', 'W', '2'),
        AddressFormat::AddressFormatBitcoinTestnetP2Tr => (35, 'B', 'I', 'T', 'T', 'T', '2', 'P'),
        AddressFormat::AddressFormatBitcoinTestnetP2Sh => (35, 'B', 'I', 'T', 'T', 'S', '2', 'P'),
        AddressFormat::AddressFormatBitcoinSignetP2Pkh => (35, 'B', 'I', 'T', 'S', 'K', 'P', '2'),
        AddressFormat::AddressFormatBitcoinSignetP2Wpkh => (36, 'B', 'I', 'T', 'S', 'K', 'P', 'W'),
        AddressFormat::AddressFormatBitcoinSignetP2Wsh => (35, 'B', 'I', 'T', 'S', 'S', 'W', '2'),
        AddressFormat::AddressFormatBitcoinSignetP2Tr => (34, 'B', 'I', 'T', 'S', 'T', '2', 'P'),
        AddressFormat::AddressFormatBitcoinSignetP2Sh => (34, 'B', 'I', 'T', 'S', 'S', '2', 'P'),
        AddressFormat::AddressFormatBitcoinRegtestP2Pkh => (36, 'B', 'I', 'T', 'R', 'K', 'P', '2'),
        AddressFormat::AddressFormatBitcoinRegtestP2Wpkh => (37, 'B', 'I', 'T', 'R', 'K', 'P', 'W'),
        AddressFormat::AddressFormatBitcoinRegtestP2Wsh => (36, 'B', 'I', 'T', 'R', 'S', 'W', '2'),
        AddressFormat::AddressFormatBitcoinRegtestP2Tr => (35, 'B', 'I', 'T', 'R', 'T', '2', 'P'),
        AddressFormat::AddressFormatBitcoinRegtestP2Sh => (35, 'B', 'I', 'T', 'R', 'S', '2', 'P'),
    }
}

proof fn lemma_api_name_signature(format: AddressFormat)
    ensures
        api_name_signature(address_format_api_name(format)) == expected_api_name_signature(format),
{
    match format {
        AddressFormat::AddressFormatEthereum => {
            reveal_strlit("ADDRESS_FORMAT_ETHEREUM");
        },
        AddressFormat::AddressFormatCosmos => {
            reveal_strlit("ADDRESS_FORMAT_COSMOS");
        },
        AddressFormat::AddressFormatTron => {
            reveal_strlit("ADDRESS_FORMAT_TRON");
        },
        AddressFormat::AddressFormatSolana => {
            reveal_strlit("ADDRESS_FORMAT_SOLANA");
        },
        AddressFormat::AddressFormatSui => {
            reveal_strlit("ADDRESS_FORMAT_SUI");
        },
        AddressFormat::AddressFormatAptos => {
            reveal_strlit("ADDRESS_FORMAT_APTOS");
        },
        AddressFormat::AddressFormatXlm => {
            reveal_strlit("ADDRESS_FORMAT_XLM");
        },
        AddressFormat::AddressFormatTonV3R2 => {
            reveal_strlit("ADDRESS_FORMAT_TON_V3R2");
        },
        AddressFormat::AddressFormatTonV4R2 => {
            reveal_strlit("ADDRESS_FORMAT_TON_V4R2");
        },
        AddressFormat::AddressFormatDogeMainnet => {
            reveal_strlit("ADDRESS_FORMAT_DOGE_MAINNET");
        },
        AddressFormat::AddressFormatDogeTestnet => {
            reveal_strlit("ADDRESS_FORMAT_DOGE_TESTNET");
        },
        AddressFormat::AddressFormatBitcoinMainnetP2Pkh => {
            reveal_strlit("ADDRESS_FORMAT_BITCOIN_MAINNET_P2PKH");
        },
        AddressFormat::AddressFormatBitcoinMainnetP2Wpkh => {
            reveal_strlit("ADDRESS_FORMAT_BITCOIN_MAINNET_P2WPKH");
        },
        AddressFormat::AddressFormatBitcoinMainnetP2Wsh => {
            reveal_strlit("ADDRESS_FORMAT_BITCOIN_MAINNET_P2WSH");
        },
        AddressFormat::AddressFormatBitcoinMainnetP2Tr => {
            reveal_strlit("ADDRESS_FORMAT_BITCOIN_MAINNET_P2TR");
        },
        AddressFormat::AddressFormatBitcoinMainnetP2Sh => {
            reveal_strlit("ADDRESS_FORMAT_BITCOIN_MAINNET_P2SH");
        },
        AddressFormat::AddressFormatBitcoinTestnetP2Pkh => {
            reveal_strlit("ADDRESS_FORMAT_BITCOIN_TESTNET_P2PKH");
        },
        AddressFormat::AddressFormatBitcoinTestnetP2Wpkh => {
            reveal_strlit("ADDRESS_FORMAT_BITCOIN_TESTNET_P2WPKH");
        },
        AddressFormat::AddressFormatBitcoinTestnetP2Wsh => {
            reveal_strlit("ADDRESS_FORMAT_BITCOIN_TESTNET_P2WSH");
        },
        AddressFormat::AddressFormatBitcoinTestnetP2Tr => {
            reveal_strlit("ADDRESS_FORMAT_BITCOIN_TESTNET_P2TR");
        },
        AddressFormat::AddressFormatBitcoinTestnetP2Sh => {
            reveal_strlit("ADDRESS_FORMAT_BITCOIN_TESTNET_P2SH");
        },
        AddressFormat::AddressFormatBitcoinSignetP2Pkh => {
            reveal_strlit("ADDRESS_FORMAT_BITCOIN_SIGNET_P2PKH");
        },
        AddressFormat::AddressFormatBitcoinSignetP2Wpkh => {
            reveal_strlit("ADDRESS_FORMAT_BITCOIN_SIGNET_P2WPKH");
        },
        AddressFormat::AddressFormatBitcoinSignetP2Wsh => {
            reveal_strlit("ADDRESS_FORMAT_BITCOIN_SIGNET_P2WSH");
        },
        AddressFormat::AddressFormatBitcoinSignetP2Tr => {
            reveal_strlit("ADDRESS_FORMAT_BITCOIN_SIGNET_P2TR");
        },
        AddressFormat::AddressFormatBitcoinSignetP2Sh => {
            reveal_strlit("ADDRESS_FORMAT_BITCOIN_SIGNET_P2SH");
        },
        AddressFormat::AddressFormatBitcoinRegtestP2Pkh => {
            reveal_strlit("ADDRESS_FORMAT_BITCOIN_REGTEST_P2PKH");
        },
        AddressFormat::AddressFormatBitcoinRegtestP2Wpkh => {
            reveal_strlit("ADDRESS_FORMAT_BITCOIN_REGTEST_P2WPKH");
        },
        AddressFormat::AddressFormatBitcoinRegtestP2Wsh => {
            reveal_strlit("ADDRESS_FORMAT_BITCOIN_REGTEST_P2WSH");
        },
        AddressFormat::AddressFormatBitcoinRegtestP2Tr => {
            reveal_strlit("ADDRESS_FORMAT_BITCOIN_REGTEST_P2TR");
        },
        AddressFormat::AddressFormatBitcoinRegtestP2Sh => {
            reveal_strlit("ADDRESS_FORMAT_BITCOIN_REGTEST_P2SH");
        },
    }
}

/// No two address formats share an API name, so the name a request carries
/// identifies the format.
pub proof fn lemma_address_format_names_distinct(f: AddressFormat, g: AddressFormat)
    requires
        address_format_api_name(f) == address_format_api_name(g),
    ensures
        f == g,
{
    lemma_api_name_signature(f);
    lemma_api_name_signature(g);
}

/// The Bitcoin address format for a network and an address type.
pub open spec fn bitcoin_address_format(network: BitcoinNetwork, kind: BitcoinAddressKind) -> Option<AddressFormat> {
    match (network, kind) {
        (BitcoinNetwork::Bitcoin, BitcoinAddressKind::P2pkh) => Some(AddressFormat::AddressFormatBitcoinMainnetP2Pkh),
        (BitcoinNetwork::Bitcoin, BitcoinAddressKind::P2sh) => Some(AddressFormat::AddressFormatBitcoinMainnetP2Sh),
        (BitcoinNetwork::Bitcoin, BitcoinAddressKind::P2wpkh) => Some(AddressFormat::AddressFormatBitcoinMainnetP2Wpkh),
        (BitcoinNetwork::Bitcoin, BitcoinAddressKind::P2wsh) => Some(AddressFormat::AddressFormatBitcoinMainnetP2Wsh),
        (BitcoinNetwork::Bitcoin, BitcoinAddressKind::P2tr) => Some(AddressFormat::AddressFormatBitcoinMainnetP2Tr),
        (BitcoinNetwork::Testnet, BitcoinAddressKind::P2pkh) => Some(AddressFormat::AddressFormatBitcoinTestnetP2Pkh),
        (BitcoinNetwork::Testnet, BitcoinAddressKind::P2sh) => Some(AddressFormat::AddressFormatBitcoinTestnetP2Sh),
        (BitcoinNetwork::Testnet, BitcoinAddressKind::P2wpkh) => Some(AddressFormat::AddressFormatBitcoinTestnetP2Wpkh),
        (BitcoinNetwork::Testnet, BitcoinAddressKind::P2wsh) => Some(AddressFormat::AddressFormatBitcoinTestnetP2Wsh),
        (BitcoinNetwork::Testnet, BitcoinAddressKind::P2tr) => Some(AddressFormat::AddressFormatBitcoinTestnetP2Tr),
        (BitcoinNetwork::Signet, BitcoinAddressKind::P2pkh) => Some(AddressFormat::AddressFormatBitcoinSignetP2Pkh),
        (BitcoinNetwork::Signet, BitcoinAddressKind::P2sh) => Some(AddressFormat::AddressFormatBitcoinSignetP2Sh),
        (BitcoinNetwork::Signet, BitcoinAddressKind::P2wpkh) => Some(AddressFormat::AddressFormatBitcoinSignetP2Wpkh),
        (BitcoinNetwork::Signet, BitcoinAddressKind::P2wsh) => Some(AddressFormat::AddressFormatBitcoinSignetP2Wsh),
        (BitcoinNetwork::Signet, BitcoinAddressKind::P2tr) => Some(AddressFormat::AddressFormatBitcoinSignetP2Tr),
        (BitcoinNetwork::Regtest, BitcoinAddressKind::P2pkh) => Some(AddressFormat::AddressFormatBitcoinRegtestP2Pkh),
        (BitcoinNetwork::Regtest, BitcoinAddressKind::P2sh) => Some(AddressFormat::AddressFormatBitcoinRegtestP2Sh),
        (BitcoinNetwork::Regtest, BitcoinAddressKind::P2wpkh) => Some(AddressFormat::AddressFormatBitcoinRegtestP2Wpkh),
        (BitcoinNetwork::Regtest, BitcoinAddressKind::P2wsh) => Some(AddressFormat::AddressFormatBitcoinRegtestP2Wsh),
        (BitcoinNetwork::Regtest, BitcoinAddressKind::P2tr) => Some(AddressFormat::AddressFormatBitcoinRegtestP2Tr),
        _ => None,
    }
}

/// The upper-case word the API uses for a Bitcoin network.
pub open spec fn network_api_word(network: BitcoinNetwork) -> Seq<char> {
    match network {
        BitcoinNetwork::Bitcoin => "MAINNET"@,
        BitcoinNetwork::Testnet => "TESTNET"@,
        BitcoinNetwork::Signet => "SIGNET"@,
        BitcoinNetwork::Regtest => "REGTEST"@,
        BitcoinNetwork::Unknown => Seq::empty(),
    }
}

/// The upper-case word the API uses for a Bitcoin address type.
pub open spec fn address_kind_api_word(kind: BitcoinAddressKind) -> Seq<char> {
    match kind {
        BitcoinAddressKind::P2pkh => "P2PKH"@,
        BitcoinAddressKind::P2sh => "P2SH"@,
        BitcoinAddressKind::P2wpkh => "P2WPKH"@,
        BitcoinAddressKind::P2wsh => "P2WSH"@,
        BitcoinAddressKind::P2tr => "P2TR"@,
    }
}

/// The API name of a Bitcoin address format spells its network and type:
/// `ADDRESS_FORMAT_BITCOIN_{NETWORK}_{TYPE}`, so in particular every mainnet
/// format's name says `MAINNET`.
pub proof fn lemma_bitcoin_format_api_name(network: BitcoinNetwork, kind: BitcoinAddressKind)
    requires
        network != BitcoinNetwork::Unknown,
    ensures
        bitcoin_address_format(network, kind) matches Some(format) && address_format_api_name(format)
            == "ADDRESS_FORMAT_BITCOIN_"@ + network_api_word(network) + "_"@ + address_kind_api_word(kind),
{
    reveal_strlit("ADDRESS_FORMAT_BITCOIN_");
    reveal_strlit("_");
    match (network, kind) {
        (BitcoinNetwork::Bitcoin, BitcoinAddressKind::P2pkh) => {
            reveal_strlit("ADDRESS_FORMAT_BITCOIN_MAINNET_P2PKH");
            reveal_strlit("MAINNET");
            reveal_strlit("P2PKH");
            assert(address_format_api_name(AddressFormat::AddressFormatBitcoinMainnetP2Pkh) =~= "ADDRESS_FORMAT_BITCOIN_"@
                + "MAINNET"@ + "_"@ + "P2PKH"@);
        },
        (BitcoinNetwork::Bitcoin, BitcoinAddressKind::P2sh) => {
            reveal_strlit("ADDRESS_FORMAT_BITCOIN_MAINNET_P2SH");
            reveal_strlit("MAINNET");
            reveal_strlit("P2SH");
            assert(address_format_api_name(AddressFormat::AddressFormatBitcoinMainnetP2Sh) =~= "ADDRESS_FORMAT_BITCOIN_"@
                + "MAINNET"@ + "_"@ + "P2SH"@);
        },
        (BitcoinNetwork::Bitcoin, BitcoinAddressKind::P2wpkh) => {
            reveal_strlit("ADDRESS_FORMAT_BITCOIN_MAINNET_P2WPKH");
            reveal_strlit("MAINNET");
            reveal_strlit("P2WPKH");
            assert(address_format_api_name(AddressFormat::AddressFormatBitcoinMainnetP2Wpkh) =~= "ADDRESS_FORMAT_BITCOIN_"@
                + "MAINNET"@ + "_"@ + "P2WPKH"@);
        },
        (BitcoinNetwork::Bitcoin, BitcoinAddressKind::P2wsh) => {
            reveal_strlit("ADDRESS_FORMAT_BITCOIN_MAINNET_P2WSH");
            reveal_strlit("MAINNET");
            reveal_strlit("P2WSH");
            assert(address_format_api_name(AddressFormat::AddressFormatBitcoinMainnetP2Wsh) =~= "ADDRESS_FORMAT_BITCOIN_"@
                + "MAINNET"@ + "_"@ + "P2WSH"@);
        },
        (BitcoinNetwork::Bitcoin, BitcoinAddressKind::P2tr) => {
            reveal_strlit("ADDRESS_FORMAT_BITCOIN_MAINNET_P2TR");
            reveal_strlit("MAINNET");
            reveal_strlit("P2TR");
            assert(address_format_api_name(AddressFormat::AddressFormatBitcoinMainnetP2Tr) =~= "ADDRESS_FORMAT_BITCOIN_"@
                + "MAINNET"@ + "_"@ + "P2TR"@);
        },
        (BitcoinNetwork::Testnet, BitcoinAddressKind::P2pkh) => {
            reveal_strlit("ADDRESS_FORMAT_BITCOIN_TESTNET_P2PKH");
            reveal_strlit("TESTNET");
            reveal_strlit("P2PKH");
            assert(address_format_api_name(AddressFormat::AddressFormatBitcoinTestnetP2Pkh) =~= "ADDRESS_FORMAT_BITCOIN_"@
                + "TESTNET"@ + "_"@ + "P2PKH"@);
        },
        (BitcoinNetwork::Testnet, BitcoinAddressKind::P2sh) => {
            reveal_strlit("ADDRESS_FORMAT_BITCOIN_TESTNET_P2SH");
            reveal_strlit("TESTNET");
            reveal_strlit("P2SH");
            assert(address_format_api_name(AddressFormat::AddressFormatBitcoinTestnetP2Sh) =~= "ADDRESS_FORMAT_BITCOIN_"@
                + "TESTNET"@ + "_"@ + "P2SH"@);
        },
        (BitcoinNetwork::Testnet, BitcoinAddressKind::P2wpkh) => {
            reveal_strlit("ADDRESS_FORMAT_BITCOIN_TESTNET_P2WPKH");
            reveal_strlit("TESTNET");
            reveal_strlit("P2WPKH");
            assert(address_format_api_name(AddressFormat::AddressFormatBitcoinTestnetP2Wpkh) =~= "ADDRESS_FORMAT_BITCOIN_"@
                + "TESTNET"@ + "_"@ + "P2WPKH"@);
        },
        (BitcoinNetwork::Testnet, BitcoinAddressKind::P2wsh) => {
            reveal_strlit("ADDRESS_FORMAT_BITCOIN_TESTNET_P2WSH");
            reveal_strlit("TESTNET");
            reveal_strlit("P2WSH");
            assert(address_format_api_name(AddressFormat::AddressFormatBitcoinTestnetP2Wsh) =~= "ADDRESS_FORMAT_BITCOIN_"@
                + "TESTNET"@ + "_"@ + "P2WSH"@);
        },
        (BitcoinNetwork::Testnet, BitcoinAddressKind::P2tr) => {
            reveal_strlit("ADDRESS_FORMAT_BITCOIN_TESTNET_P2TR");
            reveal_strlit("TESTNET");
            reveal_strlit("P2TR");
            assert(address_format_api_name(AddressFormat::AddressFormatBitcoinTestnetP2Tr) =~= "ADDRESS_FORMAT_BITCOIN_"@
                + "TESTNET"@ + "_"@ + "P2TR"@);
        },
        (BitcoinNetwork::Signet, BitcoinAddressKind::P2pkh) => {
            reveal_strlit("ADDRESS_FORMAT_BITCOIN_SIGNET_P2PKH");
            reveal_strlit("SIGNET");
            reveal_strlit("P2PKH");
            assert(address_format_api_name(AddressFormat::AddressFormatBitcoinSignetP2Pkh) =~= "ADDRESS_FORMAT_BITCOIN_"@
                + "SIGNET"@ + "_"@ + "P2PKH"@);
        },
        (BitcoinNetwork::Signet, BitcoinAddressKind::P2sh) => {
            reveal_strlit("ADDRESS_FORMAT_BITCOIN_SIGNET_P2SH");
            reveal_strlit("SIGNET");
            reveal_strlit("P2SH");
            assert(address_format_api_name(AddressFormat::AddressFormatBitcoinSignetP2Sh) =~= "ADDRESS_FORMAT_BITCOIN_"@
                + "SIGNET"@ + "_"@ + "P2SH"@);
        },
        (BitcoinNetwork::Signet, BitcoinAddressKind::P2wpkh) => {
            reveal_strlit("ADDRESS_FORMAT_BITCOIN_SIGNET_P2WPKH");
            reveal_strlit("SIGNET");
            reveal_strlit("P2WPKH");
            assert(address_format_api_name(AddressFormat::AddressFormatBitcoinSignetP2Wpkh) =~= "ADDRESS_FORMAT_BITCOIN_"@
                + "SIGNET"@ + "_"@ + "P2WPKH"@);
        },
        (BitcoinNetwork::Signet, BitcoinAddressKind::P2wsh) => {
            reveal_strlit("ADDRESS_FORMAT_BITCOIN_SIGNET_P2WSH");
            reveal_strlit("SIGNET");
            reveal_strlit("P2WSH");
            assert(address_format_api_name(AddressFormat::AddressFormatBitcoinSignetP2Wsh) =~= "ADDRESS_FORMAT_BITCOIN_"@
                + "SIGNET"@ + "_"@ + "P2WSH"@);
        },
        (BitcoinNetwork::Signet, BitcoinAddressKind::P2tr) => {
            reveal_strlit("ADDRESS_FORMAT_BITCOIN_SIGNET_P2TR");
            reveal_strlit("SIGNET");
            reveal_strlit("P2TR");
            assert(address_format_api_name(AddressFormat::AddressFormatBitcoinSignetP2Tr) =~= "ADDRESS_FORMAT_BITCOIN_"@
                + "SIGNET"@ + "_"@ + "P2TR"@);
        },
        (BitcoinNetwork::Regtest, BitcoinAddressKind::P2pkh) => {
            reveal_strlit("ADDRESS_FORMAT_BITCOIN_REGTEST_P2PKH");
            reveal_strlit("REGTEST");
            reveal_strlit("P2PKH");
            assert(address_format_api_name(AddressFormat::AddressFormatBitcoinRegtestP2Pkh) =~= "ADDRESS_FORMAT_BITCOIN_"@
                + "REGTEST"@ + "_"@ + "P2PKH"@);
        },
        (BitcoinNetwork::Regtest, BitcoinAddressKind::P2sh) => {
            reveal_strlit("ADDRESS_FORMAT_BITCOIN_REGTEST_P2SH");
            reveal_strlit("REGTEST");
            reveal_strlit("P2SH");
            assert(address_format_api_name(AddressFormat::AddressFormatBitcoinRegtestP2Sh) =~= "ADDRESS_FORMAT_BITCOIN_"@
                + "REGTEST"@ + "_"@ + "P2SH"@);
        },
        (BitcoinNetwork::Regtest, BitcoinAddressKind::P2wpkh) => {
            reveal_strlit("ADDRESS_FORMAT_BITCOIN_REGTEST_P2WPKH");
            reveal_strlit("REGTEST");
            reveal_strlit("P2WPKH");
            assert(address_format_api_name(AddressFormat::AddressFormatBitcoinRegtestP2Wpkh) =~= "ADDRESS_FORMAT_BITCOIN_"@
                + "REGTEST"@ + "_"@ + "P2WPKH"@);
        },
        (BitcoinNetwork::Regtest, BitcoinAddressKind::P2wsh) => {
            reveal_strlit("ADDRESS_FORMAT_BITCOIN_REGTEST_P2WSH");
            reveal_strlit("REGTEST");
            reveal_strlit("P2WSH");
            assert(address_format_api_name(AddressFormat::AddressFormatBitcoinRegtestP2Wsh) =~= "ADDRESS_FORMAT_BITCOIN_"@
                + "REGTEST"@ + "_"@ + "P2WSH"@);
        },
        (BitcoinNetwork::Regtest, BitcoinAddressKind::P2tr) => {
            reveal_strlit("ADDRESS_FORMAT_BITCOIN_REGTEST_P2TR");
            reveal_strlit("REGTEST");
            reveal_strlit("P2TR");
            assert(address_format_api_name(AddressFormat::AddressFormatBitcoinRegtestP2Tr) =~= "ADDRESS_FORMAT_BITCOIN_"@
                + "REGTEST"@ + "_"@ + "P2TR"@);
        },
        _ => {},
    }
}

/// The hardened derivation path `m/{purpose}'/{coin}'/{index}'{rest}`.
pub open spec fn hardened_path(purpose: Seq<char>, coin: Seq<char>, index: u32, rest: Seq<char>) -> Seq<char> {
    seq!['m', '/'] + purpose + seq!['\'', '/'] + coin + seq!['\'', '/'] + decimal(index as nat)
        + seq!['\''] + rest
}

/// What an account built from these parts holds.
pub open spec fn is_account(
    account: WalletAccountParams,
    curve: Curve,
    path: Seq<char>,
    format: AddressFormat,
) -> bool {
    &&& account.curve == curve
    &&& account.path_format == PathFormat::PathFormatBip32
    &&& account.path@ == path
    &&& account.address_format == format
}

/// The path `m/{purpose}'/{coin}'/{index}'{rest}` as a string.
pub fn hardened_derivation_path(purpose: &str, coin: &str, index: u32, rest: &str) -> (path: String)
    ensures
        path@ == hardened_path(purpose@, coin@, index, rest@),
{
    let mut path = String::from_str("m/");
    path.append(purpose);
    path.append("'/");
    path.append(coin);
    path.append("'/");
    push_decimal(&mut path, index as u64);
    path.append("'");
    path.append(rest);
    proof {
        reveal_strlit("m/");
        reveal_strlit("'/");
        reveal_strlit("'");
        assert(path@ =~= hardened_path(purpose@, coin@, index, rest@));
    }
    path
}

/// Creates a wallet account with the given curve, BIP32 path and address format.
fn create_wallet_account(curve: Curve, path: String, address_format: AddressFormat) -> (account: WalletAccountParams)
    ensures
        is_account(account, curve, path@, address_format),
{
    WalletAccountParams { curve, path_format: PathFormat::PathFormatBip32, path, address_format }
}

/// A BIP44 account (`m/44'/{coin}'/{index}'{rest}`).
pub(crate) fn bip44_account(curve: Curve, coin: &str, index: u32, rest: &str, format: AddressFormat) -> (account: WalletAccountParams)
    ensures
        is_account(account, curve, hardened_path("44"@, coin@, index, rest@), format),
{
    let path = hardened_derivation_path("44", coin, index, rest);
    create_wallet_account(curve, path, format)
}

/// A Bitcoin account (`m/{purpose}'/{coin}'/{index}'{rest}`, secp256k1).
pub(crate) fn bitcoin_account(purpose: &str, coin: &str, index: u32, rest: &str, format: AddressFormat) -> (account: WalletAccountParams)
    ensures
        is_account(account, Curve::CurveSecp256K1, hardened_path(purpose@, coin@, index, rest@), format),
{
    let path = hardened_derivation_path(purpose, coin, index, rest);
    create_wallet_account(Curve::CurveSecp256K1, path, format)
}

/// Creates an Ethereum account at the given index: `m/44'/60'/{index}'/0/0`.
pub fn ethereum_account(path_index: u32) -> (account: WalletAccountParams)
    ensures
        is_account(account, Curve::CurveSecp256K1, hardened_path("44"@, "60"@, path_index, "/0/0"@), AddressFormat::AddressFormatEthereum),
{
    bip44_account(Curve::CurveSecp256K1, "60", path_index, "/0/0", AddressFormat::AddressFormatEthereum)
}

/// Creates a Cosmos account at the given index: `m/44'/118'/{index}'/0/0`.
pub fn cosmos_account(path_index: u32) -> (account: WalletAccountParams)
    ensures
        is_account(account, Curve::CurveSecp256K1, hardened_path("44"@, "118"@, path_index, "/0/0"@), AddressFormat::AddressFormatCosmos),
{
    bip44_account(Curve::CurveSecp256K1, "118", path_index, "/0/0", AddressFormat::AddressFormatCosmos)
}

/// Creates a Tron account at the given index: `m/44'/195'/{index}'`.
pub fn tron_account(path_index: u32) -> (account: WalletAccountParams)
    ensures
        is_account(account, Curve::CurveSecp256K1, hardened_path("44"@, "195"@, path_index, ""@), AddressFormat::AddressFormatTron),
{
    bip44_account(Curve::CurveSecp256K1, "195", path_index, "", AddressFormat::AddressFormatTron)
}

/// Creates a Solana account at the given index: `m/44'/501'/{index}'/0'`.
pub fn solana_account(path_index: u32) -> (account: WalletAccountParams)
    ensures
        is_account(account, Curve::CurveEd25519, hardened_path("44"@, "501"@, path_index, "/0'"@), AddressFormat::AddressFormatSolana),
{
    bip44_account(Curve::CurveEd25519, "501", path_index, "/0'", AddressFormat::AddressFormatSolana)
}

/// Creates a Sui account at the given index: `m/44'/784'/{index}'/0'/0'`.
pub fn sui_account(path_index: u32) -> (account: WalletAccountParams)
    ensures
        is_account(account, Curve::CurveEd25519, hardened_path("44"@, "784"@, path_index, "/0'/0'"@), AddressFormat::AddressFormatSui),
{
    bip44_account(Curve::CurveEd25519, "784", path_index, "/0'/0'", AddressFormat::AddressFormatSui)
}

/// Creates an Aptos account at the given index: `m/44'/637'/{index}'/0'/0'`.
pub fn aptos_account(path_index: u32) -> (account: WalletAccountParams)
    ensures
        is_account(account, Curve::CurveEd25519, hardened_path("44"@, "637"@, path_index, "/0'/0'"@), AddressFormat::AddressFormatAptos),
{
    bip44_account(Curve::CurveEd25519, "637", path_index, "/0'/0'", AddressFormat::AddressFormatAptos)
}

/// Creates a Stellar (XLM) account at the given index: `m/44'/148'/{index}'`.
pub fn xlm_account(path_index: u32) -> (account: WalletAccountParams)
    ensures
        is_account(account, Curve::CurveEd25519, hardened_path("44"@, "148"@, path_index, ""@), AddressFormat::AddressFormatXlm),
{
    bip44_account(Curve::CurveEd25519, "148", path_index, "", AddressFormat::AddressFormatXlm)
}

/// An Ethereum account at index 0.
pub fn default_ethereum_account() -> (account: WalletAccountParams)
    ensures
        is_account(account, Curve::CurveSecp256K1, hardened_path("44"@, "60"@, 0, "/0/0"@), AddressFormat::AddressFormatEthereum),
{
    ethereum_account(0)
}

/// A Cosmos account at index 0.
pub fn default_cosmos_account() -> (account: WalletAccountParams)
    ensures
        is_account(account, Curve::CurveSecp256K1, hardened_path("44"@, "118"@, 0, "/0/0"@), AddressFormat::AddressFormatCosmos),
{
    cosmos_account(0)
}

/// A Tron account at index 0.
pub fn default_tron_account() -> (account: WalletAccountParams)
    ensures
        is_account(account, Curve::CurveSecp256K1, hardened_path("44"@, "195"@, 0, ""@), AddressFormat::AddressFormatTron),
{
    tron_account(0)
}

/// A Solana account at index 0.
pub fn default_solana_account() -> (account: WalletAccountParams)
    ensures
        is_account(account, Curve::CurveEd25519, hardened_path("44"@, "501"@, 0, "/0'"@), AddressFormat::AddressFormatSolana),
{
    solana_account(0)
}

/// A Sui account at index 0.
pub fn default_sui_account() -> (account: WalletAccountParams)
    ensures
        is_account(account, Curve::CurveEd25519, hardened_path("44"@, "784"@, 0, "/0'/0'"@), AddressFormat::AddressFormatSui),
{
    sui_account(0)
}

/// An Aptos account at index 0.
pub fn default_aptos_account() -> (account: WalletAccountParams)
    ensures
        is_account(account, Curve::CurveEd25519, hardened_path("44"@, "637"@, 0, "/0'/0'"@), AddressFormat::AddressFormatAptos),
{
    aptos_account(0)
}

/// A Stellar (XLM) account at index 0.
pub fn default_xlm_account() -> (account: WalletAccountParams)
    ensures
        is_account(account, Curve::CurveEd25519, hardened_path("44"@, "148"@, 0, ""@), AddressFormat::AddressFormatXlm),
{
    xlm_account(0)
}

/// The Bitcoin mainnet P2PKH account at index 0.
pub fn default_bitcoin_mainnet_p2pkh() -> (account: WalletAccountParams)
    ensures
        is_account(
            account,
            Curve::CurveSecp256K1,
            hardened_path("44"@, "0"@, 0, "/0/0"@),
            AddressFormat::AddressFormatBitcoinMainnetP2Pkh,
        ),
{
    bitcoin_mainnet::p2pkh_account(0)
}

/// The Bitcoin mainnet P2WPKH account at index 0.
pub fn default_bitcoin_mainnet_p2wpkh() -> (account: WalletAccountParams)
    ensures
        is_account(
            account,
            Curve::CurveSecp256K1,
            hardened_path("84"@, "0"@, 0, "/0/0"@),
            AddressFormat::AddressFormatBitcoinMainnetP2Wpkh,
        ),
{
    bitcoin_mainnet::p2wpkh_account(0)
}

/// The Bitcoin mainnet P2WSH account at index 0.
pub fn default_bitcoin_mainnet_p2wsh() -> (account: WalletAccountParams)
    ensures
        is_account(
            account,
            Curve::CurveSecp256K1,
            hardened_path("48"@, "0"@, 0, "/2'/0/0"@),
            AddressFormat::AddressFormatBitcoinMainnetP2Wsh,
        ),
{
    bitcoin_mainnet::p2wsh_account(0)
}

/// The Bitcoin mainnet P2TR account at index 0.
pub fn default_bitcoin_mainnet_p2tr() -> (account: WalletAccountParams)
    ensures
        is_account(
            account,
            Curve::CurveSecp256K1,
            hardened_path("86"@, "0"@, 0, "/0/0"@),
            AddressFormat::AddressFormatBitcoinMainnetP2Tr,
        ),
{
    bitcoin_mainnet::p2tr_account(0)
}

/// The Bitcoin mainnet P2SH account at index 0.
pub fn default_bitcoin_mainnet_p2sh() -> (account: WalletAccountParams)
    ensures
        is_account(
            account,
            Curve::CurveSecp256K1,
            hardened_path("49"@, "0"@, 0, "/0/0"@),
            AddressFormat::AddressFormatBitcoinMainnetP2Sh,
        ),
{
    bitcoin_mainnet::p2sh_account(0)
}

/// The five Bitcoin mainnet accounts at index 0, in the order
/// P2PKH, P2WPKH, P2WSH, P2TR, P2SH.
pub fn default_bitcoin_mainnet_accounts() -> (accounts: [WalletAccountParams; 5])
    ensures
        is_account(
            accounts@[0],
            Curve::CurveSecp256K1,
            hardened_path("44"@, "0"@, 0, "/0/0"@),
            AddressFormat::AddressFormatBitcoinMainnetP2Pkh,
        ),
        is_account(
            accounts@[1],
            Curve::CurveSecp256K1,
            hardened_path("84"@, "0"@, 0, "/0/0"@),
            AddressFormat::AddressFormatBitcoinMainnetP2Wpkh,
        ),
        is_account(
            accounts@[2],
            Curve::CurveSecp256K1,
            hardened_path("48"@, "0"@, 0, "/2'/0/0"@),
            AddressFormat::AddressFormatBitcoinMainnetP2Wsh,
        ),
        is_account(
            accounts@[3],
            Curve::CurveSecp256K1,
            hardened_path("86"@, "0"@, 0, "/0/0"@),
            AddressFormat::AddressFormatBitcoinMainnetP2Tr,
        ),
        is_account(
            accounts@[4],
            Curve::CurveSecp256K1,
            hardened_path("49"@, "0"@, 0, "/0/0"@),
            AddressFormat::AddressFormatBitcoinMainnetP2Sh,
        ),
{
    [
        default_bitcoin_mainnet_p2pkh(),
        default_bitcoin_mainnet_p2wpkh(),
        default_bitcoin_mainnet_p2wsh(),
        default_bitcoin_mainnet_p2tr(),
        default_bitcoin_mainnet_p2sh(),
    ]
}

/// The Dogecoin mainnet account at index 0.
pub fn default_doge_mainnet() -> (account: WalletAccountParams)
    ensures
        is_account(account, Curve::CurveSecp256K1, hardened_path("44"@, "3"@, 0, "/0/0"@), AddressFormat::AddressFormatDogeMainnet),
{
    dogecoin::mainnet_account(0)
}

/// The Dogecoin testnet account at index 0.
pub fn default_doge_testnet() -> (account: WalletAccountParams)
    ensures
        is_account(account, Curve::CurveSecp256K1, hardened_path("44"@, "3"@, 0, "/0/0"@), AddressFormat::AddressFormatDogeTestnet),
{
    dogecoin::testnet_account(0)
}

/// The TON v3r2 account at index 0.
pub fn default_ton_v3r2() -> (account: WalletAccountParams)
    ensures
        is_account(account, Curve::CurveEd25519, hardened_path("44"@, "607"@, 0, "/0'/0'"@), AddressFormat::AddressFormatTonV3R2),
{
    ton::v3r2_account(0)
}

/// The TON v4r2 account at index 0.
pub fn default_ton_v4r2() -> (account: WalletAccountParams)
    ensures
        is_account(account, Curve::CurveEd25519, hardened_path("44"@, "607"@, 0, "/0'/0'"@), AddressFormat::AddressFormatTonV4R2),
{
    ton::v4r2_account(0)
}

/// Two accounts built from the same purpose, coin and tail have the same
/// path only when they were built for the same account index.
pub proof fn lemma_path_index_injective(purpose: Seq<char>, coin: Seq<char>, rest: Seq<char>, i: u32, j: u32)
    requires
        hardened_path(purpose, coin, i, rest) == hardened_path(purpose, coin, j, rest),
    ensures
        i == j,
{
    let head = seq!['m', '/'] + purpose + seq!['\'', '/'] + coin + seq!['\'', '/'];
    let tail = seq!['\''] + rest;
    let di = decimal(i as nat);
    let dj = decimal(j as nat);
    assert(hardened_path(purpose, coin, i, rest) =~= head + (di + tail));
    assert(hardened_path(purpose, coin, j, rest) =~= head + (dj + tail));
    assert((head + (di + tail)).subrange(head.len() as int, (head + (di + tail)).len() as int) =~= di + tail);
    assert((head + (dj + tail)).subrange(head.len() as int, (head + (dj + tail)).len() as int) =~= dj + tail);
    lemma_decimal_digits(i as nat);
    lemma_decimal_digits(j as nat);
    assert(tail[0] == '\'');
    lemma_digit_run_cancel(di, dj, tail);
    lemma_decimal_injective(i as nat, j as nat);
}

} // verus!
