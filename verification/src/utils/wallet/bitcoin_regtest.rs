//! Bitcoin regtest accounts, one per address type.

use crate::utils::wallet::{bitcoin_account, hardened_path, is_account, AddressFormat, Curve,
    WalletAccountParams};
use vstd::prelude::*;

verus! {

/// A regtest Pay to Public Key Hash account: `m/44'/1'/{index}'/0/0`.
pub fn p2pkh_account(path_index: u32) -> (account: WalletAccountParams)
    ensures
        is_account(
            account,
            Curve::CurveSecp256K1,
            hardened_path("44"@, "1"@, path_index, "/0/0"@),
            AddressFormat::AddressFormatBitcoinRegtestP2Pkh,
        ),
{
    bitcoin_account("44", "1", path_index, "/0/0", AddressFormat::AddressFormatBitcoinRegtestP2Pkh)
}

/// A regtest Pay to Witness Public Key Hash (native SegWit) account: `m/84'/1'/{index}'/0/0`.
pub fn p2wpkh_account(path_index: u32) -> (account: WalletAccountParams)
    ensures
        is_account(
            account,
            Curve::CurveSecp256K1,
            hardened_path("84"@, "1"@, path_index, "/0/0"@),
            AddressFormat::AddressFormatBitcoinRegtestP2Wpkh,
        ),
{
    bitcoin_account("84", "1", path_index, "/0/0", AddressFormat::AddressFormatBitcoinRegtestP2Wpkh)
}

/// A regtest Pay to Witness Script Hash account: `m/48'/1'/{index}'/2'/0/0`.
pub fn p2wsh_account(path_index: u32) -> (account: WalletAccountParams)
    ensures
        is_account(
            account,
            Curve::CurveSecp256K1,
            hardened_path("48"@, "1"@, path_index, "/2'/0/0"@),
            AddressFormat::AddressFormatBitcoinRegtestP2Wsh,
        ),
{
    bitcoin_account("48", "1", path_index, "/2'/0/0", AddressFormat::AddressFormatBitcoinRegtestP2Wsh)
}

/// A regtest Pay to Taproot account: `m/86'/1'/{index}'/0/0`.
pub fn p2tr_account(path_index: u32) -> (account: WalletAccountParams)
    ensures
        is_account(
            account,
            Curve::CurveSecp256K1,
            hardened_path("86"@, "1"@, path_index, "/0/0"@),
            AddressFormat::AddressFormatBitcoinRegtestP2Tr,
        ),
{
    bitcoin_account("86", "1", path_index, "/0/0", AddressFormat::AddressFormatBitcoinRegtestP2Tr)
}

/// A regtest Pay to Script Hash account: `m/49'/1'/{index}'/0/0`.
pub fn p2sh_account(path_index: u32) -> (account: WalletAccountParams)
    ensures
        is_account(
            account,
            Curve::CurveSecp256K1,
            hardened_path("49"@, "1"@, path_index, "/0/0"@),
            AddressFormat::AddressFormatBitcoinRegtestP2Sh,
        ),
{
    bitcoin_account("49", "1", path_index, "/0/0", AddressFormat::AddressFormatBitcoinRegtestP2Sh)
}

} // verus!
