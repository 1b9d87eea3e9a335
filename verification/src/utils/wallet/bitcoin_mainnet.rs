//! Bitcoin mainnet accounts, one per address type.

use crate::utils::wallet::{bitcoin_account, hardened_path, is_account, AddressFormat, Curve,
    WalletAccountParams};
use vstd::prelude::*;

verus! {

/// A mainnet Pay to Public Key Hash account: `m/44'/0'/{index}'/0/0`.
pub fn p2pkh_account(path_index: u32) -> (account: WalletAccountParams)
    ensures
        is_account(
            account,
            Curve::CurveSecp256K1,
            hardened_path("44"@, "0"@, path_index, "/0/0"@),
            AddressFormat::AddressFormatBitcoinMainnetP2Pkh,
        ),
{
    bitcoin_account("44", "0", path_index, "/0/0", AddressFormat::AddressFormatBitcoinMainnetP2Pkh)
}

/// A mainnet Pay to Witness Public Key Hash (native SegWit) account: `m/84'/0'/{index}'/0/0`.
pub fn p2wpkh_account(path_index: u32) -> (account: WalletAccountParams)
    ensures
        is_account(
            account,
            Curve::CurveSecp256K1,
            hardened_path("84"@, "0"@, path_index, "/0/0"@),
            AddressFormat::AddressFormatBitcoinMainnetP2Wpkh,
        ),
{
    bitcoin_account("84", "0", path_index, "/0/0", AddressFormat::AddressFormatBitcoinMainnetP2Wpkh)
}

/// A mainnet Pay to Witness Script Hash account: `m/48'/0'/{index}'/2'/0/0`.
pub fn p2wsh_account(path_index: u32) -> (account: WalletAccountParams)
    ensures
        is_account(
            account,
            Curve::CurveSecp256K1,
            hardened_path("48"@, "0"@, path_index, "/2'/0/0"@),
            AddressFormat::AddressFormatBitcoinMainnetP2Wsh,
        ),
{
    bitcoin_account("48", "0", path_index, "/2'/0/0", AddressFormat::AddressFormatBitcoinMainnetP2Wsh)
}

/// A mainnet Pay to Taproot account: `m/86'/0'/{index}'/0/0`.
pub fn p2tr_account(path_index: u32) -> (account: WalletAccountParams)
    ensures
        is_account(
            account,
            Curve::CurveSecp256K1,
            hardened_path("86"@, "0"@, path_index, "/0/0"@),
            AddressFormat::AddressFormatBitcoinMainnetP2Tr,
        ),
{
    bitcoin_account("86", "0", path_index, "/0/0", AddressFormat::AddressFormatBitcoinMainnetP2Tr)
}

/// A mainnet Pay to Script Hash account: `m/49'/0'/{index}'/0/0`.
pub fn p2sh_account(path_index: u32) -> (account: WalletAccountParams)
    ensures
        is_account(
            account,
            Curve::CurveSecp256K1,
            hardened_path("49"@, "0"@, path_index, "/0/0"@),
            AddressFormat::AddressFormatBitcoinMainnetP2Sh,
        ),
{
    bitcoin_account("49", "0", path_index, "/0/0", AddressFormat::AddressFormatBitcoinMainnetP2Sh)
}

} // verus!
