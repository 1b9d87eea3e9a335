//! Bitcoin testnet accounts, one per address type.

use crate::utils::wallet::{bitcoin_account, hardened_path, is_account, AddressFormat, Curve,
    WalletAccountParams};
use vstd::prelude::*;

verus! {

/// A testnet Pay to Public Key Hash account: `m/44'/1'/{index}'/0/0`.
pub fn p2pkh_account(path_index: u32) -> (account: WalletAccountParams)
    ensures
        is_account(
            account,
            Curve::CurveSecp256K1,
            hardened_path("44"@, "1"@, path_index, "/0/0"@),
            AddressFormat::AddressFormatBitcoinTestnetP2Pkh,
        ),
{
    bitcoin_account("44", "1", path_index, "/0/0", AddressFormat::AddressFormatBitcoinTestnetP2Pkh)
}

/// A testnet Pay to Witness Public Key Hash (native SegWit) account: `m/84'/1'/{index}'/0/0`.
pub fn p2wpkh_account(path_index: u32) -> (account: WalletAccountParams)
    ensures
        is_account(
            account,
            Curve::CurveSecp256K1,
            hardened_path("84"@, "1"@, path_index, "/0/0"@),
            AddressFormat::AddressFormatBitcoinTestnetP2Wpkh,
        ),
{
    bitcoin_account("84", "1", path_index, "/0/0", AddressFormat::AddressFormatBitcoinTestnetP2Wpkh)
}

/// A testnet Pay to Witness Script Hash account: `m/48'/1'/{index}'/2'/0/0`.
pub fn p2wsh_account(path_index: u32) -> (account: WalletAccountParams)
    ensures
        is_account(
            account,
            Curve::CurveSecp256K1,
            hardened_path("48"@, "1"@, path_index, "/2'/0/0"@),
            AddressFormat::AddressFormatBitcoinTestnetP2Wsh,
        ),
{
    bitcoin_account("48", "1", path_index, "/2'/0/0", AddressFormat::AddressFormatBitcoinTestnetP2Wsh)
}

/// A testnet Pay to Taproot account: `m/86'/1'/{index}'/0/0`.
pub fn p2tr_account(path_index: u32) -> (account: WalletAccountParams)
    ensures
        is_account(
            account,
            Curve::CurveSecp256K1,
            hardened_path("86"@, "1"@, path_index, "/0/0"@),
            AddressFormat::AddressFormatBitcoinTestnetP2Tr,
        ),
{
    bitcoin_account("86", "1", path_index, "/0/0", AddressFormat::AddressFormatBitcoinTestnetP2Tr)
}

/// A testnet Pay to Script Hash account: `m/49'/1'/{index}'/0/0`.
pub fn p2sh_account(path_index: u32) -> (account: WalletAccountParams)
    ensures
        is_account(
            account,
            Curve::CurveSecp256K1,
            hardened_path("49"@, "1"@, path_index, "/0/0"@),
            AddressFormat::AddressFormatBitcoinTestnetP2Sh,
        ),
{
    bitcoin_account("49", "1", path_index, "/0/0", AddressFormat::AddressFormatBitcoinTestnetP2Sh)
}

} // verus!
