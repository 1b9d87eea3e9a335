//! Dogecoin accounts.

use crate::utils::wallet::{bip44_account, hardened_path, is_account, AddressFormat, Curve,
    WalletAccountParams};
use vstd::prelude::*;

verus! {

/// A Dogecoin mainnet account: `m/44'/3'/{index}'/0/0`.
pub fn mainnet_account(path_index: u32) -> (account: WalletAccountParams)
    ensures
        is_account(account, Curve::CurveSecp256K1, hardened_path("44"@, "3"@, path_index, "/0/0"@), AddressFormat::AddressFormatDogeMainnet),
{
    bip44_account(Curve::CurveSecp256K1, "3", path_index, "/0/0", AddressFormat::AddressFormatDogeMainnet)
}

/// A Dogecoin testnet account: `m/44'/3'/{index}'/0/0`.
pub fn testnet_account(path_index: u32) -> (account: WalletAccountParams)
    ensures
        is_account(account, Curve::CurveSecp256K1, hardened_path("44"@, "3"@, path_index, "/0/0"@), AddressFormat::AddressFormatDogeTestnet),
{
    bip44_account(Curve::CurveSecp256K1, "3", path_index, "/0/0", AddressFormat::AddressFormatDogeTestnet)
}

/// The Dogecoin mainnet account at index 0.
pub fn default_mainnet_account() -> (account: WalletAccountParams)
    ensures
        is_account(account, Curve::CurveSecp256K1, hardened_path("44"@, "3"@, 0, "/0/0"@), AddressFormat::AddressFormatDogeMainnet),
{
    mainnet_account(0)
}

/// The Dogecoin testnet account at index 0.
pub fn default_testnet_account() -> (account: WalletAccountParams)
    ensures
        is_account(account, Curve::CurveSecp256K1, hardened_path("44"@, "3"@, 0, "/0/0"@), AddressFormat::AddressFormatDogeTestnet),
{
    testnet_account(0)
}

} // verus!
