//! TON accounts.

use crate::utils::wallet::{bip44_account, hardened_path, is_account, AddressFormat, Curve,
    WalletAccountParams};
use vstd::prelude::*;

verus! {

/// A TON wallet v3r2 account: `m/44'/607'/{index}'/0'/0'`.
pub fn v3r2_account(path_index: u32) -> (account: WalletAccountParams)
    ensures
        is_account(account, Curve::CurveEd25519, hardened_path("44"@, "607"@, path_index, "/0'/0'"@), AddressFormat::AddressFormatTonV3R2),
{
    bip44_account(Curve::CurveEd25519, "607", path_index, "/0'/0'", AddressFormat::AddressFormatTonV3R2)
}

/// A TON wallet v4r2 account: `m/44'/607'/{index}'/0'/0'`.
pub fn v4r2_account(path_index: u32) -> (account: WalletAccountParams)
    ensures
        is_account(account, Curve::CurveEd25519, hardened_path("44"@, "607"@, path_index, "/0'/0'"@), AddressFormat::AddressFormatTonV4R2),
{
    bip44_account(Curve::CurveEd25519, "607", path_index, "/0'/0'", AddressFormat::AddressFormatTonV4R2)
}

} // verus!
