use turnkey_rs::utils::wallet::{
    aptos_account, bitcoin_mainnet, bitcoin_regtest, bitcoin_signet, bitcoin_testnet, cosmos_account,
    default_aptos_account, default_bitcoin_mainnet_accounts, default_bitcoin_mainnet_p2pkh,
    default_bitcoin_mainnet_p2sh, default_bitcoin_mainnet_p2tr, default_bitcoin_mainnet_p2wpkh,
    default_bitcoin_mainnet_p2wsh, default_cosmos_account, default_doge_mainnet, default_doge_testnet,
    default_ethereum_account, default_solana_account, default_sui_account, default_ton_v3r2,
    default_ton_v4r2, default_tron_account, default_xlm_account, dogecoin, ethereum_account,
    hardened_derivation_path, solana_account, sui_account, ton, tron_account, xlm_account,
    AddressFormat, Curve, PathFormat, WalletAccountParams,
};

fn check(account: &WalletAccountParams, path: &str, curve: Curve, format: AddressFormat) {
    assert_eq!(account.path, path);
    assert_eq!(account.curve, curve);
    assert_eq!(account.address_format, format);
    assert_eq!(account.path_format, PathFormat::PathFormatBip32);
}

#[test]
fn test_ethereum_account_path() {
    let account = ethereum_account(0);
    assert_eq!(account.path, "m/44'/60'/0'/0/0");
    assert_eq!(account.curve, Curve::CurveSecp256K1);
    assert_eq!(account.address_format, AddressFormat::AddressFormatEthereum);
}

#[test]
fn test_solana_account_path() {
    let account = solana_account(0);
    assert_eq!(account.path, "m/44'/501'/0'/0'");
    assert_eq!(account.curve, Curve::CurveEd25519);
    assert_eq!(account.address_format, AddressFormat::AddressFormatSolana);
}

#[test]
fn test_bitcoin_mainnet_accounts() {
    let accounts = default_bitcoin_mainnet_accounts();
    assert_eq!(accounts.len(), 5);
    assert_eq!(accounts[0].address_format, AddressFormat::AddressFormatBitcoinMainnetP2Pkh);
}

#[test]
fn bitcoin_mainnet_accounts_in_order() {
    let accounts = default_bitcoin_mainnet_accounts();
    check(&accounts[0], "m/44'/0'/0'/0/0", Curve::CurveSecp256K1, AddressFormat::AddressFormatBitcoinMainnetP2Pkh);
    check(&accounts[1], "m/84'/0'/0'/0/0", Curve::CurveSecp256K1, AddressFormat::AddressFormatBitcoinMainnetP2Wpkh);
    check(&accounts[2], "m/48'/0'/0'/2'/0/0", Curve::CurveSecp256K1, AddressFormat::AddressFormatBitcoinMainnetP2Wsh);
    check(&accounts[3], "m/86'/0'/0'/0/0", Curve::CurveSecp256K1, AddressFormat::AddressFormatBitcoinMainnetP2Tr);
    check(&accounts[4], "m/49'/0'/0'/0/0", Curve::CurveSecp256K1, AddressFormat::AddressFormatBitcoinMainnetP2Sh);
}

#[test]
fn chain_account_paths() {
    check(&cosmos_account(3), "m/44'/118'/3'/0/0", Curve::CurveSecp256K1, AddressFormat::AddressFormatCosmos);
    check(&tron_account(7), "m/44'/195'/7'", Curve::CurveSecp256K1, AddressFormat::AddressFormatTron);
    check(&sui_account(1), "m/44'/784'/1'/0'/0'", Curve::CurveEd25519, AddressFormat::AddressFormatSui);
    check(&aptos_account(12), "m/44'/637'/12'/0'/0'", Curve::CurveEd25519, AddressFormat::AddressFormatAptos);
    check(&xlm_account(0), "m/44'/148'/0'", Curve::CurveEd25519, AddressFormat::AddressFormatXlm);
    check(&ethereum_account(42), "m/44'/60'/42'/0/0", Curve::CurveSecp256K1, AddressFormat::AddressFormatEthereum);
    check(&solana_account(u32::MAX), "m/44'/501'/4294967295'/0'", Curve::CurveEd25519, AddressFormat::AddressFormatSolana);
}

#[test]
fn dogecoin_and_ton_paths() {
    check(&dogecoin::mainnet_account(2), "m/44'/3'/2'/0/0", Curve::CurveSecp256K1, AddressFormat::AddressFormatDogeMainnet);
    check(&dogecoin::testnet_account(2), "m/44'/3'/2'/0/0", Curve::CurveSecp256K1, AddressFormat::AddressFormatDogeTestnet);
    check(&ton::v3r2_account(5), "m/44'/607'/5'/0'/0'", Curve::CurveEd25519, AddressFormat::AddressFormatTonV3R2);
    check(&ton::v4r2_account(5), "m/44'/607'/5'/0'/0'", Curve::CurveEd25519, AddressFormat::AddressFormatTonV4R2);
}

#[test]
fn bitcoin_network_paths() {
    check(&bitcoin_mainnet::p2wsh_account(9), "m/48'/0'/9'/2'/0/0", Curve::CurveSecp256K1, AddressFormat::AddressFormatBitcoinMainnetP2Wsh);
    check(&bitcoin_mainnet::p2sh_account(2), "m/49'/0'/2'/0/0", Curve::CurveSecp256K1, AddressFormat::AddressFormatBitcoinMainnetP2Sh);
    check(&bitcoin_testnet::p2pkh_account(1), "m/44'/1'/1'/0/0", Curve::CurveSecp256K1, AddressFormat::AddressFormatBitcoinTestnetP2Pkh);
    check(&bitcoin_testnet::p2tr_account(1), "m/86'/1'/1'/0/0", Curve::CurveSecp256K1, AddressFormat::AddressFormatBitcoinTestnetP2Tr);
    check(&bitcoin_signet::p2wpkh_account(4), "m/84'/1'/4'/0/0", Curve::CurveSecp256K1, AddressFormat::AddressFormatBitcoinSignetP2Wpkh);
    check(&bitcoin_signet::p2sh_account(4), "m/49'/1'/4'/0/0", Curve::CurveSecp256K1, AddressFormat::AddressFormatBitcoinSignetP2Sh);
    check(&bitcoin_regtest::p2wsh_account(0), "m/48'/1'/0'/2'/0/0", Curve::CurveSecp256K1, AddressFormat::AddressFormatBitcoinRegtestP2Wsh);
    check(&bitcoin_regtest::p2tr_account(10), "m/86'/1'/10'/0/0", Curve::CurveSecp256K1, AddressFormat::AddressFormatBitcoinRegtestP2Tr);
}

#[test]
fn defaults_are_index_zero() {
    assert_eq!(default_ethereum_account(), ethereum_account(0));
    assert_eq!(default_cosmos_account(), cosmos_account(0));
    assert_eq!(default_tron_account(), tron_account(0));
    assert_eq!(default_solana_account(), solana_account(0));
    assert_eq!(default_sui_account(), sui_account(0));
    assert_eq!(default_aptos_account(), aptos_account(0));
    assert_eq!(default_xlm_account(), xlm_account(0));
    assert_eq!(default_bitcoin_mainnet_p2pkh(), bitcoin_mainnet::p2pkh_account(0));
    assert_eq!(default_bitcoin_mainnet_p2wpkh(), bitcoin_mainnet::p2wpkh_account(0));
    assert_eq!(default_bitcoin_mainnet_p2wsh(), bitcoin_mainnet::p2wsh_account(0));
    assert_eq!(default_bitcoin_mainnet_p2tr(), bitcoin_mainnet::p2tr_account(0));
    assert_eq!(default_bitcoin_mainnet_p2sh(), bitcoin_mainnet::p2sh_account(0));
    assert_eq!(default_doge_mainnet(), dogecoin::mainnet_account(0));
    assert_eq!(default_doge_testnet(), dogecoin::testnet_account(0));
    assert_eq!(dogecoin::default_mainnet_account(), dogecoin::mainnet_account(0));
    assert_eq!(dogecoin::default_testnet_account(), dogecoin::testnet_account(0));
    assert_eq!(default_ton_v3r2(), ton::v3r2_account(0));
    assert_eq!(default_ton_v4r2(), ton::v4r2_account(0));
}

#[test]
fn distinct_indices_give_distinct_paths() {
    assert_ne!(ethereum_account(1).path, ethereum_account(10).path);
    assert_ne!(ethereum_account(1).path, ethereum_account(11).path);
    assert_ne!(tron_account(1).path, tron_account(12).path);
}

#[test]
fn derivation_path_parts() {
    assert_eq!(hardened_derivation_path("44", "60", 0, "/0/0"), "m/44'/60'/0'/0/0");
    assert_eq!(hardened_derivation_path("86", "0", 123456, ""), "m/86'/0'/123456'");
}

#[test]
fn api_names() {
    assert_eq!(Curve::CurveSecp256K1.api_name(), "CURVE_SECP256K1");
    assert_eq!(Curve::CurveEd25519.api_name(), "CURVE_ED25519");
    assert_eq!(PathFormat::PathFormatBip32.api_name(), "PATH_FORMAT_BIP32");
    assert_eq!(AddressFormat::AddressFormatEthereum.api_name(), "ADDRESS_FORMAT_ETHEREUM");
    assert_eq!(AddressFormat::AddressFormatTonV4R2.api_name(), "ADDRESS_FORMAT_TON_V4R2");
    assert_eq!(AddressFormat::AddressFormatBitcoinMainnetP2Wpkh.api_name(), "ADDRESS_FORMAT_BITCOIN_MAINNET_P2WPKH");
    assert_eq!(AddressFormat::AddressFormatBitcoinRegtestP2Tr.api_name(), "ADDRESS_FORMAT_BITCOIN_REGTEST_P2TR");
    assert_eq!(AddressFormat::AddressFormatDogeTestnet.api_name(), "ADDRESS_FORMAT_DOGE_TESTNET");
}
