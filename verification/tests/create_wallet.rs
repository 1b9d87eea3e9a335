use turnkey_rs::errors::TurnkeyError;
use turnkey_rs::functions::create_wallet::bitcoin::BitcoinAddressKind;
use turnkey_rs::functions::create_wallet::{
    bitcoin_wallet_response, build_create_wallet_request, ethereum_wallet_response, random_name_suffix,
    solana_wallet_response, CreateWalletResult, EthereumWalletConfig, WalletConfig, WalletKind,
};
use turnkey_rs::Turnkey;

const KEY: &str = "c9afa9d845ba75166b5c215767b1d6934e50c3db36e89b127b8a622b120f6721";

fn other_error(e: TurnkeyError) -> String {
    match e {
        TurnkeyError::OtherError(m) => m,
        other => panic!("unexpected {:?}", other),
    }
}

#[test]
fn default_config() {
    let config = EthereumWalletConfig::default();
    assert!(config.wallet_name.is_none());
    assert!(config.path_index.is_none());
    assert_eq!(config.mnemonic_length, Some(24));
}

#[test]
fn request_with_defaults() {
    let request = build_create_wallet_request(WalletKind::Ethereum, None, "aB3x", 1700000000123, "org-9");
    assert_eq!(request.parameters.wallet_name, "Ethereum Wallet aB3x");
    assert_eq!(request.parameters.mnemonic_length, Some(24));
    assert_eq!(request.timestamp_ms, "1700000000123");
    assert_eq!(request.organization_id, "org-9");
    assert_eq!(request.parameters.accounts.len(), 1);
    assert_eq!(request.parameters.accounts[0].path, "m/44'/60'/0'/0/0");
    assert_eq!(
        request.to_json(),
        "{\"type\":\"ACTIVITY_TYPE_CREATE_WALLET\",\"timestampMs\":\"1700000000123\",\"organizationId\":\"org-9\",\
\"parameters\":{\"walletName\":\"Ethereum Wallet aB3x\",\"accounts\":[{\"curve\":\"CURVE_SECP256K1\",\
\"pathFormat\":\"PATH_FORMAT_BIP32\",\"path\":\"m/44'/60'/0'/0/0\",\"addressFormat\":\"ADDRESS_FORMAT_ETHEREUM\"}],\
\"mnemonicLength\":24}}"
    );
}

#[test]
fn request_with_custom_config() {
    let config = WalletConfig { wallet_name: Some("My \"BTC\"".to_string()), path_index: Some(3), mnemonic_length: None };
    let request = build_create_wallet_request(WalletKind::BitcoinP2wsh, Some(config), "zzzz", -5, "o");
    assert_eq!(request.parameters.wallet_name, "My \"BTC\"");
    assert_eq!(request.parameters.mnemonic_length, None);
    assert_eq!(request.timestamp_ms, "-5");
    assert_eq!(
        request.to_json(),
        "{\"type\":\"ACTIVITY_TYPE_CREATE_WALLET\",\"timestampMs\":\"-5\",\"organizationId\":\"o\",\
\"parameters\":{\"walletName\":\"My \\\"BTC\\\"\",\"accounts\":[{\"curve\":\"CURVE_SECP256K1\",\
\"pathFormat\":\"PATH_FORMAT_BIP32\",\"path\":\"m/48'/0'/3'/2'/0/0\",\"addressFormat\":\"ADDRESS_FORMAT_BITCOIN_MAINNET_P2WSH\"}]}}"
    );
    let value: serde_json::Value = serde_json::from_str(&request.to_json()).unwrap();
    assert_eq!(value["parameters"]["walletName"], "My \"BTC\"");
}

#[test]
fn mnemonic_length_is_cast_to_i32() {
    let config = WalletConfig { wallet_name: None, path_index: None, mnemonic_length: Some(u32::MAX) };
    let request = build_create_wallet_request(WalletKind::Solana, Some(config), "0000", 0, "o");
    assert_eq!(request.parameters.mnemonic_length, Some(-1));
    assert_eq!(request.parameters.wallet_name, "Solana Wallet 0000");
    assert!(request.to_json().ends_with(",\"mnemonicLength\":-1}}"));
}

#[test]
fn wallet_names_per_kind() {
    for (kind, name) in [
        (WalletKind::Ethereum, "Ethereum"),
        (WalletKind::Solana, "Solana"),
        (WalletKind::BitcoinP2pkh, "BitcoinP2pkh"),
        (WalletKind::BitcoinP2sh, "BitcoinP2sh"),
        (WalletKind::BitcoinP2wpkh, "BitcoinP2wpkh"),
        (WalletKind::BitcoinP2wsh, "BitcoinP2wsh"),
        (WalletKind::BitcoinP2tr, "BitcoinP2tr"),
    ] {
        let request = build_create_wallet_request(kind, None, "abcd", 1, "o");
        assert!(request.parameters.wallet_name.starts_with(&format!("{} Wallet", name)));
    }
}

#[test]
fn random_suffix_is_four_alphanumerics() {
    for _ in 0..20 {
        let s = random_name_suffix();
        assert_eq!(s.chars().count(), 4);
        assert!(s.chars().all(|c| c.is_ascii_alphanumeric()));
    }
}

#[test]
fn prepared_request_is_stamped() {
    let client = Turnkey::new("pub", KEY, "org-5").unwrap();
    let prepared = client.prepare_create_wallet(WalletKind::BitcoinP2tr, None).unwrap();
    assert_eq!(prepared.body, prepared.request.to_json());
    assert_eq!(prepared.stamp, client.stamp(&prepared.body).unwrap());
    assert!(prepared.request.parameters.wallet_name.starts_with("BitcoinP2tr Wallet "));
    assert_eq!(prepared.request.parameters.wallet_name.len(), "BitcoinP2tr Wallet ".len() + 4);
    assert_eq!(prepared.request.organization_id, "org-5");
    assert_eq!(prepared.request.parameters.accounts[0].path, "m/86'/0'/0'/0/0");
    let config = WalletConfig { wallet_name: Some("Test Wallet".to_string()), path_index: Some(0), mnemonic_length: Some(24) };
    let prepared = client.prepare_create_wallet(WalletKind::Ethereum, Some(config)).unwrap();
    assert_eq!(prepared.request.parameters.wallet_name, "Test Wallet");
}

fn result(address: &str) -> Option<CreateWalletResult> {
    Some(CreateWalletResult { wallet_id: "w-1".to_string(), addresses: vec![address.to_string()] })
}

#[test]
fn wallet_responses() {
    let eth = ethereum_wallet_response("E".to_string(), result("0x742d35Cc6634C0532925a3b844Bc454e4438f44e")).unwrap();
    assert_eq!(eth.wallet_id, "w-1");
    assert_eq!(eth.wallet_name, "E");
    assert_eq!(eth.address.bytes.len(), 20);
    let sol = solana_wallet_response("S".to_string(), result("11111111111111111111111111111111")).unwrap();
    assert_eq!(sol.address.bytes, vec![0u8; 32]);
    let btc = bitcoin_wallet_response(BitcoinAddressKind::P2pkh, "B".to_string(), result("1BvBMSEYstWetqTFn5Au4m4GFg7xJaNVN2")).unwrap();
    assert_eq!(btc.address.text, "1BvBMSEYstWetqTFn5Au4m4GFg7xJaNVN2");
}

#[test]
fn wallet_response_errors() {
    assert_eq!(other_error(ethereum_wallet_response("E".to_string(), None).unwrap_err()), "Missing intent in response");
    assert_eq!(other_error(solana_wallet_response("S".to_string(), None).unwrap_err()), "Missing intent in response");
    let m = other_error(ethereum_wallet_response("E".to_string(), result("0x12")).unwrap_err());
    assert!(m.starts_with("Invalid address: Invalid Ethereum address: "), "{}", m);
    let m = other_error(solana_wallet_response("S".to_string(), result("0OIl")).unwrap_err());
    assert!(m.starts_with("Invalid address: "), "{}", m);
    let m = other_error(bitcoin_wallet_response(BitcoinAddressKind::P2sh, "B".to_string(), result("1BvBMSEYstWetqTFn5Au4m4GFg7xJaNVN2")).unwrap_err());
    assert_eq!(m, "Invalid address: script is not a p2pkh, p2sh or witness program");
    let testnet = "tb1qw508d6qejxtdg4y5r3zarvary0c5xw7kxpjzsx";
    let m = other_error(bitcoin_wallet_response(BitcoinAddressKind::P2wpkh, "B".to_string(), result(&testnet.to_uppercase())).unwrap_err());
    assert_eq!(
        m,
        format!("Invalid address: address {} belongs to network testnet which is different from required bitcoin", testnet)
    );
}
