use turnkey_rs::functions::create_wallet::bitcoin::{
    validate_p2pkh_address, validate_p2sh_address, validate_p2tr_address, validate_p2wpkh_address,
    validate_p2wsh_address, BitcoinAddressError, BitcoinNetwork, BitcoinPayload,
};
use turnkey_rs::functions::create_wallet::ethereum::validate_eth_address;
use turnkey_rs::functions::create_wallet::solana::validate_solana_address;

const P2PKH: &str = "1BvBMSEYstWetqTFn5Au4m4GFg7xJaNVN2";
const P2SH: &str = "3J98t1WpEZ73CNmQviecrnyiWrnqRhWNLy";
const P2WPKH: &str = "bc1qw508d6qejxtdg4y5r3zarvary0c5xw7kv8f3t4";
const P2WSH: &str = "bc1qrp33g0q5c5txsp9arysrx4k6zdkfs4nce4xj0gdcccefvpysxf3qccfmv3";
const P2TR: &str = "bc1p0xlxvlhemja6c4dqv22uapctqupfhlxm9h8z3k2e72q4k9hcz7vqzk5jj0";
const TESTNET_P2WPKH: &str = "tb1qw508d6qejxtdg4y5r3zarvary0c5xw7kxpjzsx";

type Validator = fn(&str) -> Result<turnkey_rs::functions::create_wallet::bitcoin::BitcoinAddress, BitcoinAddressError>;

#[test]
fn each_bitcoin_validator_accepts_only_its_type() {
    let validators: [(Validator, &str); 5] = [
        (validate_p2pkh_address, P2PKH),
        (validate_p2sh_address, P2SH),
        (validate_p2wpkh_address, P2WPKH),
        (validate_p2wsh_address, P2WSH),
        (validate_p2tr_address, P2TR),
    ];
    for (i, (validate, _)) in validators.iter().enumerate() {
        for (j, (_, addr)) in validators.iter().enumerate() {
            let res = validate(addr);
            if i == j {
                let a = res.unwrap();
                assert_eq!(a.text, *addr);
                assert_eq!(a.network, BitcoinNetwork::Bitcoin);
            } else {
                assert!(matches!(res, Err(BitcoinAddressError::UnrecognizedScript)), "{} {}", i, j);
            }
        }
    }
}

fn hex(bytes: &[u8]) -> String {
    turnkey_rs::bytes::bytes_to_hex(bytes)
}

#[test]
fn bitcoin_payloads() {
    match validate_p2pkh_address(P2PKH).unwrap().payload {
        BitcoinPayload::PubkeyHash(h) => assert_eq!(h.len(), 20),
        other => panic!("unexpected {:?}", other),
    }
    match validate_p2sh_address(P2SH).unwrap().payload {
        BitcoinPayload::ScriptHash(h) => assert_eq!(h.len(), 20),
        other => panic!("unexpected {:?}", other),
    }
    let expect = [
        (validate_p2wpkh_address(P2WPKH).unwrap().payload, 0, "751e76e8199196d454941c45d1b3a323f1433bd6"),
        (
            validate_p2wsh_address(P2WSH).unwrap().payload,
            0,
            "1863143c14c5166804bd19203356da136c985678cd4d27a1b8c6329604903262",
        ),
        (
            validate_p2tr_address(P2TR).unwrap().payload,
            1,
            "79be667ef9dcbbac55a06295ce870b07029bfcdb2dce28d959f2815b16f81798",
        ),
    ];
    for (payload, v, program_hex) in expect {
        match payload {
            BitcoinPayload::WitnessProgram { version, program } => {
                assert_eq!(version, v);
                assert_eq!(hex(&program), program_hex);
            }
            other => panic!("unexpected {:?}", other),
        }
    }
}

#[test]
fn p2tr_needs_a_32_byte_program() {
    let v1_40_bytes = "bc1pw508d6qejxtdg4y5r3zarvary0c5xw7kw508d6qejxtdg4y5r3zarvary0c5xw7kt5nd6y";
    assert!(matches!(validate_p2tr_address(v1_40_bytes), Err(BitcoinAddressError::UnrecognizedScript)));
}

#[test]
fn bitcoin_text_is_canonical() {
    let upper = P2WSH.to_uppercase();
    let a = validate_p2wsh_address(&upper).unwrap();
    assert_eq!(a.text, P2WSH);
    let again = validate_p2wsh_address(&a.text).unwrap();
    assert_eq!(again.text, a.text);
    match validate_p2wpkh_address(&TESTNET_P2WPKH.to_uppercase()) {
        Err(e @ BitcoinAddressError::NetworkValidation { .. }) => {
            assert_eq!(
                e.message(),
                format!("address {} belongs to network testnet which is different from required bitcoin", TESTNET_P2WPKH)
            );
        }
        other => panic!("unexpected {:?}", other),
    }
}

#[test]
fn bitcoin_wrong_network() {
    match validate_p2wpkh_address(TESTNET_P2WPKH) {
        Err(e @ BitcoinAddressError::NetworkValidation { .. }) => {
            if let BitcoinAddressError::NetworkValidation { required, found, address } = &e {
                assert_eq!(*required, BitcoinNetwork::Bitcoin);
                assert_eq!(*found, BitcoinNetwork::Testnet);
                assert_eq!(address, TESTNET_P2WPKH);
            }
            assert_eq!(
                e.message(),
                format!("address {} belongs to network testnet which is different from required bitcoin", TESTNET_P2WPKH)
            );
        }
        other => panic!("unexpected {:?}", other),
    }
}

#[test]
fn bitcoin_parse_errors() {
    assert!(matches!(validate_p2pkh_address("not an address"), Err(BitcoinAddressError::Parse(_))));
    assert!(matches!(validate_p2pkh_address(""), Err(BitcoinAddressError::Parse(_))));
    assert!(matches!(validate_p2pkh_address("1BvBMSEYstWetqTFn5Au4m4GFg7xJaNVN3"), Err(BitcoinAddressError::Parse(_))));
    assert_eq!(
        BitcoinAddressError::UnrecognizedScript.message(),
        "script is not a p2pkh, p2sh or witness program"
    );
}

#[test]
fn ethereum_addresses() {
    let a = validate_eth_address("0x742d35Cc6634C0532925a3b844Bc454e4438f44e").unwrap();
    assert_eq!(a.bytes.len(), 20);
    assert_eq!(a.bytes[0], 0x74);
    assert_eq!(a.bytes[19], 0x4e);
    let b = validate_eth_address("742D35CC6634C0532925A3B844BC454E4438F44E").unwrap();
    assert_eq!(a.bytes, b.bytes);
    assert!(validate_eth_address("0X742d35Cc6634C0532925a3b844Bc454e4438f44e").is_ok());
    for bad in ["", "0x", "0x742d35Cc6634C0532925a3b844Bc454e4438f44", "0x742d35Cc6634C0532925a3b844Bc454e4438f44e00", "0xzz2d35Cc6634C0532925a3b844Bc454e4438f44e"] {
        let err = validate_eth_address(bad).unwrap_err();
        assert!(err.starts_with("Invalid Ethereum address: "), "{}", err);
    }
}

#[test]
fn solana_addresses() {
    let system = validate_solana_address("11111111111111111111111111111111").unwrap();
    assert_eq!(system.bytes, vec![0u8; 32]);
    let token = validate_solana_address("TokenkegQfeZyiNwAJbNbGKPFXCWuBvf9Ss623VQ5DA").unwrap();
    assert_eq!(token.bytes.len(), 32);
    assert!(validate_solana_address("0OIl").is_err());
    assert!(validate_solana_address("1111").is_err());
    assert!(validate_solana_address(&"1".repeat(45)).is_err());
}
