use p256::ecdsa::signature::Verifier;
use p256::ecdsa::{Signature, SigningKey, VerifyingKey};
use turnkey_rs::bytes::{hex_to_bytes, HexError};
use turnkey_rs::errors::TurnkeyError;
use turnkey_rs::{ApiStamp, Turnkey};

// The P-256 key of the RFC 6979 (A.2.5) test vectors.
const RFC6979_KEY: &str = "c9afa9d845ba75166b5c215767b1d6934e50c3db36e89b127b8a622b120f6721";

fn decode_stamp(stamp: &str) -> serde_json::Value {
    let json = base64_url::decode(stamp).unwrap();
    serde_json::from_slice(&json).unwrap()
}

#[test]
fn new_sets_up_configuration() {
    let client = Turnkey::new("02pub", RFC6979_KEY, "org-1").unwrap();
    assert_eq!(client.api_public_key, "02pub");
    assert_eq!(client.organization_id, "org-1");
    assert_eq!(client.config.base_path, "https://api.turnkey.com");
    assert_eq!(client.config.user_agent.as_deref(), Some("turnkey-rs"));
    let key = client.config.api_key.as_ref().unwrap();
    assert_eq!(key.prefix.as_deref(), Some("Bearer"));
    assert_eq!(key.key, "02pub");
    assert!(client.config.bearer_access_token.is_none());
    assert!(client.config.basic_auth.is_none());
    assert!(client.config.oauth_access_token.is_none());
}

#[test]
fn new_rejects_bad_private_keys() {
    assert!(matches!(Turnkey::new("p", "abc", "o"), Err(TurnkeyError::InvalidHex(HexError::OddLength))));
    assert!(matches!(
        Turnkey::new("p", "zz", "o"),
        Err(TurnkeyError::InvalidHex(HexError::InvalidHexCharacter { c: 'z', index: 0 }))
    ));
    let zero = "00".repeat(32);
    assert!(matches!(Turnkey::new("p", &zero, "o"), Err(TurnkeyError::InvalidSigningKey)));
    let order = "ffffffff00000000ffffffffffffffffbce6faada7179e84f3b9cac2fc632551";
    assert!(matches!(Turnkey::new("p", order, "o"), Err(TurnkeyError::InvalidSigningKey)));
    let below_order = "ffffffff00000000ffffffffffffffffbce6faada7179e84f3b9cac2fc632550";
    assert!(Turnkey::new("p", below_order, "o").is_ok());
    let too_short = "01".repeat(23);
    assert!(matches!(Turnkey::new("p", &too_short, "o"), Err(TurnkeyError::InvalidSigningKey)));
    let shortest = "01".repeat(24);
    assert!(Turnkey::new("p", &shortest, "o").is_ok());
    let too_long = "01".repeat(33);
    assert!(matches!(Turnkey::new("p", &too_long, "o"), Err(TurnkeyError::InvalidSigningKey)));
}

#[test]
fn stamp_matches_rfc6979_vector() {
    let client = Turnkey::new("02abcdef", RFC6979_KEY, "org").unwrap();
    let stamp = client.stamp("sample").unwrap();
    let value = decode_stamp(&stamp);
    assert_eq!(value["publicKey"], "02abcdef");
    assert_eq!(value["scheme"], "TK_API_P256");
    let r = "00efd48b2aacb6a8fd1140dd9cd45e81d69d2c877b56aaf991c34d0ea84eaf3716";
    let s = "00f7cb1c942d657c41d436c7a1b6e29f65f3e900dbb9aff4064dc4ab2f843acda8";
    let der = format!("30460221{}0221{}", r, s);
    assert_eq!(value["signature"], der);
}

#[test]
fn stamp_is_base64url_json_in_field_order() {
    let client = Turnkey::new("key \"q\"", RFC6979_KEY, "org").unwrap();
    let stamp = client.stamp("{\"a\":1}").unwrap();
    assert!(!stamp.contains('=') && !stamp.contains('+') && !stamp.contains('/'));
    let json = String::from_utf8(base64_url::decode(&stamp).unwrap()).unwrap();
    let value: serde_json::Value = serde_json::from_str(&json).unwrap();
    let signature = value["signature"].as_str().unwrap().to_string();
    let expected = format!(
        "{{\"publicKey\":\"key \\\"q\\\"\",\"signature\":\"{}\",\"scheme\":\"TK_API_P256\"}}",
        signature
    );
    assert_eq!(json, expected);
    let key = SigningKey::from_slice(&hex_to_bytes(RFC6979_KEY).unwrap()).unwrap();
    let verifying = VerifyingKey::from(&key);
    let sig = Signature::from_der(&hex_to_bytes(&signature).unwrap()).unwrap();
    assert!(verifying.verify(b"{\"a\":1}", &sig).is_ok());
    assert_eq!(client.stamp("{\"a\":1}").unwrap(), stamp);
}

#[test]
fn api_stamp_json() {
    let stamp = ApiStamp { public_key: "pk".to_string(), signature: "3045".to_string(), scheme: "TK_API_P256" };
    assert_eq!(stamp.to_json(), "{\"publicKey\":\"pk\",\"signature\":\"3045\",\"scheme\":\"TK_API_P256\"}");
}

#[test]
fn signing_key_reads_hex() {
    let key = turnkey_rs::client::ApiSigningKey::from_hex(RFC6979_KEY).unwrap();
    assert!(key.is_valid());
    let client = Turnkey::new("pk", RFC6979_KEY, "o").unwrap();
    assert_eq!(key.sign(b"sample"), client.signing_key.sign(b"sample"));
    assert!(matches!(turnkey_rs::client::ApiSigningKey::from_hex("0"), Err(TurnkeyError::InvalidHex(HexError::OddLength))));
}
