//! The Turnkey client: API configuration and the signed stamp that
//! authenticates each request.

use crate::bytes::{bytes_to_hex, hex_decode, hex_encode, hex_to_bytes, hex_to_bytes_result};
use crate::errors::{TurnkeyError, TurnkeyResult};
use crate::json::{json_string, push_json_string};
use p256::ecdsa::signature::Signer;
use p256::ecdsa::{Signature, SigningKey};
use vstd::prelude::*;
use vstd::utf8::encode_utf8;

verus! {

/// The p256 signature error.
#[verifier::external_type_specification]
#[verifier::external_body]
pub struct ExP256Error(p256::ecdsa::Error);

/// The Turnkey API endpoint.
pub const API_BASE_PATH: &'static str = "https://api.turnkey.com";

/// The user agent the client announces.
pub const USER_AGENT: &'static str = "turnkey-rs";

/// The signature scheme named in every stamp.
pub const STAMP_SCHEME: &'static str = "TK_API_P256";

/// An API key sent with requests: an optional prefix and the key.
#[derive(Debug)]
pub struct ApiKey {
    pub prefix: Option<String>,
    pub key: String,
}

/// The settings of the Turnkey API client (the HTTP client itself is made
/// where requests are sent).
#[derive(Debug)]
pub struct Configuration {
    pub base_path: String,
    pub user_agent: Option<String>,
    pub api_key: Option<ApiKey>,
    pub bearer_access_token: Option<String>,
    pub basic_auth: Option<(String, Option<String>)>,
    pub oauth_access_token: Option<String>,
}

/// The stamp attached to a request: who signed it, the signature, the scheme.
#[derive(Debug)]
pub struct ApiStamp {
    pub public_key: String,
    pub signature: String,
    pub scheme: &'static str,
}

/// The big-endian value of a byte string.
pub open spec fn be_value(bytes: Seq<u8>) -> nat
    decreases bytes.len(),
{
    if bytes.len() == 0 {
        0
    } else {
        be_value(bytes.drop_last()) * 256 + bytes.last() as nat
    }
}

/// The order of the P-256 group.
pub open spec fn p256_order() -> nat {
    0xffffffff00000000ffffffffffffffffbce6faada7179e84f3b9cac2fc632551nat
}

/// Whether bytes are accepted as a P-256 secret key: 24 to 32 bytes whose
/// big-endian value is a non-zero scalar below the group order.
pub open spec fn p256_secret_key_valid(bytes: Seq<u8>) -> bool {
    &&& 24 <= bytes.len() <= 32
    &&& 0 < be_value(bytes)
    &&& be_value(bytes) < p256_order()
}

/// The DER-encoded ECDSA/P-256 signature (SHA-256, RFC 6979 deterministic
/// nonce) that a secret key gives a message.
pub uninterp spec fn p256_der_signature(secret_key: Seq<u8>, message: Seq<u8>) -> Seq<u8>;

/// `p256::ecdsa::SigningKey::from_slice`, which accepts 24 to 32 bytes
/// (shorter ones zero-padded in front) holding a big-endian scalar in
/// `1..n`. Claimed: it succeeds exactly on such bytes.
#[verifier::external_body]
fn check_signing_key(secret_key: &[u8]) -> (res: Result<(), p256::ecdsa::Error>)
    ensures
        res is Ok <==> p256_secret_key_valid(secret_key@),
{
    SigningKey::from_slice(secret_key)?;
    Ok(())
}

/// `<p256::ecdsa::SigningKey as Signer<Signature>>::sign` on the key read by
/// `SigningKey::from_slice`, then `Signature::to_der`. Claimed: the result is
/// the named deterministic signature of the message under that key. (`sign`
/// panics only where RFC 6979 yields a zero `r` or `s`, which the
/// documentation treats as unreachable.)
#[verifier::external_body]
fn sign_der(secret_key: &[u8], message: &[u8]) -> (signature: Vec<u8>)
    requires
        p256_secret_key_valid(secret_key@),
    ensures
        signature@ == p256_der_signature(secret_key@, message@),
{
    let key = SigningKey::from_slice(secret_key).expect("checked secret key");
    let signature: Signature = key.sign(message);
    signature.to_der().to_bytes().to_vec()
}

/// The base64url character of a 6-bit value.
pub open spec fn base64url_char(v: nat) -> char {
    if v < 26 {
        (65 + v) as char
    } else if v < 52 {
        (71 + v) as char
    } else if v < 62 {
        (v - 4) as char
    } else if v == 62 {
        '-'
    } else {
        '_'
    }
}

/// Base64 with the URL-safe alphabet and no `=` padding (RFC 4648 §5).
pub open spec fn base64url_encode(bytes: Seq<u8>) -> Seq<char>
    decreases bytes.len(),
{
    if bytes.len() == 0 {
        Seq::empty()
    } else if bytes.len() == 1 {
        seq![base64url_char((bytes[0] / 4) as nat), base64url_char(((bytes[0] % 4) * 16) as nat)]
    } else if bytes.len() == 2 {
        seq![
            base64url_char((bytes[0] / 4) as nat),
            base64url_char(((bytes[0] % 4) * 16 + bytes[1] / 16) as nat),
            base64url_char(((bytes[1] % 16) * 4) as nat),
        ]
    } else {
        seq![
            base64url_char((bytes[0] / 4) as nat),
            base64url_char(((bytes[0] % 4) * 16 + bytes[1] / 16) as nat),
            base64url_char(((bytes[1] % 16) * 4 + bytes[2] / 64) as nat),
            base64url_char((bytes[2] % 64) as nat),
        ] + base64url_encode(bytes.skip(3))
    }
}

/// `base64_url::encode`: the text's UTF-8 bytes in base64 with the URL-safe
/// alphabet and no padding. Claimed: exactly the RFC 4648 §5 encoding.
#[verifier::external_body]
fn base64url(text: &str) -> (encoded: String)
    ensures
        encoded@ == base64url_encode(encode_utf8(text@)),
{
    base64_url::encode(text)
}

/// The JSON text of a stamp: `{"publicKey":…,"signature":…,"scheme":…}`.
pub open spec fn stamp_json(public_key: Seq<char>, signature: Seq<char>, scheme: Seq<char>) -> Seq<char> {
    "{\"publicKey\":"@ + json_string(public_key) + ",\"signature\":"@ + json_string(signature)
        + ",\"scheme\":"@ + json_string(scheme) + "}"@
}

/// The stamp text for a message: the base64url encoding of the stamp JSON
/// that carries the public key and the hexadecimal DER signature of the
/// message's UTF-8 bytes.
pub open spec fn api_stamp_text(public_key: Seq<char>, secret_key: Seq<u8>, message: Seq<char>) -> Seq<char> {
    let signature = hex_encode(p256_der_signature(secret_key, encode_utf8(message)));
    base64url_encode(encode_utf8(stamp_json(public_key, signature, STAMP_SCHEME@)))
}

/// The configuration a client starts with: the Turnkey endpoint, the
/// library's user agent and the public key as a `Bearer` API key.
pub open spec fn is_initial_configuration(config: Configuration, public_key: Seq<char>) -> bool {
    &&& config.base_path@ == API_BASE_PATH@
    &&& config.user_agent matches Some(agent) && agent@ == USER_AGENT@
    &&& config.api_key matches Some(key) && key.key@ == public_key && (key.prefix matches Some(
        prefix,
    ) && prefix@ == "Bearer"@)
    &&& config.bearer_access_token is None
    &&& config.basic_auth is None
    &&& config.oauth_access_token is None
}

/// The client's signing key: the hexadecimal private key it was made from
/// and the P-256 secret scalar that text decodes to.
#[derive(Debug)]
pub struct ApiSigningKey {
    private_key: String,
    secret: Vec<u8>,
}

impl ApiSigningKey {
    /// Always: the secret is the decoded private key and a valid P-256
    /// secret key.
    #[verifier::type_invariant]
    spec fn decodes_to_valid_secret(self) -> bool {
        &&& p256_secret_key_valid(self.secret@)
        &&& hex_decode(self.private_key@) == Some(self.secret@)
    }

    /// The secret scalar the key signs with (big-endian bytes).
    pub closed spec fn secret_key(&self) -> Seq<u8> {
        self.secret@
    }

    /// The hexadecimal private key the key was read from.
    pub closed spec fn private_key_text(&self) -> Seq<char> {
        self.private_key@
    }

    /// Reads a P-256 signing key from its hexadecimal text.
    pub fn from_hex(api_private_key: &str) -> (res: TurnkeyResult<ApiSigningKey>)
        ensures
            hex_to_bytes_result(api_private_key@) is Err ==> (res matches Err(TurnkeyError::InvalidHex(e))
                && hex_to_bytes_result(api_private_key@) == Err::<Seq<u8>, _>(e)),
            (hex_to_bytes_result(api_private_key@) is Ok && !p256_secret_key_valid(
                hex_to_bytes_result(api_private_key@)->Ok_0,
            )) ==> (res matches Err(TurnkeyError::InvalidSigningKey)),
            (hex_to_bytes_result(api_private_key@) is Ok && p256_secret_key_valid(
                hex_to_bytes_result(api_private_key@)->Ok_0,
            )) ==> (res matches Ok(key) && key.secret_key() == hex_to_bytes_result(api_private_key@)->Ok_0
                && key.private_key_text() == api_private_key@),
            res matches Ok(key) ==> p256_secret_key_valid(key.secret_key()) && hex_decode(key.private_key_text())
                == Some(key.secret_key()),
    {
        let secret = match hex_to_bytes(api_private_key) {
            Ok(bytes) => bytes,
            Err(e) => return Err(TurnkeyError::InvalidHex(e)),
        };
        if check_signing_key(secret.as_slice()).is_err() {
            return Err(TurnkeyError::InvalidSigningKey);
        }
        proof {
            crate::bytes::lemma_hex_decode_some(api_private_key@);
        }
        Ok(ApiSigningKey { private_key: api_private_key.to_owned(), secret })
    }

    /// The DER-encoded ECDSA/P-256 signature of a message.
    pub fn sign(&self, message: &[u8]) -> (signature: Vec<u8>)
        ensures
            signature@ == p256_der_signature(self.secret_key(), message@),
    {
        proof {
            use_type_invariant(self);
        }
        sign_der(self.secret.as_slice(), message)
    }

    /// Every key holds a valid P-256 secret that its text decodes to.
    pub fn is_valid(&self) -> (valid: bool)
        ensures
            valid,
            p256_secret_key_valid(self.secret_key()),
            hex_decode(self.private_key_text()) == Some(self.secret_key()),
    {
        proof {
            use_type_invariant(self);
        }
        true
    }
}

/// The Turnkey service client: API configuration and signing key.
#[derive(Debug)]
pub struct Turnkey {
    pub api_public_key: String,
    pub organization_id: String,
    pub signing_key: ApiSigningKey,
    pub config: Configuration,
}

impl Turnkey {
    /// Creates a client from the API key pair (the private key in
    /// hexadecimal) and the organization id.
    pub fn new(api_public_key: &str, api_private_key: &str, organization_id: &str) -> (res: TurnkeyResult<Turnkey>)
        ensures
            hex_to_bytes_result(api_private_key@) is Err ==> (res matches Err(TurnkeyError::InvalidHex(e))
                && hex_to_bytes_result(api_private_key@) == Err::<Seq<u8>, _>(e)),
            (hex_to_bytes_result(api_private_key@) is Ok && !p256_secret_key_valid(
                hex_to_bytes_result(api_private_key@)->Ok_0,
            )) ==> (res matches Err(TurnkeyError::InvalidSigningKey)),
            (hex_to_bytes_result(api_private_key@) is Ok && p256_secret_key_valid(
                hex_to_bytes_result(api_private_key@)->Ok_0,
            )) ==> (res matches Ok(client) && client.signing_key.secret_key() == hex_to_bytes_result(
                api_private_key@,
            )->Ok_0 && client.signing_key.private_key_text() == api_private_key@
                && client.api_public_key@ == api_public_key@ && client.organization_id@ == organization_id@
                && is_initial_configuration(client.config, api_public_key@)),
    {
        let signing_key = ApiSigningKey::from_hex(api_private_key)?;
        let config = Configuration {
            base_path: API_BASE_PATH.to_owned(),
            user_agent: Some(USER_AGENT.to_owned()),
            api_key: Some(ApiKey { prefix: Some("Bearer".to_owned()), key: api_public_key.to_owned() }),
            bearer_access_token: None,
            basic_auth: None,
            oauth_access_token: None,
        };
        Ok(Turnkey {
            api_public_key: api_public_key.to_owned(),
            organization_id: organization_id.to_owned(),
            signing_key,
            config,
        })
    }

    /// Creates the stamp that authenticates a request body: the message is
    /// signed with the client's key and wrapped, with the public key, in a
    /// base64url-encoded JSON stamp.
    pub fn stamp(&self, message: &str) -> (res: TurnkeyResult<String>)
        ensures
            res matches Ok(stamp) && stamp@ == api_stamp_text(
                self.api_public_key@,
                self.signing_key.secret_key(),
                message@,
            ),
    {
        let signature_der = self.signing_key.sign(message.as_bytes());
        let signature_hex = bytes_to_hex(signature_der.as_slice());
        let stamp = ApiStamp {
            public_key: self.api_public_key.clone(),
            signature: signature_hex,
            scheme: STAMP_SCHEME,
        };
        let stamp_json = stamp.to_json();
        Ok(base64url(stamp_json.as_str()))
    }
}

impl ApiStamp {
    /// The stamp as JSON, fields in declaration order and named in camelCase.
    pub fn to_json(&self) -> (json: String)
        ensures
            json@ == stamp_json(self.public_key@, self.signature@, self.scheme@),
    {
        let mut json = "{\"publicKey\":".to_owned();
        push_json_string(&mut json, self.public_key.as_str());
        json.append(",\"signature\":");
        push_json_string(&mut json, self.signature.as_str());
        json.append(",\"scheme\":");
        push_json_string(&mut json, self.scheme);
        json.append("}");
        json
    }
}

} // verus!
