//! Solana addresses returned for new wallets.

use solana_sdk::pubkey::{ParsePubkeyError, Pubkey};
use vstd::prelude::*;

verus! {

/// The Solana public key parse error.
#[verifier::external_type_specification]
#[verifier::external_body]
pub struct ExParsePubkeyError(ParsePubkeyError);

/// A 32-byte Solana public key.
#[derive(Debug)]
pub struct SolanaPubkey {
    pub bytes: Vec<u8>,
}

/// What `solana_sdk::pubkey::Pubkey::try_from(&str)` reads from a text (the
/// base58 decoding of a 32-byte key): `None` where it returns an error.
pub uninterp spec fn solana_pubkey_from_str(text: Seq<char>) -> Option<Seq<u8>>;

/// `solana_sdk::pubkey::Pubkey::try_from(&str)`: base58 decoding into 32
/// bytes. Claimed: it succeeds exactly where the named parse gives a value,
/// returns those bytes, and they are 32 of them; the error value is left
/// unsaid.
#[verifier::external_body]
fn parse_solana_pubkey(text: &str) -> (res: Result<Vec<u8>, ParsePubkeyError>)
    ensures
        res is Ok <==> solana_pubkey_from_str(text@) is Some,
        res matches Ok(bytes) ==> solana_pubkey_from_str(text@) == Some(bytes@) && bytes@.len() == 32,
{
    let key = Pubkey::try_from(text)?;
    Ok(key.to_bytes().to_vec())
}

/// Checks that `addr` is a Solana public key.
pub fn validate_solana_address(addr: &str) -> (res: Result<SolanaPubkey, ParsePubkeyError>)
    ensures
        res is Ok <==> solana_pubkey_from_str(addr@) is Some,
        res matches Ok(key) ==> solana_pubkey_from_str(addr@) == Some(key.bytes@) && key.bytes@.len() == 32,
{
    let bytes = parse_solana_pubkey(addr)?;
    Ok(SolanaPubkey { bytes })
}

} // verus!
