//! Ethereum addresses returned for new wallets.

use std::str::FromStr;
use crate::bytes::hex_decode;
use vstd::prelude::*;

verus! {

/// The hex decoding error of `alloy_primitives`.
#[verifier::external_type_specification]
#[verifier::external_body]
pub struct ExFromHexError(alloy_primitives::hex::FromHexError);

/// A 20-byte Ethereum address.
#[derive(Debug)]
pub struct EthereumAddress {
    pub bytes: Vec<u8>,
}

/// The text without a leading `0x` or `0X`.
pub open spec fn strip_hex_prefix(text: Seq<char>) -> Seq<char> {
    if text.len() >= 2 && text[0] == '0' && (text[1] == 'x' || text[1] == 'X') {
        text.subrange(2, text.len() as int)
    } else {
        text
    }
}

/// The address bytes a text denotes: after an optional `0x`/`0X` prefix,
/// exactly 40 hexadecimal digits of either case.
pub open spec fn ethereum_address_bytes(text: Seq<char>) -> Option<Seq<u8>> {
    let digits = strip_hex_prefix(text);
    if digits.len() == 40 {
        hex_decode(digits)
    } else {
        None
    }
}

/// `alloy_primitives::Address::from_str`, which decodes the text with
/// `const_hex::decode_to_array::<20>`: an optional `0x`/`0X` prefix, then 40
/// hexadecimal digits of either case. Claimed: it succeeds exactly on such
/// texts and returns the decoded bytes; the error value is left unsaid.
#[verifier::external_body]
fn parse_ethereum_address(text: &str) -> (res: Result<Vec<u8>, alloy_primitives::hex::FromHexError>)
    ensures
        res is Ok <==> ethereum_address_bytes(text@) is Some,
        res matches Ok(bytes) ==> ethereum_address_bytes(text@) == Some(bytes@),
{
    let address = alloy_primitives::Address::from_str(text)?;
    Ok(address.as_slice().to_vec())
}

/// The message of a hex decoding error (its `Display`).
#[verifier::external_body]
fn hex_error_message(e: &alloy_primitives::hex::FromHexError) -> String {
    e.to_string()
}

/// Checks that `addr` is an Ethereum address; the error reads
/// `Invalid Ethereum address: ` followed by the decoding error.
pub fn validate_eth_address(addr: &str) -> (res: Result<EthereumAddress, String>)
    ensures
        res is Ok <==> ethereum_address_bytes(addr@) is Some,
        res matches Ok(a) ==> ethereum_address_bytes(addr@) == Some(a.bytes@),
        res matches Err(msg) ==> msg@.len() >= 26 && msg@.take(26) == "Invalid Ethereum address: "@,
{
    match parse_ethereum_address(addr) {
        Ok(bytes) => Ok(EthereumAddress { bytes }),
        Err(e) => {
            let mut msg = "Invalid Ethereum address: ".to_owned();
            let detail = hex_error_message(&e);
            msg.append(detail.as_str());
            proof {
                reveal_strlit("Invalid Ethereum address: ");
                assert(msg@.take(26) =~= "Invalid Ethereum address: "@);
            }
            Err(msg)
        },
    }
}

/// Parsed addresses are 20 bytes long.
pub proof fn lemma_ethereum_address_len(text: Seq<char>)
    requires
        ethereum_address_bytes(text) is Some,
    ensures
        ethereum_address_bytes(text).unwrap().len() == 20,
{
    crate::bytes::lemma_hex_decode_some(strip_hex_prefix(text));
}

} // verus!
