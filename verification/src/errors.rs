//! Errors of the Turnkey client.

use crate::bytes::HexError;
use vstd::prelude::*;

verus! {

/// What can go wrong while setting up the client or creating a wallet.
#[derive(Debug)]
pub enum TurnkeyError {
    /// The API private key is not hexadecimal.
    InvalidHex(HexError),
    /// The API private key is not a P-256 secret scalar.
    InvalidSigningKey,
    /// Any other failure, described in words.
    OtherError(String),
}

/// The result type of the client's operations.
pub type TurnkeyResult<T> = Result<T, TurnkeyError>;

} // verus!
