//! Turnkey wallet automation: derivation-path accounts for many chains,
//! request stamps signed with the API key, wallet-creation requests and the
//! validation of the addresses that come back.

pub mod blueprint;
pub mod bytes;
pub mod client;
pub mod clock;
pub mod errors;
pub mod functions;
pub mod json;
pub mod text;
pub mod utils;

pub use blueprint::{say_hello, ServiceContext};
pub use client::{ApiStamp, Turnkey};
