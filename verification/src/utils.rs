//! Helpers for building wallet requests.

pub mod wallet;
