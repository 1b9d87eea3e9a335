//! High-level wallet operations.

pub mod create_wallet;
