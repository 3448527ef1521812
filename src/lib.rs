//! Token settlement between token accounts: plain transfers, fee-splitting
//! transfers, and a custody vault whose withdrawals are signed by an
//! authority derived from seeds rather than held as a key.

pub mod address;
pub mod error;
pub mod account;
pub mod fee;
pub mod transfer;
pub mod vault;
pub mod config;
