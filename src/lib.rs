//! Verified models of two account-based on-chain protocols: a single-owner
//! custody vault and a two-party token escrow. Every instruction is a
//! function from the accounts it is handed to the accounts it leaves, with
//! the authorisation checks (program-derived seeds), balance checks and
//! record lifecycle stated in its contract.
pub mod pda;
pub mod vault;
pub mod escrow;
