//! A minimal in-memory state-machine runtime: an account ledger with
//! checked transfer semantics, a chain-progress module tracking the block
//! height and per-account nonces, and a runtime that binds both modules to
//! one shared choice of account-identity and numeric types.

pub mod balances;
pub mod error;
pub mod identity;
pub mod numeric;
pub mod runtime;
pub mod store;
pub mod system;
