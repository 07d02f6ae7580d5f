//! Accounting engine for a yield-bearing vault: deposits are converted into
//! fungible shares of a pooled balance, and principal and yield can be
//! claimed separately, subject to time locks and loss-socialization rules.
//!
//! The engine itself is pure: every operation takes the persisted records
//! (`Config`, `State`, the caller's `DepositInfo`), the clock, and the
//! balances reported by the ledger and the external strategy as plain
//! values, and returns the records to persist together with the transfer
//! to emit.  The host is expected to commit all of them atomically or none.
pub mod access_control;
pub mod asset;
pub mod claim;
pub mod controller;
pub mod deposit;
pub mod error;
pub mod laws;
pub mod manage;
pub mod math;
pub mod msg;
pub mod pairs;
pub mod share;
pub mod state;
pub mod strategy;
