//! An account ledger: deposits, withdrawals and the dispute lifecycle,
//! applied record by record to per-client balances.
//!
//! - [`amount`]: decimal amounts, computed by `rust_decimal`.
//! - [`models`]: records, accounts and report lines.
//! - [`error`]: why a record was refused.
//! - [`handlers`]: the five operations on one account.
//! - [`accounts`]: the insertion-ordered map of accounts, an `IndexMap`.
//! - [`engine`]: the ledger, its dispatcher and its report.
//! - [`report`]: how one report line is made.
//! - [`laws`]: what holds of the ledger whatever the records are.

pub mod accounts;
pub mod amount;
pub mod engine;
pub mod error;
pub mod handlers;
pub mod laws;
pub mod models;
pub mod report;
