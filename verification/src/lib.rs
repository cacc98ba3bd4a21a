//! A transaction engine for client accounts.
//!
//! Records (deposit, withdrawal, dispute, resolve, chargeback) are applied one
//! at a time, in order, to a set of accounts keyed by client id. Every rule of
//! the ledger is stated as a contract over a mathematical model of the state
//! and proved against the code that runs.
//!
//! - [`amount`]: amounts of money, exact to the ten-thousandth.
//! - [`account`]: the ledger of one client and its five operations.
//! - [`engine`]: the engine, which routes each record to an account and keeps
//!   track of the deposits and of the disputes.
//! - [`laws`]: what holds of the engine whatever the records are.
//! - [`deser`]: the records that come in and go out.
//! - [`csv`]: readers and writers for the records.
//! - [`decimal`]: the boundary to `rust_decimal`, whose results are trusted.

pub mod account;
pub mod amount;
pub mod csv;
pub mod decimal;
pub mod deser;
pub mod engine;
pub mod laws;
