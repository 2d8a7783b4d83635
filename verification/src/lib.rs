//! A staged, proportional-custody pool: depositors register claims, an
//! operator drains them through an exchange, and each depositor then redeems
//! a share of the proceeds in proportion to what they contributed.
//!
//! - [`amount`]: fixed-point quantities and what `Decimal` computes on them.
//! - [`assets`]: claims, receipts and the `scrypto` values they carry.
//! - [`errors`]: why an operation is rejected.
//! - [`stage`]: the stage gate.
//! - [`registry`]: the compacting registry of claims.
//! - [`ledger`]: the receipt records.
//! - [`shares`]: the arithmetic of proportional shares.
//! - [`state`]: the pool as a state machine over mathematical values.
//! - [`gabling`]: the pool itself.
//! - [`stored`]: the pool as plain parts, and the test of their validity.
//! - [`laws`]: what holds of every pool, whatever is done to it.

pub mod amount;
pub mod assets;
pub mod errors;
pub mod gabling;
pub mod laws;
pub mod ledger;
pub mod registry;
pub mod shares;
pub mod stage;
pub mod state;
pub mod stored;
