//! A staking ledger: depositors lock currency into a shared pool, the pool
//! tracks each depositor's staked amount, and time-weighted rewards accrue at
//! a configurable annual rate minus a commission, payable on demand.
//!
//! The ledger itself is pure state-transition logic. Each operation validates
//! its inputs, computes the updated pool and position records, and names the
//! currency transfer the host must perform; the host performs the transfer and
//! either commits the returned records or discards them, so that every
//! operation is all-or-nothing.

pub mod errors;
pub mod laws;
pub mod ops;
pub mod state;
