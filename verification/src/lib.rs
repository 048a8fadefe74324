//! A verified transfer pipeline for a single-wallet payout service on the
//! Fuel network: request validation, session construction, balance
//! introspection, transfer submission, and a fixed error taxonomy.
//!
//! The pipeline is a per-request state machine. A thin driver performs the
//! outside steps (connect, balance query, submission) and feeds their
//! outcomes back; the machine decides every step and classifies every
//! failure.

pub mod amount;
pub mod errors;
pub mod executor;
pub mod fuel;
pub mod laws;
pub mod response;
