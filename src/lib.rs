//! A single crowdfunding campaign as a verified state machine.
//!
//! The host ledger supplies the time, the caller, the owner, the held balance
//! and the attached payment; this crate decides what each call does with them.

pub mod address;
pub mod campaign;
pub mod error;
pub mod laws;
pub mod status;
