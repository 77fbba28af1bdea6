//! A single-round wager escrow.
//!
//! A player deposits a stake into an escrow account, submits a score, and
//! is paid exactly double the stake if the score meets a target; otherwise
//! the stake is forfeited and stays in escrow. This crate holds the escrow
//! accounting state machine: the account lifecycle, the atomicity of each
//! fund transfer with its bookkeeping update, and the balance invariants
//! that must hold before any payout. Account creation mechanics, signature
//! checking and transport belong to the hosting ledger runtime and are kept
//! outside this core.

pub mod escrow;
pub mod ledger;
pub mod model;
