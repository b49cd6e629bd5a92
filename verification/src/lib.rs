//! Core of a crowdfunding program: campaign records, donations into a
//! campaign's backing store, and withdrawals by the campaign's manager.
//!
//! The host chain runtime resolves account storage, verifies signatures and
//! moves real funds; this crate holds the decision logic and the balance
//! arithmetic over a plain model of that state, with proofs that the
//! operations respect the campaign's invariants.

pub mod campaign;
pub mod laws;
