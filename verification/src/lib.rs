//! Core logic of a discrete pari-mutuel betting protocol.
//!
//! Participants deposit into one of 36 options ("rigs") during a round
//! ("exploration"); a winner is drawn by a commit-reveal randomness protocol
//! combined with per-slot ledger entropy; winners split half the pool
//! pro-rata by sqrt-weighted tickets, losers get a flat partial refund, and
//! the remainder funds a fixed treasury split.
//!
//! This crate holds the round lifecycle state machine, the ticket-weighting
//! math, the commit-reveal protocol, the weighted draw and the settlement
//! arithmetic, each with a verified contract. Account storage, token custody
//! and event emission are left to the hosting environment.

pub mod deposit;
pub mod errors;
pub mod lifecycle;
pub mod randomness;
pub mod settlement;
pub mod state;
pub mod tickets;
