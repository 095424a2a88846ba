//! Fund-custody core of a crowdfunding escrow.
//!
//! Contributors pledge funds toward a campaign with a goal and an optional
//! deadline. The pooled funds are released to the campaign owner only if the
//! goal is met by the deadline, refunded to contributors if the goal is missed
//! or the campaign is cancelled, and otherwise held in trust. This crate holds
//! the state machine that governs when money may move, who may move it, and
//! how much; the host environment authenticates callers, supplies the current
//! time, and executes the wallet side of each value transfer.

pub mod campaign;
pub mod contributor;
pub mod donation;
pub mod errors;
pub mod laws;
pub mod ledger;
pub mod refund;
pub mod treasury;
