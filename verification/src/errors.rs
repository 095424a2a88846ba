//! Failure taxonomy shared by every fund-custody operation.

use vstd::prelude::*;

verus! {

/// Every way a fund-custody operation can refuse to act.
///
/// Each operation evaluates its preconditions in a fixed order and reports
/// the first one that fails, so error reporting is deterministic. Arithmetic
/// failures on a balance or a running total (an addition that would exceed
/// `u64::MAX`, or a debit that would drive a balance negative) are all
/// reported as `Overflow`.
#[derive(Clone, Copy, Debug, PartialEq, Eq, Structural)]
pub enum CustomError {
    /// The caller is not the identity this operation requires.
    Unauthorized,
    /// The campaign's deadline has passed (or the campaign never had one to
    /// cancel against).
    CampaignEnded,
    /// A checked addition or subtraction on a balance failed.
    Overflow,
    /// The campaign's deadline has not passed yet (or it has no deadline).
    CampaignStillActive,
    /// The goal was reached, so failed-campaign refunds are unavailable.
    CampaignGoalReached,
    /// This contributor already withdrew their current cumulative donation.
    AlreadyWithdrawn,
    /// The contributor has a zero cumulative donation.
    NothingToWithdraw,
    /// The goal was not reached, so the owner may not collect.
    CampaignGoalNotReached,
    /// The owner already collected the pooled funds.
    AlreadyWithdrawnByOwner,
    /// The campaign was cancelled.
    CampaignCancelled,
    /// The campaign was not cancelled, so cancelled-campaign refunds are
    /// unavailable.
    CampaignNotCancelled,
    /// The campaign was already cancelled; cancelling is one-way.
    CampaignAlreadyCancelled,
}

} // verus!
