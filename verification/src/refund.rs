//! The refund flow: a contributor reclaims their full cumulative donation,
//! either because the campaign failed (deadline passed, goal missed) or
//! because the owner cancelled it. Both eligibility paths converge on the
//! same mechanics: debit the treasury by the cumulative amount and close the
//! record's refund latch.

use crate::campaign::deadline_reached;
use crate::campaign::Campaign;
use crate::contributor::ContributorRecord;
use crate::errors::CustomError;
use crate::treasury::Treasury;
use vstd::prelude::*;

verus! {

/// The first precondition of `withdraw_if_failed` that fails, in evaluation
/// order, or `None` when the call must succeed.
pub open spec fn refund_failed_err(
    c: Campaign,
    rec: ContributorRecord,
    caller: u64,
    now: i64,
) -> Option<CustomError> {
    if caller != rec.contributor {
        Some(CustomError::Unauthorized)
    } else if c.is_cancelled {
        Some(CustomError::CampaignCancelled)
    } else if !deadline_reached(c.deadline, now) {
        Some(CustomError::CampaignStillActive)
    } else if c.total_amount_donated >= c.goal {
        Some(CustomError::CampaignGoalReached)
    } else if rec.withdrawn {
        Some(CustomError::AlreadyWithdrawn)
    } else if rec.amount_donated == 0 {
        Some(CustomError::NothingToWithdraw)
    } else if c.treasury.balance < rec.amount_donated {
        Some(CustomError::Overflow)
    } else {
        None
    }
}

/// The first precondition of `withdraw_if_cancelled` that fails, in
/// evaluation order, or `None` when the call must succeed. No timestamp is
/// involved: cancellation alone opens this path.
pub open spec fn refund_cancelled_err(
    c: Campaign,
    rec: ContributorRecord,
    caller: u64,
) -> Option<CustomError> {
    if caller != rec.contributor {
        Some(CustomError::Unauthorized)
    } else if !c.is_cancelled {
        Some(CustomError::CampaignNotCancelled)
    } else if rec.withdrawn {
        Some(CustomError::AlreadyWithdrawn)
    } else if rec.amount_donated == 0 {
        Some(CustomError::NothingToWithdraw)
    } else if c.treasury.balance < rec.amount_donated {
        Some(CustomError::Overflow)
    } else {
        None
    }
}

/// The campaign state after a refund of `amount`: only the treasury
/// changes; the historical total stays put.
pub open spec fn refund_post_campaign(c: Campaign, amount: u64) -> Campaign {
    Campaign { treasury: Treasury { balance: (c.treasury.balance - amount) as u64 }, ..c }
}

/// The record state after a refund: the full cumulative amount was paid
/// out, so the latch closes. The cumulative amount itself is a historical
/// ledger and is not reduced.
pub open spec fn refund_post_record(rec: ContributorRecord) -> ContributorRecord {
    ContributorRecord { withdrawn: true, ..rec }
}

/// Refunds a contributor of a failed campaign: the deadline has passed and
/// the goal was missed. Pays out the full cumulative `amount_donated` (never
/// a partial balance) and closes the record's refund latch as one unit; the
/// host credits the contributor's wallet with the returned amount. On any
/// failure nothing changes.
pub fn withdraw_if_failed(
    campaign: &mut Campaign,
    record: &mut ContributorRecord,
    caller: u64,
    now: i64,
) -> (r: Result<u64, CustomError>)
    ensures
        refund_failed_err(*old(campaign), *old(record), caller, now) is None ==> r == Ok::<
            u64,
            CustomError,
        >(old(record).amount_donated)
            && *final(campaign) == refund_post_campaign(*old(campaign), old(record).amount_donated)
            && *final(record) == refund_post_record(*old(record)),
        refund_failed_err(*old(campaign), *old(record), caller, now) matches Some(e) ==> r == Err::<
            u64,
            CustomError,
        >(e) && *final(campaign) == *old(campaign) && *final(record) == *old(record),
{
    if caller != record.contributor {
        return Err(CustomError::Unauthorized);
    }
    if campaign.is_cancelled {
        return Err(CustomError::CampaignCancelled);
    }
    let reached = match campaign.deadline {
        Some(d) => now >= d,
        None => false,
    };
    if !reached {
        return Err(CustomError::CampaignStillActive);
    }
    if campaign.total_amount_donated >= campaign.goal {
        return Err(CustomError::CampaignGoalReached);
    }
    if record.withdrawn {
        return Err(CustomError::AlreadyWithdrawn);
    }
    if record.amount_donated == 0 {
        return Err(CustomError::NothingToWithdraw);
    }
    let amount = record.amount_donated;
    match campaign.treasury.debit(amount) {
        Ok(()) => {},
        Err(e) => {
            return Err(e);
        },
    }
    record.withdrawn = true;
    Ok(amount)
}

/// Refunds a contributor of a cancelled campaign. Identical mechanics to
/// the failed-campaign path: the full cumulative amount leaves the treasury
/// and the record's refund latch closes as one unit; on any failure nothing
/// changes.
pub fn withdraw_if_cancelled(
    campaign: &mut Campaign,
    record: &mut ContributorRecord,
    caller: u64,
) -> (r: Result<u64, CustomError>)
    ensures
        refund_cancelled_err(*old(campaign), *old(record), caller) is None ==> r == Ok::<
            u64,
            CustomError,
        >(old(record).amount_donated)
            && *final(campaign) == refund_post_campaign(*old(campaign), old(record).amount_donated)
            && *final(record) == refund_post_record(*old(record)),
        refund_cancelled_err(*old(campaign), *old(record), caller) matches Some(e) ==> r == Err::<
            u64,
            CustomError,
        >(e) && *final(campaign) == *old(campaign) && *final(record) == *old(record),
{
    if caller != record.contributor {
        return Err(CustomError::Unauthorized);
    }
    if !campaign.is_cancelled {
        return Err(CustomError::CampaignNotCancelled);
    }
    if record.withdrawn {
        return Err(CustomError::AlreadyWithdrawn);
    }
    if record.amount_donated == 0 {
        return Err(CustomError::NothingToWithdraw);
    }
    let amount = record.amount_donated;
    match campaign.treasury.debit(amount) {
        Ok(()) => {},
        Err(e) => {
            return Err(e);
        },
    }
    record.withdrawn = true;
    Ok(amount)
}

} // verus!
