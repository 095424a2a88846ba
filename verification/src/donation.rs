//! The donation flow: the one operation that mutates the campaign ledger and
//! a contributor record together, as a unit.

use crate::campaign::deadline_reached;
use crate::campaign::Campaign;
use crate::contributor::ContributorRecord;
use crate::errors::CustomError;
use crate::treasury::Treasury;
use vstd::prelude::*;

verus! {

/// The first precondition of `donate_to_campaign` that fails, in evaluation
/// order, or `None` when the call must succeed. Any checked-arithmetic
/// failure — on the treasury balance, the campaign's running total, or the
/// record's cumulative amount — is `Overflow`.
pub open spec fn donate_err(
    c: Campaign,
    rec: ContributorRecord,
    amount: u64,
    now: i64,
) -> Option<CustomError> {
    if c.is_cancelled {
        Some(CustomError::CampaignCancelled)
    } else if deadline_reached(c.deadline, now) {
        Some(CustomError::CampaignEnded)
    } else if c.treasury.balance + amount > u64::MAX {
        Some(CustomError::Overflow)
    } else if c.total_amount_donated + amount > u64::MAX {
        Some(CustomError::Overflow)
    } else if rec.amount_donated + amount > u64::MAX {
        Some(CustomError::Overflow)
    } else {
        None
    }
}

/// The campaign state after a successful donation of `amount`: the treasury
/// and the historical total both grow by `amount`.
pub open spec fn donate_post_campaign(c: Campaign, amount: u64) -> Campaign {
    Campaign {
        total_amount_donated: (c.total_amount_donated + amount) as u64,
        treasury: Treasury { balance: (c.treasury.balance + amount) as u64 },
        ..c
    }
}

/// The record state after a successful donation of `amount`: the cumulative
/// amount grows and the refund latch reopens unconditionally, so the new
/// cumulative total is refundable again.
pub open spec fn donate_post_record(rec: ContributorRecord, amount: u64) -> ContributorRecord {
    ContributorRecord {
        amount_donated: (rec.amount_donated + amount) as u64,
        withdrawn: false,
        ..rec
    }
}

/// Records a donation of `amount` by `contributor`: the host has already
/// debited the contributor's wallet, and this call credits the treasury and
/// both ledgers as one unit. Refused on a cancelled campaign, after the
/// deadline, or when any running total would overflow; on failure nothing
/// changes and the host must return the wallet debit.
///
/// The host validates that the amount is positive and hands in the record
/// keyed to this contributor.
pub fn donate_to_campaign(
    campaign: &mut Campaign,
    record: &mut ContributorRecord,
    contributor: u64,
    amount: u64,
    now: i64,
) -> (r: Result<(), CustomError>)
    requires
        amount >= 1,
        old(record).contributor == contributor,
    ensures
        donate_err(*old(campaign), *old(record), amount, now) is None ==> r is Ok
            && *final(campaign) == donate_post_campaign(*old(campaign), amount)
            && *final(record) == donate_post_record(*old(record), amount),
        donate_err(*old(campaign), *old(record), amount, now) matches Some(e) ==> r == Err::<
            (),
            CustomError,
        >(e) && *final(campaign) == *old(campaign) && *final(record) == *old(record),
{
    if campaign.is_cancelled {
        return Err(CustomError::CampaignCancelled);
    }
    let ended = match campaign.deadline {
        Some(d) => now >= d,
        None => false,
    };
    if ended {
        return Err(CustomError::CampaignEnded);
    }
    // Every checked addition is tested before any state changes, so a late
    // overflow cannot leave a partial donation behind.
    if campaign.treasury.balance().checked_add(amount).is_none() {
        return Err(CustomError::Overflow);
    }
    let new_total = match campaign.total_amount_donated.checked_add(amount) {
        Some(t) => t,
        None => {
            return Err(CustomError::Overflow);
        },
    };
    let new_cumulative = match record.amount_donated.checked_add(amount) {
        Some(a) => a,
        None => {
            return Err(CustomError::Overflow);
        },
    };
    match campaign.treasury.credit(amount) {
        Ok(()) => {},
        Err(e) => {
            return Err(e);
        },
    }
    campaign.total_amount_donated = new_total;
    record.amount_donated = new_cumulative;
    record.withdrawn = false;
    Ok(())
}

} // verus!
