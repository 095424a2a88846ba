//! The campaign ledger: configuration and aggregate state of one campaign,
//! with the campaign-level transitions (creation, cancellation, owner
//! collection).

use crate::errors::CustomError;
use crate::treasury::Treasury;
use vstd::prelude::*;

verus! {

/// Configuration and aggregate state of one campaign.
///
/// Identities (the owner, contributors) are plain `u64` keys assigned by the
/// host environment; timestamps are plain `i64` values injected by the host
/// into every time-gated call. `total_amount_donated` is a historical ledger,
/// never decremented: withdrawals drain the treasury, not this counter.
#[verifier::ext_equal]
#[derive(Clone, Debug)]
pub struct Campaign {
    pub name: String,
    pub description: String,
    pub owner: u64,
    pub goal: u64,
    pub deadline: Option<i64>,
    pub total_amount_donated: u64,
    pub withdrawn_by_owner: bool,
    pub treasury: Treasury,
    pub created_at: i64,
    pub is_cancelled: bool,
}

/// True when the campaign has a deadline and `now` has reached it. A
/// campaign without a deadline never expires through time.
pub open spec fn deadline_reached(deadline: Option<i64>, now: i64) -> bool {
    match deadline {
        Some(d) => now >= d,
        None => false,
    }
}

/// The first precondition of `cancel_campaign` that fails, in evaluation
/// order, or `None` when the call must succeed.
pub open spec fn cancel_err(c: Campaign, caller: u64, now: i64) -> Option<CustomError> {
    if caller != c.owner {
        Some(CustomError::Unauthorized)
    } else if c.is_cancelled {
        Some(CustomError::CampaignAlreadyCancelled)
    } else if deadline_reached(c.deadline, now) || c.deadline is None {
        Some(CustomError::CampaignEnded)
    } else {
        None
    }
}

/// The campaign state after a successful cancellation.
pub open spec fn cancel_post(c: Campaign) -> Campaign {
    Campaign { is_cancelled: true, ..c }
}

/// The first precondition of `withdraw_by_owner` that fails, in evaluation
/// order, or `None` when the call must succeed.
pub open spec fn owner_withdraw_err(c: Campaign, caller: u64, now: i64) -> Option<CustomError> {
    if caller != c.owner {
        Some(CustomError::Unauthorized)
    } else if c.is_cancelled {
        Some(CustomError::CampaignCancelled)
    } else if !deadline_reached(c.deadline, now) {
        Some(CustomError::CampaignStillActive)
    } else if c.total_amount_donated < c.goal {
        Some(CustomError::CampaignGoalNotReached)
    } else if c.withdrawn_by_owner {
        Some(CustomError::AlreadyWithdrawnByOwner)
    } else if c.treasury.balance < c.total_amount_donated {
        Some(CustomError::Overflow)
    } else {
        None
    }
}

/// The campaign state after a successful owner withdrawal: the whole pool
/// leaves the treasury and the one-way latch closes. The historical total is
/// untouched.
pub open spec fn owner_withdraw_post(c: Campaign) -> Campaign {
    Campaign {
        withdrawn_by_owner: true,
        treasury: Treasury { balance: (c.treasury.balance - c.total_amount_donated) as u64 },
        ..c
    }
}

/// Creates a campaign: configuration fixed for good, aggregate state zeroed,
/// and a fresh, empty treasury bound to it.
///
/// The goal must be positive; the host validates that before calling. A
/// deadline, if present, is only enforced at the moment actions are
/// attempted, not at creation.
pub fn create_campaign(
    name: String,
    description: String,
    owner: u64,
    goal: u64,
    deadline: Option<i64>,
    created_at: i64,
) -> (c: Campaign)
    requires
        goal >= 1,
    ensures
        c.name == name,
        c.description == description,
        c.owner == owner,
        c.goal == goal,
        c.deadline == deadline,
        c.total_amount_donated == 0,
        c.withdrawn_by_owner == false,
        c.treasury.balance == 0,
        c.created_at == created_at,
        c.is_cancelled == false,
{
    Campaign {
        name,
        description,
        owner,
        goal,
        deadline,
        total_amount_donated: 0,
        withdrawn_by_owner: false,
        treasury: Treasury::new(),
        created_at,
        is_cancelled: false,
    }
}

/// Cancels the campaign: a one-way latch, permitted only to the owner and
/// only while the campaign is still running (its deadline is set and has not
/// been reached). A second cancellation fails rather than no-opping.
pub fn cancel_campaign(campaign: &mut Campaign, caller: u64, now: i64) -> (r: Result<
    (),
    CustomError,
>)
    ensures
        cancel_err(*old(campaign), caller, now) is None ==> r is Ok
            && *final(campaign) == cancel_post(*old(campaign)),
        cancel_err(*old(campaign), caller, now) matches Some(e) ==> r == Err::<(), CustomError>(e)
            && *final(campaign) == *old(campaign),
{
    if caller != campaign.owner {
        return Err(CustomError::Unauthorized);
    }
    if campaign.is_cancelled {
        return Err(CustomError::CampaignAlreadyCancelled);
    }
    let still_running = match campaign.deadline {
        Some(d) => now < d,
        None => false,
    };
    if !still_running {
        return Err(CustomError::CampaignEnded);
    }
    campaign.is_cancelled = true;
    Ok(())
}

/// Releases the entire accumulated pool to the owner, exactly once: only
/// after the deadline, only if the goal was met, never on a cancelled
/// campaign. Returns the amount transferred; the host credits the owner's
/// wallet with it. The treasury debit and the latch update happen as one
/// unit: on any failure nothing changes.
pub fn withdraw_by_owner(campaign: &mut Campaign, caller: u64, now: i64) -> (r: Result<
    u64,
    CustomError,
>)
    ensures
        owner_withdraw_err(*old(campaign), caller, now) is None ==> r == Ok::<u64, CustomError>(
            old(campaign).total_amount_donated,
        ) && *final(campaign) == owner_withdraw_post(*old(campaign)),
        owner_withdraw_err(*old(campaign), caller, now) matches Some(e) ==> r == Err::<
            u64,
            CustomError,
        >(e) && *final(campaign) == *old(campaign),
{
    if caller != campaign.owner {
        return Err(CustomError::Unauthorized);
    }
    if campaign.is_cancelled {
        return Err(CustomError::CampaignCancelled);
    }
    let reached = match campaign.deadline {
        Some(d) => now >= d,
        None => false,
    };
    if !reached {
        return Err(CustomError::CampaignStillActive);
    }
    if campaign.total_amount_donated < campaign.goal {
        return Err(CustomError::CampaignGoalNotReached);
    }
    if campaign.withdrawn_by_owner {
        return Err(CustomError::AlreadyWithdrawnByOwner);
    }
    let amount = campaign.total_amount_donated;
    match campaign.treasury.debit(amount) {
        Ok(()) => {},
        Err(e) => {
            return Err(e);
        },
    }
    campaign.withdrawn_by_owner = true;
    Ok(amount)
}

} // verus!
