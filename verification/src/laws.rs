//! The guarantees of the fund-custody state machine, each stated and proved
//! over the same outcome and post-state functions that the operations'
//! contracts use. Conservation — the campaign's historical total equals the
//! sum of cumulative donations across its records — is not here: it is the
//! `wf` invariant that every `CampaignLedger` operation ensures.

use crate::campaign::cancel_err;
use crate::campaign::cancel_post;
use crate::campaign::owner_withdraw_err;
use crate::campaign::owner_withdraw_post;
use crate::campaign::Campaign;
use crate::contributor::ContributorRecord;
use crate::donation::donate_err;
use crate::donation::donate_post_record;
use crate::errors::CustomError;
use crate::refund::refund_cancelled_err;
use crate::refund::refund_failed_err;
use crate::refund::refund_post_campaign;
use crate::refund::refund_post_record;
use vstd::prelude::*;

verus! {

/// No double release, owner side: once an owner withdrawal has succeeded,
/// any later attempt on the resulting campaign fails with
/// `AlreadyWithdrawnByOwner`, at any time from the first attempt on.
pub proof fn lemma_owner_withdraw_at_most_once(c: Campaign, caller: u64, now1: i64, now2: i64)
    requires
        owner_withdraw_err(c, caller, now1) is None,
        now1 <= now2,
    ensures
        owner_withdraw_err(owner_withdraw_post(c), caller, now2) == Some(
            CustomError::AlreadyWithdrawnByOwner,
        ),
{
}

/// No double release, contributor side, failed-campaign path: once a refund
/// has succeeded, any later refund attempt by the same contributor on the
/// resulting state fails with `AlreadyWithdrawn`, on either path.
pub proof fn lemma_refund_if_failed_at_most_once(
    c: Campaign,
    rec: ContributorRecord,
    caller: u64,
    now1: i64,
    now2: i64,
)
    requires
        refund_failed_err(c, rec, caller, now1) is None,
        now1 <= now2,
    ensures
        refund_failed_err(
            refund_post_campaign(c, rec.amount_donated),
            refund_post_record(rec),
            caller,
            now2,
        ) == Some(CustomError::AlreadyWithdrawn),
        refund_cancelled_err(
            refund_post_campaign(c, rec.amount_donated),
            refund_post_record(rec),
            caller,
        ) == Some(CustomError::CampaignNotCancelled),
{
}

/// No double release, contributor side, cancelled-campaign path: once a
/// refund has succeeded, any later refund attempt by the same contributor on
/// the resulting state fails with `AlreadyWithdrawn`, on either path.
pub proof fn lemma_refund_if_cancelled_at_most_once(
    c: Campaign,
    rec: ContributorRecord,
    caller: u64,
    now2: i64,
)
    requires
        refund_cancelled_err(c, rec, caller) is None,
    ensures
        refund_cancelled_err(
            refund_post_campaign(c, rec.amount_donated),
            refund_post_record(rec),
            caller,
        ) == Some(CustomError::AlreadyWithdrawn),
        refund_failed_err(
            refund_post_campaign(c, rec.amount_donated),
            refund_post_record(rec),
            caller,
            now2,
        ) == Some(CustomError::CampaignCancelled),
{
}

/// A later donation reopens refund eligibility: the post-state of any
/// successful donation has the record's `withdrawn` latch open, whatever it
/// was before.
pub proof fn lemma_donation_reopens_refund(rec: ContributorRecord, amount: u64)
    ensures
        donate_post_record(rec, amount).withdrawn == false,
{
}

/// Mutual exclusion, one direction: an owner withdrawal never succeeds on a
/// cancelled campaign — the owner is told `CampaignCancelled`, anyone else
/// `Unauthorized`.
pub proof fn lemma_cancelled_blocks_owner_withdraw(c: Campaign, caller: u64, now: i64)
    requires
        c.is_cancelled,
    ensures
        owner_withdraw_err(c, caller, now) is Some,
        caller == c.owner ==> owner_withdraw_err(c, caller, now) == Some(
            CustomError::CampaignCancelled,
        ),
{
}

/// Mutual exclusion, the other direction: once an owner withdrawal has
/// succeeded, no later cancellation can succeed — its deadline has passed,
/// so the owner is told `CampaignEnded`, anyone else `Unauthorized`.
pub proof fn lemma_owner_withdraw_blocks_cancel(c: Campaign, caller: u64, now1: i64, now2: i64)
    requires
        owner_withdraw_err(c, caller, now1) is None,
        now1 <= now2,
    ensures
        forall|caller2: u64| cancel_err(owner_withdraw_post(c), caller2, now2) is Some,
        cancel_err(owner_withdraw_post(c), caller, now2) == Some(CustomError::CampaignEnded),
{
}

/// Mutual exclusion, refund side: while a campaign is not cancelled, has
/// not reached its goal, and has not expired (its deadline, if any, lies
/// ahead), neither refund path can succeed for anyone.
pub proof fn lemma_running_campaign_blocks_refund(
    c: Campaign,
    rec: ContributorRecord,
    caller: u64,
    now: i64,
)
    requires
        !c.is_cancelled,
        c.total_amount_donated < c.goal,
        c.deadline matches Some(d) ==> now < d,
    ensures
        refund_failed_err(c, rec, caller, now) is Some,
        refund_cancelled_err(c, rec, caller) is Some,
        caller == rec.contributor ==> refund_failed_err(c, rec, caller, now) == Some(
            CustomError::CampaignStillActive,
        ),
        caller == rec.contributor ==> refund_cancelled_err(c, rec, caller) == Some(
            CustomError::CampaignNotCancelled,
        ),
{
}

/// Deadline gating: donations and cancellation die with `CampaignEnded`
/// once the deadline is reached, and owner withdrawal and failed-campaign
/// refunds die with `CampaignStillActive` before it. Each claim is guarded
/// by the checks that come earlier in that operation's fixed order: a
/// cancelled campaign, for instance, reports `CampaignCancelled` ahead of
/// any deadline complaint.
pub proof fn lemma_deadline_gating(
    c: Campaign,
    rec: ContributorRecord,
    caller: u64,
    amount: u64,
    d: i64,
    now: i64,
)
    requires
        c.deadline == Some(d),
    ensures
        !c.is_cancelled && now >= d ==> donate_err(c, rec, amount, now) == Some(
            CustomError::CampaignEnded,
        ),
        caller == c.owner && !c.is_cancelled && now >= d ==> cancel_err(c, caller, now) == Some(
            CustomError::CampaignEnded,
        ),
        caller == c.owner && !c.is_cancelled && now < d ==> owner_withdraw_err(c, caller, now)
            == Some(CustomError::CampaignStillActive),
        caller == rec.contributor && !c.is_cancelled && now < d ==> refund_failed_err(
            c,
            rec,
            caller,
            now,
        ) == Some(CustomError::CampaignStillActive),
{
}

/// Cancellation is idempotent-to-fail: after a successful cancellation, a
/// second attempt fails with `CampaignAlreadyCancelled` rather than
/// no-opping, at any time and by any caller the owner may be.
pub proof fn lemma_cancel_idempotent_to_fail(c: Campaign, caller: u64, now1: i64, now2: i64)
    requires
        cancel_err(c, caller, now1) is None,
    ensures
        cancel_err(cancel_post(c), caller, now2) == Some(CustomError::CampaignAlreadyCancelled),
{
}

} // verus!
