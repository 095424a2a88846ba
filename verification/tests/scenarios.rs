//! End-to-end scenarios on single campaigns: a failed campaign, a funded
//! one, a cancelled one, the refund-then-donate-again quirk, and overflow.

use crowdfund::campaign::cancel_campaign;
use crowdfund::campaign::create_campaign;
use crowdfund::campaign::withdraw_by_owner;
use crowdfund::campaign::Campaign;
use crowdfund::contributor::ContributorRecord;
use crowdfund::donation::donate_to_campaign;
use crowdfund::errors::CustomError;
use crowdfund::refund::withdraw_if_cancelled;
use crowdfund::refund::withdraw_if_failed;

const OWNER: u64 = 7;
const ALICE: u64 = 42;
const T: i64 = 1_000;

fn sample_campaign(goal: u64, deadline: Option<i64>) -> Campaign {
    create_campaign("relief".to_string(), "aid fund".to_string(), OWNER, goal, deadline, 1)
}

/// Goal missed at the deadline: the owner gets nothing, the contributor
/// gets their cumulative donation back.
#[test]
fn failed_campaign_refunds_contributor() {
    let mut c = sample_campaign(100, Some(T));
    let mut rec = ContributorRecord::new(1, ALICE);
    assert_eq!(donate_to_campaign(&mut c, &mut rec, ALICE, 60, T - 1), Ok(()));
    assert_eq!(
        withdraw_by_owner(&mut c, OWNER, T + 1),
        Err(CustomError::CampaignGoalNotReached)
    );
    assert_eq!(withdraw_if_failed(&mut c, &mut rec, ALICE, T + 1), Ok(60));
    assert!(rec.withdrawn);
    assert_eq!(c.treasury.balance, 0);
}

/// Goal exceeded at the deadline: the owner collects the whole pool and the
/// treasury empties.
#[test]
fn funded_campaign_pays_owner() {
    let mut c = sample_campaign(100, Some(T));
    let mut rec = ContributorRecord::new(1, ALICE);
    assert_eq!(donate_to_campaign(&mut c, &mut rec, ALICE, 150, T - 1), Ok(()));
    assert_eq!(withdraw_by_owner(&mut c, OWNER, T + 1), Ok(150));
    assert!(c.withdrawn_by_owner);
    assert_eq!(c.treasury.balance, 0);
    assert_eq!(c.total_amount_donated, 150);
}

/// Cancellation blocks further donations and opens the cancelled-campaign
/// refund path for earlier donors.
#[test]
fn cancelled_campaign_blocks_donations_and_refunds_donors() {
    let mut c = sample_campaign(100, Some(T));
    let mut rec = ContributorRecord::new(1, ALICE);
    assert_eq!(donate_to_campaign(&mut c, &mut rec, ALICE, 40, T - 10), Ok(()));
    assert_eq!(cancel_campaign(&mut c, OWNER, T - 5), Ok(()));
    assert_eq!(
        donate_to_campaign(&mut c, &mut rec, ALICE, 10, T - 4),
        Err(CustomError::CampaignCancelled)
    );
    assert_eq!(withdraw_if_cancelled(&mut c, &mut rec, ALICE), Ok(40));
    assert!(rec.withdrawn);
}

/// The refund-eligibility quirk: a new donation reopens the refund latch
/// for the contributor's *entire* cumulative amount, not just the
/// increment, so the second refund pays out already-refunded funds. The
/// treasury can cover it here only because the host seeded it with an
/// account-keeping deposit.
#[test]
fn new_donation_reopens_refund_of_full_cumulative_amount() {
    let mut c = sample_campaign(100, Some(T));
    assert_eq!(c.treasury.credit(10), Ok(()));
    let mut rec = ContributorRecord::new(1, ALICE);
    assert_eq!(donate_to_campaign(&mut c, &mut rec, ALICE, 10, T - 10), Ok(()));
    assert_eq!(withdraw_if_failed(&mut c, &mut rec, ALICE, T + 1), Ok(10));
    assert!(rec.withdrawn);
    assert_eq!(donate_to_campaign(&mut c, &mut rec, ALICE, 5, T - 10), Ok(()));
    assert!(!rec.withdrawn);
    assert_eq!(rec.amount_donated, 15);
    assert_eq!(withdraw_if_failed(&mut c, &mut rec, ALICE, T + 2), Ok(15));
    assert_eq!(c.treasury.balance, 0);
}

/// A further consequence of the quirk: an early refund can drain the
/// treasury below the historical total, and if the goal is nevertheless met
/// later, the owner's withdrawal of the full total fails on the treasury
/// debit — loudly, with nothing changed.
#[test]
fn owner_withdraw_fails_when_refunds_drained_the_treasury() {
    let mut c = sample_campaign(100, Some(T));
    let mut rec = ContributorRecord::new(1, ALICE);
    assert_eq!(donate_to_campaign(&mut c, &mut rec, ALICE, 10, T - 10), Ok(()));
    assert_eq!(withdraw_if_failed(&mut c, &mut rec, ALICE, T + 1), Ok(10));
    assert_eq!(donate_to_campaign(&mut c, &mut rec, ALICE, 95, T - 9), Ok(()));
    assert_eq!(c.total_amount_donated, 105);
    assert_eq!(c.treasury.balance, 95);
    assert_eq!(withdraw_by_owner(&mut c, OWNER, T + 2), Err(CustomError::Overflow));
    assert!(!c.withdrawn_by_owner);
    assert_eq!(c.treasury.balance, 95);
}

/// A donation that would push the campaign total past `u64::MAX` fails with
/// `Overflow` and leaves every entity untouched.
#[test]
fn overflowing_total_is_rejected_without_partial_state() {
    let mut c = sample_campaign(100, Some(T));
    let mut rec = ContributorRecord::new(1, ALICE);
    assert_eq!(donate_to_campaign(&mut c, &mut rec, ALICE, u64::MAX, T - 1), Ok(()));
    assert_eq!(
        donate_to_campaign(&mut c, &mut rec, ALICE, 1, T - 1),
        Err(CustomError::Overflow)
    );
    assert_eq!(c.total_amount_donated, u64::MAX);
    assert_eq!(c.treasury.balance, u64::MAX);
    assert_eq!(rec.amount_donated, u64::MAX);
    assert!(!rec.withdrawn);
    assert!(!c.is_cancelled);
    assert!(!c.withdrawn_by_owner);
}

/// A donation the treasury itself cannot absorb — its balance sits above
/// the campaign's own bookkeeping because the host seeded it — also fails
/// with `Overflow`, untouched.
#[test]
fn overflowing_treasury_is_rejected_without_partial_state() {
    let mut c = sample_campaign(100, Some(T));
    assert_eq!(c.treasury.credit(u64::MAX), Ok(()));
    let mut rec = ContributorRecord::new(1, ALICE);
    assert_eq!(
        donate_to_campaign(&mut c, &mut rec, ALICE, 1, T - 1),
        Err(CustomError::Overflow)
    );
    assert_eq!(c.total_amount_donated, 0);
    assert_eq!(c.treasury.balance, u64::MAX);
    assert_eq!(rec.amount_donated, 0);
}
