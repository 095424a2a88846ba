//! The campaign-plus-records ledger: lazy record creation, lookup by
//! contributor, and conservation of the historical total.

use crowdfund::errors::CustomError;
use crowdfund::ledger::CampaignLedger;

const KEY: u64 = 9;
const OWNER: u64 = 7;
const ALICE: u64 = 42;
const BOB: u64 = 43;
const T: i64 = 1_000;

fn sample_ledger(goal: u64) -> CampaignLedger {
    CampaignLedger::create(
        KEY,
        "town well".to_string(),
        "dig a well".to_string(),
        OWNER,
        goal,
        Some(T),
        1,
    )
}

fn sum_of_records(l: &CampaignLedger) -> u64 {
    l.records.iter().map(|r| r.amount_donated).sum()
}

/// Conservation: after every operation, the campaign's historical total
/// equals the sum of cumulative donations across its records.
#[test]
fn total_equals_sum_of_records_at_all_times() {
    let mut l = sample_ledger(100);
    assert_eq!(l.campaign.total_amount_donated, sum_of_records(&l));
    assert_eq!(l.donate(ALICE, 30, T - 10), Ok(()));
    assert_eq!(l.campaign.total_amount_donated, sum_of_records(&l));
    assert_eq!(l.donate(BOB, 25, T - 9), Ok(()));
    assert_eq!(l.campaign.total_amount_donated, sum_of_records(&l));
    assert_eq!(l.donate(ALICE, 5, T - 8), Ok(()));
    assert_eq!(l.campaign.total_amount_donated, 60);
    assert_eq!(l.campaign.total_amount_donated, sum_of_records(&l));
    assert_eq!(l.refund_if_failed(ALICE, T + 1), Ok(35));
    // Refunds drain the treasury, not the historical ledgers.
    assert_eq!(l.campaign.total_amount_donated, 60);
    assert_eq!(l.campaign.total_amount_donated, sum_of_records(&l));
    assert_eq!(l.campaign.treasury.balance, 25);
}

#[test]
fn first_donation_creates_one_record_per_contributor() {
    let mut l = sample_ledger(100);
    assert_eq!(l.records.len(), 0);
    assert_eq!(l.donate(ALICE, 30, T - 10), Ok(()));
    assert_eq!(l.records.len(), 1);
    assert_eq!(l.donate(ALICE, 30, T - 10), Ok(()));
    assert_eq!(l.records.len(), 1);
    assert_eq!(l.donate(BOB, 1, T - 10), Ok(()));
    assert_eq!(l.records.len(), 2);
    assert_eq!(l.records[0].campaign, KEY);
    assert_eq!(l.records[0].contributor, ALICE);
    assert_eq!(l.records[0].amount_donated, 60);
    assert_eq!(l.records[1].campaign, KEY);
    assert_eq!(l.records[1].contributor, BOB);
    assert_eq!(l.records[1].amount_donated, 1);
}

#[test]
fn failed_donation_leaves_no_record_behind() {
    let mut l = sample_ledger(100);
    assert_eq!(l.donate(ALICE, 30, T + 1), Err(CustomError::CampaignEnded));
    assert_eq!(l.records.len(), 0);
    assert_eq!(l.campaign.total_amount_donated, 0);
}

#[test]
fn refund_without_any_donation_reports_nothing_to_withdraw() {
    let mut l = sample_ledger(100);
    assert_eq!(
        l.refund_if_failed(ALICE, T + 1),
        Err(CustomError::NothingToWithdraw)
    );
    assert_eq!(l.cancel(OWNER, T - 1), Ok(()));
    assert_eq!(
        l.refund_if_cancelled(ALICE),
        Err(CustomError::NothingToWithdraw)
    );
}

#[test]
fn cancelled_ledger_refunds_each_donor_once() {
    let mut l = sample_ledger(100);
    assert_eq!(l.donate(ALICE, 30, T - 10), Ok(()));
    assert_eq!(l.donate(BOB, 20, T - 10), Ok(()));
    assert_eq!(l.cancel(OWNER, T - 5), Ok(()));
    assert_eq!(l.donate(ALICE, 1, T - 4), Err(CustomError::CampaignCancelled));
    assert_eq!(l.refund_if_cancelled(ALICE), Ok(30));
    assert_eq!(l.refund_if_cancelled(ALICE), Err(CustomError::AlreadyWithdrawn));
    assert_eq!(l.refund_if_cancelled(BOB), Ok(20));
    assert_eq!(l.campaign.treasury.balance, 0);
    assert_eq!(l.campaign.total_amount_donated, 50);
}

#[test]
fn funded_ledger_pays_owner_exactly_once() {
    let mut l = sample_ledger(50);
    assert_eq!(l.donate(ALICE, 30, T - 10), Ok(()));
    assert_eq!(l.donate(BOB, 20, T - 10), Ok(()));
    assert_eq!(l.owner_withdraw(OWNER, T - 1), Err(CustomError::CampaignStillActive));
    assert_eq!(l.owner_withdraw(OWNER, T + 1), Ok(50));
    assert_eq!(l.campaign.treasury.balance, 0);
    assert_eq!(
        l.owner_withdraw(OWNER, T + 2),
        Err(CustomError::AlreadyWithdrawnByOwner)
    );
    assert_eq!(
        l.refund_if_failed(ALICE, T + 2),
        Err(CustomError::CampaignGoalReached)
    );
}
