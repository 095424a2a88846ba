//! One campaign together with all of its contributor records, looked up by
//! contributor identity. This is the layer that owns the conservation
//! invariant: the campaign's historical total always equals the sum of the
//! cumulative donations across its records.

use crate::campaign::cancel_campaign;
use crate::campaign::cancel_err;
use crate::campaign::cancel_post;
use crate::campaign::create_campaign;
use crate::campaign::owner_withdraw_err;
use crate::campaign::owner_withdraw_post;
use crate::campaign::withdraw_by_owner;
use crate::campaign::Campaign;
use crate::contributor::fresh_record;
use crate::contributor::ContributorRecord;
use crate::donation::donate_err;
use crate::donation::donate_post_campaign;
use crate::donation::donate_post_record;
use crate::donation::donate_to_campaign;
use crate::errors::CustomError;
use crate::refund::refund_cancelled_err;
use crate::refund::refund_failed_err;
use crate::refund::refund_post_campaign;
use crate::refund::refund_post_record;
use crate::refund::withdraw_if_cancelled;
use crate::refund::withdraw_if_failed;
use vstd::prelude::*;

verus! {

/// Sum of the cumulative donations over a sequence of contributor records.
pub open spec fn sum_donated(s: Seq<ContributorRecord>) -> int
    decreases s.len(),
{
    if s.len() == 0 {
        0
    } else {
        sum_donated(s.drop_last()) + s.last().amount_donated
    }
}

/// Appending a record grows the sum by that record's cumulative amount.
pub proof fn lemma_sum_donated_push(s: Seq<ContributorRecord>, rec: ContributorRecord)
    ensures
        sum_donated(s.push(rec)) == sum_donated(s) + rec.amount_donated,
{
    assert(s.push(rec).drop_last() =~= s);
}

/// Replacing the record at `i` moves the sum by the difference of the two
/// cumulative amounts.
pub proof fn lemma_sum_donated_update(s: Seq<ContributorRecord>, i: int, rec: ContributorRecord)
    requires
        0 <= i < s.len(),
    ensures
        sum_donated(s.update(i, rec)) == sum_donated(s) - s[i].amount_donated
            + rec.amount_donated,
    decreases s.len(),
{
    if i == s.len() - 1 {
        assert(s.update(i, rec).drop_last() =~= s.drop_last());
    } else {
        assert(s.update(i, rec).drop_last() =~= s.drop_last().update(i, rec));
        lemma_sum_donated_update(s.drop_last(), i, rec);
    }
}

/// One campaign, its treasury, and every contributor record keyed to it.
///
/// The host addresses a record by the composite key (campaign key,
/// contributor identity); within one ledger the campaign key is fixed, so
/// records are found by contributor identity alone, and each contributor has
/// at most one record, created lazily on their first donation.
#[verifier::ext_equal]
#[derive(Clone, Debug)]
pub struct CampaignLedger {
    /// Host-assigned key of this campaign; every record points back at it.
    pub key: u64,
    pub campaign: Campaign,
    pub records: Vec<ContributorRecord>,
}

impl CampaignLedger {
    /// Well-formedness: conservation (the campaign's historical total equals
    /// the sum of cumulative donations across its records), every record
    /// points back at this campaign, and no contributor has two records.
    pub open spec fn wf(self) -> bool {
        &&& self.campaign.total_amount_donated == sum_donated(self.records@)
        &&& forall|i: int|
            0 <= i < self.records@.len() ==> (#[trigger] self.records@[i]).campaign == self.key
        &&& forall|i: int, j: int|
            0 <= i < j < self.records@.len() ==> (#[trigger] self.records@[i]).contributor != (
            #[trigger] self.records@[j]).contributor
    }

    /// True when `contributor` already has a record in this ledger.
    pub open spec fn spec_has_record(self, contributor: u64) -> bool {
        exists|i: int|
            0 <= i < self.records@.len() && (#[trigger] self.records@[i]).contributor
                == contributor
    }

    /// The index of `contributor`'s record; meaningful only when
    /// `spec_has_record(contributor)` holds.
    pub open spec fn record_index(self, contributor: u64) -> int {
        choose|i: int|
            0 <= i < self.records@.len() && (#[trigger] self.records@[i]).contributor
                == contributor
    }

    /// `contributor`'s record, or the fresh record their first donation
    /// would create if they have none yet.
    pub open spec fn record_view(self, contributor: u64) -> ContributorRecord {
        if self.spec_has_record(contributor) {
            self.records@[self.record_index(contributor)]
        } else {
            fresh_record(self.key, contributor)
        }
    }

    /// In a well-formed ledger the record at any index is *the* record of
    /// its contributor: lookup by that contributor's identity lands on it.
    pub proof fn lemma_index_is_record_index(self, i: int)
        requires
            self.wf(),
            0 <= i < self.records@.len(),
        ensures
            self.spec_has_record(self.records@[i].contributor),
            self.record_index(self.records@[i].contributor) == i,
            self.record_view(self.records@[i].contributor) == self.records@[i],
    {
        let c = self.records@[i].contributor;
        assert(self.spec_has_record(c));
        let j = self.record_index(c);
        if i < j {
            assert(self.records@[i].contributor != self.records@[j].contributor);
        }
        if j < i {
            assert(self.records@[j].contributor != self.records@[i].contributor);
        }
    }

    /// Creates the ledger of a fresh campaign: no records yet, so
    /// conservation holds with both sides zero.
    pub fn create(
        key: u64,
        name: String,
        description: String,
        owner: u64,
        goal: u64,
        deadline: Option<i64>,
        created_at: i64,
    ) -> (l: CampaignLedger)
        requires
            goal >= 1,
        ensures
            l.wf(),
            l.key == key,
            l.records@ == Seq::<ContributorRecord>::empty(),
            l.campaign.name == name,
            l.campaign.description == description,
            l.campaign.owner == owner,
            l.campaign.goal == goal,
            l.campaign.deadline == deadline,
            l.campaign.total_amount_donated == 0,
            l.campaign.withdrawn_by_owner == false,
            l.campaign.treasury.balance == 0,
            l.campaign.created_at == created_at,
            l.campaign.is_cancelled == false,
    {
        let campaign = create_campaign(name, description, owner, goal, deadline, created_at);
        let l = CampaignLedger { key, campaign, records: Vec::new() };
        proof {
            assert(l.records@ =~= Seq::<ContributorRecord>::empty());
        }
        l
    }

    /// Finds the index of `contributor`'s record, if they have one.
    fn find_record(&self, contributor: u64) -> (idx: Option<usize>)
        requires
            self.wf(),
        ensures
            match idx {
                Some(i) => self.spec_has_record(contributor) && i == self.record_index(
                    contributor,
                ) && i < self.records@.len() && self.records@[i as int].contributor == contributor,
                None => !self.spec_has_record(contributor),
            },
    {
        let n = self.records.len();
        let mut i: usize = 0;
        while i < n
            invariant
                n == self.records@.len(),
                i <= n,
                self.wf(),
                forall|j: int| 0 <= j < i ==> (#[trigger] self.records@[j]).contributor
                    != contributor,
            decreases n - i,
        {
            if self.records[i].contributor == contributor {
                proof {
                    self.lemma_index_is_record_index(i as int);
                }
                return Some(i);
            }
            i += 1;
        }
        None
    }

    /// Records a donation by `contributor`, creating their record on first
    /// contact. Same gating and atomicity as `donate_to_campaign`; on
    /// failure the ledger is untouched, and in particular no fresh record is
    /// left behind.
    pub fn donate(&mut self, contributor: u64, amount: u64, now: i64) -> (r: Result<
        (),
        CustomError,
    >)
        requires
            old(self).wf(),
            amount >= 1,
        ensures
            final(self).wf(),
            final(self).key == old(self).key,
            donate_err(old(self).campaign, old(self).record_view(contributor), amount, now)
                matches Some(e) ==> r == Err::<(), CustomError>(e) && final(self).campaign == old(
                self,
            ).campaign && final(self).records@ == old(self).records@,
            donate_err(old(self).campaign, old(self).record_view(contributor), amount, now)
                is None ==> r is Ok && final(self).campaign == donate_post_campaign(
                old(self).campaign,
                amount,
            ) && (old(self).spec_has_record(contributor) ==> final(self).records@ == old(
                self,
            ).records@.update(
                old(self).record_index(contributor),
                donate_post_record(old(self).record_view(contributor), amount),
            )) && (!old(self).spec_has_record(contributor) ==> final(self).records@ == old(
                self,
            ).records@.push(donate_post_record(fresh_record(old(self).key, contributor), amount))),
    {
        match self.find_record(contributor) {
            Some(i) => {
                let mut rec = self.records[i];
                let r = donate_to_campaign(&mut self.campaign, &mut rec, contributor, amount, now);
                match r {
                    Ok(()) => {
                        self.records[i] = rec;
                        proof {
                            lemma_sum_donated_update(old(self).records@, i as int, rec);
                        }
                        Ok(())
                    },
                    Err(e) => Err(e),
                }
            },
            None => {
                let mut rec = ContributorRecord::new(self.key, contributor);
                let r = donate_to_campaign(&mut self.campaign, &mut rec, contributor, amount, now);
                match r {
                    Ok(()) => {
                        self.records.push(rec);
                        proof {
                            lemma_sum_donated_push(old(self).records@, rec);
                        }
                        Ok(())
                    },
                    Err(e) => Err(e),
                }
            },
        }
    }

    /// Cancels the campaign; records and treasury are untouched, so
    /// conservation is preserved unchanged.
    pub fn cancel(&mut self, caller: u64, now: i64) -> (r: Result<(), CustomError>)
        requires
            old(self).wf(),
        ensures
            final(self).wf(),
            final(self).key == old(self).key,
            final(self).records@ == old(self).records@,
            cancel_err(old(self).campaign, caller, now) is None ==> r is Ok && final(self).campaign == cancel_post(old(self).campaign),
            cancel_err(old(self).campaign, caller, now) matches Some(e) ==> r == Err::<
                (),
                CustomError,
            >(e) && final(self).campaign == old(self).campaign,
    {
        cancel_campaign(&mut self.campaign, caller, now)
    }

    /// Releases the pool to the owner; the historical total and the records
    /// are untouched, so conservation is preserved unchanged.
    pub fn owner_withdraw(&mut self, caller: u64, now: i64) -> (r: Result<u64, CustomError>)
        requires
            old(self).wf(),
        ensures
            final(self).wf(),
            final(self).key == old(self).key,
            final(self).records@ == old(self).records@,
            owner_withdraw_err(old(self).campaign, caller, now) is None ==> r == Ok::<
                u64,
                CustomError,
            >(old(self).campaign.total_amount_donated) && final(self).campaign
                == owner_withdraw_post(old(self).campaign),
            owner_withdraw_err(old(self).campaign, caller, now) matches Some(e) ==> r == Err::<
                u64,
                CustomError,
            >(e) && final(self).campaign == old(self).campaign,
    {
        withdraw_by_owner(&mut self.campaign, caller, now)
    }

    /// Refunds `caller` on the failed-campaign path. A contributor with no
    /// record has a zero cumulative donation, so the call reports the same
    /// error their empty record would.
    pub fn refund_if_failed(&mut self, caller: u64, now: i64) -> (r: Result<u64, CustomError>)
        requires
            old(self).wf(),
        ensures
            final(self).wf(),
            final(self).key == old(self).key,
            refund_failed_err(old(self).campaign, old(self).record_view(caller), caller, now)
                matches Some(e) ==> r == Err::<u64, CustomError>(e) && final(self).campaign == old(
                self,
            ).campaign && final(self).records@ == old(self).records@,
            refund_failed_err(old(self).campaign, old(self).record_view(caller), caller, now)
                is None ==> r == Ok::<u64, CustomError>(old(self).record_view(caller).amount_donated)
                && final(self).campaign == refund_post_campaign(
                old(self).campaign,
                old(self).record_view(caller).amount_donated,
            ) && final(self).records@ == old(self).records@.update(
                old(self).record_index(caller),
                refund_post_record(old(self).record_view(caller)),
            ),
    {
        match self.find_record(caller) {
            Some(i) => {
                let mut rec = self.records[i];
                let r = withdraw_if_failed(&mut self.campaign, &mut rec, caller, now);
                match r {
                    Ok(amount) => {
                        self.records[i] = rec;
                        proof {
                            lemma_sum_donated_update(old(self).records@, i as int, rec);
                        }
                        Ok(amount)
                    },
                    Err(e) => Err(e),
                }
            },
            None => {
                let mut rec = ContributorRecord::new(self.key, caller);
                let r = withdraw_if_failed(&mut self.campaign, &mut rec, caller, now);
                match r {
                    Ok(_) => {
                        // Unreachable: an empty record has nothing to
                        // withdraw, so the refund cannot have succeeded.
                        assert(false);
                        Err(CustomError::NothingToWithdraw)
                    },
                    Err(e) => Err(e),
                }
            },
        }
    }

    /// Refunds `caller` on the cancelled-campaign path. A contributor with
    /// no record has a zero cumulative donation, so the call reports the
    /// same error their empty record would.
    pub fn refund_if_cancelled(&mut self, caller: u64) -> (r: Result<u64, CustomError>)
        requires
            old(self).wf(),
        ensures
            final(self).wf(),
            final(self).key == old(self).key,
            refund_cancelled_err(old(self).campaign, old(self).record_view(caller), caller)
                matches Some(e) ==> r == Err::<u64, CustomError>(e) && final(self).campaign == old(
                self,
            ).campaign && final(self).records@ == old(self).records@,
            refund_cancelled_err(old(self).campaign, old(self).record_view(caller), caller)
                is None ==> r == Ok::<u64, CustomError>(old(self).record_view(caller).amount_donated)
                && final(self).campaign == refund_post_campaign(
                old(self).campaign,
                old(self).record_view(caller).amount_donated,
            ) && final(self).records@ == old(self).records@.update(
                old(self).record_index(caller),
                refund_post_record(old(self).record_view(caller)),
            ),
    {
        match self.find_record(caller) {
            Some(i) => {
                let mut rec = self.records[i];
                let r = withdraw_if_cancelled(&mut self.campaign, &mut rec, caller);
                match r {
                    Ok(amount) => {
                        self.records[i] = rec;
                        proof {
                            lemma_sum_donated_update(old(self).records@, i as int, rec);
                        }
                        Ok(amount)
                    },
                    Err(e) => Err(e),
                }
            },
            None => {
                let mut rec = ContributorRecord::new(self.key, caller);
                let r = withdraw_if_cancelled(&mut self.campaign, &mut rec, caller);
                match r {
                    Ok(_) => {
                        // Unreachable: an empty record has nothing to
                        // withdraw, so the refund cannot have succeeded.
                        assert(false);
                        Err(CustomError::NothingToWithdraw)
                    },
                    Err(e) => Err(e),
                }
            },
        }
    }
}

} // verus!
