//! The contributor ledger: per-(campaign, contributor) cumulative donation
//! and refund-eligibility state.

use vstd::prelude::*;

verus! {

/// One contributor's standing in one campaign.
///
/// `amount_donated` is cumulative across every donation this contributor
/// made to this campaign and never decreases; a refund pays it out in full
/// and closes the `withdrawn` latch instead of reducing it. A later donation
/// reopens the latch: the flag tracks whether the *current* cumulative total
/// has been refunded, not a historical fact.
#[verifier::ext_equal]
#[derive(Clone, Copy, Debug)]
pub struct ContributorRecord {
    /// Key of the campaign this record belongs to; immutable.
    pub campaign: u64,
    /// Identity of the contributor; immutable.
    pub contributor: u64,
    /// Cumulative amount donated, never decremented.
    pub amount_donated: u64,
    /// True once the current cumulative amount has been refunded.
    pub withdrawn: bool,
}

/// The record a contributor's first donation creates: keyed to the campaign
/// and the contributor, with nothing donated and the refund latch open.
pub open spec fn fresh_record(campaign: u64, contributor: u64) -> ContributorRecord {
    ContributorRecord { campaign, contributor, amount_donated: 0, withdrawn: false }
}

impl ContributorRecord {
    /// A fresh record for a contributor who has not donated yet.
    pub fn new(campaign: u64, contributor: u64) -> (rec: ContributorRecord)
        ensures
            rec == fresh_record(campaign, contributor),
            rec.campaign == campaign,
            rec.contributor == contributor,
            rec.amount_donated == 0,
            rec.withdrawn == false,
    {
        ContributorRecord { campaign, contributor, amount_donated: 0, withdrawn: false }
    }
}

} // verus!
