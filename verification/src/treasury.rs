//! The value-holding account paired one-to-one with a campaign.

use crate::errors::CustomError;
use vstd::prelude::*;

verus! {

/// The pooled fund balance of one campaign.
///
/// The treasury is an opaque value holder: it knows nothing of goals,
/// deadlines or contributors. It only accepts credits and debits, each
/// atomic, and refuses any movement whose resulting balance would overflow
/// (credit) or go negative (debit). The host may also fund it directly (for
/// example with an account-keeping deposit at creation), so its balance may
/// exceed what the campaign's own bookkeeping accounts for.
#[derive(Clone, Copy, Debug)]
pub struct Treasury {
    pub balance: u64,
}

impl Treasury {
    /// A fresh, empty treasury.
    pub fn new() -> (t: Treasury)
        ensures
            t.balance == 0,
    {
        Treasury { balance: 0 }
    }

    /// The current balance.
    pub fn balance(&self) -> (b: u64)
        ensures
            b == self.balance,
    {
        self.balance
    }

    /// Add `amount` to the balance; fails with `Overflow` (balance
    /// unchanged) if the result would not fit in `u64`.
    pub fn credit(&mut self, amount: u64) -> (r: Result<(), CustomError>)
        ensures
            old(self).balance + amount <= u64::MAX ==> r is Ok
                && final(self).balance == old(self).balance + amount,
            old(self).balance + amount > u64::MAX ==> r == Err::<(), CustomError>(
                CustomError::Overflow,
            ) && final(self).balance == old(self).balance,
    {
        match self.balance.checked_add(amount) {
            Some(b) => {
                self.balance = b;
                Ok(())
            },
            None => Err(CustomError::Overflow),
        }
    }

    /// Remove `amount` from the balance; fails with `Overflow` (balance
    /// unchanged) if the balance would go negative.
    pub fn debit(&mut self, amount: u64) -> (r: Result<(), CustomError>)
        ensures
            amount <= old(self).balance ==> r is Ok
                && final(self).balance == old(self).balance - amount,
            amount > old(self).balance ==> r == Err::<(), CustomError>(
                CustomError::Overflow,
            ) && final(self).balance == old(self).balance,
    {
        match self.balance.checked_sub(amount) {
            Some(b) => {
                self.balance = b;
                Ok(())
            },
            None => Err(CustomError::Overflow),
        }
    }
}

} // verus!
