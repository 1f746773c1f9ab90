//! Donations and their bounded treasury withdrawal. Donated funds sit beside
//! the index machinery: they are earmarked for future distribution but never
//! folded into the reward index, so drawing them back out has no effect on
//! any position's settlement.

use vstd::prelude::*;

use crate::errors::StakeError;
use crate::state::PoolState;

verus! {

/// The exact outcome of recording a donation of `amount` units: the earmarked
/// balance grows, nothing else moves.
pub open spec fn spec_record_donation(pool: PoolState, amount: u64) -> Result<
    PoolState,
    StakeError,
> {
    if amount == 0 {
        Err(StakeError::ZeroAmount)
    } else if pool.undistributed_donations + amount > u64::MAX {
        Err(StakeError::ArithmeticOverflow)
    } else {
        Ok(PoolState {
            undistributed_donations: (pool.undistributed_donations + amount) as u64,
            ..pool
        })
    }
}

/// The exact outcome of a treasury withdrawal of `amount` units: an overdraw
/// — asking for more than the donations not yet distributed — fails closed,
/// otherwise the earmarked balance shrinks and nothing else moves.
pub open spec fn spec_draw_donation(pool: PoolState, amount: u64) -> Result<
    PoolState,
    StakeError,
> {
    if amount == 0 {
        Err(StakeError::ZeroAmount)
    } else if amount > pool.undistributed_donations {
        Err(StakeError::InsufficientFunds)
    } else {
        Ok(PoolState {
            undistributed_donations: (pool.undistributed_donations - amount) as u64,
            ..pool
        })
    }
}

impl PoolState {
    /// Records a donation of `amount` units, exactly as
    /// `spec_record_donation` describes; on any failure the pool is
    /// untouched. The indices and both totals never move here.
    pub fn record_donation(&mut self, amount: u64) -> (r: Result<(), StakeError>)
        ensures
            match spec_record_donation(*old(self), amount) {
                Ok(pool) => r == Ok::<(), StakeError>(()) && *final(self) == pool,
                Err(e) => r == Err::<(), StakeError>(e) && *final(self) == *old(self),
            },
            *final(self) == (PoolState {
                undistributed_donations: final(self).undistributed_donations,
                ..*old(self)
            }),
    {
        if amount == 0 {
            return Err(StakeError::ZeroAmount);
        }
        match self.undistributed_donations.checked_add(amount) {
            Some(v) => {
                self.undistributed_donations = v;
                Ok(())
            },
            None => Err(StakeError::ArithmeticOverflow),
        }
    }

    /// Withdraws `amount` units of previously donated, not yet distributed
    /// funds, exactly as `spec_draw_donation` describes: an overdraw fails
    /// with `InsufficientFunds` and leaves every balance unchanged. The
    /// indices and both totals never move here.
    pub fn draw_donation(&mut self, amount: u64) -> (r: Result<(), StakeError>)
        ensures
            match spec_draw_donation(*old(self), amount) {
                Ok(pool) => r == Ok::<(), StakeError>(()) && *final(self) == pool,
                Err(e) => r == Err::<(), StakeError>(e) && *final(self) == *old(self),
            },
            *final(self) == (PoolState {
                undistributed_donations: final(self).undistributed_donations,
                ..*old(self)
            }),
    {
        if amount == 0 {
            return Err(StakeError::ZeroAmount);
        }
        if amount > self.undistributed_donations {
            return Err(StakeError::InsufficientFunds);
        }
        self.undistributed_donations = self.undistributed_donations - amount;
        Ok(())
    }
}

} // verus!
