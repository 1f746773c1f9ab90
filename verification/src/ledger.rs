//! The global pool ledger: applying reward and burn events to the pool's
//! accumulators. Each event is O(1) — it advances an index by the event's
//! per-unit effect instead of touching any position.

use vstd::prelude::*;

use crate::errors::StakeError;
use crate::math::index_gain;
use crate::math::index_increment;
use crate::state::PoolState;

verus! {

/// The exact outcome of distributing `amount` reward units to `pool`.
///
/// A reward arriving while nobody is staked is absorbed into `total_staked`
/// with no index change — there are no stakers to attribute it to, and the
/// caller has already transferred the funds, so this is a defined absorption,
/// not an error. Otherwise the reward index grows by the per-unit gain
/// measured against the pre-distribution total, so that existing stakers
/// capture exactly the share proportional to their stake at the moment the
/// reward arrived, and only then does the total grow.
pub open spec fn spec_distribute(pool: PoolState, amount: u64) -> Result<PoolState, StakeError> {
    if amount == 0 {
        Err(StakeError::ZeroAmount)
    } else if pool.total_staked == 0 {
        Ok(PoolState { total_staked: amount, ..pool })
    } else {
        let gain = index_gain(amount as int, pool.total_staked as int);
        if pool.reward_index + gain > u128::MAX || pool.total_staked + amount > u64::MAX {
            Err(StakeError::ArithmeticOverflow)
        } else {
            Ok(PoolState {
                reward_index: (pool.reward_index + gain) as u128,
                total_staked: (pool.total_staked + amount) as u64,
                ..pool
            })
        }
    }
}

/// The exact outcome of burning `amount` units against `pool`.
///
/// More cannot be burned than the pool holds. A burn arriving while no
/// nominal principal is recorded is absorbed: the staked total shrinks and no
/// index moves. Otherwise the burn index grows by the per-unit loss measured
/// against the recorded user principal — not against `total_staked`, because
/// the loss is realized per position against each position's nominal
/// principal at its next settlement — and the staked total shrinks.
pub open spec fn spec_apply_burn(pool: PoolState, amount: u64) -> Result<PoolState, StakeError> {
    if amount == 0 {
        Err(StakeError::ZeroAmount)
    } else if amount > pool.total_staked {
        Err(StakeError::InsufficientFunds)
    } else if pool.total_user_principal == 0 {
        Ok(PoolState { total_staked: (pool.total_staked - amount) as u64, ..pool })
    } else {
        let gain = index_gain(amount as int, pool.total_user_principal as int);
        if pool.burn_index + gain > u128::MAX {
            Err(StakeError::ArithmeticOverflow)
        } else {
            Ok(PoolState {
                burn_index: (pool.burn_index + gain) as u128,
                total_staked: (pool.total_staked - amount) as u64,
                ..pool
            })
        }
    }
}

impl PoolState {
    /// Applies a reward distribution of `amount` units, exactly as
    /// `spec_distribute` describes: on success the reward index has grown by
    /// `amount * SCALE / total_staked` (floored, measured pre-distribution)
    /// and the staked total by `amount`; on any failure the pool is
    /// untouched. The indices never decrease and no other field moves.
    pub fn distribute_reward(&mut self, amount: u64) -> (r: Result<(), StakeError>)
        ensures
            match spec_distribute(*old(self), amount) {
                Ok(pool) => r == Ok::<(), StakeError>(()) && *final(self) == pool,
                Err(e) => r == Err::<(), StakeError>(e) && *final(self) == *old(self),
            },
            final(self).reward_index >= old(self).reward_index,
            final(self).burn_index == old(self).burn_index,
            final(self).total_user_principal == old(self).total_user_principal,
            final(self).undistributed_donations == old(self).undistributed_donations,
            final(self).authority == old(self).authority,
    {
        if amount == 0 {
            return Err(StakeError::ZeroAmount);
        }
        if self.total_staked == 0 {
            self.total_staked = amount;
            return Ok(());
        }
        let gain: u128 = index_increment(amount, self.total_staked);
        let new_index: u128 = match self.reward_index.checked_add(gain) {
            Some(v) => v,
            None => {
                return Err(StakeError::ArithmeticOverflow);
            },
        };
        let new_total: u64 = match self.total_staked.checked_add(amount) {
            Some(v) => v,
            None => {
                return Err(StakeError::ArithmeticOverflow);
            },
        };
        self.reward_index = new_index;
        self.total_staked = new_total;
        Ok(())
    }

    /// Applies a burn of `amount` units, exactly as `spec_apply_burn`
    /// describes: on success the burn index has grown by
    /// `amount * SCALE / total_user_principal` (floored) and the staked total
    /// has shrunk by `amount`; on any failure the pool is untouched. The
    /// indices never decrease, and the recorded user principal never moves
    /// here — each position absorbs its share of the loss at its next
    /// settlement.
    pub fn apply_burn(&mut self, amount: u64) -> (r: Result<(), StakeError>)
        ensures
            match spec_apply_burn(*old(self), amount) {
                Ok(pool) => r == Ok::<(), StakeError>(()) && *final(self) == pool,
                Err(e) => r == Err::<(), StakeError>(e) && *final(self) == *old(self),
            },
            final(self).reward_index == old(self).reward_index,
            final(self).burn_index >= old(self).burn_index,
            final(self).total_user_principal == old(self).total_user_principal,
            final(self).undistributed_donations == old(self).undistributed_donations,
            final(self).authority == old(self).authority,
    {
        if amount == 0 {
            return Err(StakeError::ZeroAmount);
        }
        if amount > self.total_staked {
            return Err(StakeError::InsufficientFunds);
        }
        if self.total_user_principal == 0 {
            self.total_staked = self.total_staked - amount;
            return Ok(());
        }
        let gain: u128 = index_increment(amount, self.total_user_principal);
        let new_index: u128 = match self.burn_index.checked_add(gain) {
            Some(v) => v,
            None => {
                return Err(StakeError::ArithmeticOverflow);
            },
        };
        self.burn_index = new_index;
        self.total_staked = self.total_staked - amount;
        Ok(())
    }
}

} // verus!
