//! The ledger's records: one `PoolState` per supported asset, one
//! `StakeEntry` per user per pool. Both are plain in-memory values; the
//! surrounding system owns storage, addressing and authority verification and
//! hands the records in by reference.

use vstd::prelude::*;

verus! {

/// The global ledger of one staking pool.
#[derive(Clone, Copy, Debug, PartialEq, Eq, Structural)]
pub struct PoolState {
    /// Identity of the administrative authority recognized for reward,
    /// burn and donation operations, as an opaque tag assigned by the
    /// surrounding system. The engine never interprets it.
    pub authority: u64,
    /// Sum of all principal plus undistributed accrued rewards currently held
    /// in the vault on behalf of stakers.
    pub total_staked: u64,
    /// Sum of the users' nominal deposited amounts. Tracked separately from
    /// `total_staked` because rewards and burns change the value of a
    /// position without changing its recorded principal until settlement.
    pub total_user_principal: u64,
    /// Cumulative per-unit reward since pool inception, fixed-point at scale
    /// `SCALE`. Never decreases.
    pub reward_index: u128,
    /// Cumulative per-unit loss since pool inception, fixed-point at scale
    /// `SCALE`. Never decreases.
    pub burn_index: u128,
    /// Funds earmarked for future distribution but not yet folded into
    /// `reward_index`; drawn down only by treasury withdrawal.
    pub undistributed_donations: u64,
}

/// One user's position in a pool. Created once per owner and pool, reused
/// across stake/unstake cycles, never destroyed: a position with zero
/// principal is dormant, not deleted.
#[derive(Clone, Copy, Debug, PartialEq, Eq, Structural)]
pub struct StakeEntry {
    /// Identity of the controlling user, as an opaque tag assigned by the
    /// surrounding system. Immutable after creation.
    pub owner: u64,
    /// The position's current value in asset units, inclusive of settled
    /// rewards and burns.
    pub principal: u64,
    /// The pool's reward index at this position's last settlement.
    pub reward_index_snapshot: u128,
    /// The pool's burn index at this position's last settlement.
    pub burn_index_snapshot: u128,
    /// Advisory timestamp, updated on every mutation.
    pub last_activity: i64,
}

impl StakeEntry {
    /// The structural invariant tying a position to its pool: the snapshots
    /// never run ahead of the pool's indices. Settlement establishes it anew
    /// and every index update preserves it, because the indices only grow.
    pub open spec fn synced_with(self, pool: PoolState) -> bool {
        &&& self.reward_index_snapshot <= pool.reward_index
        &&& self.burn_index_snapshot <= pool.burn_index
    }
}

impl PoolState {
    /// A freshly initialized pool: nothing staked, nothing deposited, both
    /// indices at zero, no donations outstanding.
    pub fn new(authority: u64) -> (pool: PoolState)
        ensures
            pool == (PoolState {
                authority,
                total_staked: 0,
                total_user_principal: 0,
                reward_index: 0,
                burn_index: 0,
                undistributed_donations: 0,
            }),
    {
        PoolState {
            authority,
            total_staked: 0,
            total_user_principal: 0,
            reward_index: 0,
            burn_index: 0,
            undistributed_donations: 0,
        }
    }
}

impl StakeEntry {
    /// A freshly created, dormant position: zero principal and snapshots
    /// taken from the pool's current indices, so that nothing that happened
    /// before creation is ever attributed to it.
    pub fn new(owner: u64, pool: &PoolState, now: i64) -> (entry: StakeEntry)
        ensures
            entry == (StakeEntry {
                owner,
                principal: 0,
                reward_index_snapshot: pool.reward_index,
                burn_index_snapshot: pool.burn_index,
                last_activity: now,
            }),
            entry.synced_with(*pool),
    {
        StakeEntry {
            owner,
            principal: 0,
            reward_index_snapshot: pool.reward_index,
            burn_index_snapshot: pool.burn_index,
            last_activity: now,
        }
    }
}

} // verus!
