//! Per-position settlement: reconciling a position's recorded principal with
//! the pool's current indices, and the stake / unstake operations built on
//! it. Settlement is O(1) in the pool's population: it reads the two index
//! deltas since the position's last settlement and applies their net effect
//! to the principal in one step.

use vstd::prelude::*;

use crate::errors::StakeError;
use crate::math::lemma_quotient_exceeds_balance;
use crate::math::scaled;
use crate::math::scaled_portion;
use crate::math::SCALE;
use crate::state::PoolState;
use crate::state::StakeEntry;

verus! {

/// How much cumulative per-unit reward has accrued since the position's last
/// settlement. Non-negative whenever the position is synced with the pool.
pub open spec fn reward_delta(pool: PoolState, entry: StakeEntry) -> int {
    pool.reward_index - entry.reward_index_snapshot
}

/// How much cumulative per-unit loss has accrued since the position's last
/// settlement. Non-negative whenever the position is synced with the pool.
pub open spec fn burn_delta(pool: PoolState, entry: StakeEntry) -> int {
    pool.burn_index - entry.burn_index_snapshot
}

/// The position's up-to-date value as an unbounded integer: the recorded
/// principal adjusted by the net of the two index deltas, applied as a single
/// adjustment rather than sequentially, so that the result does not depend on
/// how rewards and burns interleaved within the interval and no effect is
/// rounded twice.
pub open spec fn settled_value(pool: PoolState, entry: StakeEntry) -> int {
    let rd = reward_delta(pool, entry);
    let bd = burn_delta(pool, entry);
    let p = entry.principal as int;
    if rd >= bd {
        p + scaled(p, rd - bd)
    } else {
        p - scaled(p, bd - rd)
    }
}

/// The exact outcome of computing a position's settled value: the value when
/// it fits a balance, `ArithmeticOverflow` when it outgrows one, and
/// `UnderflowBeyondZero` when cumulative burns exceed cumulative rewards by
/// more than the position's worth — reported, not silently clamped.
pub open spec fn spec_settle_value(pool: PoolState, entry: StakeEntry) -> Result<u64, StakeError> {
    let v = settled_value(pool, entry);
    if v > u64::MAX {
        Err(StakeError::ArithmeticOverflow)
    } else if v < 0 {
        Err(StakeError::UnderflowBeyondZero)
    } else {
        Ok(v as u64)
    }
}

/// The position as settlement leaves it: principal replaced by the settled
/// value, both snapshots advanced to the pool's current indices, the
/// activity timestamp refreshed, the owner untouched.
pub open spec fn settled_entry(
    pool: PoolState,
    entry: StakeEntry,
    value: u64,
    now: i64,
) -> StakeEntry {
    StakeEntry {
        principal: value,
        reward_index_snapshot: pool.reward_index,
        burn_index_snapshot: pool.burn_index,
        last_activity: now,
        ..entry
    }
}

/// Computes the position's up-to-date value without touching any state:
/// exactly `spec_settle_value`. The adjustment is computed in a wide
/// intermediate type and floored, so the pool keeps the rounding dust.
pub fn calculate_out_amount(pool: &PoolState, entry: &StakeEntry) -> (r: Result<u64, StakeError>)
    requires
        entry.synced_with(*pool),
    ensures
        r == spec_settle_value(*pool, *entry),
{
    let rd: u128 = pool.reward_index - entry.reward_index_snapshot;
    let bd: u128 = pool.burn_index - entry.burn_index_snapshot;
    if rd >= bd {
        let net: u128 = rd - bd;
        match scaled_portion(entry.principal, net) {
            Some(gain) => {
                match entry.principal.checked_add(gain) {
                    Some(v) => Ok(v),
                    None => Err(StakeError::ArithmeticOverflow),
                }
            },
            None => {
                proof {
                    if entry.principal * net > u128::MAX {
                        lemma_quotient_exceeds_balance(entry.principal * net);
                    }
                }
                Err(StakeError::ArithmeticOverflow)
            },
        }
    } else {
        let net: u128 = bd - rd;
        match (entry.principal as u128).checked_mul(net) {
            Some(product) => {
                let dec: u128 = product / SCALE;
                if dec > entry.principal as u128 {
                    Err(StakeError::UnderflowBeyondZero)
                } else {
                    Ok(entry.principal - (dec as u64))
                }
            },
            None => {
                proof {
                    lemma_quotient_exceeds_balance(entry.principal * net);
                }
                Err(StakeError::UnderflowBeyondZero)
            },
        }
    }
}

/// Settles the position against the pool's current indices: on success the
/// principal becomes the settled value, both snapshots advance to the pool's
/// indices and the deltas that were applied are returned alongside it; on
/// failure the position is untouched. Either way the position stays synced
/// with the pool and its owner never changes.
pub fn settle(pool: &PoolState, entry: &mut StakeEntry, now: i64) -> (r: Result<
    (u64, u128, u128),
    StakeError,
>)
    requires
        old(entry).synced_with(*pool),
    ensures
        match r {
            Ok(t) => {
                &&& spec_settle_value(*pool, *old(entry)) == Ok::<u64, StakeError>(t.0)
                &&& t.1 == reward_delta(*pool, *old(entry))
                &&& t.2 == burn_delta(*pool, *old(entry))
                &&& *final(entry) == settled_entry(*pool, *old(entry), t.0, now)
            },
            Err(e) => {
                &&& spec_settle_value(*pool, *old(entry)) == Err::<u64, StakeError>(e)
                &&& *final(entry) == *old(entry)
            },
        },
        final(entry).synced_with(*pool),
        final(entry).owner == old(entry).owner,
{
    let rd: u128 = pool.reward_index - entry.reward_index_snapshot;
    let bd: u128 = pool.burn_index - entry.burn_index_snapshot;
    match calculate_out_amount(pool, entry) {
        Ok(value) => {
            entry.principal = value;
            entry.reward_index_snapshot = pool.reward_index;
            entry.burn_index_snapshot = pool.burn_index;
            entry.last_activity = now;
            Ok((value, rd, bd))
        },
        Err(e) => Err(e),
    }
}

/// The exact outcome of depositing `amount` fresh units into a position.
///
/// A dormant position (zero principal) has nothing to settle — its settled
/// value is zero — so it simply starts over from the current indices. An
/// active position is settled first; the pool's recorded user principal
/// replaces the position's old nominal contribution with the settled value;
/// then the deposit joins the position's principal, the recorded user
/// principal and the staked total alike.
pub open spec fn spec_stake(pool: PoolState, entry: StakeEntry, amount: u64, now: i64) -> Result<
    (PoolState, StakeEntry),
    StakeError,
> {
    let p0 = entry.principal as int;
    if amount == 0 {
        Err(StakeError::ZeroAmount)
    } else {
        match spec_settle_value(pool, entry) {
            Err(e) => Err(e),
            Ok(settled) => {
                if p0 > pool.total_user_principal {
                    Err(StakeError::InsufficientFunds)
                } else if pool.total_user_principal - p0 + settled > u64::MAX || settled + amount
                    > u64::MAX || pool.total_user_principal - p0 + settled + amount > u64::MAX
                    || pool.total_staked + amount > u64::MAX {
                    Err(StakeError::ArithmeticOverflow)
                } else {
                    Ok(
                        (
                            PoolState {
                                total_user_principal: (pool.total_user_principal - p0 + settled
                                    + amount) as u64,
                                total_staked: (pool.total_staked + amount) as u64,
                                ..pool
                            },
                            settled_entry(pool, entry, (settled + amount) as u64, now),
                        ),
                    )
                }
            },
        }
    }
}

/// Deposits `amount` fresh units into the position, exactly as `spec_stake`
/// describes; on any failure both records are untouched. The indices never
/// move here, the position ends synced with the pool, and the owner never
/// changes.
pub fn stake(pool: &mut PoolState, entry: &mut StakeEntry, amount: u64, now: i64) -> (r: Result<
    (),
    StakeError,
>)
    requires
        old(entry).synced_with(*old(pool)),
    ensures
        match spec_stake(*old(pool), *old(entry), amount, now) {
            Ok(updated) => {
                &&& r == Ok::<(), StakeError>(())
                &&& *final(pool) == updated.0
                &&& *final(entry) == updated.1
            },
            Err(e) => {
                &&& r == Err::<(), StakeError>(e)
                &&& *final(pool) == *old(pool)
                &&& *final(entry) == *old(entry)
            },
        },
        final(entry).synced_with(*final(pool)),
        final(entry).owner == old(entry).owner,
        final(pool).reward_index == old(pool).reward_index,
        final(pool).burn_index == old(pool).burn_index,
        final(pool).undistributed_donations == old(pool).undistributed_donations,
        final(pool).authority == old(pool).authority,
{
    if amount == 0 {
        return Err(StakeError::ZeroAmount);
    }
    let settled: u64 = if entry.principal == 0 {
        0
    } else {
        match calculate_out_amount(pool, entry) {
            Ok(v) => v,
            Err(e) => {
                return Err(e);
            },
        }
    };
    let base: u64 = match pool.total_user_principal.checked_sub(entry.principal) {
        Some(v) => v,
        None => {
            return Err(StakeError::InsufficientFunds);
        },
    };
    let settled_base: u64 = match base.checked_add(settled) {
        Some(v) => v,
        None => {
            return Err(StakeError::ArithmeticOverflow);
        },
    };
    let new_principal: u64 = match settled.checked_add(amount) {
        Some(v) => v,
        None => {
            return Err(StakeError::ArithmeticOverflow);
        },
    };
    let new_user_principal: u64 = match settled_base.checked_add(amount) {
        Some(v) => v,
        None => {
            return Err(StakeError::ArithmeticOverflow);
        },
    };
    let new_staked: u64 = match pool.total_staked.checked_add(amount) {
        Some(v) => v,
        None => {
            return Err(StakeError::ArithmeticOverflow);
        },
    };
    pool.total_user_principal = new_user_principal;
    pool.total_staked = new_staked;
    entry.principal = new_principal;
    entry.reward_index_snapshot = pool.reward_index;
    entry.burn_index_snapshot = pool.burn_index;
    entry.last_activity = now;
    Ok(())
}

/// The exact outcome of a full withdrawal.
///
/// The position is settled to its current redeemable value, which leaves the
/// pool's vault; the staked total drops by that settled value, while the
/// recorded user principal drops by the position's pre-settlement nominal
/// principal — the recorded aggregate tracks nominal deposits, not settled
/// value, a deliberate asymmetry. The position stays behind, dormant at zero
/// principal, ready for reuse.
pub open spec fn spec_unstake(pool: PoolState, entry: StakeEntry, now: i64) -> Result<
    (PoolState, StakeEntry, u64),
    StakeError,
> {
    let p0 = entry.principal as int;
    match spec_settle_value(pool, entry) {
        Err(e) => Err(e),
        Ok(out) => {
            if out > pool.total_staked || p0 > pool.total_user_principal {
                Err(StakeError::InsufficientFunds)
            } else {
                Ok(
                    (
                        PoolState {
                            total_staked: (pool.total_staked - out) as u64,
                            total_user_principal: (pool.total_user_principal - p0) as u64,
                            ..pool
                        },
                        settled_entry(pool, entry, 0u64, now),
                        out,
                    ),
                )
            }
        },
    }
}

/// Withdraws the position in full, exactly as `spec_unstake` describes: the
/// returned amount is the settled value the caller must transfer out; on any
/// failure both records are untouched. The indices never move here, the
/// position ends synced with the pool, and the owner never changes.
pub fn unstake(pool: &mut PoolState, entry: &mut StakeEntry, now: i64) -> (r: Result<
    u64,
    StakeError,
>)
    requires
        old(entry).synced_with(*old(pool)),
    ensures
        match spec_unstake(*old(pool), *old(entry), now) {
            Ok(updated) => {
                &&& r == Ok::<u64, StakeError>(updated.2)
                &&& *final(pool) == updated.0
                &&& *final(entry) == updated.1
            },
            Err(e) => {
                &&& r == Err::<u64, StakeError>(e)
                &&& *final(pool) == *old(pool)
                &&& *final(entry) == *old(entry)
            },
        },
        final(entry).synced_with(*final(pool)),
        final(entry).owner == old(entry).owner,
        final(pool).reward_index == old(pool).reward_index,
        final(pool).burn_index == old(pool).burn_index,
        final(pool).undistributed_donations == old(pool).undistributed_donations,
        final(pool).authority == old(pool).authority,
{
    let out: u64 = match calculate_out_amount(pool, entry) {
        Ok(v) => v,
        Err(e) => {
            return Err(e);
        },
    };
    let new_staked: u64 = match pool.total_staked.checked_sub(out) {
        Some(v) => v,
        None => {
            return Err(StakeError::InsufficientFunds);
        },
    };
    let new_user_principal: u64 = match pool.total_user_principal.checked_sub(entry.principal) {
        Some(v) => v,
        None => {
            return Err(StakeError::InsufficientFunds);
        },
    };
    pool.total_staked = new_staked;
    pool.total_user_principal = new_user_principal;
    entry.principal = 0;
    entry.reward_index_snapshot = pool.reward_index;
    entry.burn_index_snapshot = pool.burn_index;
    entry.last_activity = now;
    Ok(out)
}

} // verus!
