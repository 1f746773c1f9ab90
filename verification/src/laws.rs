//! The ledger's guarantees, stated and proved over the same specification
//! functions that the executable operations are verified against: index
//! monotonicity across arbitrary event histories, conservation under reward
//! distribution, settlement idempotence, and the order independence of the
//! net-delta settlement within an interval.

use vstd::prelude::*;

use crate::errors::StakeError;
use crate::ledger::spec_apply_burn;
use crate::ledger::spec_distribute;
use crate::math::index_gain;
use crate::math::lemma_gain_payout_bounded;
use crate::math::lemma_index_gain_nonneg;
use crate::math::lemma_scaled_monotone;
use crate::math::lemma_scaled_nonneg;
use crate::math::lemma_scaled_superadditive;
use crate::math::scaled;
use crate::settlement::burn_delta;
use crate::settlement::reward_delta;
use crate::settlement::settled_entry;
use crate::settlement::settled_value;
use crate::settlement::spec_settle_value;
use crate::state::PoolState;
use crate::state::StakeEntry;

verus! {

/// A pool-level event that can move an index.
pub enum PoolEvent {
    /// A reward distribution of the given amount.
    DistributeReward(u64),
    /// A burn of the given amount.
    ApplyBurn(u64),
}

/// The pool after one event: the updated ledger when the event is accepted,
/// the old ledger — untouched — when it is refused.
pub open spec fn event_outcome(pool: PoolState, event: PoolEvent) -> PoolState {
    match event {
        PoolEvent::DistributeReward(amount) => match spec_distribute(pool, amount) {
            Ok(p) => p,
            Err(_) => pool,
        },
        PoolEvent::ApplyBurn(amount) => match spec_apply_burn(pool, amount) {
            Ok(p) => p,
            Err(_) => pool,
        },
    }
}

/// The pool after a whole history of events, applied front to back.
pub open spec fn replay(pool: PoolState, events: Seq<PoolEvent>) -> PoolState
    decreases events.len(),
{
    if events.len() == 0 {
        pool
    } else {
        replay(event_outcome(pool, events[0]), events.skip(1))
    }
}

/// One event never lowers an index, whether it is accepted or refused.
pub proof fn lemma_event_monotonic(pool: PoolState, event: PoolEvent)
    ensures
        event_outcome(pool, event).reward_index >= pool.reward_index,
        event_outcome(pool, event).burn_index >= pool.burn_index,
{
    match event {
        PoolEvent::DistributeReward(amount) => {
            if amount > 0 && pool.total_staked > 0 {
                lemma_index_gain_nonneg(amount as int, pool.total_staked as int);
            }
        },
        PoolEvent::ApplyBurn(amount) => {
            if amount > 0 && amount <= pool.total_staked && pool.total_user_principal > 0 {
                lemma_index_gain_nonneg(amount as int, pool.total_user_principal as int);
            }
        },
    }
}

/// Monotonicity: across every sequence of distribute and burn events, the
/// reward index and the burn index never decrease.
pub proof fn lemma_indices_monotonic(pool: PoolState, events: Seq<PoolEvent>)
    ensures
        replay(pool, events).reward_index >= pool.reward_index,
        replay(pool, events).burn_index >= pool.burn_index,
    decreases events.len(),
{
    if events.len() > 0 {
        lemma_event_monotonic(pool, events[0]);
        lemma_indices_monotonic(event_outcome(pool, events[0]), events.skip(1));
    }
}

/// A history of events never moves a position's snapshots, so a position
/// synced with the pool stays synced however many events arrive before its
/// next settlement.
pub proof fn lemma_sync_preserved(pool: PoolState, entry: StakeEntry, events: Seq<PoolEvent>)
    requires
        entry.synced_with(pool),
    ensures
        entry.synced_with(replay(pool, events)),
{
    lemma_indices_monotonic(pool, events);
}

/// The sum of a sequence of recorded principals.
pub open spec fn sum_principals(principals: Seq<u64>) -> int
    decreases principals.len(),
{
    if principals.len() == 0 {
        0
    } else {
        principals[0] + sum_principals(principals.skip(1))
    }
}

/// The sum of the settled values of positions that all carry the given
/// reward-index delta and no burn delta: each position's principal plus its
/// floored share of the delta.
pub open spec fn sum_rewarded(principals: Seq<u64>, delta: int) -> int
    decreases principals.len(),
{
    if principals.len() == 0 {
        0
    } else {
        principals[0] + scaled(principals[0] as int, delta) + sum_rewarded(
            principals.skip(1),
            delta,
        )
    }
}

/// A sum of balances is never negative.
pub proof fn lemma_sum_principals_nonneg(principals: Seq<u64>)
    ensures
        0 <= sum_principals(principals),
    decreases principals.len(),
{
    if principals.len() > 0 {
        lemma_sum_principals_nonneg(principals.skip(1));
    }
}

/// Settling many positions against one delta pays out at most what settling
/// one position holding their combined principal would: flooring each share
/// separately only loses dust to the pool.
pub proof fn lemma_sum_rewarded_bounded(principals: Seq<u64>, delta: int)
    requires
        0 <= delta,
    ensures
        sum_rewarded(principals, delta) <= sum_principals(principals) + scaled(
            sum_principals(principals),
            delta,
        ),
    decreases principals.len(),
{
    if principals.len() == 0 {
        lemma_scaled_nonneg(0, delta);
    } else {
        let head = principals[0] as int;
        let rest = sum_principals(principals.skip(1));
        lemma_sum_rewarded_bounded(principals.skip(1), delta);
        lemma_sum_principals_nonneg(principals.skip(1));
        lemma_scaled_superadditive(head, rest, delta);
    }
}

/// Conservation under reward distribution: when every position was settled
/// just before the event and the recorded principals sum to at most the
/// staked total, one accepted distribution leaves the settled values summing
/// to at most the new staked total. The engine never pays out in aggregate
/// more than the pool received; the rounding dust stays behind.
pub proof fn lemma_reward_conservation(
    principals: Seq<u64>,
    pool: PoolState,
    amount: u64,
    pool_after: PoolState,
)
    requires
        pool.total_staked > 0,
        spec_distribute(pool, amount) == Ok::<PoolState, StakeError>(pool_after),
        sum_principals(principals) <= pool.total_staked,
    ensures
        sum_rewarded(principals, index_gain(amount as int, pool.total_staked as int))
            <= pool_after.total_staked,
{
    let base = pool.total_staked as int;
    let delta = index_gain(amount as int, base);
    lemma_index_gain_nonneg(amount as int, base);
    lemma_sum_rewarded_bounded(principals, delta);
    lemma_sum_principals_nonneg(principals);
    lemma_scaled_monotone(sum_principals(principals), base, delta);
    lemma_gain_payout_bounded(base, amount as int);
}

/// Settlement idempotence: a position that was just settled settles to the
/// same value again, with both deltas zero; settling it a second time at the
/// same timestamp changes nothing at all.
pub proof fn lemma_settle_idempotent(pool: PoolState, entry: StakeEntry, value: u64, now: i64)
    requires
        entry.synced_with(pool),
        spec_settle_value(pool, entry) == Ok::<u64, StakeError>(value),
    ensures
        ({
            let once = settled_entry(pool, entry, value, now);
            &&& reward_delta(pool, once) == 0
            &&& burn_delta(pool, once) == 0
            &&& spec_settle_value(pool, once) == Ok::<u64, StakeError>(value)
            &&& settled_entry(pool, once, value, now) == once
        }),
{
    let once = settled_entry(pool, entry, value, now);
    assert(settled_value(pool, once) == value + scaled(value as int, 0));
    assert(scaled(value as int, 0) == 0);
}

/// Order independence within an interval: after one accepted reward event and
/// one accepted burn event, a position synced at the pre-event indices
/// settles to the net-delta value — the single net adjustment of its
/// principal by the difference of the two per-unit gains — rather than to any
/// sequential application of the two effects.
pub proof fn lemma_interval_net_settlement(
    pool: PoolState,
    entry: StakeEntry,
    reward_amount: u64,
    burn_amount: u64,
    pool_mid: PoolState,
    pool_after: PoolState,
)
    requires
        entry.reward_index_snapshot == pool.reward_index,
        entry.burn_index_snapshot == pool.burn_index,
        pool.total_staked > 0,
        pool.total_user_principal > 0,
        spec_distribute(pool, reward_amount) == Ok::<PoolState, StakeError>(pool_mid),
        spec_apply_burn(pool_mid, burn_amount) == Ok::<PoolState, StakeError>(pool_after),
    ensures
        ({
            let dr = index_gain(reward_amount as int, pool.total_staked as int);
            let db = index_gain(burn_amount as int, pool.total_user_principal as int);
            let p = entry.principal as int;
            &&& reward_delta(pool_after, entry) == dr
            &&& burn_delta(pool_after, entry) == db
            &&& settled_value(pool_after, entry) == if dr >= db {
                p + scaled(p, dr - db)
            } else {
                p - scaled(p, db - dr)
            }
        }),
{
}

} // verus!
