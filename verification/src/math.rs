//! Fixed-point arithmetic for the pool indices: checked operations over a
//! scaled integer representation, with a wide intermediate type so that a
//! balance times an index delta never overflows before the final result is
//! validated against the balance's width.

use vstd::arithmetic::div_mod::lemma_div_by_multiple;
use vstd::arithmetic::div_mod::lemma_div_is_ordered;
use vstd::arithmetic::div_mod::lemma_div_pos_is_pos;
use vstd::arithmetic::div_mod::lemma_fundamental_div_mod;
use vstd::arithmetic::div_mod::lemma_hoist_over_denominator;
use vstd::arithmetic::div_mod::lemma_mod_division_less_than_divisor;
use vstd::arithmetic::mul::lemma_mul_inequality;
use vstd::arithmetic::mul::lemma_mul_is_commutative;
use vstd::arithmetic::mul::lemma_mul_is_distributive_add;
use vstd::arithmetic::mul::lemma_mul_is_distributive_add_other_way;
use vstd::arithmetic::mul::lemma_mul_nonnegative;
use vstd::prelude::*;

verus! {

/// The fixed-point scale factor shared by the reward and burn indices: an
/// index delta of `SCALE` means one whole asset unit of cumulative effect per
/// deposited unit. It is fixed for the lifetime of a pool; changing it would
/// invalidate every stored index and snapshot.
pub const SCALE: u128 = 10_000_000_000;

/// How far an index advances when `amount` units are spread over a
/// proportional base of `base` units: `amount * SCALE / base`, floored.
pub open spec fn index_gain(amount: int, base: int) -> int {
    amount * (SCALE as int) / base
}

/// The portion of `principal` selected by an index delta:
/// `principal * delta / SCALE`, floored. Flooring is the deliberate rounding
/// policy of the engine: the pool retains negligible residual dust rather
/// than over-paying.
pub open spec fn scaled(principal: int, delta: int) -> int {
    principal * delta / (SCALE as int)
}

/// Computes `index_gain(amount, base)` exactly. The product `amount * SCALE`
/// always fits the wide intermediate type: `amount` is a 64-bit balance and
/// `SCALE` is far below 2^64, so the product stays below 2^128.
pub fn index_increment(amount: u64, base: u64) -> (gain: u128)
    requires
        base > 0,
    ensures
        gain == index_gain(amount as int, base as int),
{
    let wide: u128 = (amount as u128) * SCALE;
    wide / (base as u128)
}

/// The settlement kernel: `principal * delta / SCALE` computed in the wide
/// intermediate type, `None` when the product does not fit the intermediate
/// or the floored quotient does not fit a balance.
pub fn scaled_portion(principal: u64, delta: u128) -> (r: Option<u64>)
    ensures
        match r {
            Some(v) => principal * delta <= u128::MAX && v == scaled(principal as int, delta as int),
            None => principal * delta > u128::MAX || scaled(principal as int, delta as int) > u64::MAX,
        },
{
    match (principal as u128).checked_mul(delta) {
        Some(product) => {
            let q: u128 = product / SCALE;
            if q > u64::MAX as u128 {
                None
            } else {
                Some(q as u64)
            }
        },
        None => None,
    }
}

/// A wide product too large for the intermediate type scales down to more
/// than any 64-bit balance. Settlement uses this to classify its failures
/// exactly: when `principal * delta` cannot even be computed in 128 bits, the
/// floored quotient certainly exceeds what a balance can hold.
pub proof fn lemma_quotient_exceeds_balance(x: int)
    requires
        x > u128::MAX,
    ensures
        x / (SCALE as int) > u64::MAX,
{
    lemma_div_is_ordered(u128::MAX as int + 1, x, SCALE as int);
    assert((u128::MAX as int + 1) / (SCALE as int) > u64::MAX);
}

/// Scaling a non-negative principal by a non-negative delta never yields a
/// negative portion.
pub proof fn lemma_scaled_nonneg(principal: int, delta: int)
    requires
        0 <= principal,
        0 <= delta,
    ensures
        0 <= scaled(principal, delta),
{
    lemma_mul_nonnegative(principal, delta);
    lemma_div_pos_is_pos(principal * delta, SCALE as int);
}

/// An index advance over a positive base is never negative.
pub proof fn lemma_index_gain_nonneg(amount: int, base: int)
    requires
        0 <= amount,
        0 < base,
    ensures
        0 <= index_gain(amount, base),
{
    lemma_mul_nonnegative(amount, SCALE as int);
    lemma_div_pos_is_pos(amount * (SCALE as int), base);
}

/// Scaling grows with the principal: a larger balance never receives a
/// smaller portion of the same delta.
pub proof fn lemma_scaled_monotone(small: int, large: int, delta: int)
    requires
        0 <= small <= large,
        0 <= delta,
    ensures
        scaled(small, delta) <= scaled(large, delta),
{
    lemma_mul_inequality(small, large, delta);
    lemma_div_is_ordered(small * delta, large * delta, SCALE as int);
}

/// Flooring makes scaling superadditive: splitting a balance in two and
/// scaling the parts never pays more than scaling the whole. This is the
/// heart of conservation — dust lost to flooring only ever favours the pool.
pub proof fn lemma_scaled_superadditive(left: int, right: int, delta: int)
    requires
        0 <= left,
        0 <= right,
        0 <= delta,
    ensures
        scaled(left, delta) + scaled(right, delta) <= scaled(left + right, delta),
{
    let f = SCALE as int;
    let x = left * delta;
    let y = right * delta;
    lemma_mul_nonnegative(left, delta);
    lemma_mul_nonnegative(right, delta);
    lemma_mul_is_distributive_add_other_way(delta, left, right);
    assert((left + right) * delta == x + y);
    let q = x / f + y / f;
    let s = x % f + y % f;
    lemma_fundamental_div_mod(x, f);
    lemma_fundamental_div_mod(y, f);
    lemma_mul_is_distributive_add(f, x / f, y / f);
    lemma_mul_is_commutative(f, q);
    assert(x + y == s + q * f);
    lemma_mod_division_less_than_divisor(x, f);
    lemma_mod_division_less_than_divisor(y, f);
    lemma_hoist_over_denominator(s, q, SCALE as nat);
    lemma_div_pos_is_pos(s, f);
    assert((x + y) / f >= q);
}

/// The aggregate payout of one reward distribution is bounded by the amount
/// distributed: scaling the whole proportional base by the index gain the
/// event produced gives back at most the event's amount.
pub proof fn lemma_gain_payout_bounded(base: int, amount: int)
    requires
        0 < base,
        0 <= amount,
    ensures
        scaled(base, index_gain(amount, base)) <= amount,
{
    let f = SCALE as int;
    let delta = index_gain(amount, base);
    lemma_fundamental_div_mod(amount * f, base);
    lemma_mod_division_less_than_divisor(amount * f, base);
    lemma_mul_is_commutative(base, delta);
    assert(base * delta <= amount * f);
    lemma_div_is_ordered(base * delta, amount * f, f);
    lemma_div_by_multiple(amount, f);
}

} // verus!
