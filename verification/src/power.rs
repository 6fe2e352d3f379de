//! Voting power of a locked stake, and the yield paid to the winning side.

use vstd::prelude::*;

verus! {

/// Numerator of the yield rate per block.
pub const YIELD_NUMERATOR: u64 = 195069;

/// Denominator of the yield rate per block.
pub const YIELD_DENOMINATOR: u64 = 10_000_000_000_000;

/// Weight of `stake` locked for `lock_time` blocks.
///
/// The stake counts in whole multiples of `min_stake`, the lock in whole
/// multiples of `min_lock`. The weight is the first times the square of the
/// second, so that doubling the lock quadruples the weight while doubling
/// the stake only doubles it.
pub open spec fn voting_power(stake: nat, lock_time: nat, min_stake: nat, min_lock: nat) -> nat {
    (stake / min_stake) * ((lock_time / min_lock) * (lock_time / min_lock))
}

/// Yield accrued by `stake` over `blocks` blocks, rounded down.
pub open spec fn accrued_yield(stake: nat, blocks: nat) -> nat {
    stake * blocks * (YIELD_NUMERATOR as nat) / (YIELD_DENOMINATOR as nat)
}

/// No stake carries no weight, whatever the lock.
pub proof fn lemma_power_of_no_stake(lock_time: nat, min_stake: nat, min_lock: nat)
    by (nonlinear_arith)
    requires
        min_stake > 0,
        min_lock > 0,
    ensures
        voting_power(0, lock_time, min_stake, min_lock) == 0,
{
}

/// A stake and a lock that both reach their minimum carry weight.
pub proof fn lemma_power_positive(stake: nat, lock_time: nat, min_stake: nat, min_lock: nat)
    by (nonlinear_arith)
    requires
        min_stake > 0,
        min_lock > 0,
        stake >= min_stake,
        lock_time >= min_lock,
    ensures
        voting_power(stake, lock_time, min_stake, min_lock) >= 1,
{
    assert(stake / min_stake >= 1);
    assert(lock_time / min_lock >= 1);
    assert((lock_time / min_lock) * (lock_time / min_lock) >= 1);
}

/// Doubling a lock of whole minimum locks quadruples the weight; doubling a
/// stake of whole minimum stakes doubles it.
pub proof fn lemma_power_scales(stake: nat, lock_time: nat, min_stake: nat, min_lock: nat)
    requires
        min_stake > 0,
        min_lock > 0,
    ensures
        lock_time % min_lock == 0 ==> voting_power(stake, 2 * lock_time, min_stake, min_lock) == 4
            * voting_power(stake, lock_time, min_stake, min_lock),
        stake % min_stake == 0 ==> voting_power(2 * stake, lock_time, min_stake, min_lock) == 2
            * voting_power(stake, lock_time, min_stake, min_lock),
{
    let units = stake / min_stake;
    let locks = lock_time / min_lock;
    if lock_time % min_lock == 0 {
        assert((2 * lock_time) / min_lock == 2 * locks) by (nonlinear_arith)
            requires
                min_lock > 0,
                lock_time % min_lock == 0,
                locks == lock_time / min_lock,
        ;
        assert(units * ((2 * locks) * (2 * locks)) == 4 * (units * (locks * locks)))
            by (nonlinear_arith);
    }
    if stake % min_stake == 0 {
        assert((2 * stake) / min_stake == 2 * units) by (nonlinear_arith)
            requires
                min_stake > 0,
                stake % min_stake == 0,
                units == stake / min_stake,
        ;
        assert((2 * units) * (locks * locks) == 2 * (units * (locks * locks)))
            by (nonlinear_arith);
    }
}

/// Computes [`voting_power`], or `None` where it does not fit in 64 bits.
pub fn calculate_voting_power(stake: u64, lock_time: u64, min_stake: u64, min_lock: u64) -> (power:
    Option<u64>)
    requires
        min_stake > 0,
        min_lock > 0,
    ensures
        match power {
            Some(p) => p == voting_power(
                stake as nat,
                lock_time as nat,
                min_stake as nat,
                min_lock as nat,
            ),
            None => voting_power(stake as nat, lock_time as nat, min_stake as nat, min_lock as nat)
                > u64::MAX,
        },
{
    let units: u64 = stake / min_stake;
    let locks: u64 = lock_time / min_lock;
    assert(locks * locks <= u64::MAX * u64::MAX) by (nonlinear_arith)
        requires
            locks <= u64::MAX,
    ;
    let squared: u128 = (locks as u128) * (locks as u128);
    match (units as u128).checked_mul(squared) {
        Some(product) => {
            if product > u64::MAX as u128 {
                None
            } else {
                Some(product as u64)
            }
        },
        None => None,
    }
}

/// Computes [`accrued_yield`]. The result always fits in 128 bits.
pub fn calculate_yield(stake: u64, blocks: u64) -> (earned: u128)
    ensures
        earned == accrued_yield(stake as nat, blocks as nat),
{
    let rate: u128 = YIELD_NUMERATOR as u128;
    let scale: u128 = YIELD_DENOMINATOR as u128;
    assert(stake * blocks <= u64::MAX * u64::MAX) by (nonlinear_arith)
        requires
            stake <= u64::MAX,
            blocks <= u64::MAX,
    ;
    let staked_blocks: u128 = (stake as u128) * (blocks as u128);
    let whole: u128 = staked_blocks / scale;
    let rest: u128 = staked_blocks % scale;
    assert(staked_blocks == whole * scale + rest);
    whole * rate + rest * rate / scale
}

} // verus!
