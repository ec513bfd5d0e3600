//! Reward calculator and tier classifier: the pure arithmetic at the heart of
//! the staking engine.
//!
//! Yield is simple (non-compounding) interest: an annual amount is derived
//! from the principal and a basis-point rate, then scaled by the elapsed
//! fraction of a year. Both divisions truncate toward zero and no fractional
//! remainder is carried between settlements.

use vstd::arithmetic::div_mod::{
    lemma_div_pos_is_pos, lemma_fundamental_div_mod, lemma_fundamental_div_mod_converse,
    lemma_mod_division_less_than_divisor,
};
use vstd::arithmetic::mul::{lemma_mul_is_distributive_add, lemma_mul_nonnegative};
use vstd::prelude::*;

verus! {

/// Lock durations, in seconds.
pub const LOCK_30_DAYS: i64 = 30 * 24 * 3600;

pub const LOCK_90_DAYS: i64 = 90 * 24 * 3600;

pub const LOCK_180_DAYS: i64 = 180 * 24 * 3600;

pub const LOCK_365_DAYS: i64 = 365 * 24 * 3600;

/// Annualized yield rates, in basis points (10000 = 100%), one per duration.
pub const APY_30_DAYS: u16 = 2000;

pub const APY_90_DAYS: u16 = 4000;

pub const APY_180_DAYS: u16 = 8000;

pub const APY_365_DAYS: u16 = 15000;

/// Tier thresholds in base units (one token is 10^9 base units).
pub const STAKER_THRESHOLD: u64 = 10_000 * 1_000_000_000;

pub const WHALE_THRESHOLD: u64 = 100_000 * 1_000_000_000;

pub const SECONDS_PER_YEAR: i64 = 365 * 86400;

/// Reward-multiplier class derived from the size of a principal.
#[derive(Clone, Copy, Debug, PartialEq, Eq, Structural)]
pub enum Tier {
    NoTier,
    Staker,
    Whale,
}

/// Position of a tier in the order `NoTier < Staker < Whale`.
pub open spec fn tier_rank(t: Tier) -> int {
    match t {
        Tier::NoTier => 0,
        Tier::Staker => 1,
        Tier::Whale => 2,
    }
}

/// The tier a principal of `amount` base units falls in.
pub open spec fn spec_classify(amount: u64) -> Tier {
    if amount >= WHALE_THRESHOLD {
        Tier::Whale
    } else if amount >= STAKER_THRESHOLD {
        Tier::Staker
    } else {
        Tier::NoTier
    }
}

/// The reward multiplier attached to a tier.
pub open spec fn spec_multiplier(t: Tier) -> int {
    match t {
        Tier::NoTier => 1,
        Tier::Staker => 2,
        Tier::Whale => 5,
    }
}

/// Yield owed per full year on `amount` at `rate_bp` basis points, truncating.
pub open spec fn annual_reward(amount: int, rate_bp: int) -> int {
    amount * rate_bp / 10000
}

/// Yield owed on `amount` at `rate_bp` basis points after `elapsed` seconds,
/// truncating.
pub open spec fn accrued_reward(amount: int, rate_bp: int, elapsed: int) -> int {
    annual_reward(amount, rate_bp) * elapsed / (SECONDS_PER_YEAR as int)
}

/// Classify a principal into its tier.
pub fn classify(amount: u64) -> (t: Tier)
    ensures
        t == spec_classify(amount),
{
    if amount >= WHALE_THRESHOLD {
        Tier::Whale
    } else if amount >= STAKER_THRESHOLD {
        Tier::Staker
    } else {
        Tier::NoTier
    }
}

/// The reward multiplier for a tier.
pub fn tier_multiplier(t: Tier) -> (m: u64)
    ensures
        m == spec_multiplier(t),
{
    match t {
        Tier::NoTier => 1,
        Tier::Staker => 2,
        Tier::Whale => 5,
    }
}

/// Base yield accrued on `amount` at `apy_basis_points` over
/// `time_staked_seconds`, before any tier multiplier. Intermediate products
/// are widened to 128 bits so the basis-point product cannot wrap.
pub fn calculate_rewards(amount: u64, apy_basis_points: u16, time_staked_seconds: i64) -> (reward:
    u64)
    requires
        0 <= time_staked_seconds,
        annual_reward(amount as int, apy_basis_points as int) * (time_staked_seconds as int)
            <= u128::MAX,
        accrued_reward(amount as int, apy_basis_points as int, time_staked_seconds as int)
            <= u64::MAX,
    ensures
        reward == accrued_reward(
            amount as int,
            apy_basis_points as int,
            time_staked_seconds as int,
        ),
{
    proof {
        assert((amount as int) * (apy_basis_points as int) <= (u64::MAX as int) * (u16::MAX
            as int)) by (nonlinear_arith)
            requires
                amount <= u64::MAX,
                apy_basis_points <= u16::MAX,
        ;
    }
    let annual: u128 = (amount as u128) * (apy_basis_points as u128) / 10000;
    let reward: u128 = annual * (time_staked_seconds as u128) / (SECONDS_PER_YEAR as u128);
    reward as u64
}

/// Truncating division almost distributes over addition: the two truncated
/// quotients reach the quotient of the sum, or fall exactly one short.
pub proof fn lemma_div_sum_floor(x1: int, x2: int, d: int)
    requires
        0 <= x1,
        0 <= x2,
        0 < d,
    ensures
        x1 / d + x2 / d <= (x1 + x2) / d,
        (x1 + x2) / d <= x1 / d + x2 / d + 1,
{
    lemma_fundamental_div_mod(x1, d);
    lemma_fundamental_div_mod(x2, d);
    lemma_mod_division_less_than_divisor(x1, d);
    lemma_mod_division_less_than_divisor(x2, d);
    let q = x1 / d + x2 / d;
    let r = x1 % d + x2 % d;
    lemma_mul_is_distributive_add(d, x1 / d, x2 / d);
    assert(x1 + x2 == q * d + r) by {
        assert(d * (x1 / d) + d * (x2 / d) == d * q);
        assert(d * q == q * d);
    }
    if r < d {
        lemma_fundamental_div_mod_converse(x1 + x2, d, q, r);
    } else {
        assert(x1 + x2 == (q + 1) * d + (r - d)) by {
            assert((q + 1) * d == q * d + d) by (nonlinear_arith);
        }
        lemma_fundamental_div_mod_converse(x1 + x2, d, q + 1, r - d);
    }
}

/// Classification is monotonic in the principal: a larger principal never
/// falls in a lower tier (under the order `NoTier < Staker < Whale`).
pub proof fn lemma_classify_monotonic(a: u64, b: u64)
    requires
        a <= b,
    ensures
        tier_rank(spec_classify(a)) <= tier_rank(spec_classify(b)),
{
}

/// Accrual does not compound and loses at most one base unit to truncation
/// when an elapsed interval is settled in two parts: the two partial rewards
/// sum to the whole interval's reward or fall exactly one unit short.
pub proof fn lemma_accrual_additive(amount: int, rate_bp: int, t1: int, t2: int)
    requires
        0 <= amount,
        0 <= rate_bp,
        0 <= t1,
        0 <= t2,
    ensures
        accrued_reward(amount, rate_bp, t1) + accrued_reward(amount, rate_bp, t2) <= accrued_reward(
            amount,
            rate_bp,
            t1 + t2,
        ),
        accrued_reward(amount, rate_bp, t1 + t2) <= accrued_reward(amount, rate_bp, t1)
            + accrued_reward(amount, rate_bp, t2) + 1,
{
    let a = annual_reward(amount, rate_bp);
    let y = SECONDS_PER_YEAR as int;
    lemma_mul_nonnegative(amount, rate_bp);
    lemma_div_pos_is_pos(amount * rate_bp, 10000);
    lemma_mul_nonnegative(a, t1);
    lemma_mul_nonnegative(a, t2);
    lemma_mul_is_distributive_add(a, t1, t2);
    assert(a * (t1 + t2) == a * t1 + a * t2);
    lemma_div_sum_floor(a * t1, a * t2, y);
}

} // verus!
