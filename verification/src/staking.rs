//! The staking state machine over one participant's ledger entry and the
//! shared pool aggregate.
//!
//! Every operation is an atomic unit of work in the host's execution model:
//! the caller validates first, performs the external balance transfer the
//! operation calls for, and only then commits the state transition below.
//! When the transfer fails, the caller never commits, so no partial update is
//! observable. The clock is read outside and handed in as `now`.

use crate::rewards::{
    accrued_reward, annual_reward, calculate_rewards, classify, spec_classify, spec_multiplier,
    tier_multiplier, Tier, APY_180_DAYS, APY_30_DAYS, APY_365_DAYS, APY_90_DAYS, LOCK_180_DAYS,
    LOCK_30_DAYS, LOCK_365_DAYS, LOCK_90_DAYS,
};
use vstd::arithmetic::div_mod::{lemma_div_by_multiple, lemma_div_is_ordered};
use vstd::arithmetic::mul::{lemma_mul_inequality, lemma_mul_is_commutative};
use vstd::prelude::*;

verus! {

/// Validation failures of the three staking operations.
#[derive(Clone, Copy, Debug, PartialEq, Eq, Structural)]
pub enum ErrorCode {
    /// A deposit of zero.
    InvalidAmount,
    /// A lock duration outside the fixed table.
    InvalidLockDuration,
    /// A claim with no time elapsed since the last settlement.
    NoRewardsToClaim,
    /// A withdrawal with nothing staked.
    NothingToUnstake,
}

/// The pool aggregate: one instance shared by every participant.
#[derive(Clone, Copy, Debug, PartialEq, Eq, Structural)]
pub struct Pool {
    /// Identity permitted to administer the pool.
    pub authority: u64,
    /// The balance that holds undistributed yield.
    pub reward_vault: u64,
    /// Sum of all active principals.
    pub total_staked: u64,
    /// Number of entries with a positive principal.
    pub total_stakers: u64,
    /// Value withheld from early withdrawals, kept for the pool.
    pub total_penalty_pool: u64,
}

/// One participant's ledger entry. Created on the first deposit and never
/// deleted: a full withdrawal resets it to the empty state but keeps its
/// history (`start_time`, `total_claimed`).
#[derive(Clone, Copy, Debug, PartialEq, Eq, Structural)]
pub struct StakeAccount {
    pub owner: u64,
    /// Current principal, in base units.
    pub amount: u64,
    /// Time of the first deposit into an empty entry.
    pub start_time: i64,
    /// End of the current lock window.
    pub lock_until: i64,
    /// Duration chosen at the most recent deposit.
    pub lock_duration: i64,
    /// Time of the last yield settlement.
    pub last_claim: i64,
    /// Lifetime sum of settled yield.
    pub total_claimed: u64,
    /// Annualized rate, from the duration table.
    pub apy_basis_points: u16,
    /// Tier derived from `amount`.
    pub tier: Tier,
}

/// Whether `d` is one of the four lock durations the engine accepts.
pub open spec fn valid_lock_duration(d: i64) -> bool {
    d == LOCK_30_DAYS || d == LOCK_90_DAYS || d == LOCK_180_DAYS || d == LOCK_365_DAYS
}

/// The annualized rate the table assigns to lock duration `d` (0 off-table).
pub open spec fn spec_apy_for(d: i64) -> u16 {
    if d == LOCK_30_DAYS {
        APY_30_DAYS
    } else if d == LOCK_90_DAYS {
        APY_90_DAYS
    } else if d == LOCK_180_DAYS {
        APY_180_DAYS
    } else if d == LOCK_365_DAYS {
        APY_365_DAYS
    } else {
        0
    }
}

/// Whether a deposit request passes validation.
pub open spec fn stake_accepted(amount: u64, lock_duration: i64) -> bool {
    amount > 0 && valid_lock_duration(lock_duration)
}

/// The value withheld when a principal of `amount` leaves before its lock
/// expires: twenty percent, truncating.
pub open spec fn spec_penalty(amount: u64) -> int {
    amount * 20 / 100
}

/// The yield a settlement at time `now` pays on entry `a`: the accrued base
/// reward scaled by the tier multiplier.
pub open spec fn claim_payout(a: StakeAccount, now: i64) -> int {
    accrued_reward(a.amount as int, a.apy_basis_points as int, now - a.last_claim)
        * spec_multiplier(a.tier)
}

/// The empty entry for `owner`: the state a first deposit starts from.
pub open spec fn empty_account(owner: u64) -> StakeAccount {
    StakeAccount {
        owner,
        amount: 0,
        start_time: 0,
        lock_until: 0,
        lock_duration: 0,
        last_claim: 0,
        total_claimed: 0,
        apy_basis_points: 0,
        tier: Tier::NoTier,
    }
}

impl StakeAccount {
    /// Internal consistency of an entry: the tier matches the principal, the
    /// rate comes from the table, and all times are non-negative.
    pub open spec fn wf(self) -> bool {
        &&& self.tier == spec_classify(self.amount)
        &&& (self.apy_basis_points == 0 || self.apy_basis_points == APY_30_DAYS
            || self.apy_basis_points == APY_90_DAYS || self.apy_basis_points == APY_180_DAYS
            || self.apy_basis_points == APY_365_DAYS)
        &&& 0 <= self.start_time
        &&& 0 <= self.lock_until
        &&& 0 <= self.last_claim
        &&& 0 <= self.lock_duration
    }

    /// A fresh, empty entry for `owner`, as created on a first deposit.
    pub fn new(owner: u64) -> (a: StakeAccount)
        ensures
            a == empty_account(owner),
            a.wf(),
    {
        StakeAccount {
            owner,
            amount: 0,
            start_time: 0,
            lock_until: 0,
            lock_duration: 0,
            last_claim: 0,
            total_claimed: 0,
            apy_basis_points: 0,
            tier: Tier::NoTier,
        }
    }
}

/// The entry that a successful deposit leaves behind: principal and lock
/// window re-priced at the newly chosen duration, tier recomputed from the
/// new total, history kept.
pub open spec fn staked_account(
    a: StakeAccount,
    owner: u64,
    amount: u64,
    lock_duration: i64,
    now: i64,
) -> StakeAccount {
    StakeAccount {
        owner: if a.amount == 0 {
            owner
        } else {
            a.owner
        },
        amount: (a.amount + amount) as u64,
        start_time: if a.amount == 0 {
            now
        } else {
            a.start_time
        },
        lock_until: (now + lock_duration) as i64,
        lock_duration,
        last_claim: now,
        total_claimed: a.total_claimed,
        apy_basis_points: spec_apy_for(lock_duration),
        tier: spec_classify((a.amount + amount) as u64),
    }
}

/// A fresh pool under `authority`, paying yield out of `reward_vault`.
pub fn initialize_pool(authority: u64, reward_vault: u64) -> (pool: Pool)
    ensures
        pool == (Pool {
            authority,
            reward_vault,
            total_staked: 0,
            total_stakers: 0,
            total_penalty_pool: 0,
        }),
{
    Pool { authority, reward_vault, total_staked: 0, total_stakers: 0, total_penalty_pool: 0 }
}

/// Deposit `amount` into `stake_account` with lock duration `lock_duration`,
/// committing at time `now`.
///
/// The caller moves `amount` from the owner's balance into pool custody
/// between validation and commit; on a failed transfer it never commits, so
/// a rejected or aborted deposit leaves every field unchanged.
pub fn stake(
    pool: &mut Pool,
    stake_account: &mut StakeAccount,
    owner: u64,
    amount: u64,
    lock_duration: i64,
    now: i64,
) -> (r: Result<(), ErrorCode>)
    requires
        old(stake_account).wf(),
        0 <= now,
        stake_accepted(amount, lock_duration) ==> {
            &&& old(stake_account).amount + amount <= u64::MAX
            &&& old(pool).total_staked + amount <= u64::MAX
            &&& now + lock_duration <= i64::MAX
            &&& (old(stake_account).amount == 0 ==> old(pool).total_stakers < u64::MAX)
        },
    ensures
        final(stake_account).wf(),
        (r is Ok <==> stake_accepted(amount, lock_duration)),
        (r is Err ==> *final(pool) == *old(pool)
            && *final(stake_account) == *old(stake_account)),
        (amount == 0 ==> r == Err::<(), ErrorCode>(ErrorCode::InvalidAmount)),
        (amount > 0 && !valid_lock_duration(lock_duration) ==> r == Err::<(), ErrorCode>(
            ErrorCode::InvalidLockDuration,
        )),
        (r is Ok ==> *final(stake_account) == staked_account(
            *old(stake_account),
            owner,
            amount,
            lock_duration,
            now,
        )),
        (r is Ok ==> *final(pool) == (Pool {
            total_staked: (old(pool).total_staked + amount) as u64,
            total_stakers: if old(stake_account).amount == 0 {
                (old(pool).total_stakers + 1) as u64
            } else {
                old(pool).total_stakers
            },
            ..*old(pool)
        })),
{
    if amount == 0 {
        return Err(ErrorCode::InvalidAmount);
    }
    if !(lock_duration == LOCK_30_DAYS || lock_duration == LOCK_90_DAYS || lock_duration
        == LOCK_180_DAYS || lock_duration == LOCK_365_DAYS) {
        return Err(ErrorCode::InvalidLockDuration);
    }
    // First deposit into an empty entry: record the owner and start time and
    // count a new participant.
    if stake_account.amount == 0 {
        stake_account.owner = owner;
        stake_account.start_time = now;
        pool.total_stakers = pool.total_stakers + 1;
    }
    stake_account.amount = stake_account.amount + amount;
    stake_account.lock_until = now + lock_duration;
    stake_account.last_claim = now;
    stake_account.lock_duration = lock_duration;
    stake_account.tier = classify(stake_account.amount);
    stake_account.apy_basis_points = if lock_duration == LOCK_30_DAYS {
        APY_30_DAYS
    } else if lock_duration == LOCK_90_DAYS {
        APY_90_DAYS
    } else if lock_duration == LOCK_180_DAYS {
        APY_180_DAYS
    } else {
        APY_365_DAYS
    };
    pool.total_staked = pool.total_staked + amount;
    Ok(())
}

/// Settle the yield accrued on `stake_account` since its last settlement.
///
/// Returns the payout the caller owes the owner out of the reward vault; the
/// caller commits only when that transfer succeeds, so a failed transfer
/// leaves `last_claim` unadvanced and the yield claimable later.
pub fn claim_rewards(stake_account: &mut StakeAccount, now: i64) -> (r: Result<u64, ErrorCode>)
    requires
        old(stake_account).wf(),
        0 <= now,
        now > old(stake_account).last_claim ==> {
            &&& annual_reward(
                old(stake_account).amount as int,
                old(stake_account).apy_basis_points as int,
            ) * (now - old(stake_account).last_claim) <= u128::MAX
            &&& claim_payout(*old(stake_account), now) <= u64::MAX
            &&& old(stake_account).total_claimed + claim_payout(*old(stake_account), now)
                <= u64::MAX
        },
    ensures
        final(stake_account).wf(),
        (r is Ok <==> now > old(stake_account).last_claim),
        (r is Err ==> r == Err::<u64, ErrorCode>(ErrorCode::NoRewardsToClaim)
            && *final(stake_account) == *old(stake_account)),
        (r is Ok ==> r == Ok::<u64, ErrorCode>(claim_payout(*old(stake_account), now) as u64)),
        (r is Ok ==> *final(stake_account) == (StakeAccount {
            last_claim: now,
            total_claimed: (old(stake_account).total_claimed + claim_payout(
                *old(stake_account),
                now,
            )) as u64,
            ..*old(stake_account)
        })),
{
    let time_staked: i64 = now - stake_account.last_claim;
    if time_staked <= 0 {
        return Err(ErrorCode::NoRewardsToClaim);
    }
    let base_reward = calculate_rewards(
        stake_account.amount,
        stake_account.apy_basis_points,
        time_staked,
    );
    let multiplier = tier_multiplier(stake_account.tier);
    let total_reward = base_reward * multiplier;
    stake_account.last_claim = now;
    stake_account.total_claimed = stake_account.total_claimed + total_reward;
    Ok(total_reward)
}

/// The early-exit penalty never exceeds the principal it is taken from.
pub proof fn lemma_penalty_le_amount(amount: u64)
    ensures
        0 <= spec_penalty(amount) <= amount,
{
    lemma_mul_inequality(20, 100, amount as int);
    lemma_mul_is_commutative(20, amount as int);
    lemma_mul_is_commutative(100, amount as int);
    lemma_div_is_ordered(amount * 20, amount * 100, 100);
    lemma_div_by_multiple(amount as int, 100);
    lemma_div_is_ordered(0, amount * 20, 100);
}

/// Withdraw the whole principal of `stake_account`, committing at time `now`.
///
/// Before `lock_until` a twenty-percent penalty is withheld for the pool;
/// at or after it the full principal is paid out. Returns `(payout, penalty)`;
/// the caller moves `payout` from pool custody back to the owner and commits
/// only when that transfer succeeds. The entry is reset to empty but keeps
/// its history for a later re-entry by the same owner.
pub fn unstake(pool: &mut Pool, stake_account: &mut StakeAccount, now: i64) -> (r: Result<
    (u64, u64),
    ErrorCode,
>)
    requires
        old(stake_account).wf(),
        old(stake_account).amount > 0 ==> {
            &&& old(stake_account).amount <= old(pool).total_staked
            &&& old(pool).total_stakers >= 1
        },
        (old(stake_account).amount > 0 && now < old(stake_account).lock_until)
            ==> old(pool).total_penalty_pool + spec_penalty(old(stake_account).amount)
            <= u64::MAX,
    ensures
        final(stake_account).wf(),
        (r is Ok <==> old(stake_account).amount > 0),
        (r is Err ==> r == Err::<(u64, u64), ErrorCode>(ErrorCode::NothingToUnstake)
            && *final(pool) == *old(pool) && *final(stake_account) == *old(stake_account)),
        (r is Ok ==> ({
            let amount = old(stake_account).amount;
            let penalty: int = if now < old(stake_account).lock_until {
                spec_penalty(amount)
            } else {
                0
            };
            &&& r == Ok::<(u64, u64), ErrorCode>(((amount - penalty) as u64, penalty as u64))
            &&& *final(stake_account) == (StakeAccount {
                amount: 0,
                tier: Tier::NoTier,
                ..*old(stake_account)
            })
            &&& *final(pool) == (Pool {
                total_staked: (old(pool).total_staked - amount) as u64,
                total_stakers: (old(pool).total_stakers - 1) as u64,
                total_penalty_pool: (old(pool).total_penalty_pool + penalty) as u64,
                ..*old(pool)
            })
        })),
{
    let amount = stake_account.amount;
    if amount == 0 {
        return Err(ErrorCode::NothingToUnstake);
    }
    proof {
        lemma_penalty_le_amount(amount);
    }
    let mut penalty: u64 = 0;
    let mut payout: u64 = amount;
    if now < stake_account.lock_until {
        // Early withdrawal: withhold twenty percent, widened so the
        // intermediate product cannot wrap.
        penalty = ((amount as u128) * 20 / 100) as u64;
        payout = amount - penalty;
    }
    if penalty > 0 {
        pool.total_penalty_pool = pool.total_penalty_pool + penalty;
    }
    pool.total_staked = pool.total_staked - amount;
    pool.total_stakers = pool.total_stakers - 1;
    stake_account.amount = 0;
    stake_account.tier = Tier::NoTier;
    Ok((payout, penalty))
}

} // verus!
