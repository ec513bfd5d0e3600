//! The stake ledger: the pool aggregate together with one entry per owner,
//! addressable by owner identity.
//!
//! The ledger carries the global accounting invariant: `total_staked` is the
//! sum of all principals, `total_stakers` counts the entries with a positive
//! principal, and owners are unique. Entries are created lazily on first
//! deposit and never deleted; a full withdrawal resets one to the empty state
//! but keeps its history.

use crate::rewards::annual_reward;
use crate::staking::{
    claim_payout, claim_rewards, empty_account, initialize_pool, spec_penalty, stake,
    stake_accepted, staked_account, unstake, valid_lock_duration, ErrorCode, Pool, StakeAccount,
};
use vstd::prelude::*;

verus! {

/// Sum of the principals of a sequence of entries.
pub open spec fn total_amount(s: Seq<StakeAccount>) -> int
    decreases s.len(),
{
    if s.len() == 0 {
        0
    } else {
        total_amount(s.drop_last()) + s.last().amount
    }
}

/// Number of entries with a positive principal.
pub open spec fn active_count(s: Seq<StakeAccount>) -> int
    decreases s.len(),
{
    if s.len() == 0 {
        0
    } else {
        active_count(s.drop_last()) + if s.last().amount > 0 {
            1int
        } else {
            0int
        }
    }
}

proof fn lemma_totals_nonneg(s: Seq<StakeAccount>)
    ensures
        0 <= total_amount(s),
        0 <= active_count(s) <= s.len(),
    decreases s.len(),
{
    if s.len() > 0 {
        lemma_totals_nonneg(s.drop_last());
    }
}

/// Appending an entry adds its principal to the sum and its activity to the
/// count.
proof fn lemma_totals_push(s: Seq<StakeAccount>, v: StakeAccount)
    ensures
        total_amount(s.push(v)) == total_amount(s) + v.amount,
        active_count(s.push(v)) == active_count(s) + if v.amount > 0 {
            1int
        } else {
            0int
        },
{
    assert(s.push(v).drop_last() =~= s);
    assert(s.push(v).last() == v);
}

/// Replacing one entry shifts the sum and the count by that entry's change.
proof fn lemma_totals_update(s: Seq<StakeAccount>, i: int, v: StakeAccount)
    requires
        0 <= i < s.len(),
    ensures
        total_amount(s.update(i, v)) == total_amount(s) - s[i].amount + v.amount,
        active_count(s.update(i, v)) == active_count(s) - (if s[i].amount > 0 {
            1int
        } else {
            0int
        }) + (if v.amount > 0 {
            1int
        } else {
            0int
        }),
    decreases s.len(),
{
    let t = s.update(i, v);
    if i == s.len() - 1 {
        assert(t.drop_last() =~= s.drop_last());
        assert(t.last() == v);
    } else {
        lemma_totals_update(s.drop_last(), i, v);
        assert(t.drop_last() =~= s.drop_last().update(i, v));
        assert(t.last() == s.last());
    }
}

/// Every entry's principal is bounded by the sum, and an active entry makes
/// the count positive.
proof fn lemma_entry_bounds(s: Seq<StakeAccount>, i: int)
    requires
        0 <= i < s.len(),
    ensures
        s[i].amount <= total_amount(s),
        s[i].amount > 0 ==> 1 <= active_count(s),
    decreases s.len(),
{
    lemma_totals_nonneg(s.drop_last());
    if i == s.len() - 1 {
        assert(s.last() == s[i]);
    } else {
        lemma_entry_bounds(s.drop_last(), i);
        assert(s.drop_last()[i] == s[i]);
    }
}

/// The pool aggregate and the per-owner stake ledger entries, as one state.
pub struct StakeLedger {
    pub pool: Pool,
    pub accounts: Vec<StakeAccount>,
}

impl StakeLedger {
    /// The global accounting invariant: owners are unique keys, the pool's
    /// aggregates agree with the entries, and every entry is consistent.
    pub open spec fn wf(self) -> bool {
        &&& forall|i: int, j: int|
            0 <= i < j < self.accounts@.len() ==> self.accounts@[i].owner
                != self.accounts@[j].owner
        &&& self.pool.total_staked == total_amount(self.accounts@)
        &&& self.pool.total_stakers == active_count(self.accounts@)
        &&& forall|i: int| 0 <= i < self.accounts@.len() ==> (#[trigger] self.accounts@[i]).wf()
    }

    /// Whether `owner` has a ledger entry.
    pub open spec fn spec_has(self, owner: u64) -> bool {
        exists|i: int| 0 <= i < self.accounts@.len() && self.accounts@[i].owner == owner
    }

    /// The position of `owner`'s entry (meaningful when `spec_has` holds).
    pub open spec fn spec_index_of(self, owner: u64) -> int {
        choose|i: int| 0 <= i < self.accounts@.len() && self.accounts@[i].owner == owner
    }

    /// `owner`'s entry (meaningful when `spec_has` holds).
    pub open spec fn spec_account(self, owner: u64) -> StakeAccount {
        self.accounts@[self.spec_index_of(owner)]
    }

    /// `owner`'s entry, or the empty entry a first deposit would start from.
    pub open spec fn entry_or_empty(self, owner: u64) -> StakeAccount {
        if self.spec_has(owner) {
            self.spec_account(owner)
        } else {
            empty_account(owner)
        }
    }

    /// `owner`'s current principal (zero without an entry).
    pub open spec fn spec_amount_of(self, owner: u64) -> int {
        self.entry_or_empty(owner).amount as int
    }

    /// A fresh ledger around an empty pool.
    pub fn new(authority: u64, reward_vault: u64) -> (l: StakeLedger)
        ensures
            l.wf(),
            l.pool == (Pool {
                authority,
                reward_vault,
                total_staked: 0,
                total_stakers: 0,
                total_penalty_pool: 0,
            }),
            l.accounts@.len() == 0,
    {
        StakeLedger { pool: initialize_pool(authority, reward_vault), accounts: Vec::new() }
    }

    /// Look up the position of `owner`'s entry.
    fn find_index(&self, owner: u64) -> (r: Option<usize>)
        ensures
            (match r {
                Some(i) => i < self.accounts@.len() && self.accounts@[i as int].owner == owner,
                None => !self.spec_has(owner),
            }),
    {
        let n = self.accounts.len();
        let mut i: usize = 0;
        while i < n
            invariant
                n == self.accounts@.len(),
                i <= n,
                forall|j: int| 0 <= j < i ==> self.accounts@[j].owner != owner,
            decreases n - i,
        {
            if self.accounts[i].owner == owner {
                return Some(i);
            }
            i = i + 1;
        }
        None
    }

    /// Read `owner`'s entry, if one exists.
    pub fn get_account(&self, owner: u64) -> (r: Option<StakeAccount>)
        requires
            self.wf(),
        ensures
            (match r {
                Some(a) => self.spec_has(owner) && a == self.spec_account(owner),
                None => !self.spec_has(owner),
            }),
    {
        match self.find_index(owner) {
            Some(i) => {
                proof {
                    lemma_found_index(*self, owner, i as int);
                }
                Some(self.accounts[i])
            },
            None => None,
        }
    }

    /// Deposit `amount` for `owner` at lock duration `lock_duration`,
    /// committing at time `now`; creates the entry on a first deposit.
    ///
    /// The caller moves `amount` from the owner's balance into pool custody
    /// after validation succeeds and commits only on a successful transfer,
    /// so a rejected or aborted deposit changes nothing.
    pub fn deposit(&mut self, owner: u64, amount: u64, lock_duration: i64, now: i64) -> (r:
        Result<(), ErrorCode>)
        requires
            old(self).wf(),
            0 <= now,
            stake_accepted(amount, lock_duration) ==> {
                &&& old(self).pool.total_staked + amount <= u64::MAX
                &&& now + lock_duration <= i64::MAX
                &&& old(self).pool.total_stakers < u64::MAX
                &&& old(self).accounts@.len() < usize::MAX
            },
        ensures
            final(self).wf(),
            (r is Ok <==> stake_accepted(amount, lock_duration)),
            (r is Err ==> *final(self) == *old(self)),
            (amount == 0 ==> r == Err::<(), ErrorCode>(ErrorCode::InvalidAmount)),
            (amount > 0 && !valid_lock_duration(lock_duration) ==> r == Err::<(), ErrorCode>(
                ErrorCode::InvalidLockDuration,
            )),
            (r is Ok ==> {
                &&& final(self).spec_has(owner)
                &&& final(self).pool == (Pool {
                    total_staked: (old(self).pool.total_staked + amount) as u64,
                    total_stakers: if old(self).entry_or_empty(owner).amount == 0 {
                        (old(self).pool.total_stakers + 1) as u64
                    } else {
                        old(self).pool.total_stakers
                    },
                    ..old(self).pool
                })
                &&& final(self).spec_amount_of(owner) == old(self).spec_amount_of(owner) + amount
                &&& final(self).spec_account(owner) == staked_account(
                    old(self).entry_or_empty(owner),
                    owner,
                    amount,
                    lock_duration,
                    now,
                )
                &&& final(self).accounts@.len() == old(self).accounts@.len() + (
                if old(self).spec_has(owner) {
                    0int
                } else {
                    1int
                })
                &&& forall|o: u64|
                    o != owner ==> #[trigger] final(self).entry_or_empty(o)
                        == old(self).entry_or_empty(o)
            }),
    {
        if amount == 0 {
            return Err(ErrorCode::InvalidAmount);
        }
        if !(lock_duration == crate::rewards::LOCK_30_DAYS || lock_duration
            == crate::rewards::LOCK_90_DAYS || lock_duration == crate::rewards::LOCK_180_DAYS
            || lock_duration == crate::rewards::LOCK_365_DAYS) {
            return Err(ErrorCode::InvalidLockDuration);
        }
        let idx: usize;
        match self.find_index(owner) {
            Some(i) => {
                idx = i;
                proof {
                    lemma_found_index(*old(self), owner, idx as int);
                }
            },
            None => {
                idx = self.accounts.len();
                self.accounts.push(StakeAccount::new(owner));
                proof {
                    lemma_totals_push(old(self).accounts@, empty_account(owner));
                    assert forall|a: int, b: int|
                        0 <= a < b < self.accounts@.len() implies self.accounts@[a].owner
                        != self.accounts@[b].owner by {
                        if b == old(self).accounts@.len() {
                            assert(self.accounts@[a] == old(self).accounts@[a]);
                            assert(old(self).accounts@[a].owner != owner);
                        } else {
                            assert(self.accounts@[a] == old(self).accounts@[a]);
                            assert(self.accounts@[b] == old(self).accounts@[b]);
                        }
                    }
                    lemma_push_frame(*old(self), *self, owner);
                }
            },
        }
        proof {
            lemma_entry_bounds(self.accounts@, idx as int);
            assert(self.accounts@[idx as int].owner == owner);
            assert(self.accounts@[idx as int] == old(self).entry_or_empty(owner));
        }
        let ghost base = *self;
        let mut entry = self.accounts[idx];
        let mut pool = self.pool;
        let res = stake(&mut pool, &mut entry, owner, amount, lock_duration, now);
        self.accounts[idx] = entry;
        self.pool = pool;
        proof {
            let s0 = base.accounts@;
            let s1 = self.accounts@;
            assert(s1 =~= s0.update(idx as int, entry));
            lemma_totals_update(s0, idx as int, entry);
            assert(entry.owner == owner);
            assert forall|a: int, b: int|
                0 <= a < b < s1.len() implies s1[a].owner != s1[b].owner by {
                assert(s0[a].owner != s0[b].owner);
                assert(a != idx as int ==> s1[a] == s0[a]);
                assert(b != idx as int ==> s1[b] == s0[b]);
            }
            lemma_deposit_frame(base, *self, owner, idx as int);
            lemma_found_index(*self, owner, idx as int);
            assert(self.pool.total_staked == total_amount(s1));
            assert(self.pool.total_stakers == active_count(s1));
        }
        res
    }

    /// Settle `owner`'s accrued yield at time `now`.
    ///
    /// Returns the payout owed from the reward vault; the caller commits only
    /// when that transfer succeeds. An owner with no entry, like one whose
    /// last settlement is not yet in the past, has nothing to claim.
    pub fn claim(&mut self, owner: u64, now: i64) -> (r: Result<u64, ErrorCode>)
        requires
            old(self).wf(),
            0 <= now,
            (old(self).spec_has(owner) && now > old(self).spec_account(owner).last_claim) ==> {
                &&& annual_reward(
                    old(self).spec_account(owner).amount as int,
                    old(self).spec_account(owner).apy_basis_points as int,
                ) * (now - old(self).spec_account(owner).last_claim) <= u128::MAX
                &&& claim_payout(old(self).spec_account(owner), now) <= u64::MAX
                &&& old(self).spec_account(owner).total_claimed + claim_payout(
                    old(self).spec_account(owner),
                    now,
                ) <= u64::MAX
            },
        ensures
            final(self).wf(),
            (r is Ok <==> old(self).spec_has(owner) && now > old(self).spec_account(
                owner,
            ).last_claim),
            (r is Err ==> r == Err::<u64, ErrorCode>(ErrorCode::NoRewardsToClaim) && *final(self)
                == *old(self)),
            (r is Ok ==> {
                &&& r == Ok::<u64, ErrorCode>(
                    claim_payout(old(self).spec_account(owner), now) as u64,
                )
                &&& final(self).pool == old(self).pool
                &&& final(self).accounts@.len() == old(self).accounts@.len()
                &&& final(self).spec_has(owner)
                &&& final(self).spec_account(owner) == (StakeAccount {
                    last_claim: now,
                    total_claimed: (old(self).spec_account(owner).total_claimed + claim_payout(
                        old(self).spec_account(owner),
                        now,
                    )) as u64,
                    ..old(self).spec_account(owner)
                })
                &&& forall|o: u64|
                    o != owner ==> #[trigger] final(self).entry_or_empty(o)
                        == old(self).entry_or_empty(o)
            }),
    {
        let idx: usize;
        match self.find_index(owner) {
            Some(i) => {
                idx = i;
            },
            None => {
                return Err(ErrorCode::NoRewardsToClaim);
            },
        }
        proof {
            lemma_found_index(*self, owner, idx as int);
        }
        if now - self.accounts[idx].last_claim <= 0 {
            return Err(ErrorCode::NoRewardsToClaim);
        }
        let ghost base = *self;
        let mut entry = self.accounts[idx];
        let res = claim_rewards(&mut entry, now);
        self.accounts[idx] = entry;
        proof {
            lemma_totals_update(base.accounts@, idx as int, entry);
            lemma_deposit_frame(base, *self, owner, idx as int);
            lemma_found_index(*self, owner, idx as int);
        }
        res
    }

    /// Withdraw `owner`'s whole principal at time `now`.
    ///
    /// Returns `(payout, penalty)`: before `lock_until` twenty percent is
    /// withheld into the pool's penalty reserve, afterwards the principal is
    /// returned whole. The caller moves `payout` from pool custody back to
    /// the owner and commits only when that transfer succeeds. The entry
    /// stays in the ledger, reset to empty with its history kept.
    pub fn withdraw(&mut self, owner: u64, now: i64) -> (r: Result<(u64, u64), ErrorCode>)
        requires
            old(self).wf(),
            (old(self).spec_has(owner) && now < old(self).spec_account(owner).lock_until)
                ==> old(self).pool.total_penalty_pool + spec_penalty(old(self).spec_account(owner).amount)
                <= u64::MAX,
        ensures
            final(self).wf(),
            (r is Ok <==> old(self).spec_has(owner) && old(self).spec_account(owner).amount > 0),
            (r is Err ==> r == Err::<(u64, u64), ErrorCode>(ErrorCode::NothingToUnstake)
                && *final(self) == *old(self)),
            (r is Ok ==> ({
                let amount = old(self).spec_account(owner).amount;
                let penalty: int = if now < old(self).spec_account(owner).lock_until {
                    spec_penalty(amount)
                } else {
                    0
                };
                &&& r == Ok::<(u64, u64), ErrorCode>(
                    ((amount - penalty) as u64, penalty as u64),
                )
                &&& final(self).pool == (Pool {
                    total_staked: (old(self).pool.total_staked - amount) as u64,
                    total_stakers: (old(self).pool.total_stakers - 1) as u64,
                    total_penalty_pool: (old(self).pool.total_penalty_pool + penalty) as u64,
                    ..old(self).pool
                })
                &&& final(self).accounts@.len() == old(self).accounts@.len()
                &&& final(self).spec_has(owner)
                &&& final(self).spec_account(owner) == (StakeAccount {
                    amount: 0,
                    tier: crate::rewards::Tier::NoTier,
                    ..old(self).spec_account(owner)
                })
                &&& forall|o: u64|
                    o != owner ==> #[trigger] final(self).entry_or_empty(o)
                        == old(self).entry_or_empty(o)
            })),
    {
        let idx: usize;
        match self.find_index(owner) {
            Some(i) => {
                idx = i;
            },
            None => {
                return Err(ErrorCode::NothingToUnstake);
            },
        }
        proof {
            lemma_found_index(*self, owner, idx as int);
        }
        if self.accounts[idx].amount == 0 {
            return Err(ErrorCode::NothingToUnstake);
        }
        proof {
            lemma_entry_bounds(self.accounts@, idx as int);
        }
        let ghost base = *self;
        let mut entry = self.accounts[idx];
        let mut pool = self.pool;
        let res = unstake(&mut pool, &mut entry, now);
        self.accounts[idx] = entry;
        self.pool = pool;
        proof {
            lemma_totals_update(base.accounts@, idx as int, entry);
            lemma_deposit_frame(base, *self, owner, idx as int);
            lemma_found_index(*self, owner, idx as int);
        }
        res
    }
}

/// An index whose entry carries `owner` is the one the ledger's lookup
/// denotes: owners are unique keys.
proof fn lemma_found_index(l: StakeLedger, owner: u64, i: int)
    requires
        forall|a: int, b: int|
            0 <= a < b < l.accounts@.len() ==> l.accounts@[a].owner != l.accounts@[b].owner,
        0 <= i < l.accounts@.len(),
        l.accounts@[i].owner == owner,
    ensures
        l.spec_has(owner),
        l.spec_index_of(owner) == i,
{
    assert(l.spec_has(owner));
    let j = l.spec_index_of(owner);
    if j < i {
        assert(l.accounts@[j].owner != l.accounts@[i].owner);
    } else if i < j {
        assert(l.accounts@[i].owner != l.accounts@[j].owner);
    }
}

/// Appending a fresh entry for one owner leaves every other owner's view of
/// the ledger unchanged.
proof fn lemma_push_frame(pre: StakeLedger, post: StakeLedger, owner: u64)
    requires
        post.accounts@ == pre.accounts@.push(empty_account(owner)),
        forall|a: int, b: int|
            0 <= a < b < post.accounts@.len() ==> post.accounts@[a].owner
                != post.accounts@[b].owner,
    ensures
        forall|o: u64|
            o != owner ==> #[trigger] post.entry_or_empty(o) == pre.entry_or_empty(o),
{
    assert forall|o: u64| o != owner implies #[trigger] post.entry_or_empty(o)
        == pre.entry_or_empty(o) by {
        if pre.spec_has(o) {
            let k = pre.spec_index_of(o);
            assert(0 <= k < pre.accounts@.len() && pre.accounts@[k].owner == o);
            assert(post.accounts@[k] == pre.accounts@[k]);
            lemma_found_index(post, o, k);
        } else {
            if post.spec_has(o) {
                let k = post.spec_index_of(o);
                assert(0 <= k < post.accounts@.len() && post.accounts@[k].owner == o);
                assert(k < pre.accounts@.len());
                assert(pre.accounts@[k].owner == o);
                assert(pre.spec_has(o));
            }
        }
    }
}

/// When one position changes and every other entry is carried over, every
/// other owner's view of the ledger is unchanged.
proof fn lemma_deposit_frame(pre: StakeLedger, post: StakeLedger, owner: u64, idx: int)
    requires
        forall|a: int, b: int|
            0 <= a < b < pre.accounts@.len() ==> pre.accounts@[a].owner != pre.accounts@[b].owner,
        forall|a: int, b: int|
            0 <= a < b < post.accounts@.len() ==> post.accounts@[a].owner
                != post.accounts@[b].owner,
        0 <= idx < pre.accounts@.len(),
        post.accounts@.len() == pre.accounts@.len(),
        pre.accounts@[idx].owner == owner,
        post.accounts@[idx].owner == owner,
        forall|k: int| 0 <= k < pre.accounts@.len() && k != idx ==> post.accounts@[k] == pre.accounts@[k],
    ensures
        forall|o: u64|
            o != owner ==> #[trigger] post.entry_or_empty(o) == pre.entry_or_empty(o),
{
    assert forall|o: u64| o != owner implies #[trigger] post.entry_or_empty(o)
        == pre.entry_or_empty(o) by {
        if pre.spec_has(o) {
            let k = pre.spec_index_of(o);
            assert(0 <= k < pre.accounts@.len() && pre.accounts@[k].owner == o);
            assert(k != idx);
            assert(post.accounts@[k].owner == o);
            lemma_found_index(post, o, k);
        } else {
            if post.spec_has(o) {
                let k = post.spec_index_of(o);
                assert(0 <= k < post.accounts@.len() && post.accounts@[k].owner == o);
                assert(k != idx);
                assert(pre.accounts@[k].owner == o);
                assert(pre.spec_has(o));
            }
        }
    }
}

/// A full withdrawal resets the owner's entry but keeps it in the ledger, so
/// the owner's next deposit is accepted like any valid request and lands on
/// that same entry: re-priced afresh, counted as a returning participant,
/// with the lifetime claim history preserved.
pub proof fn lemma_reentry_after_withdraw(
    l: StakeLedger,
    owner: u64,
    amount: u64,
    lock_duration: i64,
    now: i64,
)
    requires
        l.wf(),
        l.spec_has(owner),
        l.spec_account(owner).amount == 0,
        amount > 0,
        valid_lock_duration(lock_duration),
    ensures
        stake_accepted(amount, lock_duration),
        ({
            let e = staked_account(l.entry_or_empty(owner), owner, amount, lock_duration, now);
            &&& e.owner == owner
            &&& e.amount == amount
            &&& e.start_time == now
            &&& e.total_claimed == l.spec_account(owner).total_claimed
            &&& e.tier == crate::rewards::spec_classify(amount)
        }),
{
}

} // verus!
