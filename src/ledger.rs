//! The coin ledger: per-user balances and the append-only log of coin
//! transactions. It is the only part of the library that changes a balance.
use vstd::prelude::*;

use crate::clock::new_uuid;
use crate::common::{newest_first, page_end, page_range, page_start, PaginatedResponse, Pagination, PaginationMeta};
use crate::error::AppError;
use crate::sums::{lemma_sum_push, lemma_sum_update, sum};
use crate::user::{CoinReason, CoinTransaction};

verus! {

/// The coin balance of one user.
#[derive(Debug, Clone, Copy, PartialEq, Eq, Structural)]
pub struct CoinAccount {
    pub user_id: u128,
    pub coin_balance: i32,
}

/// No two accounts belong to the same user.
pub open spec fn user_ids_unique(a: Seq<CoinAccount>) -> bool {
    forall|i: int, j: int|
        0 <= i < a.len() && 0 <= j < a.len() && (#[trigger] a[i]).user_id == (#[trigger] a[j]).user_id
            ==> i == j
}

/// Some account belongs to `id`.
pub open spec fn has_account(a: Seq<CoinAccount>, id: u128) -> bool {
    exists|i: int| 0 <= i < a.len() && (#[trigger] a[i]).user_id == id
}

/// The position of the account of `id`.
pub open spec fn account_index(a: Seq<CoinAccount>, id: u128) -> int {
    choose|i: int| 0 <= i < a.len() && (#[trigger] a[i]).user_id == id
}

/// Each account's balance, in order.
pub open spec fn balance_values(a: Seq<CoinAccount>) -> Seq<int> {
    a.map_values(|x: CoinAccount| x.coin_balance as int)
}

/// With unique user ids, the account at `i` is the one found for its user.
pub proof fn lemma_account_index(a: Seq<CoinAccount>, i: int)
    requires
        user_ids_unique(a),
        0 <= i < a.len(),
    ensures
        has_account(a, a[i].user_id),
        account_index(a, a[i].user_id) == i,
{
    assert(has_account(a, a[i].user_id));
}

/// Whether `t` is the log entry of a movement of `amount` coins on `user_id`'s
/// balance, for `reason`, that left the balance at `balance_after`.
pub open spec fn logs_movement(
    t: CoinTransaction,
    user_id: u128,
    amount: int,
    reason: CoinReason,
    reference_id: Option<u128>,
    balance_after: int,
    now: i64,
) -> bool {
    &&& t.user_id == user_id
    &&& t.amount == amount
    &&& t.reason == reason
    &&& t.reference_id == reference_id
    &&& t.balance_after == balance_after
    &&& t.created_at == now
}

/// Per-user balances and the log of every change made to them.
pub struct UserService {
    pub accounts: Vec<CoinAccount>,
    pub transactions: Vec<CoinTransaction>,
}

impl UserService {
    /// One account per user, and no balance below zero.
    pub open spec fn wf(&self) -> bool {
        &&& user_ids_unique(self.accounts@)
        &&& forall|i: int| 0 <= i < self.accounts@.len() ==> (#[trigger] self.accounts@[i]).coin_balance >= 0
    }

    /// The balance of each user that has an account.
    pub open spec fn balances(&self) -> Map<u128, int> {
        Map::new(
            |id: u128| has_account(self.accounts@, id),
            |id: u128| self.accounts@[account_index(self.accounts@, id)].coin_balance as int,
        )
    }

    /// All coins held in balances.
    pub open spec fn total(&self) -> int {
        sum(balance_values(self.accounts@))
    }

    /// The log after one more entry that `logs_movement` describes.
    pub open spec fn logged_one(
        &self,
        old: &UserService,
        user_id: u128,
        amount: int,
        reason: CoinReason,
        reference_id: Option<u128>,
        balance_after: int,
        now: i64,
    ) -> bool {
        &&& self.transactions@.len() == old.transactions@.len() + 1
        &&& self.transactions@ == old.transactions@.push(self.transactions@.last())
        &&& logs_movement(self.transactions@.last(), user_id, amount, reason, reference_id, balance_after, now)
    }

    /// An empty ledger.
    pub fn new() -> (r: UserService)
        ensures
            r.wf(),
            r.balances() == Map::<u128, int>::empty(),
            r.transactions@ == Seq::<CoinTransaction>::empty(),
            r.accounts@ == Seq::<CoinAccount>::empty(),
            r.total() == 0,
    {
        let r = UserService { accounts: Vec::new(), transactions: Vec::new() };
        assert(r.balances() =~= Map::<u128, int>::empty());
        assert(balance_values(r.accounts@) =~= Seq::<int>::empty());
        r
    }

    /// The position of `user_id`'s account, if there is one.
    pub fn find_account(&self, user_id: u128) -> (r: Option<usize>)
        requires
            self.wf(),
        ensures
            r is None <==> !has_account(self.accounts@, user_id),
            r matches Some(i) ==> i < self.accounts@.len() && self.accounts@[i as int].user_id == user_id
                && account_index(self.accounts@, user_id) == i,
    {
        let mut i: usize = 0;
        while i < self.accounts.len()
            invariant
                self.wf(),
                i <= self.accounts@.len(),
                forall|j: int| 0 <= j < i ==> (#[trigger] self.accounts@[j]).user_id != user_id,
            decreases self.accounts.len() - i,
        {
            if self.accounts[i].user_id == user_id {
                proof {
                    lemma_account_index(self.accounts@, i as int);
                }
                return Some(i);
            }
            i = i + 1;
        }
        None
    }

    /// Sets the balance of the account at `i` to `balance`.
    fn set_balance(&mut self, i: usize, balance: i32)
        requires
            old(self).wf(),
            i < old(self).accounts@.len(),
            balance >= 0,
        ensures
            final(self).wf(),
            final(self).transactions@ == old(self).transactions@,
            final(self).balances() == old(self).balances().insert(
                old(self).accounts@[i as int].user_id,
                balance as int,
            ),
            final(self).total() == old(self).total() - old(self).accounts@[i as int].coin_balance + balance,
    {
        let ghost before = self.accounts@;
        let user_id = self.accounts[i].user_id;
        self.accounts.set(i, CoinAccount { user_id, coin_balance: balance });
        let ghost after = self.accounts@;
        proof {
            assert(after =~= before.update(i as int, CoinAccount { user_id, coin_balance: balance }));
            assert forall|a: int, b: int|
                0 <= a < after.len() && 0 <= b < after.len() && (#[trigger] after[a]).user_id == (#[trigger] after[b]).user_id
                implies a == b by {
                assert(before[a].user_id == after[a].user_id);
                assert(before[b].user_id == after[b].user_id);
            }
            assert forall|id: u128| has_account(after, id) <==> has_account(before, id) by {
                if has_account(after, id) {
                    let k = account_index(after, id);
                    assert(before[k].user_id == id);
                }
                if has_account(before, id) {
                    let k = account_index(before, id);
                    assert(after[k].user_id == id);
                }
            }
            assert forall|id: u128| #[trigger] has_account(after, id) && id != user_id
                implies after[account_index(after, id)].coin_balance == before[account_index(before, id)].coin_balance by {
                let k = account_index(before, id);
                assert(after[k].user_id == id);
                lemma_account_index(after, k);
            }
            lemma_account_index(after, i as int);
            assert(self.balances() =~= old(self).balances().insert(user_id, balance as int));
            assert(balance_values(after) =~= balance_values(before).update(i as int, balance as int));
            lemma_sum_update(balance_values(before), i as int, balance as int);
        }
    }

    /// Opens an account for `user_id` holding `initial_balance` coins.
    /// Fails with `InvalidAmount` on a negative amount and with `Conflict` when
    /// the user already has an account; the ledger is then unchanged.
    pub fn open_account(&mut self, user_id: u128, initial_balance: i32) -> (r: Result<(), AppError>)
        requires
            old(self).wf(),
        ensures
            final(self).wf(),
            final(self).transactions@ == old(self).transactions@,
            initial_balance < 0 ==> r == Err::<(), AppError>(AppError::InvalidAmount),
            initial_balance >= 0 && has_account(old(self).accounts@, user_id) ==> r == Err::<(), AppError>(AppError::Conflict),
            r is Err ==> *final(self) == *old(self),
            r is Ok ==> final(self).balances() == old(self).balances().insert(user_id, initial_balance as int)
                && final(self).total() == old(self).total() + initial_balance,
            r is Ok <==> initial_balance >= 0 && !has_account(old(self).accounts@, user_id),
    {
        if initial_balance < 0 {
            return Err(AppError::InvalidAmount);
        }
        if self.find_account(user_id).is_some() {
            return Err(AppError::Conflict);
        }
        let ghost before = self.accounts@;
        let acc = CoinAccount { user_id, coin_balance: initial_balance };
        self.accounts.push(acc);
        let ghost after = self.accounts@;
        proof {
            assert(after =~= before.push(acc));
            assert forall|a: int, b: int|
                0 <= a < after.len() && 0 <= b < after.len() && (#[trigger] after[a]).user_id == (#[trigger] after[b]).user_id
                implies a == b by {
                if a < before.len() && b < before.len() {
                    assert(before[a].user_id == before[b].user_id);
                } else if a < before.len() {
                    assert(before[a].user_id == user_id);
                } else if b < before.len() {
                    assert(before[b].user_id == user_id);
                }
            }
            assert forall|id: u128| has_account(after, id) <==> (has_account(before, id) || id == user_id) by {
                if has_account(after, id) {
                    let k = account_index(after, id);
                    if k < before.len() {
                        assert(before[k].user_id == id);
                    }
                }
                if has_account(before, id) {
                    let k = account_index(before, id);
                    assert(after[k].user_id == id);
                }
                if id == user_id {
                    assert(after[before.len() as int].user_id == id);
                }
            }
            assert forall|id: u128| #[trigger] has_account(after, id) && id != user_id
                implies after[account_index(after, id)].coin_balance == before[account_index(before, id)].coin_balance by {
                let k = account_index(before, id);
                assert(after[k].user_id == id);
                lemma_account_index(after, k);
            }
            lemma_account_index(after, before.len() as int);
            assert(self.balances() =~= old(self).balances().insert(user_id, initial_balance as int));
            assert(balance_values(after) =~= balance_values(before).push(initial_balance as int));
            lemma_sum_push(balance_values(before), initial_balance as int);
        }
        Ok(())
    }

    /// The balance of `user_id`; `NotFound` when the user has no account.
    pub fn get_coin_balance(&self, user_id: u128) -> (r: Result<i32, AppError>)
        requires
            self.wf(),
        ensures
            self.balances().contains_key(user_id) ==> r == Ok::<i32, AppError>(self.balances()[user_id] as i32),
            !self.balances().contains_key(user_id) ==> r == Err::<i32, AppError>(AppError::NotFound),
    {
        match self.find_account(user_id) {
            Some(i) => Ok(self.accounts[i].coin_balance),
            None => Err(AppError::NotFound),
        }
    }

    /// The log entries of `user_id`, newest first.
    pub open spec fn history_of(&self, user_id: u128) -> Seq<CoinTransaction> {
        newest_first(self.transactions@, |t: CoinTransaction| t.user_id == user_id, 0)
    }

    /// One page of the log entries of `user_id`, newest first, with the
    /// paging figures over all of them; `NotFound` when the user has no account.
    pub fn get_coin_history(&self, user_id: u128, pagination: Pagination) -> (r: Result<
        PaginatedResponse<CoinTransaction>,
        AppError,
    >)
        requires
            self.wf(),
        ensures
            !has_account(self.accounts@, user_id) ==> r is Err && r->Err_0 == AppError::NotFound,
            has_account(self.accounts@, user_id) ==> (r matches Ok(resp) && {
                let all = self.history_of(user_id);
                let lo = page_start(pagination, all.len() as int);
                let hi = page_end(pagination, all.len() as int);
                &&& resp.data@ == all.subrange(lo, hi)
                &&& resp.pagination.page == pagination.page
                &&& resp.pagination.page_size == pagination.page_size
                &&& resp.pagination.total_count == #[verifier::truncate] (all.len() as i64)
            }),
    {
        if self.find_account(user_id).is_none() {
            return Err(AppError::NotFound);
        }
        let mut all: Vec<CoinTransaction> = Vec::new();
        let mut i: usize = self.transactions.len();
        while i > 0
            invariant
                i <= self.transactions@.len(),
                all@ == newest_first(self.transactions@, |t: CoinTransaction| t.user_id == user_id, i as int),
            decreases i,
        {
            i = i - 1;
            let t = self.transactions[i];
            if t.user_id == user_id {
                all.push(t);
            }
        }
        let len = all.len();
        let (lo, hi) = page_range(&pagination, len);
        let mut data: Vec<CoinTransaction> = Vec::new();
        let mut k: usize = lo;
        while k < hi
            invariant
                lo <= k <= hi <= all@.len(),
                data@ == all@.subrange(lo as int, k as int),
            decreases hi - k,
        {
            data.push(all[k]);
            k = k + 1;
            assert(data@ =~= all@.subrange(lo as int, k as int));
        }
        let total_count: i64 = #[verifier::truncate] (len as i64);
        let meta = PaginationMeta::new(pagination.page, pagination.page_size, total_count);
        Ok(PaginatedResponse { data, pagination: meta })
    }

    /// Credits `amount` coins to `user_id` and logs the movement; returns the
    /// new balance. Fails, changing nothing, with `InvalidAmount` when
    /// `amount <= 0`, `NotFound` when the user has no account, and `Internal`
    /// when the new balance would not fit in an `i32`.
    pub fn add_coins(
        &mut self,
        user_id: u128,
        amount: i32,
        reason: CoinReason,
        reference_id: Option<u128>,
        now: i64,
    ) -> (r: Result<i32, AppError>)
        requires
            old(self).wf(),
        ensures
            final(self).wf(),
            r is Err ==> *final(self) == *old(self),
            amount <= 0 ==> r == Err::<i32, AppError>(AppError::InvalidAmount),
            amount > 0 && !old(self).balances().contains_key(user_id) ==> r == Err::<i32, AppError>(AppError::NotFound),
            amount > 0 && old(self).balances().contains_key(user_id) ==> {
                let after = old(self).balances()[user_id] + amount;
                if after <= i32::MAX {
                    &&& r == Ok::<i32, AppError>(after as i32)
                    &&& final(self).balances() == old(self).balances().insert(user_id, after)
                    &&& final(self).total() == old(self).total() + amount
                    &&& final(self).logged_one(old(self), user_id, amount as int, reason, reference_id, after, now)
                } else {
                    r == Err::<i32, AppError>(AppError::Internal)
                }
            },
    {
        if amount <= 0 {
            return Err(AppError::InvalidAmount);
        }
        let i = match self.find_account(user_id) {
            Some(i) => i,
            None => return Err(AppError::NotFound),
        };
        let current = self.accounts[i].coin_balance;
        if current > i32::MAX - amount {
            return Err(AppError::Internal);
        }
        let new_balance = current + amount;
        self.set_balance(i, new_balance);
        let tx = CoinTransaction {
            id: new_uuid(),
            user_id,
            amount,
            reason,
            reference_id,
            balance_after: new_balance,
            created_at: now,
        };
        self.transactions.push(tx);
        Ok(new_balance)
    }

    /// Debits `amount` coins from `user_id` and logs the movement; returns the
    /// new balance. Fails, changing nothing, with `InvalidAmount` when
    /// `amount <= 0`, `NotFound` when the user has no account, and
    /// `InsufficientBalance` when the balance is below `amount`.
    pub fn deduct_coins(
        &mut self,
        user_id: u128,
        amount: i32,
        reason: CoinReason,
        reference_id: Option<u128>,
        now: i64,
    ) -> (r: Result<i32, AppError>)
        requires
            old(self).wf(),
        ensures
            final(self).wf(),
            r is Err ==> *final(self) == *old(self),
            amount <= 0 ==> r == Err::<i32, AppError>(AppError::InvalidAmount),
            amount > 0 && !old(self).balances().contains_key(user_id) ==> r == Err::<i32, AppError>(AppError::NotFound),
            amount > 0 && old(self).balances().contains_key(user_id) ==> {
                let after = old(self).balances()[user_id] - amount;
                if after >= 0 {
                    &&& r == Ok::<i32, AppError>(after as i32)
                    &&& final(self).balances() == old(self).balances().insert(user_id, after)
                    &&& final(self).total() == old(self).total() - amount
                    &&& final(self).logged_one(old(self), user_id, -amount, reason, reference_id, after, now)
                } else {
                    r == Err::<i32, AppError>(AppError::InsufficientBalance)
                }
            },
    {
        if amount <= 0 {
            return Err(AppError::InvalidAmount);
        }
        let i = match self.find_account(user_id) {
            Some(i) => i,
            None => return Err(AppError::NotFound),
        };
        let current = self.accounts[i].coin_balance;
        if current < amount {
            return Err(AppError::InsufficientBalance);
        }
        let new_balance = current - amount;
        self.set_balance(i, new_balance);
        let tx = CoinTransaction {
            id: new_uuid(),
            user_id,
            amount: -amount,
            reason,
            reference_id,
            balance_after: new_balance,
            created_at: now,
        };
        self.transactions.push(tx);
        Ok(new_balance)
    }
}

} // verus!
