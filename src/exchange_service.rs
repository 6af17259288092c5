//! The exchange state machine over an in-memory store: cards, collections,
//! exchange requests, exchange records, and the coin ledger that escrows the
//! price of each pending request.
use vstd::prelude::*;

use crate::clock::new_uuid;
use crate::common::{newest_first, page_end, page_range, page_start, Pagination};
use crate::config::Config;
use crate::error::AppError;
use crate::exchange::{
    exchange_price, expiration_time, popularity_bonus, price_fits, seen_by, spec_expiration_time,
    ExchangeHistoryResponse, ExchangePriceInfo, ExchangeRecord, ExchangeRecordRow,
    ExchangeRequestRow, ExchangeResult, ExchangeStatus, ExpirationProcessingResult,
};
use crate::ledger::{has_account, UserService};
use crate::sums::{lemma_sum_push, lemma_sum_update, sum};
use crate::user::CoinReason;

verus! {

/// What the exchange reads of a card and the one counter it changes.
#[derive(Debug, Clone, Copy, PartialEq, Eq, Structural)]
pub struct CardEntry {
    pub id: u128,
    pub owner_id: u128,
    pub base_price: i32,
    pub like_count: i32,
    pub exchange_count: i32,
    pub is_deleted: bool,
}

/// A card in a user's collection.
#[derive(Debug, Clone, Copy, PartialEq, Eq, Structural)]
pub struct CardCollection {
    pub id: u128,
    pub user_id: u128,
    pub card_id: u128,
    pub folder_id: Option<u128>,
    pub collected_at: i64,
}

/// No two cards share an id.
pub open spec fn card_ids_unique(c: Seq<CardEntry>) -> bool {
    forall|i: int, j: int|
        0 <= i < c.len() && 0 <= j < c.len() && (#[trigger] c[i]).id == (#[trigger] c[j]).id ==> i == j
}

/// Some card has id `id`.
pub open spec fn has_card(c: Seq<CardEntry>, id: u128) -> bool {
    exists|i: int| 0 <= i < c.len() && (#[trigger] c[i]).id == id
}

/// The position of the card with id `id`.
pub open spec fn card_index(c: Seq<CardEntry>, id: u128) -> int {
    choose|i: int| 0 <= i < c.len() && (#[trigger] c[i]).id == id
}

/// With unique ids, the card at `i` is the one found for its id.
pub proof fn lemma_card_index(c: Seq<CardEntry>, i: int)
    requires
        card_ids_unique(c),
        0 <= i < c.len(),
    ensures
        has_card(c, c[i].id),
        card_index(c, c[i].id) == i,
{
    assert(has_card(c, c[i].id));
}

/// No two requests share an id.
pub open spec fn request_ids_unique(r: Seq<ExchangeRequestRow>) -> bool {
    forall|i: int, j: int|
        0 <= i < r.len() && 0 <= j < r.len() && (#[trigger] r[i]).id == (#[trigger] r[j]).id ==> i == j
}

/// Some request has id `id`.
pub open spec fn has_request(r: Seq<ExchangeRequestRow>, id: u128) -> bool {
    exists|i: int| 0 <= i < r.len() && (#[trigger] r[i]).id == id
}

/// The position of the request with id `id`.
pub open spec fn request_index(r: Seq<ExchangeRequestRow>, id: u128) -> int {
    choose|i: int| 0 <= i < r.len() && (#[trigger] r[i]).id == id
}

/// With unique ids, the request at `i` is the one found for its id.
pub proof fn lemma_request_index(r: Seq<ExchangeRequestRow>, i: int)
    requires
        request_ids_unique(r),
        0 <= i < r.len(),
    ensures
        has_request(r, r[i].id),
        request_index(r, r[i].id) == i,
{
    assert(has_request(r, r[i].id));
}

/// `requester_id` has a pending request for `card_id`.
pub open spec fn has_pending_request(r: Seq<ExchangeRequestRow>, requester_id: u128, card_id: u128) -> bool {
    exists|i: int|
        0 <= i < r.len() && (#[trigger] r[i]).requester_id == requester_id && r[i].card_id == card_id
            && r[i].status is Pending
}

/// `user_id` has `card_id` in their collection.
pub open spec fn has_collected(c: Seq<CardCollection>, user_id: u128, card_id: u128) -> bool {
    exists|i: int| 0 <= i < c.len() && (#[trigger] c[i]).user_id == user_id && c[i].card_id == card_id
}

/// No card stands twice in one user's collection.
pub open spec fn collections_unique(c: Seq<CardCollection>) -> bool {
    forall|i: int, j: int|
        0 <= i < c.len() && 0 <= j < c.len() && (#[trigger] c[i]).user_id == (#[trigger] c[j]).user_id
            && c[i].card_id == c[j].card_id ==> i == j
}

/// The coins each request holds in escrow: its amount while pending, else nothing.
pub open spec fn escrow_values(r: Seq<ExchangeRequestRow>) -> Seq<int> {
    r.map_values(|q: ExchangeRequestRow| if q.status is Pending { q.coin_amount as int } else { 0 })
}

/// The price of a card from its live counters.
pub open spec fn card_price(c: CardEntry) -> int {
    exchange_price(c.base_price as int, c.like_count as int, c.exchange_count as int)
}

/// The request `q` after it moved to `status` at time `now`.
pub open spec fn with_status(q: ExchangeRequestRow, status: ExchangeStatus, now: i64) -> ExchangeRequestRow {
    ExchangeRequestRow { status, updated_at: now, ..q }
}

/// The exchange store: the ledger and everything an exchange reads or writes.
pub struct ExchangeService {
    pub ledger: UserService,
    pub cards: Vec<CardEntry>,
    pub collections: Vec<CardCollection>,
    pub requests: Vec<ExchangeRequestRow>,
    pub records: Vec<ExchangeRecordRow>,
    pub config: Config,
}

impl ExchangeService {
    /// The store's invariant: ids are unique, every card owner and every party
    /// of a request has an account, every request names a stored card, no
    /// request is between a user and themselves, every amount is positive.
    pub open spec fn wf(&self) -> bool {
        &&& self.ledger.wf()
        &&& card_ids_unique(self.cards@)
        &&& forall|i: int| 0 <= i < self.cards@.len() ==> {
            let c = #[trigger] self.cards@[i];
            &&& c.like_count >= 0
            &&& c.exchange_count >= 0
            &&& has_account(self.ledger.accounts@, c.owner_id)
        }
        &&& request_ids_unique(self.requests@)
        &&& forall|i: int| 0 <= i < self.requests@.len() ==> {
            let q = #[trigger] self.requests@[i];
            &&& has_account(self.ledger.accounts@, q.requester_id)
            &&& has_account(self.ledger.accounts@, q.owner_id)
            &&& has_card(self.cards@, q.card_id)
            &&& q.requester_id != q.owner_id
            &&& q.coin_amount > 0
        }
        &&& collections_unique(self.collections@)
    }

    /// Coins in balances plus coins in escrow.
    pub open spec fn total_coins(&self) -> int {
        self.ledger.total() + self.escrowed()
    }

    /// Coins held in escrow by pending requests.
    pub open spec fn escrowed(&self) -> int {
        sum(escrow_values(self.requests@))
    }

    /// The balance of `user_id`.
    pub open spec fn balance(&self, user_id: u128) -> int {
        self.ledger.balances()[user_id]
    }

    /// The request with id `id`.
    pub open spec fn request(&self, id: u128) -> ExchangeRequestRow {
        self.requests@[request_index(self.requests@, id)]
    }

    /// The card with id `id`.
    pub open spec fn card(&self, id: u128) -> CardEntry {
        self.cards@[card_index(self.cards@, id)]
    }

    /// Why a new request of `requester_id` for `card_id` at `now` is refused,
    /// if it is: the first failing check, in the order below.
    pub open spec fn create_error(&self, requester_id: u128, card_id: u128, now: i64) -> Option<AppError> {
        if !has_card(self.cards@, card_id) || self.card(card_id).is_deleted {
            Some(AppError::NotFound)
        } else {
            let c = self.card(card_id);
            if requester_id == c.owner_id {
                Some(AppError::InvalidOperation)
            } else if !has_account(self.ledger.accounts@, requester_id) {
                Some(AppError::NotFound)
            } else if has_pending_request(self.requests@, requester_id, card_id) {
                Some(AppError::Conflict)
            } else if has_collected(self.collections@, requester_id, card_id) {
                Some(AppError::Conflict)
            } else if !price_fits(c.base_price, c.like_count, c.exchange_count) {
                Some(AppError::Internal)
            } else if card_price(c) <= 0 {
                Some(AppError::InvalidAmount)
            } else if self.balance(requester_id) < card_price(c) {
                Some(AppError::InsufficientBalance)
            } else if spec_expiration_time(now, self.config.exchange_expiration_hours) is None {
                Some(AppError::Internal)
            } else {
                None
            }
        }
    }

    /// `self` is `old` after `req` was created by `requester_id` for `card_id`
    /// at `now`: the price left the requester's balance into escrow.
    pub open spec fn created(
        &self,
        old: &ExchangeService,
        requester_id: u128,
        card_id: u128,
        now: i64,
        req: ExchangeRequestRow,
    ) -> bool {
        let c = old.card(card_id);
        let price = card_price(c);
        let after = old.balance(requester_id) - price;
        &&& req.requester_id == requester_id
        &&& req.card_id == card_id
        &&& req.owner_id == c.owner_id
        &&& req.coin_amount == price
        &&& req.status == ExchangeStatus::Pending
        &&& Some(req.expires_at) == spec_expiration_time(now, old.config.exchange_expiration_hours)
        &&& req.created_at == now
        &&& req.updated_at == now
        &&& !has_request(old.requests@, req.id)
        &&& self.requests@ == old.requests@.push(req)
        &&& self.ledger.balances() == old.ledger.balances().insert(requester_id, after)
        &&& self.ledger.logged_one(
            &old.ledger,
            requester_id,
            -price,
            CoinReason::ExchangePurchase,
            Some(req.id),
            after,
            now,
        )
        &&& self.cards@ == old.cards@
        &&& self.collections@ == old.collections@
        &&& self.records@ == old.records@
        &&& self.config == old.config
    }

    /// The position of the request with id `id`, if there is one.
    pub fn find_request(&self, id: u128) -> (r: Option<usize>)
        requires
            self.wf(),
        ensures
            r is None <==> !has_request(self.requests@, id),
            r matches Some(i) ==> i < self.requests@.len() && self.requests@[i as int].id == id
                && request_index(self.requests@, id) == i,
    {
        let mut i: usize = 0;
        while i < self.requests.len()
            invariant
                self.wf(),
                i <= self.requests@.len(),
                forall|j: int| 0 <= j < i ==> (#[trigger] self.requests@[j]).id != id,
            decreases self.requests.len() - i,
        {
            if self.requests[i].id == id {
                proof {
                    lemma_request_index(self.requests@, i as int);
                }
                return Some(i);
            }
            i = i + 1;
        }
        None
    }

    /// The position of the card with id `id`, if there is one.
    pub fn find_card(&self, id: u128) -> (r: Option<usize>)
        requires
            self.wf(),
        ensures
            r is None <==> !has_card(self.cards@, id),
            r matches Some(i) ==> i < self.cards@.len() && self.cards@[i as int].id == id
                && card_index(self.cards@, id) == i,
    {
        let mut i: usize = 0;
        while i < self.cards.len()
            invariant
                self.wf(),
                i <= self.cards@.len(),
                forall|j: int| 0 <= j < i ==> (#[trigger] self.cards@[j]).id != id,
            decreases self.cards.len() - i,
        {
            if self.cards[i].id == id {
                proof {
                    lemma_card_index(self.cards@, i as int);
                }
                return Some(i);
            }
            i = i + 1;
        }
        None
    }

    /// Whether `requester_id` has a pending request for `card_id`.
    pub fn pending_request_exists(&self, requester_id: u128, card_id: u128) -> (r: bool)
        ensures
            r == has_pending_request(self.requests@, requester_id, card_id),
    {
        let mut i: usize = 0;
        while i < self.requests.len()
            invariant
                i <= self.requests@.len(),
                forall|j: int|
                    0 <= j < i ==> !((#[trigger] self.requests@[j]).requester_id == requester_id
                        && self.requests@[j].card_id == card_id && self.requests@[j].status is Pending),
            decreases self.requests.len() - i,
        {
            let q = self.requests[i];
            if q.requester_id == requester_id && q.card_id == card_id && matches!(q.status, ExchangeStatus::Pending) {
                return true;
            }
            i = i + 1;
        }
        false
    }

    /// Whether `user_id` has `card_id` in their collection.
    pub fn has_collected_card(&self, user_id: u128, card_id: u128) -> (r: bool)
        ensures
            r == has_collected(self.collections@, user_id, card_id),
    {
        let mut i: usize = 0;
        while i < self.collections.len()
            invariant
                i <= self.collections@.len(),
                forall|j: int|
                    0 <= j < i ==> !((#[trigger] self.collections@[j]).user_id == user_id
                        && self.collections@[j].card_id == card_id),
            decreases self.collections.len() - i,
        {
            if self.collections[i].user_id == user_id && self.collections[i].card_id == card_id {
                return true;
            }
            i = i + 1;
        }
        false
    }

    /// An empty store with the given settings.
    pub fn new(config: Config) -> (r: ExchangeService)
        ensures
            r.wf(),
            r.config == config,
            r.ledger.balances() == Map::<u128, int>::empty(),
            r.ledger.transactions@.len() == 0,
            r.cards@.len() == 0,
            r.collections@.len() == 0,
            r.requests@.len() == 0,
            r.records@.len() == 0,
            r.total_coins() == 0,
    {
        let r = ExchangeService {
            ledger: UserService::new(),
            cards: Vec::new(),
            collections: Vec::new(),
            requests: Vec::new(),
            records: Vec::new(),
            config,
        };
        assert(escrow_values(r.requests@) =~= Seq::<int>::empty());
        r
    }

    /// Opens a coin account for `user_id` with `initial_balance` coins, as
    /// `UserService::open_account` does.
    pub fn open_account(&mut self, user_id: u128, initial_balance: i32) -> (r: Result<(), AppError>)
        requires
            old(self).wf(),
        ensures
            final(self).wf(),
            r is Ok <==> initial_balance >= 0 && !has_account(old(self).ledger.accounts@, user_id),
            initial_balance < 0 ==> r == Err::<(), AppError>(AppError::InvalidAmount),
            initial_balance >= 0 && has_account(old(self).ledger.accounts@, user_id) ==> r == Err::<(), AppError>(AppError::Conflict),
            r is Err ==> *final(self) == *old(self),
            r is Ok ==> final(self).ledger.balances() == old(self).ledger.balances().insert(user_id, initial_balance as int)
                && final(self).ledger.transactions@ == old(self).ledger.transactions@
                && final(self).total_coins() == old(self).total_coins() + initial_balance
                && final(self).cards@ == old(self).cards@ && final(self).requests@ == old(self).requests@
                && final(self).collections@ == old(self).collections@ && final(self).records@ == old(self).records@
                && final(self).config == old(self).config,
    {
        let ghost before = self.ledger;
        let r = self.ledger.open_account(user_id, initial_balance);
        proof {
            if r is Ok {
                assert forall|x: u128| has_account(before.accounts@, x) implies has_account(self.ledger.accounts@, x) by {
                    assert(before.balances().contains_key(x));
                    assert(self.ledger.balances().contains_key(x));
                }
            }
        }
        r
    }

    /// Stores a card. Fails, changing nothing, with `Conflict` when a card
    /// with that id is stored, `NotFound` when its owner has no account, and
    /// `InvalidAmount` when a counter is negative.
    pub fn add_card(&mut self, card: CardEntry) -> (r: Result<(), AppError>)
        requires
            old(self).wf(),
        ensures
            final(self).wf(),
            has_card(old(self).cards@, card.id) ==> r == Err::<(), AppError>(AppError::Conflict),
            !has_card(old(self).cards@, card.id) && !has_account(old(self).ledger.accounts@, card.owner_id)
                ==> r == Err::<(), AppError>(AppError::NotFound),
            !has_card(old(self).cards@, card.id) && has_account(old(self).ledger.accounts@, card.owner_id)
                && (card.like_count < 0 || card.exchange_count < 0) ==> r == Err::<(), AppError>(AppError::InvalidAmount),
            r is Err ==> *final(self) == *old(self),
            r is Ok ==> final(self).cards@ == old(self).cards@.push(card) && final(self).ledger == old(self).ledger
                && final(self).requests@ == old(self).requests@ && final(self).collections@ == old(self).collections@
                && final(self).records@ == old(self).records@ && final(self).config == old(self).config,
            r is Ok <==> !has_card(old(self).cards@, card.id) && has_account(old(self).ledger.accounts@, card.owner_id)
                && card.like_count >= 0 && card.exchange_count >= 0,
    {
        if self.find_card(card.id).is_some() {
            return Err(AppError::Conflict);
        }
        if self.ledger.find_account(card.owner_id).is_none() {
            return Err(AppError::NotFound);
        }
        if card.like_count < 0 || card.exchange_count < 0 {
            return Err(AppError::InvalidAmount);
        }
        let ghost before = self.cards@;
        self.cards.push(card);
        proof {
            let cs = self.cards@;
            assert(cs =~= before.push(card));
            assert forall|a: int, b: int|
                0 <= a < cs.len() && 0 <= b < cs.len() && (#[trigger] cs[a]).id == (#[trigger] cs[b]).id
                implies a == b by {
                if a < before.len() && b < before.len() {
                    assert(before[a].id == before[b].id);
                } else if a < before.len() {
                    assert(before[a].id == card.id);
                } else if b < before.len() {
                    assert(before[b].id == card.id);
                }
            }
            assert forall|i: int| 0 <= i < self.requests@.len() implies has_card(cs, (#[trigger] self.requests@[i]).card_id) by {
                let k = card_index(before, self.requests@[i].card_id);
                assert(cs[k] == before[k]);
            }
        }
        Ok(())
    }

    /// Whether the requester's balance can take back the amount of the request at `i`.
    pub open spec fn refund_fits(&self, i: int) -> bool {
        let q = self.requests@[i];
        self.balance(q.requester_id) + q.coin_amount <= i32::MAX
    }

    /// `self` is `old` after the request at `i` moved to `status` at `now`
    /// and its amount went back from escrow to the requester.
    pub open spec fn refunded(&self, old: &ExchangeService, i: int, status: ExchangeStatus, now: i64) -> bool {
        let q = old.requests@[i];
        let after = old.balance(q.requester_id) + q.coin_amount;
        &&& self.requests@ == old.requests@.update(i, with_status(q, status, now))
        &&& self.ledger.balances() == old.ledger.balances().insert(q.requester_id, after)
        &&& self.ledger.logged_one(
            &old.ledger,
            q.requester_id,
            q.coin_amount as int,
            CoinReason::ExchangeRefund,
            Some(q.id),
            after,
            now,
        )
        &&& self.cards@ == old.cards@
        &&& self.collections@ == old.collections@
        &&& self.records@ == old.records@
        &&& self.config == old.config
    }

    /// Moves the pending request at `i` to `status` and refunds its amount to
    /// the requester; returns the amount. `Internal`, with nothing changed,
    /// when the requester's balance cannot take it.
    fn refund_request(&mut self, i: usize, status: ExchangeStatus, now: i64) -> (r: Result<i32, AppError>)
        requires
            old(self).wf(),
            i < old(self).requests@.len(),
            old(self).requests@[i as int].status is Pending,
            !(status is Pending),
        ensures
            final(self).wf(),
            final(self).total_coins() == old(self).total_coins(),
            old(self).refund_fits(i as int) ==> r == Ok::<i32, AppError>(old(self).requests@[i as int].coin_amount)
                && final(self).refunded(old(self), i as int, status, now),
            !old(self).refund_fits(i as int) ==> r == Err::<i32, AppError>(AppError::Internal) && *final(self) == *old(self),
    {
        let q = self.requests[i];
        let ghost before = *self;
        proof {
            let k = i as int;
            assert(has_account(before.ledger.accounts@, before.requests@[k].requester_id));
            assert(before.ledger.balances().contains_key(q.requester_id));
        }
        let refunded = self.ledger.add_coins(q.requester_id, q.coin_amount, CoinReason::ExchangeRefund, Some(q.id), now);
        match refunded {
            Err(e) => {
                return Err(e);
            },
            Ok(_) => {},
        }
        let updated = ExchangeRequestRow { status, updated_at: now, ..q };
        self.requests.set(i, updated);
        proof {
            let rs = before.requests@;
            let ns = self.requests@;
            assert(ns =~= rs.update(i as int, updated));
            lemma_same_users(&before.ledger, &self.ledger, q.requester_id, before.balance(q.requester_id) + q.coin_amount);
            assert forall|a: int, b: int|
                0 <= a < ns.len() && 0 <= b < ns.len() && (#[trigger] ns[a]).id == (#[trigger] ns[b]).id
                implies a == b by {
                assert(rs[a].id == ns[a].id);
                assert(rs[b].id == ns[b].id);
            }
            assert forall|j: int| 0 <= j < ns.len() implies {
                let q = #[trigger] ns[j];
                &&& has_account(self.ledger.accounts@, q.requester_id)
                &&& has_account(self.ledger.accounts@, q.owner_id)
                &&& has_card(self.cards@, q.card_id)
                &&& q.requester_id != q.owner_id
                &&& q.coin_amount > 0
            } by {
                assert(rs[j].requester_id == ns[j].requester_id);
            }
            assert(escrow_values(ns) =~= escrow_values(rs).update(i as int, 0));
            lemma_sum_update(escrow_values(rs), i as int, 0);
        }
        Ok(q.coin_amount)
    }

    /// Why a resolution of request `exchange_id` by `actor` is refused before
    /// anything is looked at but the request: `NotFound` when it does not
    /// exist, `Forbidden` when `actor` is not its owner (`by_owner`) or its
    /// requester (otherwise), `InvalidState` when it is no longer pending.
    pub open spec fn resolution_error(&self, exchange_id: u128, actor: u128, by_owner: bool) -> Option<AppError> {
        if !has_request(self.requests@, exchange_id) {
            Some(AppError::NotFound)
        } else {
            let q = self.request(exchange_id);
            if (by_owner && q.owner_id != actor) || (!by_owner && q.requester_id != actor) {
                Some(AppError::Forbidden)
            } else if !(q.status is Pending) {
                Some(AppError::InvalidState)
            } else {
                None
            }
        }
    }

    /// What a resolution by refund does once `resolution_error` passed: a
    /// request found expired at `now` is expired and the answer is
    /// `InvalidState`; otherwise it moves to `status` and the answer is `Ok`.
    /// Either way its amount goes back to the requester; when the requester's
    /// balance cannot take it the answer is `Internal` and nothing changes.
    pub open spec fn refund_outcome(
        &self,
        old: &ExchangeService,
        exchange_id: u128,
        status: ExchangeStatus,
        now: i64,
        r: Result<(), AppError>,
    ) -> bool {
        let i = request_index(old.requests@, exchange_id);
        let q = old.requests@[i];
        if !old.refund_fits(i) {
            r == Err::<(), AppError>(AppError::Internal) && *self == *old
        } else if now > q.expires_at {
            r == Err::<(), AppError>(AppError::InvalidState) && self.refunded(old, i, ExchangeStatus::Expired, now)
        } else {
            r == Ok::<(), AppError>(()) && self.refunded(old, i, status, now)
        }
    }

    /// Resolves request `exchange_id` by `actor` with a refund, ending in `status`.
    fn resolve_with_refund(
        &mut self,
        exchange_id: u128,
        actor: u128,
        by_owner: bool,
        status: ExchangeStatus,
        now: i64,
    ) -> (r: Result<(), AppError>)
        requires
            old(self).wf(),
            !(status is Pending),
        ensures
            final(self).wf(),
            final(self).total_coins() == old(self).total_coins(),
            old(self).resolution_error(exchange_id, actor, by_owner) matches Some(e) ==> r == Err::<(), AppError>(e)
                && *final(self) == *old(self),
            old(self).resolution_error(exchange_id, actor, by_owner) is None ==> final(self).refund_outcome(
                old(self),
                exchange_id,
                status,
                now,
                r,
            ),
    {
        let i = match self.find_request(exchange_id) {
            Some(i) => i,
            None => return Err(AppError::NotFound),
        };
        let q = self.requests[i];
        let allowed = if by_owner {
            q.owner_id == actor
        } else {
            q.requester_id == actor
        };
        if !allowed {
            return Err(AppError::Forbidden);
        }
        if !matches!(q.status, ExchangeStatus::Pending) {
            return Err(AppError::InvalidState);
        }
        if q.is_expired_at(now) {
            return match self.refund_request(i, ExchangeStatus::Expired, now) {
                Ok(_) => Err(AppError::InvalidState),
                Err(e) => Err(e),
            };
        }
        match self.refund_request(i, status, now) {
            Ok(_) => Ok(()),
            Err(e) => Err(e),
        }
    }

    /// The owner rejects request `exchange_id` at `now`: the escrowed amount
    /// goes back to the requester and the request ends `Rejected`. Refusals
    /// are those of `resolution_error` (for the owner); a request found
    /// expired is expired instead, as `refund_outcome` says.
    pub fn reject_exchange(&mut self, exchange_id: u128, owner_id: u128, now: i64) -> (r: Result<(), AppError>)
        requires
            old(self).wf(),
        ensures
            final(self).wf(),
            final(self).total_coins() == old(self).total_coins(),
            old(self).resolution_error(exchange_id, owner_id, true) matches Some(e) ==> r == Err::<(), AppError>(e)
                && *final(self) == *old(self),
            old(self).resolution_error(exchange_id, owner_id, true) is None ==> final(self).refund_outcome(
                old(self),
                exchange_id,
                ExchangeStatus::Rejected,
                now,
                r,
            ),
    {
        self.resolve_with_refund(exchange_id, owner_id, true, ExchangeStatus::Rejected, now)
    }

    /// The requester cancels request `exchange_id` at `now`: the escrowed
    /// amount goes back to them and the request ends `Cancelled`. Refusals
    /// are those of `resolution_error` (for the requester); a request found
    /// expired is expired instead, as `refund_outcome` says.
    pub fn cancel_exchange(&mut self, exchange_id: u128, requester_id: u128, now: i64) -> (r: Result<(), AppError>)
        requires
            old(self).wf(),
        ensures
            final(self).wf(),
            final(self).total_coins() == old(self).total_coins(),
            old(self).resolution_error(exchange_id, requester_id, false) matches Some(e) ==> r == Err::<(), AppError>(e)
                && *final(self) == *old(self),
            old(self).resolution_error(exchange_id, requester_id, false) is None ==> final(self).refund_outcome(
                old(self),
                exchange_id,
                ExchangeStatus::Cancelled,
                now,
                r,
            ),
    {
        self.resolve_with_refund(exchange_id, requester_id, false, ExchangeStatus::Cancelled, now)
    }

    /// Why expiring request `exchange_id` at `now` is refused, if it is:
    /// `NotFound` when it does not exist, `InvalidState` when it is not
    /// pending or not yet past its expiry time.
    pub open spec fn expire_error(&self, exchange_id: u128, now: i64) -> Option<AppError> {
        if !has_request(self.requests@, exchange_id) {
            Some(AppError::NotFound)
        } else {
            let q = self.request(exchange_id);
            if !(q.status is Pending) || !(now > q.expires_at) {
                Some(AppError::InvalidState)
            } else {
                None
            }
        }
    }

    /// Expires request `exchange_id` at `now`, on the system's behalf: the
    /// escrowed amount goes back to the requester, which is returned, and the
    /// request ends `Expired`. `Internal`, with nothing changed, when the
    /// requester's balance cannot take the amount.
    pub fn expire_exchange(&mut self, exchange_id: u128, now: i64) -> (r: Result<i32, AppError>)
        requires
            old(self).wf(),
        ensures
            final(self).wf(),
            final(self).total_coins() == old(self).total_coins(),
            old(self).expire_error(exchange_id, now) matches Some(e) ==> r == Err::<i32, AppError>(e)
                && *final(self) == *old(self),
            old(self).expire_error(exchange_id, now) is None ==> {
                let i = request_index(old(self).requests@, exchange_id);
                if old(self).refund_fits(i) {
                    r == Ok::<i32, AppError>(old(self).requests@[i].coin_amount)
                        && final(self).refunded(old(self), i, ExchangeStatus::Expired, now)
                } else {
                    r == Err::<i32, AppError>(AppError::Internal) && *final(self) == *old(self)
                }
            },
    {
        let i = match self.find_request(exchange_id) {
            Some(i) => i,
            None => return Err(AppError::NotFound),
        };
        let q = self.requests[i];
        if !matches!(q.status, ExchangeStatus::Pending) || !q.is_expired_at(now) {
            return Err(AppError::InvalidState);
        }
        self.refund_request(i, ExchangeStatus::Expired, now)
    }

    /// Whether the owner's balance and the card's exchange counter can take
    /// the acceptance of the request at `i`.
    pub open spec fn credit_fits(&self, i: int) -> bool {
        let q = self.requests@[i];
        &&& self.balance(q.owner_id) + q.coin_amount <= i32::MAX
        &&& self.card(q.card_id).exchange_count < i32::MAX
    }

    /// `self` is `old` after the request at `i` was accepted at `now` with
    /// answer `res`: the owner got the escrowed amount, the requester got the
    /// card into their collection (once), the card's exchange counter went up
    /// by one, and a record of the exchange was added.
    pub open spec fn accepted(&self, old: &ExchangeService, i: int, now: i64, res: ExchangeResult) -> bool {
        let q = old.requests@[i];
        let ci = card_index(old.cards@, q.card_id);
        let c = old.cards@[ci];
        let after = old.balance(q.owner_id) + q.coin_amount;
        let rec = self.records@.last();
        let col = self.collections@.last();
        &&& self.requests@ == old.requests@.update(i, with_status(q, ExchangeStatus::Accepted, now))
        &&& self.ledger.balances() == old.ledger.balances().insert(q.owner_id, after)
        &&& self.ledger.logged_one(
            &old.ledger,
            q.owner_id,
            q.coin_amount as int,
            CoinReason::CardExchanged,
            Some(q.id),
            after,
            now,
        )
        &&& self.cards@ == old.cards@.update(ci, CardEntry { exchange_count: (c.exchange_count + 1) as i32, ..c })
        &&& has_collected(self.collections@, q.requester_id, q.card_id)
        &&& if has_collected(old.collections@, q.requester_id, q.card_id) {
            self.collections@ == old.collections@
        } else {
            &&& self.collections@ == old.collections@.push(col)
            &&& col.user_id == q.requester_id
            &&& col.card_id == q.card_id
            &&& col.folder_id is None
            &&& col.collected_at == now
        }
        &&& self.records@ == old.records@.push(rec)
        &&& rec.exchange_request_id == Some(q.id)
        &&& rec.card_id == q.card_id
        &&& rec.from_user_id == q.owner_id
        &&& rec.to_user_id == q.requester_id
        &&& rec.coin_amount == q.coin_amount
        &&& rec.completed_at == now
        &&& self.config == old.config
        &&& res.exchange_id == q.id
        &&& res.card_id == q.card_id
        &&& res.requester_new_balance == old.balance(q.requester_id)
        &&& res.owner_new_balance == after
    }

    /// The owner accepts request `exchange_id` at `now`: the escrowed amount
    /// goes to the owner, the requester collects the card, and the request
    /// ends `Accepted`. Refusals are those of `resolution_error` (for the
    /// owner). A request found expired is expired instead and the answer is
    /// `InvalidState`, as `refund_outcome` says. `Internal`, with nothing
    /// changed, when a balance or the card's counter cannot take the change.
    pub fn accept_exchange(&mut self, exchange_id: u128, owner_id: u128, now: i64) -> (r: Result<
        ExchangeResult,
        AppError,
    >)
        requires
            old(self).wf(),
        ensures
            final(self).wf(),
            final(self).total_coins() == old(self).total_coins(),
            old(self).resolution_error(exchange_id, owner_id, true) matches Some(e) ==> r == Err::<ExchangeResult, AppError>(e)
                && *final(self) == *old(self),
            old(self).resolution_error(exchange_id, owner_id, true) is None ==> {
                let i = request_index(old(self).requests@, exchange_id);
                let q = old(self).requests@[i];
                if now > q.expires_at {
                    if old(self).refund_fits(i) {
                        r == Err::<ExchangeResult, AppError>(AppError::InvalidState)
                            && final(self).refunded(old(self), i, ExchangeStatus::Expired, now)
                    } else {
                        r == Err::<ExchangeResult, AppError>(AppError::Internal) && *final(self) == *old(self)
                    }
                } else if old(self).credit_fits(i) {
                    r matches Ok(res) && final(self).accepted(old(self), i, now, res)
                } else {
                    r == Err::<ExchangeResult, AppError>(AppError::Internal) && *final(self) == *old(self)
                }
            },
    {
        let i = match self.find_request(exchange_id) {
            Some(i) => i,
            None => return Err(AppError::NotFound),
        };
        let q = self.requests[i];
        if q.owner_id != owner_id {
            return Err(AppError::Forbidden);
        }
        if !q.status.can_accept() {
            return Err(AppError::InvalidState);
        }
        if q.is_expired_at(now) {
            return match self.refund_request(i, ExchangeStatus::Expired, now) {
                Ok(_) => Err(AppError::InvalidState),
                Err(e) => Err(e),
            };
        }
        proof {
            assert(has_card(self.cards@, self.requests@[i as int].card_id));
            assert(has_account(self.ledger.accounts@, self.requests@[i as int].owner_id));
            assert(has_account(self.ledger.accounts@, self.requests@[i as int].requester_id));
            assert(self.ledger.balances().contains_key(q.owner_id));
            assert(self.ledger.balances().contains_key(q.requester_id));
        }
        let ci = match self.find_card(q.card_id) {
            Some(ci) => ci,
            None => return Err(AppError::Internal),
        };
        let card = self.cards[ci];
        if card.exchange_count == i32::MAX {
            return Err(AppError::Internal);
        }
        let owner_balance = match self.ledger.get_coin_balance(q.owner_id) {
            Ok(b) => b,
            Err(e) => return Err(e),
        };
        if owner_balance > i32::MAX - q.coin_amount {
            return Err(AppError::Internal);
        }
        let ghost before = *self;
        let owner_new_balance = match self.ledger.add_coins(
            q.owner_id,
            q.coin_amount,
            CoinReason::CardExchanged,
            Some(q.id),
            now,
        ) {
            Ok(b) => b,
            Err(e) => return Err(e),
        };
        let ghost after_credit = *self;
        proof {
            lemma_same_users(&before.ledger, &self.ledger, q.owner_id, before.balance(q.owner_id) + q.coin_amount);
        }
        if !self.has_collected_card(q.requester_id, q.card_id) {
            let entry = CardCollection {
                id: new_uuid(),
                user_id: q.requester_id,
                card_id: q.card_id,
                folder_id: None,
                collected_at: now,
            };
            let ghost cols = self.collections@;
            self.collections.push(entry);
            proof {
                let ns = self.collections@;
                assert(ns =~= cols.push(entry));
                assert forall|a: int, b: int|
                    0 <= a < ns.len() && 0 <= b < ns.len() && (#[trigger] ns[a]).user_id == (#[trigger] ns[b]).user_id
                        && ns[a].card_id == ns[b].card_id implies a == b by {
                    if a < cols.len() && b < cols.len() {
                        assert(cols[a].user_id == cols[b].user_id);
                    } else if a < cols.len() {
                        assert(cols[a].user_id == q.requester_id && cols[a].card_id == q.card_id);
                    } else if b < cols.len() {
                        assert(cols[b].user_id == q.requester_id && cols[b].card_id == q.card_id);
                    }
                }
                assert(ns[cols.len() as int] == entry);
                assert(has_collected(ns, q.requester_id, q.card_id));
            }
        }
        let ghost cards_before = self.cards@;
        let bumped = CardEntry { exchange_count: card.exchange_count + 1, ..card };
        self.cards.set(ci, bumped);
        let ghost reqs_before = self.requests@;
        let accepted = ExchangeRequestRow { status: ExchangeStatus::Accepted, updated_at: now, ..q };
        self.requests.set(i, accepted);
        let record = ExchangeRecordRow {
            id: new_uuid(),
            exchange_request_id: Some(q.id),
            card_id: q.card_id,
            from_user_id: q.owner_id,
            to_user_id: q.requester_id,
            coin_amount: q.coin_amount,
            completed_at: now,
        };
        self.records.push(record);
        proof {
            let cs = self.cards@;
            assert(cs =~= cards_before.update(ci as int, bumped));
            assert forall|a: int, b: int|
                0 <= a < cs.len() && 0 <= b < cs.len() && (#[trigger] cs[a]).id == (#[trigger] cs[b]).id
                implies a == b by {
                assert(cards_before[a].id == cs[a].id);
                assert(cards_before[b].id == cs[b].id);
            }
            assert forall|k: int| 0 <= k < cs.len() implies {
                let c = #[trigger] cs[k];
                &&& c.like_count >= 0
                &&& c.exchange_count >= 0
                &&& has_account(self.ledger.accounts@, c.owner_id)
            } by {
                assert(cards_before[k].owner_id == cs[k].owner_id);
            }
            let rs = reqs_before;
            let ns = self.requests@;
            assert(ns =~= rs.update(i as int, accepted));
            assert forall|a: int, b: int|
                0 <= a < ns.len() && 0 <= b < ns.len() && (#[trigger] ns[a]).id == (#[trigger] ns[b]).id
                implies a == b by {
                assert(rs[a].id == ns[a].id);
                assert(rs[b].id == ns[b].id);
            }
            assert forall|j: int| 0 <= j < ns.len() implies {
                let q = #[trigger] ns[j];
                &&& has_account(self.ledger.accounts@, q.requester_id)
                &&& has_account(self.ledger.accounts@, q.owner_id)
                &&& has_card(self.cards@, q.card_id)
                &&& q.requester_id != q.owner_id
                &&& q.coin_amount > 0
            } by {
                assert(rs[j].card_id == ns[j].card_id);
                let k = card_index(cards_before, rs[j].card_id);
                assert(cs[k].id == cards_before[k].id);
            }
            assert(escrow_values(ns) =~= escrow_values(rs).update(i as int, 0));
            lemma_sum_update(escrow_values(rs), i as int, 0);
            assert(self.records@.last() == record);
            assert(self.ledger.balances()[q.requester_id] == before.balance(q.requester_id));
        }
        let requester_new_balance = match self.ledger.get_coin_balance(q.requester_id) {
            Ok(b) => b,
            Err(e) => return Err(e),
        };
        Ok(ExchangeResult { exchange_id: q.id, card_id: q.card_id, requester_new_balance, owner_new_balance })
    }

    /// Runs one expiration sweep at `now`: every request that is pending and
    /// whose expiry time is before `now` is expired and refunded, in store
    /// order. A request whose refund fails stays pending and is counted as
    /// failed; the others are not held up by it. Nothing else changes.
    pub fn process_expired_requests(&mut self, now: i64) -> (r: Result<ExpirationProcessingResult, AppError>)
        requires
            old(self).wf(),
        ensures
            final(self).wf(),
            final(self).total_coins() == old(self).total_coins(),
            r is Ok,
            final(self).swept(old(self), now, r->Ok_0),
    {
        let ghost start = *self;
        let n = self.requests.len();
        let mut i: usize = 0;
        let mut found: usize = 0;
        let mut processed: usize = 0;
        let mut failed: usize = 0;
        let mut refunded: i64 = 0;
        while i < n
            invariant
                self.wf(),
                n == self.requests@.len(),
                n == start.requests@.len(),
                i <= n,
                self.total_coins() == start.total_coins(),
                self.cards@ == start.cards@,
                self.collections@ == start.collections@,
                self.records@ == start.records@,
                self.config == start.config,
                forall|j: int| i <= j < n ==> (#[trigger] self.requests@[j]) == start.requests@[j],
                forall|j: int| 0 <= j < i ==> sweep_step(start.requests@[j], #[trigger] self.requests@[j], now),
                forall|j: int|
                    0 <= j < i && is_overdue(start.requests@[j], now) && #[trigger] self.requests@[j] == start.requests@[j]
                        ==> self.balance(start.requests@[j].requester_id) + start.requests@[j].coin_amount > i32::MAX,
                found == count_overdue(start.requests@, now, i as int),
                processed == count_swept(start.requests@, self.requests@, now, i as int),
                failed == found - processed,
                processed <= found <= i,
                refunded == capped(refunded_sum(start.requests@, self.requests@, now, i as int)),
                forall|u: u128| has_account(self.ledger.accounts@, u) <==> has_account(start.ledger.accounts@, u),
                forall|u: u128| #[trigger] has_account(start.ledger.accounts@, u) ==> self.balance(u) == start.balance(u)
                    + refunded_to(start.requests@, self.requests@, now, u, i as int),
            decreases n - i,
        {
            let q = self.requests[i];
            let ghost cur = *self;
            if matches!(q.status, ExchangeStatus::Pending) && q.expires_at < now {
                found = found + 1;
                proof {
                    assert(has_account(cur.ledger.accounts@, cur.requests@[i as int].requester_id));
                    assert(cur.ledger.balances().contains_key(q.requester_id));
                }
                match self.refund_request(i, ExchangeStatus::Expired, now) {
                    Ok(amount) => {
                        processed = processed + 1;
                        refunded = if refunded <= i64::MAX - amount as i64 {
                            refunded + amount as i64
                        } else {
                            i64::MAX
                        };
                        proof {
                            lemma_same_users(&cur.ledger, &self.ledger, q.requester_id, cur.balance(q.requester_id) + q.coin_amount);
                            lemma_sweep_prefix(start.requests@, cur.requests@, self.requests@, now, i as int);
                            assert forall|j: int|
                                0 <= j < i + 1 && is_overdue(start.requests@[j], now) && #[trigger] self.requests@[j] == start.requests@[j]
                                implies self.balance(start.requests@[j].requester_id) + start.requests@[j].coin_amount > i32::MAX by {
                                if j < i {
                                    assert(cur.requests@[j] == self.requests@[j]);
                                } else {
                                    assert(self.requests@[j].status is Expired);
                                }
                            }
                            assert forall|u: u128| #[trigger] has_account(start.ledger.accounts@, u) implies self.balance(u)
                                == start.balance(u) + refunded_to(start.requests@, self.requests@, now, u, i + 1) by {
                                lemma_sweep_prefix_to(start.requests@, cur.requests@, self.requests@, now, u, i as int);
                                assert(cur.ledger.balances().contains_key(u));
                            }
                        }
                    },
                    Err(_) => {
                        failed = failed + 1;
                        proof {
                            assert forall|u: u128| #[trigger] has_account(start.ledger.accounts@, u) implies self.balance(u)
                                == start.balance(u) + refunded_to(start.requests@, self.requests@, now, u, i + 1) by {
                            }
                        }
                    },
                }
            } else {
                proof {
                    assert forall|u: u128| #[trigger] has_account(start.ledger.accounts@, u) implies self.balance(u)
                        == start.balance(u) + refunded_to(start.requests@, self.requests@, now, u, i + 1) by {
                    }
                }
            }
            i = i + 1;
        }
        Ok(ExpirationProcessingResult {
            total_found: found,
            processed_count: processed,
            failed_count: failed,
            total_refunded_amount: refunded,
        })
    }

    /// `self` is `old` after an expiration sweep at `now` that answered `res`.
    /// A selected request is left pending only when its requester's balance
    /// cannot take its amount back.
    pub open spec fn swept(&self, old: &ExchangeService, now: i64, res: ExpirationProcessingResult) -> bool {
        let n = old.requests@.len() as int;
        &&& self.requests@.len() == old.requests@.len()
        &&& forall|j: int| 0 <= j < n ==> sweep_step(old.requests@[j], #[trigger] self.requests@[j], now)
        &&& forall|j: int|
            0 <= j < n && is_overdue(old.requests@[j], now) && #[trigger] self.requests@[j] == old.requests@[j]
                ==> self.balance(old.requests@[j].requester_id) + old.requests@[j].coin_amount > i32::MAX
        &&& res.total_found == count_overdue(old.requests@, now, n)
        &&& res.processed_count == count_swept(old.requests@, self.requests@, now, n)
        &&& res.failed_count == res.total_found - res.processed_count
        &&& res.total_refunded_amount == capped(refunded_sum(old.requests@, self.requests@, now, n))
        &&& forall|u: u128| has_account(self.ledger.accounts@, u) <==> has_account(old.ledger.accounts@, u)
        &&& forall|u: u128| #[trigger] has_account(old.ledger.accounts@, u) ==> self.balance(u) == old.balance(u)
            + refunded_to(old.requests@, self.requests@, now, u, n)
        &&& self.cards@ == old.cards@
        &&& self.collections@ == old.collections@
        &&& self.records@ == old.records@
        &&& self.config == old.config
    }

    /// The price of card `card_id` from its current counters. `NotFound`
    /// when no such card is stored or it is deleted; `Internal` when the
    /// price does not fit in an `i32`.
    pub fn calculate_exchange_price(&self, card_id: u128) -> (r: Result<ExchangePriceInfo, AppError>)
        requires
            self.wf(),
        ensures
            !has_card(self.cards@, card_id) || self.card(card_id).is_deleted ==> r == Err::<ExchangePriceInfo, AppError>(AppError::NotFound),
            has_card(self.cards@, card_id) && !self.card(card_id).is_deleted ==> {
                let c = self.card(card_id);
                if price_fits(c.base_price, c.like_count, c.exchange_count) {
                    r matches Ok(info) && info.card_id == card_id && info.base_price == c.base_price
                        && info.popularity_bonus == popularity_bonus(c.like_count as int, c.exchange_count as int)
                        && info.final_price == card_price(c)
                } else {
                    r == Err::<ExchangePriceInfo, AppError>(AppError::Internal)
                }
            },
    {
        let ci = match self.find_card(card_id) {
            Some(ci) => ci,
            None => return Err(AppError::NotFound),
        };
        let card = self.cards[ci];
        if card.is_deleted {
            return Err(AppError::NotFound);
        }
        proof {
            assert(card.like_count >= 0 && card.exchange_count >= 0);
        }
        let bonus = card.like_count as i64 / 10 + card.exchange_count as i64 * 2;
        let total = card.base_price as i64 + bonus;
        if bonus > i32::MAX as i64 || total > i32::MAX as i64 || total < i32::MIN as i64 {
            return Err(AppError::Internal);
        }
        Ok(ExchangePriceInfo::new(card_id, card.base_price, card.like_count, card.exchange_count))
    }

    /// The pending requests for cards that `user_id` owns and that have not
    /// expired at `now`, newest first.
    pub fn get_pending_requests(&self, user_id: u128, now: i64) -> (r: Vec<ExchangeRequestRow>)
        ensures
            r@ == newest_first(
                self.requests@,
                |q: ExchangeRequestRow| q.owner_id == user_id && q.status is Pending && q.expires_at > now,
                0,
            ),
    {
        let mut out: Vec<ExchangeRequestRow> = Vec::new();
        let mut i: usize = self.requests.len();
        while i > 0
            invariant
                i <= self.requests@.len(),
                out@ == newest_first(
                    self.requests@,
                    |q: ExchangeRequestRow| q.owner_id == user_id && q.status is Pending && q.expires_at > now,
                    i as int,
                ),
            decreases i,
        {
            i = i - 1;
            let q = self.requests[i];
            if q.owner_id == user_id && matches!(q.status, ExchangeStatus::Pending) && q.expires_at > now {
                out.push(q);
            }
        }
        out
    }

    /// Every request that `user_id` sent, whatever its status, newest first.
    pub fn get_sent_requests(&self, user_id: u128) -> (r: Vec<ExchangeRequestRow>)
        ensures
            r@ == newest_first(self.requests@, |q: ExchangeRequestRow| q.requester_id == user_id, 0),
    {
        let mut out: Vec<ExchangeRequestRow> = Vec::new();
        let mut i: usize = self.requests.len();
        while i > 0
            invariant
                i <= self.requests@.len(),
                out@ == newest_first(self.requests@, |q: ExchangeRequestRow| q.requester_id == user_id, i as int),
            decreases i,
        {
            i = i - 1;
            let q = self.requests[i];
            if q.requester_id == user_id {
                out.push(q);
            }
        }
        out
    }

    /// The completed exchanges of `user_id`, on either side, newest first.
    pub open spec fn history(&self, user_id: u128) -> Seq<ExchangeRecordRow> {
        newest_first(
            self.records@,
            |x: ExchangeRecordRow| x.from_user_id == user_id || x.to_user_id == user_id,
            0,
        )
    }

    /// One page of the completed exchanges of `user_id`, newest first, as
    /// that user sees them, with the count of all of them. The page starts
    /// after `pagination.offset()` records and holds at most
    /// `pagination.limit()`; a negative offset or limit counts as zero.
    pub fn get_exchange_history(&self, user_id: u128, pagination: Pagination) -> (r: Result<
        ExchangeHistoryResponse,
        AppError,
    >)
        ensures
            r matches Ok(h) && {
                let all = self.history(user_id);
                let lo = page_start(pagination, all.len() as int);
                let hi = page_end(pagination, all.len() as int);
                &&& h.total_count == #[verifier::truncate] (all.len() as i64)
                &&& h.records@.len() == hi - lo
                &&& forall|k: int| 0 <= k < hi - lo ==> #[trigger] h.records@[k] == seen_by(all[lo + k], user_id)
            },
    {
        let mut all: Vec<ExchangeRecordRow> = Vec::new();
        let mut i: usize = self.records.len();
        while i > 0
            invariant
                i <= self.records@.len(),
                all@ == newest_first(
                    self.records@,
                    |x: ExchangeRecordRow| x.from_user_id == user_id || x.to_user_id == user_id,
                    i as int,
                ),
            decreases i,
        {
            i = i - 1;
            let x = self.records[i];
            if x.from_user_id == user_id || x.to_user_id == user_id {
                all.push(x);
            }
        }
        let len = all.len();
        let (lo, hi) = page_range(&pagination, len);
        let mut records: Vec<ExchangeRecord> = Vec::new();
        let mut k: usize = lo;
        while k < hi
            invariant
                lo <= k <= hi <= all@.len(),
                records@.len() == k - lo,
                forall|j: int| 0 <= j < k - lo ==> #[trigger] records@[j] == seen_by(all@[lo + j], user_id),
            decreases hi - k,
        {
            records.push(all[k].to_exchange_record(&user_id, None, None));
            k = k + 1;
        }
        Ok(ExchangeHistoryResponse { records, total_count: #[verifier::truncate] (len as i64) })
    }

    /// Creates an exchange request of `requester_id` for `card_id` at time
    /// `now` under a freshly drawn random id, as
    /// `create_exchange_request_with_id` does.
    pub fn create_exchange_request(&mut self, requester_id: u128, card_id: u128, now: i64) -> (r: Result<
        ExchangeRequestRow,
        AppError,
    >)
        requires
            old(self).wf(),
        ensures
            final(self).wf(),
            final(self).total_coins() == old(self).total_coins(),
            old(self).create_error(requester_id, card_id, now) matches Some(e) ==> r == Err::<ExchangeRequestRow, AppError>(e),
            r matches Err(e) ==> *final(self) == *old(self) && (old(self).create_error(requester_id, card_id, now) == Some(e)
                || (old(self).create_error(requester_id, card_id, now) is None && e == AppError::Internal)),
            r matches Ok(req) ==> old(self).create_error(requester_id, card_id, now) is None
                && final(self).created(old(self), requester_id, card_id, now, req),
    {
        let exchange_id = new_uuid();
        self.create_exchange_request_with_id(requester_id, card_id, now, exchange_id)
    }

    /// Creates request `exchange_id` of `requester_id` for `card_id` at time
    /// `now`, and escrows the card's current price from the requester's
    /// balance. On a refusal (`create_error`) nothing changes; when the id is
    /// already in use the answer is `Internal` and nothing changes.
    pub fn create_exchange_request_with_id(
        &mut self,
        requester_id: u128,
        card_id: u128,
        now: i64,
        exchange_id: u128,
    ) -> (r: Result<ExchangeRequestRow, AppError>)
        requires
            old(self).wf(),
        ensures
            final(self).wf(),
            final(self).total_coins() == old(self).total_coins(),
            old(self).create_error(requester_id, card_id, now) matches Some(e) ==> r == Err::<ExchangeRequestRow, AppError>(e)
                && *final(self) == *old(self),
            old(self).create_error(requester_id, card_id, now) is None && has_request(old(self).requests@, exchange_id)
                ==> r == Err::<ExchangeRequestRow, AppError>(AppError::Internal) && *final(self) == *old(self),
            old(self).create_error(requester_id, card_id, now) is None && !has_request(old(self).requests@, exchange_id)
                ==> (r matches Ok(req) && req.id == exchange_id && final(self).created(old(self), requester_id, card_id, now, req)),
    {
        let ci = match self.find_card(card_id) {
            Some(ci) => ci,
            None => return Err(AppError::NotFound),
        };
        let card = self.cards[ci];
        if card.is_deleted {
            return Err(AppError::NotFound);
        }
        if requester_id == card.owner_id {
            return Err(AppError::InvalidOperation);
        }
        let balance = match self.ledger.get_coin_balance(requester_id) {
            Ok(b) => b,
            Err(e) => return Err(e),
        };
        if self.pending_request_exists(requester_id, card_id) {
            return Err(AppError::Conflict);
        }
        if self.has_collected_card(requester_id, card_id) {
            return Err(AppError::Conflict);
        }
        let bonus = card.like_count as i64 / 10 + card.exchange_count as i64 * 2;
        let total = card.base_price as i64 + bonus;
        if bonus > i32::MAX as i64 || total > i32::MAX as i64 || total < i32::MIN as i64 {
            return Err(AppError::Internal);
        }
        let price = ExchangePriceInfo::new(card_id, card.base_price, card.like_count, card.exchange_count);
        let coin_amount = price.final_price;
        if coin_amount <= 0 {
            return Err(AppError::InvalidAmount);
        }
        if balance < coin_amount {
            return Err(AppError::InsufficientBalance);
        }
        let expires_at = match expiration_time(now, self.config.exchange_expiration_hours) {
            Some(t) => t,
            None => return Err(AppError::Internal),
        };
        if self.find_request(exchange_id).is_some() {
            return Err(AppError::Internal);
        }
        let ghost before = *self;
        let deducted = self.ledger.deduct_coins(
            requester_id,
            coin_amount,
            CoinReason::ExchangePurchase,
            Some(exchange_id),
            now,
        );
        assert(deducted is Ok);
        let req = ExchangeRequestRow {
            id: exchange_id,
            requester_id,
            card_id,
            owner_id: card.owner_id,
            coin_amount,
            status: ExchangeStatus::Pending,
            expires_at,
            created_at: now,
            updated_at: now,
        };
        self.requests.push(req);
        proof {
            let rs = before.requests@;
            let ns = self.requests@;
            assert(ns =~= rs.push(req));
            lemma_same_users(&before.ledger, &self.ledger, requester_id, before.balance(requester_id) - coin_amount);
            assert forall|a: int, b: int|
                0 <= a < ns.len() && 0 <= b < ns.len() && (#[trigger] ns[a]).id == (#[trigger] ns[b]).id
                implies a == b by {
                if a < rs.len() && b < rs.len() {
                    assert(rs[a].id == rs[b].id);
                } else if a < rs.len() {
                    assert(rs[a].id == exchange_id);
                } else if b < rs.len() {
                    assert(rs[b].id == exchange_id);
                }
            }
            assert forall|i: int| 0 <= i < ns.len() implies {
                let q = #[trigger] ns[i];
                &&& has_account(self.ledger.accounts@, q.requester_id)
                &&& has_account(self.ledger.accounts@, q.owner_id)
                &&& has_card(self.cards@, q.card_id)
                &&& q.requester_id != q.owner_id
                &&& q.coin_amount > 0
            } by {
                if i < rs.len() {
                    assert(rs[i] == ns[i]);
                } else {
                    assert(self.cards@[ci as int].id == card_id);
                    assert(before.cards@[ci as int] == card);
                }
            }
            assert(escrow_values(ns) =~= escrow_values(rs).push(coin_amount as int));
            lemma_sum_push(escrow_values(rs), coin_amount as int);
        }
        Ok(req)
    }
}

/// A request the sweep at `now` selects: pending, and expired before `now`.
pub open spec fn is_overdue(q: ExchangeRequestRow, now: i64) -> bool {
    q.status is Pending && q.expires_at < now
}

/// A request that the sweep at `now` selected (`o`, as it was) and expired (`c`, as it is).
pub open spec fn was_swept(o: ExchangeRequestRow, c: ExchangeRequestRow, now: i64) -> bool {
    is_overdue(o, now) && c.status is Expired
}

/// What a sweep at `now` may do to one request: expire it if it was
/// selected, or else leave it as it was.
pub open spec fn sweep_step(o: ExchangeRequestRow, c: ExchangeRequestRow, now: i64) -> bool {
    if is_overdue(o, now) {
        c == o || c == with_status(o, ExchangeStatus::Expired, now)
    } else {
        c == o
    }
}

/// How many of the first `n` requests the sweep at `now` selects.
pub open spec fn count_overdue(o: Seq<ExchangeRequestRow>, now: i64, n: int) -> nat
    decreases n,
{
    if n <= 0 {
        0
    } else {
        count_overdue(o, now, n - 1) + if is_overdue(o[n - 1], now) { 1nat } else { 0nat }
    }
}

/// How many of the first `n` requests the sweep at `now` expired.
pub open spec fn count_swept(o: Seq<ExchangeRequestRow>, c: Seq<ExchangeRequestRow>, now: i64, n: int) -> nat
    decreases n,
{
    if n <= 0 {
        0
    } else {
        count_swept(o, c, now, n - 1) + if was_swept(o[n - 1], c[n - 1], now) { 1nat } else { 0nat }
    }
}

/// The coins refunded by the sweep at `now` among the first `n` requests.
pub open spec fn refunded_sum(o: Seq<ExchangeRequestRow>, c: Seq<ExchangeRequestRow>, now: i64, n: int) -> int
    decreases n,
{
    if n <= 0 {
        0
    } else {
        refunded_sum(o, c, now, n - 1) + if was_swept(o[n - 1], c[n - 1], now) {
            o[n - 1].coin_amount as int
        } else {
            0
        }
    }
}

/// The coins refunded to `user_id` by the sweep at `now` among the first `n` requests.
pub open spec fn refunded_to(o: Seq<ExchangeRequestRow>, c: Seq<ExchangeRequestRow>, now: i64, user_id: u128, n: int) -> int
    decreases n,
{
    if n <= 0 {
        0
    } else {
        refunded_to(o, c, now, user_id, n - 1) + if was_swept(o[n - 1], c[n - 1], now)
            && o[n - 1].requester_id == user_id {
            o[n - 1].coin_amount as int
        } else {
            0
        }
    }
}

/// `x`, or the largest `i64` when it is larger.
pub open spec fn capped(x: int) -> int {
    if x > i64::MAX {
        i64::MAX as int
    } else {
        x
    }
}

/// The sweep totals over a prefix depend only on that prefix.
proof fn lemma_sweep_counts_prefix(o: Seq<ExchangeRequestRow>, a: Seq<ExchangeRequestRow>, b: Seq<ExchangeRequestRow>, now: i64, n: int)
    requires
        0 <= n <= a.len(),
        n <= b.len(),
        forall|j: int| 0 <= j < n ==> a[j] == b[j],
    ensures
        count_swept(o, a, now, n) == count_swept(o, b, now, n),
        refunded_sum(o, a, now, n) == refunded_sum(o, b, now, n),
    decreases n,
{
    if n > 0 {
        lemma_sweep_counts_prefix(o, a, b, now, n - 1);
    }
}

/// Per-user refund totals over a prefix depend only on that prefix.
proof fn lemma_refunded_to_prefix(o: Seq<ExchangeRequestRow>, a: Seq<ExchangeRequestRow>, b: Seq<ExchangeRequestRow>, now: i64, u: u128, n: int)
    requires
        0 <= n <= a.len(),
        n <= b.len(),
        forall|j: int| 0 <= j < n ==> a[j] == b[j],
    ensures
        refunded_to(o, a, now, u, n) == refunded_to(o, b, now, u, n),
    decreases n,
{
    if n > 0 {
        lemma_refunded_to_prefix(o, a, b, now, u, n - 1);
    }
}

/// After the sweep expired the request at `i`, its totals over the first
/// `i + 1` requests grow by that request.
proof fn lemma_sweep_prefix(o: Seq<ExchangeRequestRow>, a: Seq<ExchangeRequestRow>, b: Seq<ExchangeRequestRow>, now: i64, i: int)
    requires
        0 <= i < a.len(),
        b == a.update(i, with_status(o[i], ExchangeStatus::Expired, now)),
        is_overdue(o[i], now),
    ensures
        count_swept(o, b, now, i + 1) == count_swept(o, a, now, i) + 1,
        refunded_sum(o, b, now, i + 1) == refunded_sum(o, a, now, i) + o[i].coin_amount,
{
    lemma_sweep_counts_prefix(o, a, b, now, i);
}

/// The per-user form of `lemma_sweep_prefix`.
proof fn lemma_sweep_prefix_to(o: Seq<ExchangeRequestRow>, a: Seq<ExchangeRequestRow>, b: Seq<ExchangeRequestRow>, now: i64, u: u128, i: int)
    requires
        0 <= i < a.len(),
        b == a.update(i, with_status(o[i], ExchangeStatus::Expired, now)),
        is_overdue(o[i], now),
    ensures
        refunded_to(o, b, now, u, i + 1) == refunded_to(o, a, now, u, i) + if o[i].requester_id == u {
            o[i].coin_amount as int
        } else {
            0
        },
{
    lemma_refunded_to_prefix(o, a, b, now, u, i);
}

/// A ledger change that only moved the balance of one existing user keeps
/// the set of users with an account.
proof fn lemma_same_users(a: &UserService, b: &UserService, id: u128, v: int)
    requires
        b.balances() == a.balances().insert(id, v),
        a.balances().contains_key(id),
    ensures
        forall|x: u128| has_account(b.accounts@, x) <==> has_account(a.accounts@, x),
{
    assert forall|x: u128| has_account(b.accounts@, x) <==> has_account(a.accounts@, x) by {
        assert(b.balances().contains_key(x) == has_account(b.accounts@, x));
        assert(a.balances().contains_key(x) == has_account(a.accounts@, x));
    }
}

} // verus!
