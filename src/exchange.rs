//! Exchange requests, their status, and the records they leave behind.
use vstd::prelude::*;

use crate::card::LifeCardSummary;
use crate::clock::now_timestamp;
use crate::text::str_equal;
use crate::user::UserSummary;

verus! {

/// Status of an exchange request. `Pending` is the only status with outgoing
/// transitions; the four others are terminal.
#[derive(Debug, Clone, Copy, PartialEq, Eq, Structural)]
pub enum ExchangeStatus {
    Pending,
    Accepted,
    Rejected,
    Cancelled,
    Expired,
}

/// The storage name of each status.
pub open spec fn status_name(s: ExchangeStatus) -> Seq<char> {
    match s {
        ExchangeStatus::Pending => "pending"@,
        ExchangeStatus::Accepted => "accepted"@,
        ExchangeStatus::Rejected => "rejected"@,
        ExchangeStatus::Cancelled => "cancelled"@,
        ExchangeStatus::Expired => "expired"@,
    }
}

/// The status whose storage name is `s`, if any.
pub open spec fn status_from_name(s: Seq<char>) -> Option<ExchangeStatus> {
    if s == "pending"@ {
        Some(ExchangeStatus::Pending)
    } else if s == "accepted"@ {
        Some(ExchangeStatus::Accepted)
    } else if s == "rejected"@ {
        Some(ExchangeStatus::Rejected)
    } else if s == "cancelled"@ {
        Some(ExchangeStatus::Cancelled)
    } else if s == "expired"@ {
        Some(ExchangeStatus::Expired)
    } else {
        None
    }
}

impl ExchangeStatus {
    /// Parses the storage name of a status.
    pub fn from_db_str(s: &str) -> (r: Option<ExchangeStatus>)
        ensures
            r == status_from_name(s@),
    {
        if str_equal(s, "pending") {
            Some(ExchangeStatus::Pending)
        } else if str_equal(s, "accepted") {
            Some(ExchangeStatus::Accepted)
        } else if str_equal(s, "rejected") {
            Some(ExchangeStatus::Rejected)
        } else if str_equal(s, "cancelled") {
            Some(ExchangeStatus::Cancelled)
        } else if str_equal(s, "expired") {
            Some(ExchangeStatus::Expired)
        } else {
            None
        }
    }

    /// The storage name of this status.
    pub fn to_db_str(&self) -> (r: &'static str)
        ensures
            r@ == status_name(*self),
    {
        match self {
            ExchangeStatus::Pending => "pending",
            ExchangeStatus::Accepted => "accepted",
            ExchangeStatus::Rejected => "rejected",
            ExchangeStatus::Cancelled => "cancelled",
            ExchangeStatus::Expired => "expired",
        }
    }

    /// The display form of this status, the same as its storage name.
    pub fn to_string(&self) -> (r: String)
        ensures
            r@ == status_name(*self),
    {
        self.to_db_str().to_owned()
    }

    pub open spec fn spec_is_terminal(self) -> bool {
        !(self is Pending)
    }

    /// Whether no transition leaves this status.
    pub fn is_terminal(&self) -> (r: bool)
        ensures
            r == self.spec_is_terminal(),
    {
        !matches!(self, ExchangeStatus::Pending)
    }

    /// Whether a request in this status may be accepted.
    pub fn can_accept(&self) -> (r: bool)
        ensures
            r == (*self is Pending),
    {
        matches!(self, ExchangeStatus::Pending)
    }

    /// Whether a request in this status may be rejected.
    pub fn can_reject(&self) -> (r: bool)
        ensures
            r == (*self is Pending),
    {
        matches!(self, ExchangeStatus::Pending)
    }

    /// Whether a request in this status may be cancelled.
    pub fn can_cancel(&self) -> (r: bool)
        ensures
            r == (*self is Pending),
    {
        matches!(self, ExchangeStatus::Pending)
    }
}

/// Parsing the storage name of a status gives that status back.
pub proof fn lemma_status_name_round_trip(s: ExchangeStatus)
    ensures
        status_from_name(status_name(s)) == Some(s),
{
    reveal_strlit("pending");
    reveal_strlit("accepted");
    reveal_strlit("rejected");
    reveal_strlit("cancelled");
    reveal_strlit("expired");
    assert("pending"@[0] != "accepted"@[0]);
    assert("pending"@[0] != "rejected"@[0]);
    assert("pending"@[0] != "cancelled"@[0]);
    assert("pending"@[0] != "expired"@[0]);
    assert("accepted"@[0] != "rejected"@[0]);
    assert("accepted"@[0] != "cancelled"@[0]);
    assert("accepted"@[0] != "expired"@[0]);
    assert("rejected"@[0] != "cancelled"@[0]);
    assert("rejected"@[0] != "expired"@[0]);
    assert("cancelled"@[0] != "expired"@[0]);
}

/// An exchange request as it is stored. Identifiers are 128-bit UUID values;
/// times are Unix timestamps in seconds.
#[derive(Debug, Clone, Copy, PartialEq, Eq, Structural)]
pub struct ExchangeRequestRow {
    pub id: u128,
    pub requester_id: u128,
    pub card_id: u128,
    pub owner_id: u128,
    pub coin_amount: i32,
    pub status: ExchangeStatus,
    pub expires_at: i64,
    pub created_at: i64,
    pub updated_at: i64,
}

/// An exchange request as it is shown, with optional summaries of the parties
/// and of the card.
#[derive(Debug, Clone)]
pub struct ExchangeRequest {
    pub id: u128,
    pub requester_id: u128,
    pub requester: Option<UserSummary>,
    pub card_id: u128,
    pub card: Option<LifeCardSummary>,
    pub owner_id: u128,
    pub owner: Option<UserSummary>,
    pub coin_amount: i32,
    pub status: ExchangeStatus,
    pub expires_at: i64,
    pub created_at: i64,
}

impl ExchangeRequestRow {
    /// The shown form of this row, with the given summaries.
    pub fn to_exchange_request(
        &self,
        requester: Option<UserSummary>,
        card: Option<LifeCardSummary>,
        owner: Option<UserSummary>,
    ) -> (r: ExchangeRequest)
        ensures
            r.id == self.id,
            r.requester_id == self.requester_id,
            r.requester == requester,
            r.card_id == self.card_id,
            r.card == card,
            r.owner_id == self.owner_id,
            r.owner == owner,
            r.coin_amount == self.coin_amount,
            r.status == self.status,
            r.expires_at == self.expires_at,
            r.created_at == self.created_at,
    {
        ExchangeRequest {
            id: self.id,
            requester_id: self.requester_id,
            requester,
            card_id: self.card_id,
            card,
            owner_id: self.owner_id,
            owner,
            coin_amount: self.coin_amount,
            status: self.status,
            expires_at: self.expires_at,
            created_at: self.created_at,
        }
    }

    pub open spec fn spec_is_expired_at(self, now: i64) -> bool {
        now > self.expires_at
    }

    /// Whether the request is past its expiry time at time `now`.
    pub fn is_expired_at(&self, now: i64) -> (r: bool)
        ensures
            r == self.spec_is_expired_at(now),
    {
        now > self.expires_at
    }

    /// Whether the request is past its expiry time on the system clock.
    pub fn is_expired(&self) -> bool {
        self.is_expired_at(now_timestamp())
    }

    /// Whether the request is pending and not yet expired at time `now`.
    pub fn is_actionable_at(&self, now: i64) -> (r: bool)
        ensures
            r == (self.status is Pending && !self.spec_is_expired_at(now)),
    {
        matches!(self.status, ExchangeStatus::Pending) && !self.is_expired_at(now)
    }

    /// Whether the request is pending and not yet expired on the system clock.
    pub fn is_actionable(&self) -> (r: bool)
        ensures
            r ==> self.status is Pending,
    {
        self.is_actionable_at(now_timestamp())
    }
}

/// Which side of a completed exchange a user was on.
#[derive(Debug, Clone, Copy, PartialEq, Eq, Structural)]
pub enum ExchangeDirection {
    /// The user owned the card and received the coins.
    Sent,
    /// The user paid the coins and received the card.
    Received,
}

impl ExchangeDirection {
    /// The display form: `sent` or `received`.
    pub fn to_string(&self) -> (r: String)
        ensures
            r@ == (match *self {
                ExchangeDirection::Sent => "sent"@,
                ExchangeDirection::Received => "received"@,
            }),
    {
        match self {
            ExchangeDirection::Sent => "sent".to_owned(),
            ExchangeDirection::Received => "received".to_owned(),
        }
    }
}

/// The outcome of an accepted exchange.
#[derive(Debug, Clone, Copy, PartialEq, Eq, Structural)]
pub struct ExchangeResult {
    pub exchange_id: u128,
    pub card_id: u128,
    pub requester_new_balance: i32,
    pub owner_new_balance: i32,
}

/// A completed exchange as it is stored: the card went from `from_user_id`
/// (the owner) to `to_user_id` (the requester) for `coin_amount` coins.
#[derive(Debug, Clone, Copy, PartialEq, Eq, Structural)]
pub struct ExchangeRecordRow {
    pub id: u128,
    pub exchange_request_id: Option<u128>,
    pub card_id: u128,
    pub from_user_id: u128,
    pub to_user_id: u128,
    pub coin_amount: i32,
    pub completed_at: i64,
}

/// A completed exchange seen by one of its two parties.
#[derive(Debug, Clone)]
pub struct ExchangeRecord {
    pub id: u128,
    pub card_id: u128,
    pub card: Option<LifeCardSummary>,
    pub counterparty_id: u128,
    pub counterparty: Option<UserSummary>,
    pub direction: ExchangeDirection,
    pub coin_amount: i32,
    pub completed_at: i64,
}

impl ExchangeRecordRow {
    /// This record as `viewer_id` sees it: sent when the viewer gave the card,
    /// received otherwise, with the other party as counterparty.
    pub fn to_exchange_record(
        &self,
        viewer_id: &u128,
        card: Option<LifeCardSummary>,
        counterparty: Option<UserSummary>,
    ) -> (r: ExchangeRecord)
        ensures
            r.id == self.id,
            r.card_id == self.card_id,
            r.card == card,
            r.counterparty == counterparty,
            r.coin_amount == self.coin_amount,
            r.completed_at == self.completed_at,
            self.from_user_id == *viewer_id ==> r.direction == ExchangeDirection::Sent
                && r.counterparty_id == self.to_user_id,
            self.from_user_id != *viewer_id ==> r.direction == ExchangeDirection::Received
                && r.counterparty_id == self.from_user_id,
    {
        let sent = self.from_user_id == *viewer_id;
        let direction = if sent {
            ExchangeDirection::Sent
        } else {
            ExchangeDirection::Received
        };
        let counterparty_id = if sent {
            self.to_user_id
        } else {
            self.from_user_id
        };
        ExchangeRecord {
            id: self.id,
            card_id: self.card_id,
            card,
            counterparty_id,
            counterparty,
            direction,
            coin_amount: self.coin_amount,
            completed_at: self.completed_at,
        }
    }
}

/// The exchange record `row` as `viewer` sees it, without summaries.
pub open spec fn seen_by(row: ExchangeRecordRow, viewer: u128) -> ExchangeRecord {
    ExchangeRecord {
        id: row.id,
        card_id: row.card_id,
        card: None,
        counterparty_id: if row.from_user_id == viewer { row.to_user_id } else { row.from_user_id },
        counterparty: None,
        direction: if row.from_user_id == viewer { ExchangeDirection::Sent } else { ExchangeDirection::Received },
        coin_amount: row.coin_amount,
        completed_at: row.completed_at,
    }
}

/// A list of exchange requests and how many there are.
#[derive(Debug, Clone)]
pub struct ExchangeRequestListResponse {
    pub requests: Vec<ExchangeRequest>,
    pub total_count: i64,
}

/// One page of a user's completed exchanges and how many there are in all.
#[derive(Debug, Clone)]
pub struct ExchangeHistoryResponse {
    pub records: Vec<ExchangeRecord>,
    pub total_count: i64,
}

/// Input for creating an exchange request.
#[derive(Debug, Clone, Copy, PartialEq, Eq, Structural)]
pub struct CreateExchangeRequestData {
    pub card_id: u128,
}

impl CreateExchangeRequestData {
    /// Every card id is acceptable input; whether the card exists is decided later.
    pub fn validate(&self) -> (r: Result<(), String>)
        ensures
            r is Ok,
    {
        Ok(())
    }
}

/// Default lifetime of an exchange request, in hours.
pub const EXCHANGE_REQUEST_EXPIRATION_HOURS: i64 = 72;

pub const SECONDS_PER_HOUR: i64 = 3600;

/// `now` plus `hours` hours, when that fits in an `i64`.
pub open spec fn spec_expiration_time(now: i64, hours: i64) -> Option<i64> {
    let secs = hours * SECONDS_PER_HOUR;
    let t = now + secs;
    if i64::MIN <= secs <= i64::MAX && i64::MIN <= t <= i64::MAX {
        Some(t as i64)
    } else {
        None
    }
}

/// The expiry time of a request created at `now` that lives `hours` hours;
/// `None` when the time does not fit in an `i64`.
pub fn expiration_time(now: i64, hours: i64) -> (r: Option<i64>)
    ensures
        r == spec_expiration_time(now, hours),
{
    match hours.checked_mul(SECONDS_PER_HOUR) {
        Some(secs) => now.checked_add(secs),
        None => None,
    }
}

/// The expiry time of a request created now on the system clock, with the
/// default lifetime; saturates at the largest time.
pub fn calculate_expiration_time() -> i64 {
    match expiration_time(now_timestamp(), EXCHANGE_REQUEST_EXPIRATION_HOURS) {
        Some(t) => t,
        None => i64::MAX,
    }
}

/// Summary of one expiration sweep.
#[derive(Debug, Clone, Copy, PartialEq, Eq, Structural)]
pub struct ExpirationProcessingResult {
    /// Pending requests found past their expiry time.
    pub total_found: usize,
    /// Requests expired and refunded.
    pub processed_count: usize,
    /// Requests whose expiry failed; they stay pending.
    pub failed_count: usize,
    /// Coins returned to requesters.
    pub total_refunded_amount: i64,
}

impl ExpirationProcessingResult {
    /// Whether no request of the sweep failed.
    pub fn all_successful(&self) -> (r: bool)
        ensures
            r == (self.failed_count == 0),
    {
        self.failed_count == 0
    }

    /// Whether the sweep expired at least one request.
    pub fn has_processed(&self) -> (r: bool)
        ensures
            r == (self.processed_count > 0),
    {
        self.processed_count > 0
    }
}

/// Popularity bonus of a card: one coin per ten likes, two per past exchange.
pub open spec fn popularity_bonus(like_count: int, exchange_count: int) -> int {
    like_count / 10 + exchange_count * 2
}

/// Price of a card: its base price plus its popularity bonus.
pub open spec fn exchange_price(base_price: int, like_count: int, exchange_count: int) -> int {
    base_price + popularity_bonus(like_count, exchange_count)
}

/// Whether the price of a card with these counters fits the `i32` fields.
pub open spec fn price_fits(base_price: i32, like_count: i32, exchange_count: i32) -> bool {
    &&& i32::MIN <= popularity_bonus(like_count as int, exchange_count as int) <= i32::MAX
    &&& i32::MIN <= exchange_price(base_price as int, like_count as int, exchange_count as int)
        <= i32::MAX
}

/// The price of a card and how it is made up.
#[derive(Debug, Clone, Copy, PartialEq, Eq, Structural)]
pub struct ExchangePriceInfo {
    pub card_id: u128,
    pub base_price: i32,
    pub popularity_bonus: i32,
    pub final_price: i32,
}

impl ExchangePriceInfo {
    /// Prices a card from its base price and live counters.
    pub fn new(card_id: u128, base_price: i32, like_count: i32, exchange_count: i32) -> (r: Self)
        requires
            like_count >= 0,
            exchange_count >= 0,
            price_fits(base_price, like_count, exchange_count),
        ensures
            r.card_id == card_id,
            r.base_price == base_price,
            r.popularity_bonus == popularity_bonus(like_count as int, exchange_count as int),
            r.final_price == exchange_price(base_price as int, like_count as int, exchange_count as int),
    {
        let popularity_bonus = like_count / 10 + exchange_count * 2;
        let final_price = base_price + popularity_bonus;
        ExchangePriceInfo { card_id, base_price, popularity_bonus, final_price }
    }
}

} // verus!
