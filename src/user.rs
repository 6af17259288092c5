//! Users as the ledger and the exchange see them.
use vstd::prelude::*;

use crate::text::str_equal;

verus! {

/// Age bracket on a user profile.
#[derive(Debug, Clone, Copy, PartialEq, Eq, Structural)]
pub enum AgeRange {
    Age18To24,
    Age25To30,
    Age31To40,
    Age41To50,
    Age50Plus,
}

/// The storage name of each age bracket.
pub open spec fn age_range_name(a: AgeRange) -> Seq<char> {
    match a {
        AgeRange::Age18To24 => "18-24"@,
        AgeRange::Age25To30 => "25-30"@,
        AgeRange::Age31To40 => "31-40"@,
        AgeRange::Age41To50 => "41-50"@,
        AgeRange::Age50Plus => "50+"@,
    }
}

impl AgeRange {
    /// Parses the storage name of an age bracket.
    pub fn from_db_str(s: &str) -> (r: Option<AgeRange>)
        ensures
            r == (if s@ == "18-24"@ {
                Some(AgeRange::Age18To24)
            } else if s@ == "25-30"@ {
                Some(AgeRange::Age25To30)
            } else if s@ == "31-40"@ {
                Some(AgeRange::Age31To40)
            } else if s@ == "41-50"@ {
                Some(AgeRange::Age41To50)
            } else if s@ == "50+"@ {
                Some(AgeRange::Age50Plus)
            } else {
                None
            }),
    {
        if str_equal(s, "18-24") {
            Some(AgeRange::Age18To24)
        } else if str_equal(s, "25-30") {
            Some(AgeRange::Age25To30)
        } else if str_equal(s, "31-40") {
            Some(AgeRange::Age31To40)
        } else if str_equal(s, "41-50") {
            Some(AgeRange::Age41To50)
        } else if str_equal(s, "50+") {
            Some(AgeRange::Age50Plus)
        } else {
            None
        }
    }

    /// The storage name of this age bracket.
    pub fn to_db_str(&self) -> (r: &'static str)
        ensures
            r@ == age_range_name(*self),
    {
        match self {
            AgeRange::Age18To24 => "18-24",
            AgeRange::Age25To30 => "25-30",
            AgeRange::Age31To40 => "31-40",
            AgeRange::Age41To50 => "41-50",
            AgeRange::Age50Plus => "50+",
        }
    }
}

/// Why coins moved.
#[derive(Debug, Clone, Copy, PartialEq, Eq, Structural)]
pub enum CoinReason {
    CardCreated,
    CardExchanged,
    DailyLogin,
    ExchangePurchase,
    ExchangeRefund,
}

/// The storage name of each reason.
pub open spec fn coin_reason_name(r: CoinReason) -> Seq<char> {
    match r {
        CoinReason::CardCreated => "card_created"@,
        CoinReason::CardExchanged => "card_exchanged"@,
        CoinReason::DailyLogin => "daily_login"@,
        CoinReason::ExchangePurchase => "exchange_purchase"@,
        CoinReason::ExchangeRefund => "exchange_refund"@,
    }
}

impl CoinReason {
    /// Parses the storage name of a reason.
    pub fn from_db_str(s: &str) -> (r: Option<CoinReason>)
        ensures
            r == (if s@ == "card_created"@ {
                Some(CoinReason::CardCreated)
            } else if s@ == "card_exchanged"@ {
                Some(CoinReason::CardExchanged)
            } else if s@ == "daily_login"@ {
                Some(CoinReason::DailyLogin)
            } else if s@ == "exchange_purchase"@ {
                Some(CoinReason::ExchangePurchase)
            } else if s@ == "exchange_refund"@ {
                Some(CoinReason::ExchangeRefund)
            } else {
                None
            }),
    {
        if str_equal(s, "card_created") {
            Some(CoinReason::CardCreated)
        } else if str_equal(s, "card_exchanged") {
            Some(CoinReason::CardExchanged)
        } else if str_equal(s, "daily_login") {
            Some(CoinReason::DailyLogin)
        } else if str_equal(s, "exchange_purchase") {
            Some(CoinReason::ExchangePurchase)
        } else if str_equal(s, "exchange_refund") {
            Some(CoinReason::ExchangeRefund)
        } else {
            None
        }
    }

    /// The storage name of this reason.
    pub fn to_db_str(&self) -> (r: &'static str)
        ensures
            r@ == coin_reason_name(*self),
    {
        match self {
            CoinReason::CardCreated => "card_created",
            CoinReason::CardExchanged => "card_exchanged",
            CoinReason::DailyLogin => "daily_login",
            CoinReason::ExchangePurchase => "exchange_purchase",
            CoinReason::ExchangeRefund => "exchange_refund",
        }
    }

    /// The display form of this reason, the same as its storage name.
    pub fn to_string(&self) -> (r: String)
        ensures
            r@ == coin_reason_name(*self),
    {
        self.to_db_str().to_owned()
    }
}

/// Short description of a user, embedded in other answers.
#[derive(Debug, Clone, PartialEq, Eq)]
pub struct UserSummary {
    pub id: u128,
    pub nickname: Option<String>,
    pub avatar: Option<String>,
    pub level: i32,
}

/// Changes to a user profile; `None` leaves a field as it is.
#[derive(Debug, Clone, PartialEq, Eq)]
pub struct ProfileUpdateData {
    pub nickname: Option<String>,
    pub bio: Option<String>,
    pub age_range: Option<AgeRange>,
    pub location: Option<String>,
}

/// Registration input.
#[derive(Debug, Clone)]
pub struct RegisterRequest {
    pub email: String,
    pub password: String,
}

/// Login input.
#[derive(Debug, Clone)]
pub struct LoginRequest {
    pub email: String,
    pub password: String,
}

/// Input for replacing a user's interest tags.
#[derive(Debug, Clone)]
pub struct SetInterestTagsRequest {
    pub tags: Vec<String>,
}

/// One entry of the coin ledger: `amount` coins (negative for a debit) moved
/// on `user_id`'s balance, which was `balance_after` afterwards.
#[derive(Debug, Clone, Copy, PartialEq, Eq, Structural)]
pub struct CoinTransaction {
    pub id: u128,
    pub user_id: u128,
    pub amount: i32,
    pub reason: CoinReason,
    pub reference_id: Option<u128>,
    pub balance_after: i32,
    pub created_at: i64,
}

} // verus!
