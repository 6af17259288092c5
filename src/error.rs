//! Errors of the ledger and of the exchange.
use vstd::prelude::*;

verus! {

/// What went wrong. Every error is an ordinary outcome that the caller sees;
/// none leaves a partial change behind.
#[derive(Debug, Clone, Copy, PartialEq, Eq, Structural)]
pub enum AppError {
    /// The request, card or user does not exist.
    NotFound,
    /// The caller is not the party allowed to take this action.
    Forbidden,
    /// The request is no longer pending, or was found expired.
    InvalidState,
    /// A pending request for the card already exists, or the card is already collected.
    Conflict,
    /// The balance does not cover the amount.
    InsufficientBalance,
    /// The amount is not positive.
    InvalidAmount,
    /// The action is never allowed, such as exchanging one's own card.
    InvalidOperation,
    /// The store could not take the change: a value out of range or an identifier in use.
    Internal,
}

impl AppError {
    /// The machine-readable code of this error.
    pub fn code(&self) -> (r: &'static str)
        ensures
            r@ == error_code(*self),
    {
        match self {
            AppError::NotFound => "NOT_FOUND",
            AppError::Forbidden => "FORBIDDEN",
            AppError::InvalidState => "INVALID_STATE",
            AppError::Conflict => "CONFLICT",
            AppError::InsufficientBalance => "INSUFFICIENT_BALANCE",
            AppError::InvalidAmount => "INVALID_AMOUNT",
            AppError::InvalidOperation => "INVALID_OPERATION",
            AppError::Internal => "INTERNAL_ERROR",
        }
    }
}

/// The code of each error.
pub open spec fn error_code(e: AppError) -> Seq<char> {
    match e {
        AppError::NotFound => "NOT_FOUND"@,
        AppError::Forbidden => "FORBIDDEN"@,
        AppError::InvalidState => "INVALID_STATE"@,
        AppError::Conflict => "CONFLICT"@,
        AppError::InsufficientBalance => "INSUFFICIENT_BALANCE"@,
        AppError::InvalidAmount => "INVALID_AMOUNT"@,
        AppError::InvalidOperation => "INVALID_OPERATION"@,
        AppError::Internal => "INTERNAL_ERROR"@,
    }
}

/// An error as it is reported: a code and a message.
#[derive(Debug, Clone, PartialEq, Eq)]
pub struct ErrorDetail {
    pub code: String,
    pub message: String,
}

} // verus!
