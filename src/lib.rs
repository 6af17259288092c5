//! Card exchange and coin ledger library.
//!
//! Users trade virtual cards for coins. Coins move between per-user balances
//! through an append-only ledger; an exchange request escrows the price of a
//! card until it is accepted, rejected, cancelled or expired, and a periodic
//! sweep expires requests that nobody resolved in time.
pub mod card;
mod clock;
pub mod common;
pub mod config;
pub mod error;
pub mod exchange;
pub mod exchange_service;
pub mod expiration;
pub mod jwt;
pub mod laws;
pub mod ledger;
pub mod recommendation;
pub mod sums;
pub mod text;
pub mod user;
pub mod validation;
