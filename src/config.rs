//! Settings of the service.
use vstd::prelude::*;

use crate::text::str_equal;

verus! {

/// Settings of the service, read from the environment by the program that
/// runs it.
#[derive(Debug, Clone, PartialEq, Eq)]
pub struct Config {
    pub app_name: String,
    pub app_env: String,
    pub app_host: String,
    pub app_port: u16,
    pub database_url: String,
    pub redis_url: String,
    pub jwt_secret: String,
    pub jwt_expiration_hours: i64,
    pub default_coin_balance: i32,
    pub default_card_price: i32,
    /// Lifetime of an exchange request, in hours.
    pub exchange_expiration_hours: i64,
    pub wechat_app_id: String,
    pub wechat_app_secret: String,
}

impl Config {
    /// Whether the service runs in the `production` environment.
    pub fn is_production(&self) -> (r: bool)
        ensures
            r == (self.app_env@ == "production"@),
    {
        str_equal(self.app_env.as_str(), "production")
    }
}

} // verus!
