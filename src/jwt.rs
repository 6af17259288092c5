//! Session token contents.
use vstd::prelude::*;

verus! {

/// The claims of a session token: the user id as text and the issue and
/// expiry times, in seconds since the Unix epoch.
#[derive(Debug, Clone, PartialEq, Eq)]
pub struct Claims {
    pub sub: String,
    pub exp: i64,
    pub iat: i64,
}

} // verus!
