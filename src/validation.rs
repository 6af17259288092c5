//! Checks on user input.
use vstd::prelude::*;

use crate::text::{has_non_whitespace, has_visible_char, utf8_len};

verus! {

/// What `regex::Regex::new(pattern)` and then `is_match(text)` give: `None`
/// when the pattern does not compile, else whether it matches in `text`.
pub uninterp spec fn regex_outcome(pattern: Seq<char>, text: Seq<char>) -> Option<bool>;

/// Relies on `regex::Regex::new` and `regex::Regex::is_match`: compiling a
/// pattern and matching it depend on the pattern and the text alone.
#[verifier::external_body]
fn regex_is_match(pattern: &str, text: &str) -> (r: Option<bool>)
    ensures
        r == regex_outcome(pattern@, text@),
{
    match regex::Regex::new(pattern) {
        Ok(re) => Some(re.is_match(text)),
        Err(_) => None,
    }
}

/// The shape of an accepted e-mail address.
pub const EMAIL_PATTERN: &'static str = r"^[a-zA-Z0-9._%+-]+@[a-zA-Z0-9.-]+\.[a-zA-Z]{2,}$";

/// Shortest accepted password, in bytes.
pub const MIN_PASSWORD_BYTES: usize = 8;

/// Whether `email` has the shape of an e-mail address: `EMAIL_PATTERN` matches it.
pub fn is_valid_email(email: &str) -> (r: bool)
    ensures
        r == (regex_outcome(EMAIL_PATTERN@, email@) == Some(true)),
{
    match regex_is_match(EMAIL_PATTERN, email) {
        Some(m) => m,
        None => false,
    }
}

/// Whether `password` is at least eight bytes long.
pub fn is_valid_password(password: &str) -> (r: bool)
    ensures
        r == (utf8_len(password@) >= MIN_PASSWORD_BYTES),
{
    password.len() >= MIN_PASSWORD_BYTES
}

/// Whether `s` holds something other than white space.
pub fn is_not_empty(s: &str) -> (r: bool)
    ensures
        r == has_visible_char(s@),
{
    has_non_whitespace(s)
}

} // verus!
