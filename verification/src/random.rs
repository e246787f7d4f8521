//! Random material for salts and session tokens.

use rand::Rng;
use vstd::prelude::*;

verus! {

/// Holds of every character that the alphanumeric sampler can produce:
/// an ASCII letter or digit.
pub open spec fn is_alphanumeric_ascii(c: char) -> bool {
    ('a' <= c && c <= 'z') || ('A' <= c && c <= 'Z') || ('0' <= c && c <= '9')
}

/// Relies on rand::thread_rng (a cryptographically secure generator) and
/// rand::distributions::Alphanumeric: every sampled byte is an ASCII letter
/// or digit, drawn uniformly. Nothing connects two calls: each may return a
/// different string.
#[verifier::external_body]
pub fn random_alphanumeric(len: usize) -> (r: String)
    ensures
        r@.len() == len,
        forall|i: int| 0 <= i < r@.len() ==> is_alphanumeric_ascii(#[trigger] r@[i]),
{
    rand::thread_rng()
        .sample_iter(&rand::distributions::Alphanumeric)
        .take(len)
        .map(char::from)
        .collect::<String>()
}

} // verus!
