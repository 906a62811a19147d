//! The authentication check.
//!
//! Every request must carry an `x-api-key` header equal, byte for byte, to
//! the configured shared secret. The check fails closed: a missing header is
//! treated exactly like a wrong one.

use vstd::prelude::*;

verus! {

/// Holds when the provided credential is present and equals the expected one.
pub open spec fn key_authorized(expected: Seq<char>, provided: Option<Seq<char>>) -> bool {
    provided matches Some(p) && p == expected
}

/// Decides whether the request's credential matches the configured secret.
/// Comparison is exact string equality, with no normalization. It is not
/// constant-time; a timing-safe comparison would be a hardening improvement,
/// not a change of this contract.
pub fn api_key_authorized(expected: &String, provided: Option<&String>) -> (r: bool)
    ensures
        r == key_authorized(expected@, provided.deep_view()),
{
    match provided {
        Some(p) => *p == *expected,
        None => false,
    }
}

} // verus!
