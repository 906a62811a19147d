//! The push-token format predicate.
//!
//! The push-delivery service accepts a token either in the wrapped form
//! `ExponentPushToken[...]` / `ExpoPushToken[...]` or as a lower-case
//! hyphenated device id. The exact predicate is the transport crate's own;
//! this module names it and exposes the crate's check behind a trusted
//! wrapper, so that contracts elsewhere can speak of it precisely.

use vstd::prelude::*;

verus! {

/// What `expo_push_notification_client::Expo::is_expo_push_token` returns on
/// a string with the given characters. The result is a function of the
/// characters alone: a prefix/suffix test for the wrapped forms, or a match
/// of the hyphenated form against a fixed pattern (whose digit class is the
/// regex engine's and is not restated here).
pub uninterp spec fn is_expo_token_format(s: Seq<char>) -> bool;

/// Relies on `Expo::is_expo_push_token` of `expo_push_notification_client`:
/// the syntactic validity check for a push token, deterministic in the
/// token's characters.
#[verifier::external_body]
pub(crate) fn is_valid_push_token(token: &str) -> (r: bool)
    ensures
        r == is_expo_token_format(token@),
{
    expo_push_notification_client::Expo::is_expo_push_token(token)
}

} // verus!
