//! POST payload resolution.
//!
//! A POST request carries a JSON body `{"title": ..., "body": ...,
//! "expo_push_token": ...}`. Resolution runs in three verified stages:
//! decode the raw body to text, project the three string fields out of the
//! JSON document (through a trusted call into the JSON parser), and validate
//! the fields in a fixed order where the first failing check wins.

use vstd::prelude::*;
use vstd::utf8::{decode_utf8, valid_utf8};
use crate::token::{is_expo_token_format, is_valid_push_token};

verus! {

/// The raw body of an incoming request, as the hosting platform hands it
/// over: text, raw bytes, or nothing.
pub enum RequestBody {
    Text(String),
    Binary(Vec<u8>),
    Empty,
}

/// The text of a request body, if it has one: text bodies stand as they are,
/// binary bodies must decode as UTF-8, and an empty body has no text.
pub open spec fn decoded_body(b: RequestBody) -> Option<Seq<char>> {
    match b {
        RequestBody::Text(s) => Some(s@),
        RequestBody::Binary(bytes) => if valid_utf8(bytes@) {
            Some(decode_utf8(bytes@))
        } else {
            None
        },
        RequestBody::Empty => None,
    }
}

/// Relies on `String::from_utf8`: it returns `Ok` exactly on valid UTF-8,
/// and the returned string is the decoding of the bytes.
#[verifier::external_body]
fn string_from_utf8(bytes: &Vec<u8>) -> (r: Option<String>)
    ensures
        r is Some <==> valid_utf8(bytes@),
        r matches Some(s) ==> s@ == decode_utf8(bytes@),
{
    String::from_utf8(bytes.clone()).ok()
}

/// Decodes a request body to text, or reports that its encoding is
/// unsupported.
pub fn decode_body(b: &RequestBody) -> (r: Option<String>)
    ensures
        r is Some <==> decoded_body(*b) is Some,
        r matches Some(s) ==> decoded_body(*b) == Some(s@),
{
    match b {
        RequestBody::Text(s) => Some(s.clone()),
        RequestBody::Binary(bytes) => string_from_utf8(bytes),
        RequestBody::Empty => None,
    }
}

/// Whether `serde_json::from_str::<Value>` accepts the text as JSON. The
/// result is a function of the characters alone.
pub uninterp spec fn json_parses(s: Seq<char>) -> bool;

/// The string value at top-level key `name` of the JSON document with the
/// given text: `Some` exactly when the document is an object whose `name`
/// member is a JSON string. A function of the two texts alone.
pub uninterp spec fn json_string_field(s: Seq<char>, name: Seq<char>) -> Option<Seq<char>>;

/// The three string fields a POST body may carry, projected out of its JSON
/// document, plus whether the document parsed at all.
pub struct PostFields {
    pub parsed: bool,
    pub title: Option<String>,
    pub body: Option<String>,
    pub token: Option<String>,
}

/// Relies on `serde_json::from_str::<Value>`, `Value::get` and
/// `Value::as_str`: parsing is deterministic in the text, and the projection
/// of a top-level member to a string is deterministic in the document.
#[verifier::external_body]
pub(crate) fn parse_post_fields(s: &str) -> (r: PostFields)
    ensures
        r.parsed == json_parses(s@),
        !r.parsed ==> r.title is None && r.body is None && r.token is None,
        r.parsed ==> r.title.deep_view() == json_string_field(s@, "title"@),
        r.parsed ==> r.body.deep_view() == json_string_field(s@, "body"@),
        r.parsed ==> r.token.deep_view() == json_string_field(s@, "expo_push_token"@),
{
    match serde_json::from_str::<serde_json::Value>(s) {
        Err(_) => PostFields { parsed: false, title: None, body: None, token: None },
        Ok(v) => PostFields {
            parsed: true,
            title: v.get("title").and_then(|f| f.as_str()).map(|f| f.to_string()),
            body: v.get("body").and_then(|f| f.as_str()).map(|f| f.to_string()),
            token: v.get("expo_push_token").and_then(|f| f.as_str()).map(|f| f.to_string()),
        },
    }
}

/// The single validation failure a POST payload is rejected with: the checks
/// run title, then body, then token, and the first failing one wins.
#[derive(Clone, Copy, Debug, PartialEq, Eq, Structural)]
pub enum FieldError {
    MissingTitle,
    MissingBody,
    MissingToken,
    InvalidToken,
}

/// A fully validated POST payload: both texts present, and the token in the
/// push-service format.
pub struct PostPayload {
    pub title: String,
    pub body: String,
    pub token: String,
}

/// What validating the three projected fields yields: the first failure in
/// the order title, body, token presence, token format — or the fields
/// themselves.
pub open spec fn spec_validate(
    title: Option<Seq<char>>,
    body: Option<Seq<char>>,
    token: Option<Seq<char>>,
) -> Result<(Seq<char>, Seq<char>, Seq<char>), FieldError> {
    if title is None {
        Err(FieldError::MissingTitle)
    } else if body is None {
        Err(FieldError::MissingBody)
    } else if token is None {
        Err(FieldError::MissingToken)
    } else if !is_expo_token_format(token.unwrap()) {
        Err(FieldError::InvalidToken)
    } else {
        Ok((title.unwrap(), body.unwrap(), token.unwrap()))
    }
}

/// Validates the projected fields in order — title, body, token presence,
/// token format — reporting exactly the first failure, or the validated
/// payload.
pub fn validate_post_fields(
    title: Option<String>,
    body: Option<String>,
    token: Option<String>,
) -> (r: Result<PostPayload, FieldError>)
    ensures
        (match r {
            Ok(p) => spec_validate(title.deep_view(), body.deep_view(), token.deep_view())
                == Ok::<_, FieldError>((p.title@, p.body@, p.token@)),
            Err(e) => spec_validate(title.deep_view(), body.deep_view(), token.deep_view())
                == Err::<(Seq<char>, Seq<char>, Seq<char>), _>(e),
        }),
{
    let title = match title {
        Some(t) => t,
        None => {
            return Err(FieldError::MissingTitle);
        },
    };
    let body = match body {
        Some(b) => b,
        None => {
            return Err(FieldError::MissingBody);
        },
    };
    let token = match token {
        Some(k) => k,
        None => {
            return Err(FieldError::MissingToken);
        },
    };
    if !is_valid_push_token(token.as_str()) {
        return Err(FieldError::InvalidToken);
    }
    Ok(PostPayload { title, body, token })
}

} // verus!
