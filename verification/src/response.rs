//! The HTTP responses that the pipeline produces.
//!
//! Every terminal branch of the pipeline ends in an [`HttpResponse`]. Error
//! responses carry a JSON body of the shape `{"error":"<message>"}`; the one
//! exception is the forbidden response, which is plain text.

use vstd::prelude::*;
use vstd::string::StringExecFns;

verus! {

/// An HTTP response: status code, optional `Content-Type`, and body.
pub struct HttpResponse {
    pub status: u16,
    pub content_type: Option<String>,
    pub body: String,
}

/// The JSON error body `{"error":"<message>"}` for a given message.
///
/// The messages used by this library are fixed ASCII texts with no characters
/// that JSON would escape, so plain concatenation renders them exactly.
pub open spec fn error_body(msg: Seq<char>) -> Seq<char> {
    "{\"error\":\""@ + msg + "\"}"@
}

/// Holds when `r` is a response with the given status, a JSON content type,
/// and the given body.
pub open spec fn is_json_response(r: HttpResponse, status: u16, body: Seq<char>) -> bool {
    &&& r.status == status
    &&& (r.content_type matches Some(c) && c@ == "application/json"@)
    &&& r.body@ == body
}

/// Holds when `r` is the plain-text forbidden response sent whenever the
/// shared-secret header is missing or wrong.
pub open spec fn is_forbidden_response(r: HttpResponse) -> bool {
    &&& r.status == 403
    &&& r.content_type is None
    &&& r.body@ == "Forbidden: Invalid API Key"@
}

/// The 403 response for a missing or wrong `x-api-key` header.
pub fn forbidden() -> (r: HttpResponse)
    ensures
        is_forbidden_response(r),
{
    HttpResponse { status: 403, content_type: None, body: "Forbidden: Invalid API Key".to_owned() }
}

/// A JSON response with the given status and exact body text.
pub fn json_response(status: u16, body: &str) -> (r: HttpResponse)
    ensures
        is_json_response(r, status, body@),
{
    HttpResponse {
        status,
        content_type: Some("application/json".to_owned()),
        body: body.to_owned(),
    }
}

/// A JSON error response with body `{"error":"<msg>"}`.
pub fn error_response(status: u16, msg: &str) -> (r: HttpResponse)
    ensures
        is_json_response(r, status, error_body(msg@)),
{
    let rendered = "{\"error\":\"".to_owned().concat(msg).concat("\"}");
    HttpResponse {
        status,
        content_type: Some("application/json".to_owned()),
        body: rendered,
    }
}

} // verus!
