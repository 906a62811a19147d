//! The dispatch pipeline.
//!
//! One request runs through the credential test and the method switch in [`route`],
//! which either answers at once or instructs the caller to perform exactly
//! one collaborator call: fetch the stored recipient tokens (GET), or
//! dispatch a built notification (POST). The caller feeds the fetch result
//! into [`after_fetch`] and the send outcome into [`dispatch_response`];
//! every path ends in an [`HttpResponse`].

use vstd::prelude::*;
use crate::auth::{api_key_authorized, key_authorized};
use crate::message::NotificationRequest;
use crate::payload::{
    decode_body, decoded_body, json_parses, json_string_field, parse_post_fields, spec_validate,
    validate_post_fields, FieldError, RequestBody,
};
use crate::response::{
    error_body, error_response, is_forbidden_response, is_json_response, json_response,
    HttpResponse,
};

verus! {

/// What the pipeline asks of its caller after the request itself has been
/// examined: answer with the response as it stands, query the datastore for
/// the stored recipient tokens, or dispatch the built notification.
pub enum Action {
    Respond(HttpResponse),
    FetchRecipients,
    Dispatch(NotificationRequest),
}

/// The fixed title a GET-initiated notification carries, there being no
/// payload to source one from.
pub fn default_title() -> (r: String)
    ensures
        r@ == "Scheduled notification"@,
{
    "Scheduled notification".to_owned()
}

/// The fixed body a GET-initiated notification carries.
pub fn default_message_body() -> (r: String)
    ensures
        r@ == "You have a new notification"@,
{
    "You have a new notification".to_owned()
}

/// The rich-content image attached to every outbound notification, as a
/// deployment default.
pub fn default_image_url() -> (r: String)
    ensures
        r@ == "https://picsum.photos/200/300"@,
{
    "https://picsum.photos/200/300".to_owned()
}

/// Holds when `a` is a terminal JSON error response with the given status
/// and message.
pub open spec fn action_is_error(a: Action, status: u16, msg: Seq<char>) -> bool {
    a matches Action::Respond(r) && is_json_response(r, status, error_body(msg))
}

/// Holds when `a` dispatches a notification with exactly the given texts and
/// recipients, carrying the default image.
pub open spec fn action_dispatches(
    a: Action,
    title: Seq<char>,
    body: Seq<char>,
    recipients: Seq<Seq<char>>,
) -> bool {
    &&& a matches Action::Dispatch(m)
    &&& m.title@ == title
    &&& m.body@ == body
    &&& m.recipients.deep_view() == recipients
    &&& (m.image matches Some(u) && u@ == "https://picsum.photos/200/300"@)
}

/// What [`route`] does with an authorized POST request: decode, parse, and
/// validate title, body and token in that order, the first failure winning;
/// a fully valid payload is dispatched to its single token.
pub open spec fn post_action(a: Action, body: RequestBody) -> bool {
    match decoded_body(body) {
        None => action_is_error(a, 400, "Unsupported body type"@),
        Some(text) => if !json_parses(text) {
            action_is_error(a, 400, "Invalid JSON body"@)
        } else {
            match spec_validate(
                json_string_field(text, "title"@),
                json_string_field(text, "body"@),
                json_string_field(text, "expo_push_token"@),
            ) {
                Err(FieldError::MissingTitle) => action_is_error(a, 400, "Title is required"@),
                Err(FieldError::MissingBody) => action_is_error(a, 400, "Body is required"@),
                Err(FieldError::MissingToken) => action_is_error(
                    a,
                    400,
                    "expo_push_token is required"@,
                ),
                Err(FieldError::InvalidToken) => action_is_error(
                    a,
                    400,
                    "Invalid expo push token"@,
                ),
                Ok(fields) => action_dispatches(a, fields.0, fields.1, seq![fields.2]),
            }
        },
    }
}

/// Runs the credential test and the method switch over a request already
/// reduced to plain values, producing the next action.
///
/// An unauthorized request and a disallowed method are answered at once, so
/// the caller performs no collaborator call for them; a GET asks for the
/// stored recipients; a POST resolves its payload, and only a fully valid
/// one is dispatched. The credential test runs first: a disallowed method behind a
/// wrong key is answered 403, not 405.
pub fn route(
    expected_key: &String,
    provided_key: Option<&String>,
    method: &String,
    body: &RequestBody,
) -> (a: Action)
    ensures
        !key_authorized(expected_key@, provided_key.deep_view()) ==> (a
            matches Action::Respond(r) && is_forbidden_response(r)),
        key_authorized(expected_key@, provided_key.deep_view()) ==> {
            if method@ == "GET"@ {
                a is FetchRecipients
            } else if method@ == "POST"@ {
                post_action(a, *body)
            } else {
                action_is_error(a, 405, "Method not allowed"@)
            }
        },
{
    if !api_key_authorized(expected_key, provided_key) {
        return Action::Respond(crate::response::forbidden());
    }
    let get_method: String = "GET".to_owned();
    let post_method: String = "POST".to_owned();
    if *method == get_method {
        return Action::FetchRecipients;
    }
    if !(*method == post_method) {
        return Action::Respond(error_response(405, "Method not allowed"));
    }
    let text = match decode_body(body) {
        Some(t) => t,
        None => {
            return Action::Respond(error_response(400, "Unsupported body type"));
        },
    };
    let fields = parse_post_fields(text.as_str());
    if !fields.parsed {
        return Action::Respond(error_response(400, "Invalid JSON body"));
    }
    match validate_post_fields(fields.title, fields.body, fields.token) {
        Err(FieldError::MissingTitle) => Action::Respond(
            error_response(400, "Title is required"),
        ),
        Err(FieldError::MissingBody) => Action::Respond(error_response(400, "Body is required")),
        Err(FieldError::MissingToken) => Action::Respond(
            error_response(400, "expo_push_token is required"),
        ),
        Err(FieldError::InvalidToken) => Action::Respond(
            error_response(400, "Invalid expo push token"),
        ),
        Ok(payload) => {
            let mut recipients: Vec<String> = Vec::new();
            recipients.push(payload.token);
            let message = NotificationRequest {
                title: payload.title,
                body: payload.body,
                recipients,
                image: Some(default_image_url()),
            };
            proof {
                assert(message.recipients.deep_view() =~= seq![message.recipients@[0]@]);
            }
            Action::Dispatch(message)
        },
    }
}

/// The ordered, null-skipped projection of the datastore rows: the token of
/// each row that has one, in the order the rows came back.
pub open spec fn projected_tokens(rows: Seq<Option<String>>) -> Seq<Seq<char>>
    decreases rows.len(),
{
    if rows.len() == 0 {
        Seq::empty()
    } else {
        let rest = projected_tokens(rows.drop_last());
        match rows.last() {
            Some(s) => rest.push(s@),
            None => rest,
        }
    }
}

/// The projection is the filter of the rows down to those that carry a
/// token, each mapped to its token text: rows without a token are skipped,
/// and nothing is reordered.
pub proof fn lemma_projected_tokens_is_filter(rows: Seq<Option<String>>)
    ensures
        projected_tokens(rows) == rows.filter(|o: Option<String>| o is Some).map_values(
            |o: Option<String>| o.unwrap()@,
        ),
    decreases rows.len(),
{
    reveal(Seq::filter);
    let pred = |o: Option<String>| o is Some;
    let f = |o: Option<String>| o.unwrap()@;
    if rows.len() == 0 {
        assert(projected_tokens(rows) =~= rows.filter(pred).map_values(f));
    } else {
        lemma_projected_tokens_is_filter(rows.drop_last());
        if rows.last() is Some {
            assert(rows.filter(pred).map_values(f) =~= rows.drop_last().filter(pred).map_values(
                f,
            ).push(f(rows.last())));
        }
        assert(projected_tokens(rows) =~= rows.filter(pred).map_values(f));
    }
}

/// Collects the tokens of the rows that have one, keeping their order and
/// silently skipping the rows without.
pub fn collect_tokens(rows: Vec<Option<String>>) -> (r: Vec<String>)
    ensures
        r.deep_view() == projected_tokens(rows@),
{
    let mut out: Vec<String> = Vec::new();
    let mut i: usize = 0;
    while i < rows.len()
        invariant
            i <= rows@.len(),
            out.deep_view() == projected_tokens(rows@.take(i as int)),
        decreases rows@.len() - i,
    {
        proof {
            assert(rows@.take(i + 1int).drop_last() =~= rows@.take(i as int));
            assert(rows@.take(i + 1int).last() == rows@[i as int]);
        }
        match &rows[i] {
            Some(token) => {
                out.push(token.clone());
                proof {
                    assert(out.deep_view() =~= projected_tokens(rows@.take(i + 1int)));
                }
            },
            None => {
                proof {
                    assert(out.deep_view() =~= projected_tokens(rows@.take(i + 1int)));
                }
            },
        }
        i = i + 1;
    }
    proof {
        assert(rows@.take(rows@.len() as int) =~= rows@);
    }
    out
}

/// Turns the datastore's answer — the token column of every row, or a
/// failure — into the next action.
///
/// A failure to reach or query the datastore is answered with the generic
/// 500 response, no detail exposed. A successful answer is dispatched to the
/// projected tokens under the default texts — even when no row carried a
/// token, in which case the dispatch is a degenerate one with no recipients,
/// sent through unchanged.
pub fn after_fetch(rows: Option<Vec<Option<String>>>) -> (a: Action)
    ensures
        rows is None ==> action_is_error(a, 500, "Internal server error"@),
        rows matches Some(rs) ==> action_dispatches(
            a,
            "Scheduled notification"@,
            "You have a new notification"@,
            projected_tokens(rs@),
        ),
{
    match rows {
        None => Action::Respond(error_response(500, "Internal server error")),
        Some(rs) => Action::Dispatch(
            NotificationRequest {
                title: default_title(),
                body: default_message_body(),
                recipients: collect_tokens(rs),
                image: Some(default_image_url()),
            },
        ),
    }
}

/// Maps the push transport's send outcome to the terminal response: 200 with
/// the confirmation body on success, the generic 500 on failure, never any
/// transport detail.
pub fn dispatch_response(sent: bool) -> (r: HttpResponse)
    ensures
        sent ==> is_json_response(
            r,
            200,
            "{\"message\":\"Push notification sent successfully\"}"@,
        ),
        !sent ==> is_json_response(r, 500, error_body("Failed to send push notification"@)),
{
    if sent {
        json_response(200, "{\"message\":\"Push notification sent successfully\"}")
    } else {
        error_response(500, "Failed to send push notification")
    }
}

} // verus!
