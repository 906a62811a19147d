//! Outbound notification construction.
//!
//! A [`NotificationRequest`] holds the resolved recipients, title, body and
//! optional rich-content image as plain values; the conversion into the push
//! transport's own message type runs through a trusted call into the
//! transport crate, whose builder rejects a recipient list exactly when some
//! entry is not in push-token format.

use vstd::prelude::*;
use crate::response::{error_body, error_response, is_json_response, HttpResponse};
use crate::token::is_expo_token_format;
use expo_push_notification_client::{ExpoPushMessage, RichContent};

verus! {

/// A validated outbound notification: an ordered recipient list, the texts,
/// and an optional rich-content image URL.
pub struct NotificationRequest {
    pub title: String,
    pub body: String,
    pub recipients: Vec<String>,
    pub image: Option<String>,
}

impl NotificationRequest {
    /// Holds when every recipient is in push-token format. The transport's
    /// builder accepts the request exactly under this condition — vacuously,
    /// a request with no recipients at all, which is sent through unchanged
    /// as a degenerate dispatch.
    pub open spec fn all_recipients_valid(self) -> bool {
        forall|i: int|
            0 <= i < self.recipients@.len() ==> is_expo_token_format(
                #[trigger] self.recipients@[i]@,
            )
    }
}

#[verifier::external_type_specification]
#[verifier::external_body]
pub struct ExExpoPushMessage(ExpoPushMessage);

/// Relies on `ExpoPushMessage::builder(..).title(..).body(..).build()` of
/// `expo_push_notification_client`, with `rich_content(..)` set when an
/// image is given: with only these fields set, `build` fails exactly when
/// some recipient is not in push-token format.
#[verifier::external_body]
fn build_expo_message(req: &NotificationRequest) -> (r: Option<ExpoPushMessage>)
    ensures
        r is Some <==> req.all_recipients_valid(),
{
    let builder = ExpoPushMessage::builder(req.recipients.clone())
        .title(req.title.clone())
        .body(req.body.clone());
    let builder = match &req.image {
        Some(url) => builder.rich_content(RichContent { image: Some(url.clone()) }),
        None => builder,
    };
    builder.build().ok()
}

/// Builds the transport message for a notification request, or the generic
/// 500 response when the transport's construction rules reject it. No
/// detail of the rejection is exposed to the caller.
pub fn prepare_message(req: &NotificationRequest) -> (r: Result<ExpoPushMessage, HttpResponse>)
    ensures
        req.all_recipients_valid() <==> r is Ok,
        r matches Err(resp) ==> is_json_response(
            resp,
            500,
            error_body("Internal server error"@),
        ),
{
    match build_expo_message(req) {
        Some(m) => Ok(m),
        None => Err(error_response(500, "Internal server error")),
    }
}

} // verus!
