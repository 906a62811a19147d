use push_dispatch::payload::RequestBody;
use push_dispatch::pipeline::{after_fetch, dispatch_response, route, Action};

fn secret() -> String {
    "test-secret".to_string()
}

fn expect_response(action: Action) -> push_dispatch::response::HttpResponse {
    match action {
        Action::Respond(r) => r,
        Action::FetchRecipients => panic!("expected a response, got a fetch instruction"),
        Action::Dispatch(_) => panic!("expected a response, got a dispatch"),
    }
}

#[test]
fn missing_key_is_forbidden() {
    let action = route(&secret(), None, &"GET".to_string(), &RequestBody::Empty);
    let r = expect_response(action);
    assert_eq!(r.status, 403);
    assert_eq!(r.body, "Forbidden: Invalid API Key");
    assert!(r.content_type.is_none());
}

#[test]
fn wrong_key_is_forbidden() {
    let wrong = "not-the-secret".to_string();
    let body = RequestBody::Text(
        "{\"title\":\"T\",\"body\":\"B\",\"expo_push_token\":\"ExponentPushToken[valid]\"}"
            .to_string(),
    );
    let action = route(&secret(), Some(&wrong), &"POST".to_string(), &body);
    let r = expect_response(action);
    assert_eq!(r.status, 403);
    assert_eq!(r.body, "Forbidden: Invalid API Key");
}

#[test]
fn other_method_is_rejected() {
    let key = secret();
    for method in ["DELETE", "PUT", "PATCH", "HEAD"] {
        let action = route(&key, Some(&key), &method.to_string(), &RequestBody::Empty);
        let r = expect_response(action);
        assert_eq!(r.status, 405);
        assert_eq!(r.body, "{\"error\":\"Method not allowed\"}");
        assert_eq!(r.content_type.as_deref(), Some("application/json"));
    }
}

#[test]
fn get_asks_for_stored_recipients() {
    let key = secret();
    let action = route(&key, Some(&key), &"GET".to_string(), &RequestBody::Empty);
    assert!(matches!(action, Action::FetchRecipients));
}

#[test]
fn get_ignores_any_body() {
    let key = secret();
    let body = RequestBody::Text("{\"title\":".to_string());
    let action = route(&key, Some(&key), &"GET".to_string(), &body);
    assert!(matches!(action, Action::FetchRecipients));
}

#[test]
fn method_match_is_exact() {
    let key = secret();
    for method in ["get", "post", "Get", ""] {
        let action = route(&key, Some(&key), &method.to_string(), &RequestBody::Empty);
        let r = expect_response(action);
        assert_eq!(r.status, 405);
    }
}

#[test]
fn fetched_rows_dispatch_with_defaults() {
    let rows = vec![
        Some("ExponentPushToken[aaa]".to_string()),
        None,
        Some("ExponentPushToken[bbb]".to_string()),
        None,
    ];
    match after_fetch(Some(rows)) {
        Action::Dispatch(m) => {
            assert_eq!(
                m.recipients,
                vec![
                    "ExponentPushToken[aaa]".to_string(),
                    "ExponentPushToken[bbb]".to_string(),
                ]
            );
            assert_eq!(m.title, "Scheduled notification");
            assert_eq!(m.body, "You have a new notification");
            assert_eq!(m.image.as_deref(), Some("https://picsum.photos/200/300"));
        }
        _ => panic!("expected a dispatch"),
    }
}

#[test]
fn fetched_rows_keep_order_and_skip_missing() {
    let rows = vec![None, Some("b".to_string()), Some("a".to_string()), None, Some("c".to_string())];
    match after_fetch(Some(rows)) {
        Action::Dispatch(m) => {
            assert_eq!(m.recipients, vec!["b".to_string(), "a".to_string(), "c".to_string()]);
        }
        _ => panic!("expected a dispatch"),
    }
}

#[test]
fn empty_fetch_dispatches_to_nobody() {
    match after_fetch(Some(Vec::new())) {
        Action::Dispatch(m) => assert!(m.recipients.is_empty()),
        _ => panic!("expected a dispatch"),
    }
}

#[test]
fn fetch_failure_is_internal_error() {
    match after_fetch(None) {
        Action::Respond(r) => {
            assert_eq!(r.status, 500);
            assert_eq!(r.body, "{\"error\":\"Internal server error\"}");
            assert_eq!(r.content_type.as_deref(), Some("application/json"));
        }
        _ => panic!("expected a response"),
    }
}

#[test]
fn valid_post_dispatches_single_token() {
    let key = secret();
    let body = RequestBody::Text(
        "{\"title\":\"T\",\"body\":\"B\",\"expo_push_token\":\"ExponentPushToken[valid]\"}"
            .to_string(),
    );
    match route(&key, Some(&key), &"POST".to_string(), &body) {
        Action::Dispatch(m) => {
            assert_eq!(m.recipients, vec!["ExponentPushToken[valid]".to_string()]);
            assert_eq!(m.title, "T");
            assert_eq!(m.body, "B");
            assert_eq!(m.image.as_deref(), Some("https://picsum.photos/200/300"));
        }
        _ => panic!("expected a dispatch"),
    }
}

#[test]
fn valid_post_as_binary_body_dispatches() {
    let key = secret();
    let text = "{\"title\":\"T\",\"body\":\"B\",\"expo_push_token\":\"ExponentPushToken[valid]\"}";
    let body = RequestBody::Binary(text.as_bytes().to_vec());
    match route(&key, Some(&key), &"POST".to_string(), &body) {
        Action::Dispatch(m) => {
            assert_eq!(m.recipients, vec!["ExponentPushToken[valid]".to_string()]);
        }
        _ => panic!("expected a dispatch"),
    }
}

#[test]
fn send_success_is_confirmed() {
    let r = dispatch_response(true);
    assert_eq!(r.status, 200);
    assert_eq!(r.body, "{\"message\":\"Push notification sent successfully\"}");
    assert_eq!(r.content_type.as_deref(), Some("application/json"));
}

#[test]
fn send_failure_is_reported_generically() {
    let r = dispatch_response(false);
    assert_eq!(r.status, 500);
    assert_eq!(r.body, "{\"error\":\"Failed to send push notification\"}");
    assert_eq!(r.content_type.as_deref(), Some("application/json"));
}
