use oauth_flow::coordinator::{Coordinator, OAuthOutcome, Trigger};
use oauth_flow::server::{
    callback_page, finish_decision, handle_request, CALLBACK_PAGE_HEAD, CALLBACK_PAGE_TAIL,
};
use oauth_flow::state::OauthState;

#[test]
fn finish_with_fragment_token_replies_ok_and_authenticates_once() {
    let d = finish_decision("http://localhost:8123/callback#access_token=tok123&scope=read");
    assert_eq!(d.status, 200);
    assert_eq!(d.body, "OK".to_string());

    let mut c = Coordinator::new();
    let mut s = OauthState::default();
    let outcome = c.fire(&mut s, d.trigger);
    match outcome {
        Some(OAuthOutcome::Authenticated(e)) => {
            assert_eq!(e.access_token, "tok123".to_string());
        }
        _ => panic!("expected the token to be delivered"),
    }
    // Only one notification per attempt: a racing second decision does nothing.
    let d2 = finish_decision("http://localhost:8123/callback#access_token=tok123&scope=read");
    assert!(c.fire(&mut s, d2.trigger).is_none());
}

#[test]
fn finish_with_error_query_replies_not_found_and_fails() {
    let d = finish_decision("http://localhost:8123/callback?error=access_denied");
    assert_eq!(d.status, 404);
    assert_eq!(d.body, "Not Found".to_string());
    match d.trigger {
        Trigger::Failure(e) => assert_eq!(e.message, "access_denied".to_string()),
        _ => panic!("expected a failure trigger"),
    }
}

#[test]
fn finish_without_token_or_error_fails_with_empty_reason() {
    let d = finish_decision("http://localhost:8123/callback");
    assert_eq!(d.status, 404);
    match d.trigger {
        Trigger::Failure(e) => assert_eq!(e.message, String::new()),
        _ => panic!("expected a failure trigger"),
    }
}

#[test]
fn any_other_path_gets_the_forwarding_page_and_triggers_nothing() {
    let r = handle_request("/callback", "localhost:8123", "");
    assert_eq!(r.status, 200);
    assert!(r.trigger.is_none());
    let expected = format!(
        "{}http://localhost:8123/finish{}",
        CALLBACK_PAGE_HEAD, CALLBACK_PAGE_TAIL
    );
    assert_eq!(r.body, expected);
    assert_eq!(r.body, callback_page("localhost:8123"));
}

#[test]
fn the_finish_path_is_routed_to_the_token_decision() {
    let r = handle_request(
        "/finish",
        "localhost:8123",
        "http://localhost:8123/callback#access_token=abc",
    );
    assert_eq!(r.status, 200);
    assert_eq!(r.body, "OK".to_string());
    match r.trigger {
        Some(Trigger::Success(e)) => assert_eq!(e.access_token, "abc".to_string()),
        _ => panic!("expected a success trigger"),
    }
}
