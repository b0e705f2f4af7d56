use oauth_flow::coordinator::{Coordinator, OAuthOutcome, Trigger};
use oauth_flow::events::{LoginWindowClosed, OAuthFailed, OAuthLoggedIn};
use oauth_flow::state::OauthState;

fn fresh_state() -> OauthState {
    OauthState::default()
}

#[test]
fn first_trigger_wins_and_later_ones_do_nothing() {
    let mut c = Coordinator::new();
    let mut s = fresh_state();

    let first = c.fire(
        &mut s,
        Trigger::Success(OAuthLoggedIn {
            access_token: "tok".to_string(),
        }),
    );
    match first {
        Some(OAuthOutcome::Authenticated(e)) => assert_eq!(e.access_token, "tok".to_string()),
        _ => panic!("expected the success outcome"),
    }

    let second = c.fire(&mut s, Trigger::WindowClosed(LoginWindowClosed {}));
    assert!(second.is_none());
    let third = c.fire(
        &mut s,
        Trigger::Failure(OAuthFailed {
            message: "late".to_string(),
        }),
    );
    assert!(third.is_none());
}

#[test]
fn exactly_one_outcome_for_every_trigger_order() {
    let orders: Vec<Vec<u8>> = vec![
        vec![0, 1, 2],
        vec![0, 2, 1],
        vec![1, 0, 2],
        vec![1, 2, 0],
        vec![2, 0, 1],
        vec![2, 1, 0],
    ];
    for order in orders {
        let mut c = Coordinator::new();
        let mut s = fresh_state();
        let mut delivered = 0;
        for which in order {
            let t = match which {
                0 => Trigger::Success(OAuthLoggedIn {
                    access_token: "tok".to_string(),
                }),
                1 => Trigger::Failure(OAuthFailed {
                    message: "boom".to_string(),
                }),
                _ => Trigger::WindowClosed(LoginWindowClosed {}),
            };
            if c.fire(&mut s, t).is_some() {
                delivered += 1;
            }
        }
        assert_eq!(delivered, 1);
        assert!(s.should_stop());
    }
}

#[test]
fn window_closed_with_no_prior_callback_fails_and_stops_the_server() {
    let mut c = Coordinator::new();
    let mut s = fresh_state();
    assert!(!s.should_stop());

    let outcome = c.fire(&mut s, Trigger::WindowClosed(LoginWindowClosed {}));
    match outcome {
        Some(OAuthOutcome::Failed(e)) => {
            assert_eq!(e.message, "Login window closed prematurely".to_string());
        }
        _ => panic!("expected the failure outcome"),
    }
    assert!(s.login_closed_prematurely);
    assert!(s.should_stop());
}

#[test]
fn failure_trigger_flips_the_closed_flag_and_keeps_its_message() {
    let mut c = Coordinator::new();
    let mut s = fresh_state();
    let outcome = c.fire(
        &mut s,
        Trigger::Failure(OAuthFailed {
            message: "access_denied".to_string(),
        }),
    );
    match outcome {
        Some(OAuthOutcome::Failed(e)) => assert_eq!(e.message, "access_denied".to_string()),
        _ => panic!("expected the failure outcome"),
    }
    assert!(s.login_closed_prematurely);
    assert!(!s.oauth_flow_completed);
}

#[test]
fn success_trigger_sets_the_completed_flag() {
    let mut c = Coordinator::new();
    let mut s = fresh_state();
    let outcome = c.fire(
        &mut s,
        Trigger::Success(OAuthLoggedIn {
            access_token: "t".to_string(),
        }),
    );
    assert!(outcome.is_some());
    assert!(s.oauth_flow_completed);
    assert!(!s.login_closed_prematurely);
    assert!(s.should_stop());
}

#[test]
fn reset_clears_every_flag_for_a_new_attempt() {
    let mut s = OauthState {
        login_closed_prematurely: true,
        oauth_flow_completed: true,
        oauth_flow_failed: true,
    };
    assert!(s.should_stop());
    s.reset();
    assert!(!s.login_closed_prematurely);
    assert!(!s.oauth_flow_completed);
    assert!(!s.oauth_flow_failed);
    assert!(!s.should_stop());
}

#[test]
fn each_flag_alone_stops_the_server() {
    let mut s = fresh_state();
    s.set_oauth_flow_failed();
    assert!(s.should_stop());

    let mut s = fresh_state();
    s.set_oauth_flow_completed();
    assert!(s.should_stop());

    let mut s = fresh_state();
    s.set_login_closed_prematurely();
    assert!(s.should_stop());
}
