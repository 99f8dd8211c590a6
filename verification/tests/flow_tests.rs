use device_auth::device::DeviceResponseFields;
use device_auth::errors::AuthError;
use device_auth::flow::AuthFlow;
use device_auth::flow::FlowPhase;
use device_auth::flow::PollAdvance;
use device_auth::poll::TokenResponseFields;

const PORT: u16 = 7878;

fn device_fields() -> DeviceResponseFields {
    DeviceResponseFields {
        device_code: Some("dc_3584".to_string()),
        user_code: Some("WDJB-MJHT".to_string()),
        verification_uri: Some("https://github.com/login/device".to_string()),
        interval: Some(5),
        expires_in: None,
    }
}

fn pending() -> TokenResponseFields {
    TokenResponseFields {
        access_token: None,
        error: Some("authorization_pending".to_string()),
        interval: None,
    }
}

fn success(secret: &str) -> TokenResponseFields {
    TokenResponseFields { access_token: Some(secret.to_string()), error: None, interval: None }
}

fn denied() -> TokenResponseFields {
    TokenResponseFields { access_token: None, error: Some("access_denied".to_string()), interval: None }
}

#[test]
fn scenario_two_pending_then_token() {
    // The provider mandates five seconds, leaves the user undecided twice,
    // then issues the token on the third attempt.
    let mut fl = AuthFlow::new(PORT);
    let st = fl.start(true, device_fields()).unwrap();
    assert_eq!(st.interval, 5);

    let first_sleep = fl.begin_polling(&st.device_code, st.interval);
    assert_eq!(first_sleep, 5);

    let mut waits = vec![first_sleep];
    let mut attempts = 0u32;
    let mut advance = fl.on_poll_response(pending());
    attempts += 1;
    while let PollAdvance::Sleep(s) = advance {
        waits.push(s);
        advance = fl.on_poll_response(if attempts < 2 { pending() } else { success("gho_1010") });
        attempts += 1;
    }
    // The token arrived on the third attempt, after a full wait before each.
    assert_eq!(attempts, 3);
    assert!(waits.iter().all(|w| *w >= 5));
    let token = match advance {
        PollAdvance::Bind(t) => t,
        other => panic!("expected a bind request, got {:?}", other),
    };
    assert_eq!(token.secret, "gho_1010");

    let url = fl.on_bind_result(token, true).unwrap();
    assert_eq!(url, "http://127.0.0.1:7878/");
    assert_eq!(fl.phase, FlowPhase::TokenServed);
    assert!(fl.server.is_some());
}

#[test]
fn scenario_denied_on_first_poll() {
    // The user rejects the request: completion fails with `Denied` on the
    // first poll and no server is ever bound.
    let mut fl = AuthFlow::new(PORT);
    let st = fl.start(true, device_fields()).unwrap();
    fl.begin_polling(&st.device_code, st.interval);
    let advance = fl.on_poll_response(denied());
    assert_eq!(advance, PollAdvance::Fail(AuthError::Denied));
    assert_eq!(fl.phase, FlowPhase::Failed);
    assert!(fl.server.is_none());
}

#[test]
fn scenario_started_but_never_completed() {
    // The caller starts a flow, shows the code, and the process moves on:
    // no listener is ever bound.
    let mut fl = AuthFlow::new(PORT);
    let st = fl.start(true, device_fields()).unwrap();
    assert_eq!(st.user_code, "WDJB-MJHT");
    assert_eq!(fl.phase, FlowPhase::AwaitingUserApproval);
    assert!(fl.server.is_none());
}

#[test]
fn failed_start_kills_the_flow() {
    let mut fl = AuthFlow::new(PORT);
    let r = fl.start(false, device_fields());
    assert!(matches!(r, Err(AuthError::ProviderError(_))));
    assert_eq!(fl.phase, FlowPhase::Failed);
    assert!(fl.server.is_none());
}

#[test]
fn expired_code_kills_the_flow() {
    let mut fl = AuthFlow::new(PORT);
    let st = fl.start(true, device_fields()).unwrap();
    fl.begin_polling(&st.device_code, st.interval);
    let advance = fl.on_poll_response(TokenResponseFields {
        access_token: None,
        error: Some("expired_token".to_string()),
        interval: None,
    });
    assert_eq!(advance, PollAdvance::Fail(AuthError::Expired));
    assert_eq!(fl.phase, FlowPhase::Failed);
}

#[test]
fn slow_down_raises_the_pace() {
    let mut fl = AuthFlow::new(PORT);
    let st = fl.start(true, device_fields()).unwrap();
    fl.begin_polling(&st.device_code, st.interval);
    let advance = fl.on_poll_response(TokenResponseFields {
        access_token: None,
        error: Some("slow_down".to_string()),
        interval: None,
    });
    assert_eq!(advance, PollAdvance::Sleep(10));
}

#[test]
fn bind_conflict_surfaces_as_bind_error() {
    // The port is already owned by another listener: the bind fails and the
    // caller sees exactly `BindError`.
    let mut fl = AuthFlow::new(PORT);
    let st = fl.start(true, device_fields()).unwrap();
    fl.begin_polling(&st.device_code, st.interval);
    let advance = fl.on_poll_response(success("gho_1010"));
    let token = match advance {
        PollAdvance::Bind(t) => t,
        other => panic!("expected a bind request, got {:?}", other),
    };
    let r = fl.on_bind_result(token, false);
    assert_eq!(r, Err(AuthError::BindError));
    assert_eq!(fl.phase, FlowPhase::Failed);
    assert!(fl.server.is_none());
}

#[test]
fn close_twice_succeeds_twice() {
    let mut fl = AuthFlow::new(PORT);
    let st = fl.start(true, device_fields()).unwrap();
    fl.begin_polling(&st.device_code, st.interval);
    let advance = fl.on_poll_response(success("gho_1010"));
    let token = match advance {
        PollAdvance::Bind(t) => t,
        other => panic!("expected a bind request, got {:?}", other),
    };
    fl.on_bind_result(token, true).unwrap();

    assert_eq!(fl.close(true), Ok(()));
    assert_eq!(fl.phase, FlowPhase::Closed);
    assert!(fl.server.is_none());
    assert_eq!(fl.close(true), Ok(()));
    assert_eq!(fl.phase, FlowPhase::Closed);
}

#[test]
fn close_succeeds_when_nothing_was_started() {
    // Teardown is advisory: closing a flow that never served, even when the
    // close request could not be delivered, still reports success.
    let mut fl = AuthFlow::new(PORT);
    assert_eq!(fl.close(false), Ok(()));
    assert_eq!(fl.close(false), Ok(()));
    assert_eq!(fl.phase, FlowPhase::Idle);
}
