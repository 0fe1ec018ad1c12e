//! The lifecycle state machine: scenarios from begin to completion.

use sf_auth_core::controller::{
    BindOutcome, CallbackAction, CompletionAction, FlowLifecycleController, Phase, response_text,
};
use sf_auth_core::errors::{ExchangeError, FlowError};
use sf_auth_core::listener::ListenerState;
use sf_auth_core::token::parse_token_response;

fn activated_controller() -> FlowLifecycleController {
    let mut ctrl = FlowLifecycleController::new("18585");
    ctrl.begin("https://login.example.com", "client123").unwrap();
    assert_eq!(ctrl.on_bind_result(true), BindOutcome::Activated);
    ctrl
}

#[test]
fn begin_while_active_is_rejected_and_leaves_attempt_untouched() {
    let mut ctrl = activated_controller();
    let csrf_before = ctrl.flow.as_ref().unwrap().csrf_token.clone();
    let verifier_before = ctrl.flow.as_ref().unwrap().pkce_verifier.clone();
    let r = ctrl.begin("https://other.example.com", "client999");
    assert!(matches!(r, Err(FlowError::FlowAlreadyInProgress)));
    assert_eq!(ctrl.phase, Phase::Active);
    assert_eq!(ctrl.flow.as_ref().unwrap().csrf_token, csrf_before);
    assert_eq!(ctrl.flow.as_ref().unwrap().pkce_verifier, verifier_before);
    assert_eq!(
        ctrl.flow.as_ref().unwrap().client_id,
        "client123",
        "the in-flight attempt keeps its own client id"
    );
}

#[test]
fn full_flow_delivers_tokens_exactly_once() {
    let mut ctrl = activated_controller();
    assert_eq!(ctrl.listener.state, ListenerState::Up);
    let url = ctrl.authorization_url().unwrap();
    assert!(url.contains("&state="));

    let state = ctrl.flow.as_ref().unwrap().csrf_token.clone();
    let action = ctrl.on_callback(Some("abc"), Some(state.as_str()));
    assert_eq!(action, CallbackAction::BeginExchange);
    assert_eq!(ctrl.phase, Phase::Completing);

    let request = ctrl.exchange_request("abc").unwrap();
    assert_eq!(
        request.token_endpoint,
        "https://login.example.com/services/oauth2/token"
    );
    assert_eq!(request.client_id, "client123");
    assert_eq!(request.redirect_uri, "http://localhost:18585/oauth/callback");
    assert_eq!(request.code, "abc");
    assert_eq!(request.pkce_verifier, ctrl.flow.as_ref().unwrap().pkce_verifier);

    let tokens =
        parse_token_response("{\"access_token\":\"tok1\",\"refresh_token\":\"ref1\"}").unwrap();
    let outcome = ctrl.on_exchange_result(Ok(tokens));
    match outcome {
        CompletionAction::Deliver(t) => {
            assert_eq!(t.access_token, "tok1");
            assert_eq!(t.refresh_token.as_deref(), Some("ref1"));
        }
        other => panic!("expected delivery, got {:?}", other),
    }
    assert_eq!(ctrl.phase, Phase::Idle);
    assert_eq!(ctrl.listener.state, ListenerState::Down);
    assert!(ctrl.flow.is_none());
    assert_eq!(response_text(true), "authorized");

    // A second report of the same exchange outcome delivers nothing more.
    let tokens_again =
        parse_token_response("{\"access_token\":\"tok1\",\"refresh_token\":\"ref1\"}").unwrap();
    assert!(matches!(
        ctrl.on_exchange_result(Ok(tokens_again)),
        CompletionAction::Ignored
    ));
}

#[test]
fn csrf_mismatch_rejects_and_never_exchanges() {
    let mut ctrl = activated_controller();
    let action = ctrl.on_callback(Some("abc"), Some("wrong"));
    assert_eq!(action, CallbackAction::Reject);
    assert_eq!(ctrl.phase, Phase::Idle);
    assert_eq!(ctrl.listener.state, ListenerState::Down);
    assert!(ctrl.flow.is_none());
    // No exchange was started: there is no request to build.
    assert!(ctrl.exchange_request("abc").is_none());
    assert_eq!(response_text(false), "unauthorized");
}

#[test]
fn malformed_callback_keeps_waiting() {
    let mut ctrl = activated_controller();
    assert_eq!(ctrl.on_callback(None, Some("x")), CallbackAction::MalformedRetry);
    assert_eq!(ctrl.on_callback(Some("abc"), None), CallbackAction::MalformedRetry);
    assert_eq!(ctrl.phase, Phase::Active);
    assert_eq!(ctrl.listener.state, ListenerState::Up);
}

#[test]
fn rejected_exchange_fails_attempt_and_frees_listener() {
    let mut ctrl = activated_controller();
    let state = ctrl.flow.as_ref().unwrap().csrf_token.clone();
    assert_eq!(
        ctrl.on_callback(Some("abc"), Some(state.as_str())),
        CallbackAction::BeginExchange
    );
    let outcome = ctrl.on_exchange_result(Err(ExchangeError::Rejected));
    assert!(matches!(
        outcome,
        CompletionAction::Fail(ExchangeError::Rejected)
    ));
    assert_eq!(ctrl.phase, Phase::Idle);
    assert_eq!(ctrl.listener.state, ListenerState::Down);
}

#[test]
fn post_completion_callbacks_are_not_processed() {
    let mut ctrl = activated_controller();
    let state = ctrl.flow.as_ref().unwrap().csrf_token.clone();
    ctrl.on_callback(Some("abc"), Some(state.as_str()));
    ctrl.on_exchange_result(Err(ExchangeError::Network));
    assert_eq!(ctrl.listener.state, ListenerState::Down);
    // The listener is down; were a connection still to come through, the
    // core would not process it.
    assert_eq!(
        ctrl.on_callback(Some("abc"), Some(state.as_str())),
        CallbackAction::NotAccepting
    );
    assert_eq!(ctrl.phase, Phase::Idle);
}

#[test]
fn bind_failure_surfaces_port_unavailable_and_opens_nothing() {
    let mut ctrl = FlowLifecycleController::new("18585");
    ctrl.begin("https://login.example.com", "client123").unwrap();
    let outcome = ctrl.on_bind_result(false);
    assert_eq!(outcome, BindOutcome::PortUnavailable);
    assert_eq!(ctrl.phase, Phase::Idle);
    assert!(ctrl.flow.is_none());
    assert_eq!(ctrl.listener.state, ListenerState::Down);
}

#[test]
fn cancel_releases_the_listener() {
    let mut ctrl = activated_controller();
    assert!(ctrl.cancel());
    assert_eq!(ctrl.phase, Phase::Idle);
    assert_eq!(ctrl.listener.state, ListenerState::Down);
    // Cancelling when idle is a no-op.
    assert!(!ctrl.cancel());
}

#[test]
fn begin_with_bad_base_url_is_a_configuration_error() {
    let mut ctrl = FlowLifecycleController::new("18585");
    let r = ctrl.begin("no scheme here", "client123");
    assert!(matches!(r, Err(FlowError::ConfigurationError)));
    assert_eq!(ctrl.phase, Phase::Idle);
}
