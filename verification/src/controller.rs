//! The lifecycle state machine of one authorization attempt.
//!
//! The controller guarantees at most one live listener, rejects overlapping
//! attempts, validates the redirect callback against the attempt's CSRF
//! token, and releases the listener on every path out of an active attempt.
//! The embedding application performs the network work — binding the
//! loopback socket, opening the browser, the outbound token request — and
//! reports each outcome back as a plain value; every decision is taken
//! here.

use vstd::prelude::*;
use crate::errors::ExchangeError;
use crate::errors::FlowError;
use crate::flow::FlowState;
use crate::flow::authorize_endpoint_chars;
use crate::flow::redirect_uri_chars;
use crate::flow::token_endpoint_chars;
use crate::listener::CallbackListener;
use crate::listener::ListenerState;
use crate::listener::stop_transition;
use crate::token::TokenResult;
use crate::urls::parses_as_url;

verus! {

/// Where the current attempt stands. Terminal success and failure both
/// return to `Idle`; a fresh `begin` is needed for another attempt.
#[derive(Clone, Copy, Debug, PartialEq, Eq, Structural)]
pub enum Phase {
    /// No attempt in progress.
    Idle,
    /// Listener bind requested, not yet confirmed.
    Starting,
    /// Listener bound and serving; awaiting the redirect callback.
    Active,
    /// Callback accepted; code-for-token exchange in flight.
    Completing,
}

/// What the controller asks of the embedding application after a bind
/// report.
#[derive(Clone, Copy, Debug, PartialEq, Eq, Structural)]
pub enum BindOutcome {
    /// The report did not belong to a pending bind; nothing changed.
    Ignored,
    /// The listener is up: open the authorization URL in the browser.
    Activated,
    /// The port was occupied; the attempt is over, nothing was opened.
    PortUnavailable,
}

/// What the controller decides for an inbound callback request.
#[derive(Clone, Copy, Debug, PartialEq, Eq, Structural)]
pub enum CallbackAction {
    /// No attempt is serving; the request is not processed at all.
    NotAccepting,
    /// `code` or `state` was missing: answer "unauthorized" and keep
    /// waiting — a user agent may legitimately retry.
    MalformedRetry,
    /// `state` did not match the CSRF token: answer "unauthorized", abort
    /// the attempt and shut the listener down; no exchange is started.
    Reject,
    /// The callback is valid: run the code-for-token exchange.
    BeginExchange,
}

/// What the controller decides once the exchange outcome is known.
#[derive(Clone, Debug)]
pub enum CompletionAction {
    /// No exchange was in flight; nothing changed.
    Ignored,
    /// Hand these tokens to the external consumer and answer "authorized".
    Deliver(TokenResult),
    /// Answer "unauthorized" and surface this error to the caller.
    Fail(ExchangeError),
}

/// The parameters of the outbound token request, per the attempt.
pub struct ExchangeRequest {
    /// `{base_url}/services/oauth2/token`.
    pub token_endpoint: String,
    /// The provider-issued client identifier.
    pub client_id: String,
    /// The loopback redirect URI the code was sent to.
    pub redirect_uri: String,
    /// The single-use authorization code from the callback.
    pub code: String,
    /// The attempt's PKCE secret.
    pub pkce_verifier: String,
}

/// Owns the start/stop protocol of one attempt at a time.
pub struct FlowLifecycleController {
    /// Current lifecycle phase.
    pub phase: Phase,
    /// The in-flight attempt's state; `Some` exactly while not `Idle`.
    pub flow: Option<FlowState>,
    /// The callback listener's state machine.
    pub listener: CallbackListener,
    /// One-shot guard around the hand-tokens-to-consumer step.
    pub tokens_delivered: bool,
}

/// The listener after a shutdown request.
pub open spec fn stopped(l: CallbackListener) -> CallbackListener {
    CallbackListener { state: stop_transition(l.state).0, ..l }
}

/// The transition taken when the embedding application reports the outcome
/// of the requested bind.
pub open spec fn bind_transition(pre: FlowLifecycleController, bound: bool) -> (
    FlowLifecycleController,
    BindOutcome,
) {
    if !(pre.phase is Starting) {
        (pre, BindOutcome::Ignored)
    } else if bound {
        (
            FlowLifecycleController {
                phase: Phase::Active,
                listener: CallbackListener { state: ListenerState::Up, ..pre.listener },
                ..pre
            },
            BindOutcome::Activated,
        )
    } else {
        (
            FlowLifecycleController { phase: Phase::Idle, flow: None, ..pre },
            BindOutcome::PortUnavailable,
        )
    }
}

/// The transition taken for an inbound callback carrying the raw `code`
/// and `state` parameters, when present.
pub open spec fn callback_transition(
    pre: FlowLifecycleController,
    code: Option<&str>,
    state: Option<&str>,
) -> (FlowLifecycleController, CallbackAction) {
    if !(pre.phase is Active) {
        (pre, CallbackAction::NotAccepting)
    } else if code is None || state is None {
        (pre, CallbackAction::MalformedRetry)
    } else if !(pre.flow matches Some(f) && state matches Some(s) && s@ == f.csrf_token@) {
        (
            FlowLifecycleController {
                phase: Phase::Idle,
                flow: None,
                listener: stopped(pre.listener),
                ..pre
            },
            CallbackAction::Reject,
        )
    } else {
        (FlowLifecycleController { phase: Phase::Completing, ..pre }, CallbackAction::BeginExchange)
    }
}

/// The transition taken once the embedding application reports the
/// exchange outcome. Success and failure both release the listener and end
/// the attempt.
pub open spec fn exchange_transition(
    pre: FlowLifecycleController,
    result: Result<TokenResult, ExchangeError>,
) -> (FlowLifecycleController, CompletionAction) {
    if !(pre.phase is Completing) {
        (pre, CompletionAction::Ignored)
    } else {
        match result {
            Ok(tokens) => (
                FlowLifecycleController {
                    phase: Phase::Idle,
                    flow: None,
                    listener: stopped(pre.listener),
                    tokens_delivered: true,
                },
                CompletionAction::Deliver(tokens),
            ),
            Err(e) => (
                FlowLifecycleController {
                    phase: Phase::Idle,
                    flow: None,
                    listener: stopped(pre.listener),
                    ..pre
                },
                CompletionAction::Fail(e),
            ),
        }
    }
}

/// The transition taken on an explicit cancellation.
pub open spec fn cancel_transition(pre: FlowLifecycleController) -> (
    FlowLifecycleController,
    bool,
) {
    (
        FlowLifecycleController {
            phase: Phase::Idle,
            flow: None,
            listener: stopped(pre.listener),
            ..pre
        },
        stop_transition(pre.listener.state).1,
    )
}

impl FlowLifecycleController {
    /// The controller's invariant: an attempt's state exists exactly while
    /// an attempt is in progress, the listener is bound exactly while the
    /// attempt is serving or exchanging, the attempt's state is internally
    /// consistent, and tokens cannot already have been delivered while an
    /// attempt is still under way.
    pub open spec fn wf(self) -> bool {
        &&& self.phase is Idle <==> self.flow is None
        &&& (self.phase is Active || self.phase is Completing) <==> self.listener.state is Up
        &&& self.flow matches Some(f) ==> f.wf()
        &&& !(self.phase is Idle) ==> !self.tokens_delivered
    }

    /// A controller for the given loopback port, with no attempt in
    /// progress.
    pub fn new(port: &str) -> (r: FlowLifecycleController)
        ensures
            r.wf(),
            r.phase is Idle,
            r.flow is None,
            r.listener.state is Down,
            r.listener.port@ == port@,
            !r.tokens_delivered,
    {
        FlowLifecycleController {
            phase: Phase::Idle,
            flow: None,
            listener: CallbackListener::init(port.to_owned()),
            tokens_delivered: false,
        }
    }

    /// Starts a fresh attempt. While one is already in progress the call is
    /// rejected with `FlowAlreadyInProgress` and the existing attempt is
    /// left exactly as it was. From `Idle`, a fresh `FlowState` is created
    /// and the attempt enters `Starting`; the embedding application must
    /// then bind the listener on its port and report through
    /// `on_bind_result`. A base URL whose derived endpoints are not valid
    /// URLs is rejected with `ConfigurationError`.
    pub fn begin(&mut self, base_url: &str, client_id: &str) -> (r: Result<(), FlowError>)
        requires
            old(self).wf(),
        ensures
            final (self).wf(),
            !(old(self).phase is Idle) ==> r == Err::<(), FlowError>(
                FlowError::FlowAlreadyInProgress,
            ) && *final (self) == *old(self),
            old(self).phase is Idle ==> {
                let ok = parses_as_url(authorize_endpoint_chars(base_url@)) && parses_as_url(
                    token_endpoint_chars(base_url@),
                ) && parses_as_url(redirect_uri_chars(old(self).listener.port@));
                &&& !ok ==> r == Err::<(), FlowError>(FlowError::ConfigurationError) && *final (
                    self
                ) == *old(self)
                &&& ok ==> {
                    &&& r is Ok
                    &&& final (self).phase is Starting
                    &&& final (self).flow matches Some(f) && f.wf() && f.derived_from(
                        base_url@,
                        client_id@,
                        old(self).listener.port@,
                    )
                    &&& final (self).listener == old(self).listener
                    &&& !final (self).tokens_delivered
                }
            },
    {
        match self.phase {
            Phase::Idle => {}
            _ => {
                return Err(FlowError::FlowAlreadyInProgress);
            }
        }
        match FlowState::create(base_url, client_id, self.listener.port.as_str()) {
            Ok(f) => {
                self.flow = Some(f);
                self.phase = Phase::Starting;
                self.tokens_delivered = false;
                Ok(())
            }
            Err(e) => Err(e),
        }
    }

    /// Records the outcome of the requested bind. Success makes the
    /// attempt `Active` — the caller must now open the authorization URL
    /// in the browser. Failure ends the attempt: `PortUnavailable` is
    /// surfaced and nothing is opened.
    pub fn on_bind_result(&mut self, bound: bool) -> (r: BindOutcome)
        requires
            old(self).wf(),
        ensures
            final (self).wf(),
            (*final (self), r) == bind_transition(*old(self), bound),
    {
        match self.phase {
            Phase::Starting => {
                if bound {
                    self.phase = Phase::Active;
                    let _ = self.listener.mark_bound();
                    BindOutcome::Activated
                } else {
                    self.phase = Phase::Idle;
                    self.flow = None;
                    BindOutcome::PortUnavailable
                }
            }
            _ => BindOutcome::Ignored,
        }
    }

    /// The browser-openable authorization URL of the attempt in progress,
    /// if any.
    pub fn authorization_url(&self) -> (r: Option<String>)
        ensures
            r is Some <==> self.flow is Some,
            r matches Some(u) ==> (self.flow matches Some(f) && u@ == f.auth_url_chars()),
    {
        match &self.flow {
            Some(f) => Some(f.build_authorization_url()),
            None => None,
        }
    }

    /// Decides an inbound callback request, given its raw `code` and
    /// `state` parameters. Exactly one callback is ever accepted per
    /// attempt: a mismatching `state` aborts the attempt, a valid one
    /// moves it to `Completing`, and once the attempt is over further
    /// requests are not processed.
    pub fn on_callback(&mut self, code: Option<&str>, state: Option<&str>) -> (r: CallbackAction)
        requires
            old(self).wf(),
        ensures
            final (self).wf(),
            (*final (self), r) == callback_transition(*old(self), code, state),
    {
        match self.phase {
            Phase::Active => {}
            _ => {
                return CallbackAction::NotAccepting;
            }
        }
        let (code_s, state_s) = match (code, state) {
            (Some(c), Some(s)) => (c, s),
            _ => {
                return CallbackAction::MalformedRetry;
            }
        };
        let csrf_matches = match &self.flow {
            Some(f) => f.csrf_token == state_s.to_owned(),
            None => false,
        };
        if csrf_matches {
            self.phase = Phase::Completing;
            CallbackAction::BeginExchange
        } else {
            self.phase = Phase::Idle;
            self.flow = None;
            let _ = self.listener.stop();
            CallbackAction::Reject
        }
    }

    /// The parameters of the outbound token request for the accepted
    /// callback's code: available exactly while an exchange is in flight.
    pub fn exchange_request(&self, code: &str) -> (r: Option<ExchangeRequest>)
        ensures
            r is Some <==> (self.phase is Completing && self.flow is Some),
            r matches Some(q) ==> (self.flow matches Some(f) && q.token_endpoint
                == f.token_endpoint && q.client_id == f.client_id && q.redirect_uri
                == f.redirect_uri && q.pkce_verifier == f.pkce_verifier && q.code@ == code@),
    {
        match (&self.phase, &self.flow) {
            (Phase::Completing, Some(f)) => Some(
                ExchangeRequest {
                    token_endpoint: f.token_endpoint.clone(),
                    client_id: f.client_id.clone(),
                    redirect_uri: f.redirect_uri.clone(),
                    code: code.to_owned(),
                    pkce_verifier: f.pkce_verifier.clone(),
                },
            ),
            _ => None,
        }
    }

    /// Records the exchange outcome. Success hands the tokens onward —
    /// exactly once — and failure surfaces the error; either way the
    /// listener is released and the attempt is over.
    pub fn on_exchange_result(&mut self, result: Result<TokenResult, ExchangeError>) -> (r:
        CompletionAction)
        requires
            old(self).wf(),
        ensures
            final (self).wf(),
            (*final (self), r) == exchange_transition(*old(self), result),
    {
        match self.phase {
            Phase::Completing => {}
            _ => {
                return CompletionAction::Ignored;
            }
        }
        self.phase = Phase::Idle;
        self.flow = None;
        let _ = self.listener.stop();
        match result {
            Ok(tokens) => {
                self.tokens_delivered = true;
                CompletionAction::Deliver(tokens)
            }
            Err(e) => CompletionAction::Fail(e),
        }
    }

    /// Cancels whatever attempt is in progress, through the same shutdown
    /// path as completion; returns whether a shutdown signal was sent.
    /// Cancelling when idle is a no-op.
    pub fn cancel(&mut self) -> (signal_sent: bool)
        requires
            old(self).wf(),
        ensures
            final (self).wf(),
            (*final (self), signal_sent) == cancel_transition(*old(self)),
    {
        self.phase = Phase::Idle;
        self.flow = None;
        self.listener.stop()
    }
}

/// The plain-text body answered to the browser: always one of exactly two
/// literal strings, whatever the internal error was.
pub fn response_text(authorized: bool) -> (r: String)
    ensures
        authorized ==> r@ == "authorized"@,
        !authorized ==> r@ == "unauthorized"@,
{
    if authorized {
        "authorized".to_owned()
    } else {
        "unauthorized".to_owned()
    }
}

/// A callback is valid when an attempt is serving, both parameters are
/// present, and `state` equals the attempt's CSRF token exactly — no
/// partial or prefix match.
pub open spec fn valid_callback(
    pre: FlowLifecycleController,
    code: Option<&str>,
    state: Option<&str>,
) -> bool {
    &&& pre.phase is Active
    &&& code is Some
    &&& (pre.flow matches Some(f) && state matches Some(s) && s@ == f.csrf_token@)
}

/// A callback whose `state` is not the attempt's CSRF token never starts
/// an exchange: while an attempt is serving, the exchange begins exactly
/// for a valid callback, and a present but mismatching `state` aborts the
/// attempt and shuts the listener down.
pub proof fn lemma_csrf_mismatch_never_exchanges(
    pre: FlowLifecycleController,
    code: Option<&str>,
    state: Option<&str>,
)
    requires
        pre.wf(),
    ensures
        ({
            let (post, action) = callback_transition(pre, code, state);
            &&& action is BeginExchange <==> valid_callback(pre, code, state)
            &&& (pre.flow matches Some(f) && state matches Some(s) && pre.phase is Active
                && code is Some && s@ != f.csrf_token@) ==> (action is Reject
                && post.phase is Idle && post.flow is None && post.listener.state is Down)
        }),
{
}

/// After an exchange completes — successfully or not — the listener is
/// down, and a further callback request is not processed: it changes
/// nothing and starts nothing.
pub proof fn lemma_post_completion_isolation(
    pre: FlowLifecycleController,
    result: Result<TokenResult, ExchangeError>,
    code: Option<&str>,
    state: Option<&str>,
)
    requires
        pre.wf(),
        pre.phase is Completing,
    ensures
        ({
            let (mid, _completion) = exchange_transition(pre, result);
            let (post, action) = callback_transition(mid, code, state);
            &&& mid.listener.state is Down
            &&& mid.phase is Idle
            &&& post == mid
            &&& action is NotAccepting
        }),
{
}

/// No path out of an attempt leaves the port bound: whenever a
/// well-formed controller reports no attempt in progress, its listener is
/// down — success, failure, rejection and cancellation all release it.
pub proof fn lemma_idle_releases_listener(c: FlowLifecycleController)
    requires
        c.wf(),
        c.phase is Idle,
    ensures
        c.listener.state is Down,
{
}

/// Tokens are handed to the consumer at most once: of two successive
/// exchange reports, at most the first can deliver, because completing an
/// exchange leaves the attempt over.
pub proof fn lemma_tokens_delivered_at_most_once(
    pre: FlowLifecycleController,
    first: Result<TokenResult, ExchangeError>,
    second: Result<TokenResult, ExchangeError>,
)
    requires
        pre.wf(),
    ensures
        ({
            let (mid, a1) = exchange_transition(pre, first);
            let (_post, a2) = exchange_transition(mid, second);
            !(a1 is Deliver && a2 is Deliver)
        }),
{
}

} // verus!
