//! Error taxonomy of the authorization core.

use vstd::prelude::*;

verus! {

/// Failure of the code-for-token exchange against the provider's token
/// endpoint.
#[derive(Clone, Copy, Debug, PartialEq, Eq, Structural)]
pub enum ExchangeError {
    /// The outbound request could not be completed (transport failure).
    Network,
    /// The provider answered with a non-success HTTP status.
    Rejected,
    /// The provider's response body could not be parsed.
    MalformedResponse,
}

/// Failure of an authorization attempt, as surfaced to the embedding
/// application.
#[derive(Clone, Copy, Debug, PartialEq, Eq, Structural)]
pub enum FlowError {
    /// The provider base URL given to `begin` does not form valid endpoint
    /// URLs; fatal to starting a flow.
    ConfigurationError,
    /// `begin` was called while an attempt was already in progress; the
    /// existing attempt is left untouched.
    FlowAlreadyInProgress,
    /// The loopback port is already occupied; fatal to this attempt.
    PortUnavailable,
    /// The callback's `state` parameter did not match the attempt's CSRF
    /// token; the attempt is aborted without a token exchange.
    CsrfMismatch,
    /// The system browser could not be opened; non-fatal, the attempt stays
    /// active awaiting the callback.
    BrowserLaunchFailed,
    /// The token exchange failed; the attempt is over.
    Exchange(ExchangeError),
}

impl ExchangeError {
    /// A short description for reporting outside the core.
    pub fn describe(&self) -> (r: String)
        ensures
            self is Network ==> r@ == "network failure during token exchange"@,
            self is Rejected ==> r@ == "provider rejected the token exchange"@,
            self is MalformedResponse ==> r@ == "malformed token response"@,
    {
        match self {
            ExchangeError::Network => "network failure during token exchange".to_owned(),
            ExchangeError::Rejected => "provider rejected the token exchange".to_owned(),
            ExchangeError::MalformedResponse => "malformed token response".to_owned(),
        }
    }
}

impl FlowError {
    /// A short description for reporting outside the core.
    pub fn describe(&self) -> (r: String)
        ensures
            self is ConfigurationError ==> r@ == "invalid provider configuration"@,
            self is FlowAlreadyInProgress ==> r@ == "an authorization attempt is already in progress"@,
            self is PortUnavailable ==> r@ == "loopback port unavailable"@,
            self is CsrfMismatch ==> r@ == "callback state did not match the CSRF token"@,
            self is BrowserLaunchFailed ==> r@ == "could not open the system browser"@,
    {
        match self {
            FlowError::ConfigurationError => "invalid provider configuration".to_owned(),
            FlowError::FlowAlreadyInProgress => "an authorization attempt is already in progress".to_owned(),
            FlowError::PortUnavailable => "loopback port unavailable".to_owned(),
            FlowError::CsrfMismatch => "callback state did not match the CSRF token".to_owned(),
            FlowError::BrowserLaunchFailed => "could not open the system browser".to_owned(),
            FlowError::Exchange(e) => e.describe(),
        }
    }
}

} // verus!
