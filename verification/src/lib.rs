//! Core of a desktop OAuth2 Authorization Code flow with PKCE over a loopback
//! redirect.
//!
//! The library holds the protocol logic of one authorization attempt: the
//! per-attempt `FlowState` (CSRF token, PKCE pair, endpoint URLs), the
//! composition of the authorization URL, the lifecycle state machine that
//! keeps at most one callback listener live, the validation and one-shot
//! processing of the redirect callback, and the parsing of the provider's
//! token response. Network and process work (binding the loopback socket,
//! the outbound token request, opening the browser) is left to the embedding
//! application, which feeds results back into the state machine as plain
//! values.

pub mod api;
pub mod controller;
pub mod errors;
pub mod flow;
pub mod listener;
pub mod service;
pub mod token;
pub mod urls;
