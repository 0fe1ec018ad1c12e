//! The org-facing service, URL derivation, and request configuration.

use sf_auth_core::api::RequestContext;
use sf_auth_core::controller::Phase;
use sf_auth_core::errors::{ExchangeError, FlowError};
use sf_auth_core::service::Service;
use sf_auth_core::urls::{build_url, get_base_url};

#[test]
fn base_url_for_the_shared_hosts() {
    assert_eq!(get_base_url(None, false), "https://login.salesforce.com");
    assert_eq!(get_base_url(None, true), "https://test.salesforce.com");
}

#[test]
fn base_url_for_custom_domains() {
    assert_eq!(
        get_base_url(Some("acme"), false),
        "https://acme.my.salesforce.com"
    );
    assert_eq!(
        get_base_url(Some("acme"), true),
        "https://acme.sandbox.my.salesforce.com"
    );
}

#[test]
fn service_begins_a_flow_for_the_org() {
    let mut service = Service::init("client123", "18585");
    assert_eq!(service.client_id, "client123");
    assert_eq!(service.oauth_port, "18585");
    service.authorize_org(None, false).unwrap();
    assert_eq!(service.controller.phase, Phase::Starting);
    let flow = service.controller.flow.as_ref().unwrap();
    assert_eq!(
        flow.authorize_endpoint,
        "https://login.salesforce.com/services/oauth2/authorize"
    );
    assert_eq!(
        flow.token_endpoint,
        "https://login.salesforce.com/services/oauth2/token"
    );
    assert_eq!(flow.redirect_uri, "http://localhost:18585/oauth/callback");

    let again = service.authorize_org(Some("acme"), true);
    assert!(matches!(again, Err(FlowError::FlowAlreadyInProgress)));
}

#[test]
fn build_url_without_parameters_is_concatenation() {
    let url = build_url("https://org.example.com", "/services/data", None).unwrap();
    assert_eq!(url, "https://org.example.com/services/data");
}

#[test]
fn build_url_appends_query_parameters() {
    let url = build_url(
        "https://org.example.com",
        "/services/data/v58.0/query",
        Some(vec![("q", "SELECT+Id+FROM+Account")]),
    )
    .unwrap();
    assert_eq!(
        url,
        "https://org.example.com/services/data/v58.0/query?q=SELECT%2BId%2BFROM%2BAccount"
    );
}

#[test]
fn build_url_rejects_an_unparsable_base() {
    assert!(build_url("no scheme", "/services/data", Some(vec![("a", "b")])).is_none());
}

#[test]
fn request_context_defaults_the_api_version() {
    let ctx = RequestContext::new(
        "https://org.example.com".to_string(),
        "tok".to_string(),
        None,
    );
    assert_eq!(ctx.api_version, "58.0");
    let ctx2 = RequestContext::new(
        "https://org.example.com".to_string(),
        "tok".to_string(),
        Some("60.0"),
    );
    assert_eq!(ctx2.api_version, "60.0");
}

#[test]
fn errors_describe_themselves() {
    assert_eq!(
        FlowError::PortUnavailable.describe(),
        "loopback port unavailable"
    );
    assert_eq!(
        FlowError::Exchange(ExchangeError::Rejected).describe(),
        "provider rejected the token exchange"
    );
}
