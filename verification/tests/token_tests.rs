//! The token response parser.

use sf_auth_core::errors::ExchangeError;
use sf_auth_core::token::parse_token_response;

#[test]
fn parses_access_and_refresh_tokens() {
    let t = parse_token_response("{\"access_token\":\"tok1\",\"refresh_token\":\"ref1\"}")
        .unwrap();
    assert_eq!(t.access_token, "tok1");
    assert_eq!(t.refresh_token.as_deref(), Some("ref1"));
}

#[test]
fn refresh_token_may_be_absent() {
    let t = parse_token_response("{\"access_token\":\"tok1\"}").unwrap();
    assert_eq!(t.access_token, "tok1");
    assert!(t.refresh_token.is_none());
}

#[test]
fn tolerates_whitespace_and_extra_members() {
    let body = " {\n\t\"token_type\" : \"Bearer\" ,\r\n \"access_token\" : \"00Dxx!AR8\" , \"instance_url\" : \"https://org.example.com\" } ";
    let t = parse_token_response(body).unwrap();
    assert_eq!(t.access_token, "00Dxx!AR8");
    assert!(t.refresh_token.is_none());
}

#[test]
fn first_occurrence_of_a_repeated_member_wins() {
    let t = parse_token_response("{\"access_token\":\"first\",\"access_token\":\"second\"}")
        .unwrap();
    assert_eq!(t.access_token, "first");
}

#[test]
fn missing_access_token_is_malformed() {
    let r = parse_token_response("{\"refresh_token\":\"ref1\"}");
    assert!(matches!(r, Err(ExchangeError::MalformedResponse)));
}

#[test]
fn empty_tokens_are_malformed() {
    assert!(parse_token_response("{\"access_token\":\"\"}").is_err());
    assert!(
        parse_token_response("{\"access_token\":\"tok1\",\"refresh_token\":\"\"}").is_err()
    );
}

#[test]
fn unparsable_bodies_are_malformed() {
    for body in [
        "",
        "   ",
        "not json",
        "{",
        "{}}",
        "{\"access_token\"}",
        "{\"access_token\":}",
        "{\"access_token\":\"tok1\"",
        "{\"access_token\":\"tok1\",}",
        "{\"access_token\":\"tok1\"} trailing",
        "{\"access_token\":3600}",
        "{\"access_token\":\"a\\\"b\"}",
        "[\"access_token\",\"tok1\"]",
    ] {
        let r = parse_token_response(body);
        assert!(
            matches!(r, Err(ExchangeError::MalformedResponse)),
            "body {:?} should be malformed",
            body
        );
    }
}

#[test]
fn empty_object_has_no_access_token() {
    assert!(matches!(
        parse_token_response("{ }"),
        Err(ExchangeError::MalformedResponse)
    ));
}
