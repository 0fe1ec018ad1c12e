//! Per-attempt flow state: CSRF token, PKCE pair and endpoint URLs, and the
//! composition of the authorization URL opened in the user's browser.

use vstd::prelude::*;
use crate::errors::FlowError;
use crate::urls::parses_as_url;
use crate::urls::url_is_valid;

verus! {

/// What `oauth2::PkceCodeChallenge::from_code_verifier_sha256` returns for a
/// given verifier: the URL-safe base64 encoding, without padding, of the
/// SHA-256 digest of the verifier's characters. The transform is a function
/// of the verifier alone; it is named here rather than written out, and
/// nothing in this crate recomputes it.
pub uninterp spec fn challenge_of(verifier: Seq<char>) -> Seq<char>;

/// Relies on `oauth2::CsrfToken::new_random`: 16 bytes from a
/// cryptographically secure source, URL-safe base64 without padding — a
/// 22-character token.
#[verifier::external_body]
fn fresh_csrf_token() -> (r: String)
    ensures
        r@.len() == 22,
{
    oauth2::CsrfToken::new_random().secret().to_string()
}

/// Relies on `oauth2::PkceCodeChallenge::new_random_sha256`: a 43-character
/// verifier drawn from a cryptographically secure source, paired with the
/// challenge that `PkceCodeChallenge::from_code_verifier_sha256` (named
/// `challenge_of`) derives from it.
#[verifier::external_body]
fn fresh_pkce_pair() -> (r: (String, String))
    ensures
        r.0@.len() == 43,
        r.1@ == challenge_of(r.0@),
{
    let (challenge, verifier) = oauth2::PkceCodeChallenge::new_random_sha256();
    (verifier.secret().to_string(), challenge.as_str().to_string())
}

/// The provider's authorization endpoint under a base URL.
pub open spec fn authorize_endpoint_chars(base_url: Seq<char>) -> Seq<char> {
    base_url + "/services/oauth2/authorize"@
}

/// The provider's token endpoint under a base URL.
pub open spec fn token_endpoint_chars(base_url: Seq<char>) -> Seq<char> {
    base_url + "/services/oauth2/token"@
}

/// The loopback redirect URI for the configured port.
pub open spec fn redirect_uri_chars(port: Seq<char>) -> Seq<char> {
    "http://localhost:"@ + port + "/oauth/callback"@
}

/// Immutable state of one authorization attempt. Created once per attempt,
/// held until the attempt completes or is aborted, then discarded; never
/// persisted. The verifier and the tokens it protects stay in memory only.
pub struct FlowState {
    /// Per-attempt random value echoed back by the provider as `state`.
    pub csrf_token: String,
    /// PKCE secret; sent only in the final token-exchange request body.
    pub pkce_verifier: String,
    /// One-way transform of the verifier; sent in the authorization request.
    pub pkce_challenge: String,
    /// Provider-issued public client identifier.
    pub client_id: String,
    /// `{base_url}/services/oauth2/authorize`.
    pub authorize_endpoint: String,
    /// `{base_url}/services/oauth2/token`.
    pub token_endpoint: String,
    /// `http://localhost:{port}/oauth/callback`.
    pub redirect_uri: String,
}

impl FlowState {
    /// Internal consistency of one attempt: the challenge is the one-way
    /// transform of the verifier, and the secrets are non-empty.
    pub open spec fn wf(self) -> bool {
        &&& self.pkce_challenge@ == challenge_of(self.pkce_verifier@)
        &&& self.csrf_token@.len() > 0
        &&& self.pkce_verifier@.len() > 0
    }

    /// The attempt's endpoints and client id are the ones derived from the
    /// given configuration.
    pub open spec fn derived_from(
        self,
        base_url: Seq<char>,
        client_id: Seq<char>,
        port: Seq<char>,
    ) -> bool {
        &&& self.client_id@ == client_id
        &&& self.authorize_endpoint@ == authorize_endpoint_chars(base_url)
        &&& self.token_endpoint@ == token_endpoint_chars(base_url)
        &&& self.redirect_uri@ == redirect_uri_chars(port)
    }

    /// Creates the state of a fresh attempt: a new CSRF token and PKCE pair,
    /// and the endpoint URLs derived from the provider base URL and the
    /// loopback port. Fails with `ConfigurationError` exactly when one of
    /// the derived URLs is not a valid absolute URL.
    pub fn create(base_url: &str, client_id: &str, redirect_port: &str) -> (r: Result<
        FlowState,
        FlowError,
    >)
        ensures
            r is Ok <==> (parses_as_url(authorize_endpoint_chars(base_url@)) && parses_as_url(
                token_endpoint_chars(base_url@),
            ) && parses_as_url(redirect_uri_chars(redirect_port@))),
            r matches Err(e) ==> e == FlowError::ConfigurationError,
            r matches Ok(f) ==> f.wf() && f.derived_from(base_url@, client_id@, redirect_port@),
    {
        let mut authorize_endpoint: String = base_url.to_owned();
        authorize_endpoint.append("/services/oauth2/authorize");
        let mut token_endpoint: String = base_url.to_owned();
        token_endpoint.append("/services/oauth2/token");
        let mut redirect_uri: String = "http://localhost:".to_owned();
        redirect_uri.append(redirect_port);
        redirect_uri.append("/oauth/callback");

        if !url_is_valid(authorize_endpoint.as_str()) || !url_is_valid(token_endpoint.as_str())
            || !url_is_valid(redirect_uri.as_str()) {
            return Err(FlowError::ConfigurationError);
        }

        let csrf_token = fresh_csrf_token();
        let pair = fresh_pkce_pair();
        Ok(
            FlowState {
                csrf_token,
                pkce_verifier: pair.0,
                pkce_challenge: pair.1,
                client_id: client_id.to_owned(),
                authorize_endpoint,
                token_endpoint,
                redirect_uri,
            },
        )
    }

    /// The authorization URL up to, not including, the `state` parameter.
    pub open spec fn auth_url_prefix_chars(self) -> Seq<char> {
        self.authorize_endpoint@ + "?response_type=code&client_id="@ + self.client_id@
            + "&redirect_uri="@ + self.redirect_uri@
    }

    /// The full authorization URL: the authorization endpoint with
    /// `response_type=code`, the client id, the redirect URI, `state` bound
    /// to the CSRF token, the PKCE challenge, and
    /// `code_challenge_method=S256`.
    pub open spec fn auth_url_chars(self) -> Seq<char> {
        self.auth_url_prefix_chars() + "&state="@ + self.csrf_token@ + "&code_challenge="@
            + self.pkce_challenge@ + "&code_challenge_method=S256"@
    }

    /// Composes the browser-openable authorization URL. Deterministic, no
    /// side effects. The parameter values — the endpoints derived by
    /// `create`, the client id, and the base64url-encoded CSRF token and
    /// challenge — are taken as URL-safe and composed verbatim.
    pub fn build_authorization_url(&self) -> (r: String)
        ensures
            r@ == self.auth_url_chars(),
    {
        let mut url = self.authorize_endpoint.clone();
        url.append("?response_type=code&client_id=");
        url.append(self.client_id.as_str());
        url.append("&redirect_uri=");
        url.append(self.redirect_uri.as_str());
        url.append("&state=");
        url.append(self.csrf_token.as_str());
        url.append("&code_challenge=");
        url.append(self.pkce_challenge.as_str());
        url.append("&code_challenge_method=S256");
        proof {
            assert(url@ =~= self.auth_url_chars());
        }
        url
    }
}

/// `sub` stands in `s` at position `i`.
pub open spec fn contains_at(s: Seq<char>, i: int, sub: Seq<char>) -> bool {
    0 <= i && i + sub.len() <= s.len() && s.subrange(i, i + sub.len()) == sub
}

/// What stands between a prefix and a suffix is found there.
proof fn lemma_concat_contains_middle(p: Seq<char>, x: Seq<char>, q: Seq<char>)
    ensures
        contains_at(p + x + q, p.len() as int, x),
{
    assert((p + x + q).subrange(p.len() as int, p.len() + x.len() as int) =~= x);
}

/// For every well-formed attempt, the authorization URL carries the
/// attempt's own CSRF token as the value of its `state` parameter, and the
/// one-way transform of the attempt's verifier — SHA-256, then URL-safe
/// base64 without padding — as the value of its `code_challenge`
/// parameter: the URL is exactly the prefix followed by those two
/// parameters and the method, and each parameter stands in it whole.
pub proof fn lemma_authorization_url_binds_attempt(flow: FlowState)
    requires
        flow.wf(),
    ensures
        flow.auth_url_chars() == flow.auth_url_prefix_chars() + "&state="@ + flow.csrf_token@
            + "&code_challenge="@ + challenge_of(flow.pkce_verifier@)
            + "&code_challenge_method=S256"@,
        contains_at(
            flow.auth_url_chars(),
            flow.auth_url_prefix_chars().len() as int,
            "&state="@ + flow.csrf_token@,
        ),
        contains_at(
            flow.auth_url_chars(),
            flow.auth_url_prefix_chars().len() + "&state="@.len() + flow.csrf_token@.len() as int,
            "&code_challenge="@ + challenge_of(flow.pkce_verifier@),
        ),
{
    let url = flow.auth_url_chars();
    let prefix = flow.auth_url_prefix_chars();
    let state_param = "&state="@ + flow.csrf_token@;
    let challenge_param = "&code_challenge="@ + flow.pkce_challenge@;
    let method = "&code_challenge_method=S256"@;
    assert(url =~= prefix + state_param + (challenge_param + method));
    lemma_concat_contains_middle(prefix, state_param, challenge_param + method);
    assert(url =~= (prefix + state_param) + challenge_param + method);
    lemma_concat_contains_middle(prefix + state_param, challenge_param, method);
}

} // verus!
