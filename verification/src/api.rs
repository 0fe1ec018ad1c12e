//! Configuration of the downstream REST client that runs after
//! authentication. The requests themselves are outbound HTTP and live in
//! the embedding application; the configuration value and its default live
//! here.

use vstd::prelude::*;

verus! {

/// The settings a downstream API request is built from: where to call,
/// the bearer token to present, and which API version to address.
#[derive(Clone, Debug)]
pub struct RequestContext {
    /// The org's base URL, scheme and host only.
    pub base_url: String,
    /// The access token presented as a bearer credential.
    pub auth_token: String,
    /// The API version segment, e.g. `58.0`.
    pub api_version: String,
}

impl RequestContext {
    /// Builds the request configuration; an unspecified API version falls
    /// back to the documented default, `58.0`.
    pub fn new(base_url: String, auth_token: String, api_version: Option<&str>) -> (r:
        RequestContext)
        ensures
            r.base_url == base_url,
            r.auth_token == auth_token,
            match api_version {
                Some(v) => r.api_version@ == v@,
                None => r.api_version@ == "58.0"@,
            },
    {
        let version: String = match api_version {
            Some(v) => v.to_owned(),
            None => "58.0".to_owned(),
        };
        RequestContext { base_url, auth_token, api_version: version }
    }
}

} // verus!
