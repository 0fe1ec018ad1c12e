//! Derivation of provider URLs: the base URL from an org subdomain, and
//! request URLs with query parameters.

use vstd::prelude::*;

verus! {

/// Whether `url::Url::parse` accepts the given text as an absolute URL.
/// Parsing is a function of the text alone; its outcome is named here and
/// nothing in this crate redefines it.
pub uninterp spec fn parses_as_url(s: Seq<char>) -> bool;

/// What `url::Url::parse_with_params` renders for a parsable base URL and a
/// sequence of query pairs: the parsed URL with the pairs appended,
/// form-encoded, to its query string. A function of the arguments alone.
pub uninterp spec fn url_with_params_of(
    base: Seq<char>,
    params: Seq<(Seq<char>, Seq<char>)>,
) -> Seq<char>;

/// The views of a sequence of query pairs.
pub open spec fn params_view(params: Seq<(&str, &str)>) -> Seq<(Seq<char>, Seq<char>)> {
    params.map_values(|p: (&str, &str)| (p.0@, p.1@))
}

/// Relies on `url::Url::parse` (through oauth2's re-export of the `url`
/// crate): whether the text parses as an absolute URL.
#[verifier::external_body]
pub(crate) fn url_is_valid(s: &str) -> (r: bool)
    ensures
        r == parses_as_url(s@),
{
    oauth2::url::Url::parse(s).is_ok()
}

/// Relies on `url::Url::parse_with_params` (through oauth2's re-export of
/// the `url` crate): parses the base URL and appends the pairs to its query
/// string. It succeeds exactly when `Url::parse` accepts the base URL, and
/// its rendering is named `url_with_params_of`.
#[verifier::external_body]
fn parse_with_params(base: &str, params: &Vec<(&str, &str)>) -> (r: Option<String>)
    ensures
        r is Some <==> parses_as_url(base@),
        r matches Some(u) ==> u@ == url_with_params_of(base@, params_view(params@)),
{
    match oauth2::url::Url::parse_with_params(base, params.iter().map(|p| (p.0, p.1))) {
        Ok(u) => Some(u.to_string()),
        Err(_) => None,
    }
}

/// Joins a base URL and a path, and, when query parameters are given,
/// form-encodes them onto the result. With parameters the composition goes
/// through the URL parser, so it returns `None` exactly when the joined
/// text is not a valid absolute URL; without parameters it is plain
/// concatenation.
pub fn build_url(base_url: &str, path: &str, url_parameters: Option<Vec<(&str, &str)>>) -> (r:
    Option<String>)
    ensures
        url_parameters is None ==> (r matches Some(u) && u@ == base_url@ + path@),
        url_parameters matches Some(params) ==> {
            &&& r is Some <==> parses_as_url(base_url@ + path@)
            &&& r matches Some(u) ==> u@ == url_with_params_of(
                base_url@ + path@,
                params_view(params@),
            )
        },
{
    let mut url: String = base_url.to_owned();
    url.append(path);
    match url_parameters {
        Some(params) => parse_with_params(url.as_str(), &params),
        None => Some(url),
    }
}

/// The subdomain chosen for an org: a custom domain gets `.my` (or
/// `.sandbox.my` for a sandbox) appended; without one the shared `login`
/// (or `test` for a sandbox) host is used.
pub open spec fn subdomain_chars(custom_domain: Option<&str>, is_sandbox: bool) -> Seq<char> {
    match custom_domain {
        Some(domain) => domain@ + "."@ + (if is_sandbox { "sandbox.my"@ } else { "my"@ }),
        None => if is_sandbox { "test"@ } else { "login"@ },
    }
}

/// The provider base URL for an org: `https://{subdomain}.salesforce.com`.
pub open spec fn base_url_chars(custom_domain: Option<&str>, is_sandbox: bool) -> Seq<char> {
    "https://"@ + subdomain_chars(custom_domain, is_sandbox) + ".salesforce.com"@
}

/// Derives the provider base URL from an optional custom domain and the
/// sandbox flag.
pub fn get_base_url(custom_domain: Option<&str>, is_sandbox: bool) -> (r: String)
    ensures
        r@ == base_url_chars(custom_domain, is_sandbox),
{
    let mut url: String = "https://".to_owned();
    match custom_domain {
        Some(domain) => {
            url.append(domain);
            url.append(".");
            if is_sandbox {
                url.append("sandbox.my");
            } else {
                url.append("my");
            }
        }
        None => {
            if is_sandbox {
                url.append("test");
            } else {
                url.append("login");
            }
        }
    }
    url.append(".salesforce.com");
    proof {
        assert(url@ =~= base_url_chars(custom_domain, is_sandbox));
    }
    url
}

} // verus!
