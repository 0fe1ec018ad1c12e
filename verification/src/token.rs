//! The provider's token response: the value handed to the external
//! consumer, and the parser for the token endpoint's JSON body.
//!
//! The token endpoint answers with a flat JSON object of string members —
//! `access_token`, usually `refresh_token`, and further provider-specific
//! fields. The parser accepts exactly that shape: one object whose members
//! are plain (escape-free) string keys and values, with arbitrary JSON
//! whitespace. `access_token` is required and must be non-empty;
//! `refresh_token` may be absent, which is not an error at this layer.
//! Everything else is `MalformedResponse`.

use vstd::prelude::*;
use vstd::string::StrSliceExecFns;
use crate::errors::ExchangeError;

verus! {

/// The outcome of a successful code-for-token exchange. Both tokens are
/// opaque secrets; ownership passes to the external consumer immediately,
/// and the core keeps neither past the handoff.
#[derive(Clone, Debug)]
pub struct TokenResult {
    /// Required; non-empty.
    pub access_token: String,
    /// Absent when the provider's policy issues none; non-empty when
    /// present.
    pub refresh_token: Option<String>,
}

impl TokenResult {
    /// Both secrets carry at least one character.
    pub open spec fn wf(self) -> bool {
        &&& self.access_token@.len() > 0
        &&& self.refresh_token matches Some(t) ==> t@.len() > 0
    }
}

/// JSON whitespace.
pub open spec fn is_json_ws(c: char) -> bool {
    c == ' ' || c == '\t' || c == '\n' || c == '\r'
}

/// A character that may stand unescaped inside a JSON string: anything but
/// the closing quote, a backslash, or a control character.
pub open spec fn is_plain_string_char(c: char) -> bool {
    c != '"' && c != '\\' && c as u32 >= 32
}

/// The first index at or after `i` that does not hold JSON whitespace.
pub open spec fn ws_end(s: Seq<char>, i: int) -> int
    decreases s.len() - i,
{
    if 0 <= i < s.len() && is_json_ws(s[i]) {
        ws_end(s, i + 1)
    } else {
        i
    }
}

/// Scanning a string body from `i` (just past the opening quote): the
/// index of the closing quote, or `None` if the string is unterminated or
/// holds an escape or control character.
pub open spec fn string_body_end(s: Seq<char>, i: int) -> Option<int>
    decreases s.len() - i,
{
    if !(0 <= i < s.len()) {
        None
    } else if s[i] == '"' {
        Some(i)
    } else if is_plain_string_char(s[i]) {
        string_body_end(s, i + 1)
    } else {
        None
    }
}

/// One `"key" : "value"` member starting at or after `i`: its key, its
/// value, and the index just past the value's closing quote.
pub open spec fn member_at(s: Seq<char>, i: int) -> Option<(Seq<char>, Seq<char>, int)> {
    let k0 = ws_end(s, i);
    if !(k0 < s.len() && s[k0] == '"') {
        None
    } else {
        match string_body_end(s, k0 + 1) {
            None => None,
            Some(kend) => {
                let c0 = ws_end(s, kend + 1);
                if !(c0 < s.len() && s[c0] == ':') {
                    None
                } else {
                    let v0 = ws_end(s, c0 + 1);
                    if !(v0 < s.len() && s[v0] == '"') {
                        None
                    } else {
                        match string_body_end(s, v0 + 1) {
                            None => None,
                            Some(vend) => Some(
                                (s.subrange(k0 + 1, kend), s.subrange(v0 + 1, vend), vend + 1),
                            ),
                        }
                    }
                }
            },
        }
    }
}

/// A comma-separated run of members starting at or after `i`: the members
/// in order and the index just past the last value. `fuel` bounds the
/// recursion; any value at least the number of members left suffices.
pub open spec fn members_at(s: Seq<char>, i: int, fuel: nat) -> Option<
    (Seq<(Seq<char>, Seq<char>)>, int),
>
    decreases fuel,
{
    if fuel == 0 {
        None
    } else {
        match member_at(s, i) {
            None => None,
            Some((key, value, j)) => {
                let j2 = ws_end(s, j);
                if j2 < s.len() && s[j2] == ',' {
                    match members_at(s, j2 + 1, (fuel - 1) as nat) {
                        None => None,
                        Some((rest, end)) => Some((seq![(key, value)] + rest, end)),
                    }
                } else {
                    Some((seq![(key, value)], j))
                }
            },
        }
    }
}

/// The whole body parsed as one flat object of string members: `{`, the
/// members (possibly none), `}`, nothing but whitespace around them.
pub open spec fn parse_token_object(s: Seq<char>) -> Option<Seq<(Seq<char>, Seq<char>)>> {
    let o = ws_end(s, 0);
    if !(o < s.len() && s[o] == '{') {
        None
    } else {
        let b0 = ws_end(s, o + 1);
        if b0 < s.len() && s[b0] == '}' {
            if ws_end(s, b0 + 1) == s.len() {
                Some(Seq::empty())
            } else {
                None
            }
        } else {
            match members_at(s, o + 1, s.len() as nat) {
                None => None,
                Some((pairs, j)) => {
                    let j2 = ws_end(s, j);
                    if j2 < s.len() && s[j2] == '}' && ws_end(s, j2 + 1) == s.len() {
                        Some(pairs)
                    } else {
                        None
                    }
                },
            }
        }
    }
}

/// The value of the first member with the given key, from index `i` on.
pub open spec fn first_value_from(
    pairs: Seq<(Seq<char>, Seq<char>)>,
    key: Seq<char>,
    i: int,
) -> Option<Seq<char>>
    decreases pairs.len() - i,
{
    if !(0 <= i < pairs.len()) {
        None
    } else if pairs[i].0 == key {
        Some(pairs[i].1)
    } else {
        first_value_from(pairs, key, i + 1)
    }
}

/// The value of the first member with the given key.
pub open spec fn first_value(pairs: Seq<(Seq<char>, Seq<char>)>, key: Seq<char>) -> Option<
    Seq<char>,
> {
    first_value_from(pairs, key, 0)
}

/// What the body yields: the access token and the optional refresh token,
/// or nothing when the body is not a flat object of string members, has no
/// `access_token`, or carries an empty token.
pub open spec fn token_result_of(s: Seq<char>) -> Option<(Seq<char>, Option<Seq<char>>)> {
    match parse_token_object(s) {
        None => None,
        Some(pairs) => match first_value(pairs, "access_token"@) {
            None => None,
            Some(access) => {
                if access.len() == 0 {
                    None
                } else {
                    match first_value(pairs, "refresh_token"@) {
                        Some(refresh) => {
                            if refresh.len() == 0 {
                                None
                            } else {
                                Some((access, Some(refresh)))
                            }
                        },
                        None => Some((access, None)),
                    }
                }
            },
        },
    }
}

/// The views of a parsed member list.
pub open spec fn pairs_view(pairs: Seq<(String, String)>) -> Seq<(Seq<char>, Seq<char>)> {
    pairs.map_values(|p: (String, String)| (p.0@, p.1@))
}

/// First non-whitespace index at or after `i`.
fn skip_ws(s: &str, i: usize) -> (r: usize)
    requires
        i <= s@.len(),
    ensures
        r == ws_end(s@, i as int),
        i <= r <= s@.len(),
    decreases s@.len() - i,
{
    if i < s.unicode_len() {
        let c = s.get_char(i);
        if c == ' ' || c == '\t' || c == '\n' || c == '\r' {
            return skip_ws(s, i + 1);
        }
    }
    i
}

/// Scans a string body from `i` for its closing quote.
fn scan_string_body(s: &str, i: usize) -> (r: Option<usize>)
    requires
        i <= s@.len(),
    ensures
        match string_body_end(s@, i as int) {
            Some(j) => r matches Some(x) && x == j && i <= j < s@.len(),
            None => r is None,
        },
    decreases s@.len() - i,
{
    if i >= s.unicode_len() {
        return None;
    }
    let c = s.get_char(i);
    if c == '"' {
        Some(i)
    } else if c != '\\' && (c as u32) >= 32 {
        scan_string_body(s, i + 1)
    } else {
        None
    }
}

/// Parses one member at or after `i`.
fn member_at_exec(s: &str, i: usize) -> (r: Option<(String, String, usize)>)
    requires
        i <= s@.len(),
    ensures
        match member_at(s@, i as int) {
            Some(m) => r matches Some(t) && t.0@ == m.0 && t.1@ == m.1 && t.2 == m.2 && i <= t.2
                <= s@.len(),
            None => r is None,
        },
{
    let k0 = skip_ws(s, i);
    if !(k0 < s.unicode_len() && s.get_char(k0) == '"') {
        return None;
    }
    let kend = match scan_string_body(s, k0 + 1) {
        Some(j) => j,
        None => {
            return None;
        },
    };
    let c0 = skip_ws(s, kend + 1);
    if !(c0 < s.unicode_len() && s.get_char(c0) == ':') {
        return None;
    }
    let v0 = skip_ws(s, c0 + 1);
    if !(v0 < s.unicode_len() && s.get_char(v0) == '"') {
        return None;
    }
    let vend = match scan_string_body(s, v0 + 1) {
        Some(j) => j,
        None => {
            return None;
        },
    };
    let key = s.substring_char(k0 + 1, kend).to_owned();
    let value = s.substring_char(v0 + 1, vend).to_owned();
    Some((key, value, vend + 1))
}

/// Parses the comma-separated members at or after `i`.
fn members_at_exec(s: &str, i: usize, fuel: usize) -> (r: Option<(Vec<(String, String)>, usize)>)
    requires
        i <= s@.len(),
    ensures
        match members_at(s@, i as int, fuel as nat) {
            Some(m) => r matches Some(t) && pairs_view(t.0@) == m.0 && t.1 == m.1 && i <= t.1
                <= s@.len(),
            None => r is None,
        },
    decreases fuel,
{
    if fuel == 0 {
        return None;
    }
    let (key, value, j) = match member_at_exec(s, i) {
        Some(t) => t,
        None => {
            return None;
        },
    };
    let j2 = skip_ws(s, j);
    if j2 < s.unicode_len() && s.get_char(j2) == ',' {
        match members_at_exec(s, j2 + 1, fuel - 1) {
            Some((mut rest, end)) => {
                let ghost rest0 = rest@;
                rest.insert(0, (key, value));
                proof {
                    assert(rest@ =~= seq![(key, value)] + rest0);
                    assert(pairs_view(rest@) =~= seq![(key@, value@)] + pairs_view(rest0));
                }
                Some((rest, end))
            },
            None => None,
        }
    } else {
        let mut one: Vec<(String, String)> = Vec::new();
        one.push((key, value));
        proof {
            assert(pairs_view(one@) =~= seq![(key@, value@)]);
        }
        Some((one, j))
    }
}

/// Parses the whole body as a flat object of string members.
fn parse_object(s: &str) -> (r: Option<Vec<(String, String)>>)
    ensures
        match parse_token_object(s@) {
            Some(pairs) => r matches Some(v) && pairs_view(v@) == pairs,
            None => r is None,
        },
{
    let o = skip_ws(s, 0);
    if !(o < s.unicode_len() && s.get_char(o) == '{') {
        return None;
    }
    let b0 = skip_ws(s, o + 1);
    if b0 < s.unicode_len() && s.get_char(b0) == '}' {
        if skip_ws(s, b0 + 1) == s.unicode_len() {
            let empty: Vec<(String, String)> = Vec::new();
            proof {
                assert(pairs_view(empty@) =~= Seq::<(Seq<char>, Seq<char>)>::empty());
            }
            Some(empty)
        } else {
            None
        }
    } else {
        let (pairs, j) = match members_at_exec(s, o + 1, s.unicode_len()) {
            Some(t) => t,
            None => {
                return None;
            },
        };
        let j2 = skip_ws(s, j);
        if j2 < s.unicode_len() && s.get_char(j2) == '}' {
            if skip_ws(s, j2 + 1) == s.unicode_len() {
                Some(pairs)
            } else {
                None
            }
        } else {
            None
        }
    }
}

/// The value of the first member with the given key, from index `i` on.
fn find_first(pairs: &Vec<(String, String)>, key: &str, i: usize) -> (r: Option<String>)
    requires
        i <= pairs@.len(),
    ensures
        match first_value_from(pairs_view(pairs@), key@, i as int) {
            Some(v) => r matches Some(x) && x@ == v,
            None => r is None,
        },
    decreases pairs@.len() - i,
{
    if i >= pairs.len() {
        return None;
    }
    let p = &pairs[i];
    if p.0 == key.to_owned() {
        Some(p.1.clone())
    } else {
        find_first(pairs, key, i + 1)
    }
}

/// Whether an optional exec token matches an optional parsed value.
pub open spec fn refresh_matches(token: Option<String>, parsed: Option<Seq<char>>) -> bool {
    match parsed {
        Some(v) => token matches Some(t) && t@ == v,
        None => token is None,
    }
}

/// Parses the token endpoint's response body. Returns the tokens exactly
/// when the body is a flat JSON object of plain string members carrying a
/// non-empty `access_token` (and, when present, a non-empty
/// `refresh_token`); any other body is `MalformedResponse`. An absent
/// `refresh_token` is not an error here; the caller decides whether it is
/// acceptable.
pub fn parse_token_response(body: &str) -> (r: Result<TokenResult, ExchangeError>)
    ensures
        match token_result_of(body@) {
            Some(t) => r matches Ok(tr) && tr.access_token@ == t.0 && refresh_matches(
                tr.refresh_token,
                t.1,
            ),
            None => r == Err::<TokenResult, ExchangeError>(ExchangeError::MalformedResponse),
        },
        r matches Ok(tr) ==> tr.wf(),
{
    let pairs = match parse_object(body) {
        Some(p) => p,
        None => {
            return Err(ExchangeError::MalformedResponse);
        },
    };
    let access = match find_first(&pairs, "access_token", 0) {
        Some(a) => a,
        None => {
            return Err(ExchangeError::MalformedResponse);
        },
    };
    if access.as_str().unicode_len() == 0 {
        return Err(ExchangeError::MalformedResponse);
    }
    let refresh = find_first(&pairs, "refresh_token", 0);
    if let Some(rt) = &refresh {
        if rt.as_str().unicode_len() == 0 {
            return Err(ExchangeError::MalformedResponse);
        }
    }
    Ok(TokenResult { access_token: access, refresh_token: refresh })
}

} // verus!
