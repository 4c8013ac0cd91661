//! Browser login: the URL the browser is sent to, and what the callback it
//! comes back with must carry.
use vstd::prelude::*;

use crate::text::{chars_of, decimal, decimal_exec, push_str, str_eq, string_of};

verus! {

/// What a successful login gives.
#[derive(Debug, Clone, PartialEq)]
pub struct AuthResult {
    pub token: String,
    pub name: Option<String>,
    pub conference_id: Option<String>,
}

/// Why a callback was refused.
#[derive(Debug, Clone, Copy, PartialEq, Eq, Structural)]
pub enum AuthError {
    /// The callback URL does not parse.
    InvalidUrl,
    /// No `state` parameter.
    MissingState,
    /// The `state` parameter is not the one this login sent.
    StateMismatch,
    /// No `token` parameter.
    MissingToken,
    /// The `token` parameter is empty.
    EmptyToken,
}

impl AuthError {
    /// The message shown for the error.
    pub open spec fn spec_message(self) -> Seq<char> {
        match self {
            AuthError::InvalidUrl => "Invalid callback URL"@,
            AuthError::MissingState => "Missing state parameter in callback"@,
            AuthError::StateMismatch => "State mismatch — possible CSRF attack"@,
            AuthError::MissingToken => "Missing token in callback"@,
            AuthError::EmptyToken => "Received empty token"@,
        }
    }

    /// The message shown for the error.
    pub fn to_string(&self) -> (s: String)
        ensures
            s@ == self.spec_message(),
    {
        match self {
            AuthError::InvalidUrl => String::from_str("Invalid callback URL"),
            AuthError::MissingState => String::from_str("Missing state parameter in callback"),
            AuthError::StateMismatch => String::from_str("State mismatch — possible CSRF attack"),
            AuthError::MissingToken => String::from_str("Missing token in callback"),
            AuthError::EmptyToken => String::from_str("Received empty token"),
        }
    }
}

/// `{api_url}/cli/login?port={port}&state={state}`.
pub open spec fn login_url(api_url: Seq<char>, port: nat, state: Seq<char>) -> Seq<char> {
    api_url + "/cli/login?port="@ + decimal(port) + "&state="@ + state
}

/// The page the browser opens to log in, telling it where to call back.
pub fn build_login_url(api_url: &str, port: u16, state: &str) -> (r: String)
    ensures
        r@ == login_url(api_url@, port as nat, state@),
{
    let mut out = chars_of(api_url);
    push_str(&mut out, "/cli/login?port=");
    let digits = decimal_exec(port as u64);
    crate::text::push_chars(&mut out, &digits);
    push_str(&mut out, "&state=");
    push_str(&mut out, state);
    string_of(&out)
}

/// The decoded query parameters of a callback URL, in order, or `None` when
/// it is not a URL at all (as the `url` crate parses it).
pub uninterp spec fn callback_query(url: Seq<char>) -> Option<Seq<(Seq<char>, Seq<char>)>>;

/// `url::Url::parse` followed by `query_pairs`: the decoded query
/// parameters of `url` in order, or `None` when it does not parse; the result
/// is `callback_query` of the text.
#[verifier::external_body]
fn query_pairs_of(url: &str) -> (r: Option<Vec<(String, String)>>)
    ensures
        match r {
            Some(v) => callback_query(url@) == Some(
                v@.map_values(|p: (String, String)| (p.0@, p.1@)),
            ),
            None => callback_query(url@) is None,
        },
{
    match url::Url::parse(url) {
        Ok(parsed) => Some(parsed.query_pairs().into_owned().collect()),
        Err(_) => None,
    }
}

/// The value of the last parameter named `key`, if any (a later parameter
/// of the same name overrides an earlier one).
pub open spec fn lookup(pairs: Seq<(Seq<char>, Seq<char>)>, key: Seq<char>) -> Option<Seq<char>>
    decreases pairs.len(),
{
    if pairs.len() == 0 {
        None
    } else if pairs.last().0 == key {
        Some(pairs.last().1)
    } else {
        lookup(pairs.drop_last(), key)
    }
}

/// A parameter value, with an empty one counted as absent.
pub open spec fn non_empty(v: Option<Seq<char>>) -> Option<Seq<char>> {
    match v {
        Some(s) => if s.len() > 0 { Some(s) } else { None },
        None => None,
    }
}

/// The view of an optional string.
pub open spec fn opt_view(o: Option<String>) -> Option<Seq<char>> {
    match o {
        Some(s) => Some(s@),
        None => None,
    }
}

/// What the query parameters of a callback give: the state must be there and
/// be the expected one, the token must be there and not be empty; name and
/// conference id are taken when present and not empty.
pub open spec fn callback_outcome(
    pairs: Seq<(Seq<char>, Seq<char>)>,
    expected_state: Seq<char>,
    r: Result<AuthResult, AuthError>,
) -> bool {
    match lookup(pairs, "state"@) {
        None => r == Err::<AuthResult, AuthError>(AuthError::MissingState),
        Some(st) => if st != expected_state {
            r == Err::<AuthResult, AuthError>(AuthError::StateMismatch)
        } else {
            match lookup(pairs, "token"@) {
                None => r == Err::<AuthResult, AuthError>(AuthError::MissingToken),
                Some(tok) => if tok.len() == 0 {
                    r == Err::<AuthResult, AuthError>(AuthError::EmptyToken)
                } else {
                    r matches Ok(a) && a.token@ == tok && opt_view(a.name) == non_empty(
                        lookup(pairs, "name"@),
                    ) && opt_view(a.conference_id) == non_empty(lookup(pairs, "conference_id"@))
                },
            }
        },
    }
}

fn lookup_exec(pairs: &[(String, String)], key: &str) -> (r: Option<String>)
    ensures
        opt_view(r) == lookup(pairs@.map_values(|p: (String, String)| (p.0@, p.1@)), key@),
{
    let ghost ps = pairs@.map_values(|p: (String, String)| (p.0@, p.1@));
    let mut i: usize = pairs.len();
    assert(ps.take(i as int) =~= ps);
    while i > 0
        invariant
            i <= pairs@.len(),
            ps == pairs@.map_values(|p: (String, String)| (p.0@, p.1@)),
            lookup(ps, key@) == lookup(ps.take(i as int), key@),
        decreases i,
    {
        let ghost cur = ps.take(i as int);
        assert(cur.drop_last() =~= ps.take(i - 1));
        if str_eq(pairs[i - 1].0.as_str(), key) {
            return Some(pairs[i - 1].1.clone());
        }
        i = i - 1;
    }
    assert(ps.take(0) =~= Seq::<(Seq<char>, Seq<char>)>::empty());
    None
}

/// Checks the query parameters of a login callback against the state this
/// login sent, and takes the token, name and conference id from them.
pub fn callback_result(pairs: &[(String, String)], expected_state: &str) -> (r: Result<
    AuthResult,
    AuthError,
>)
    ensures
        callback_outcome(
            pairs@.map_values(|p: (String, String)| (p.0@, p.1@)),
            expected_state@,
            r,
        ),
{
    let state = match lookup_exec(pairs, "state") {
        Some(s) => s,
        None => return Err(AuthError::MissingState),
    };
    if !str_eq(state.as_str(), expected_state) {
        return Err(AuthError::StateMismatch);
    }
    let token = match lookup_exec(pairs, "token") {
        Some(t) => t,
        None => return Err(AuthError::MissingToken),
    };
    if token.as_str().is_empty() {
        return Err(AuthError::EmptyToken);
    }
    let name = match lookup_exec(pairs, "name") {
        Some(n) => if n.as_str().is_empty() { None } else { Some(n) },
        None => None,
    };
    let conference_id = match lookup_exec(pairs, "conference_id") {
        Some(c) => if c.as_str().is_empty() { None } else { Some(c) },
        None => None,
    };
    Ok(AuthResult { token, name, conference_id })
}

/// Reads a login callback URL: it must parse, and its parameters must pass
/// `callback_result`.
pub fn parse_callback(request_url: &str, expected_state: &str) -> (r: Result<
    AuthResult,
    AuthError,
>)
    ensures
        match callback_query(request_url@) {
            None => r == Err::<AuthResult, AuthError>(AuthError::InvalidUrl),
            Some(pairs) => callback_outcome(pairs, expected_state@, r),
        },
{
    match query_pairs_of(request_url) {
        None => Err(AuthError::InvalidUrl),
        Some(pairs) => callback_result(&pairs, expected_state),
    }
}

} // verus!
