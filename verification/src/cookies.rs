//! The cookie adapter: the session cookie as it is set and as it comes back.
//!
//! Rendering and parsing of header values are done by the `cookie` crate;
//! which cookie counts as the session, and what its absence means, is
//! decided here.

use vstd::prelude::*;
use vstd::string::*;
use crate::clock::expiry_of;
use crate::query::{query_fragment, to_query_fragment};
use crate::text::{same_text, slice_view};
use crate::token::{
    issue_at, issue_spec, verifies_until, verify_at, verify_spec, IssueError, SessionClaims,
    TokenError,
};

verus! {

/// Why a cookie header gave no session token.
#[derive(Clone, Copy, Debug, PartialEq, Eq, Structural)]
pub enum CookieError {
    /// No header, or a cookie under another name.
    Missing,
    /// The header is not a well-formed `name=value` pair.
    ParseError,
}

/// Why a request carries no valid session.
#[derive(Clone, Copy, Debug, PartialEq, Eq, Structural)]
pub enum AuthError {
    Cookie(CookieError),
    Token(TokenError),
}

/// `cookie::ParseError`, carried as it comes and never looked into.
#[verifier::external_type_specification]
#[verifier::external_body]
pub struct ExCookieParseError(cookie::ParseError);

/// The name and value that `cookie::Cookie::parse` reads from a header
/// value, or `None` where it reports an error.
pub uninterp spec fn parsed_cookie(header: Seq<char>) -> Option<(Seq<char>, Seq<char>)>;

/// The name of the session cookie.
pub open spec fn session_name() -> Seq<char> {
    seq!['s', 'e', 's', 's', 'i', 'o', 'n']
}

/// The attributes that follow the pair of a rendered session cookie.
pub open spec fn cookie_attributes() -> Seq<char> {
    "; HttpOnly; SameSite=Strict"@
}

/// A cookie as it is rendered for a `Set-Cookie` header.
pub open spec fn rendered_cookie(name: Seq<char>, value: Seq<char>) -> Seq<char> {
    name + seq!['='] + value + cookie_attributes()
}

/// Builds a cookie with `cookie::Cookie::build`, marks it `HttpOnly` and
/// `SameSite=Strict`, and renders it through its `Display` impl. Trusted:
/// the text is the pair, then `; HttpOnly`, then `; SameSite=Strict`.
#[verifier::external_body]
fn render_cookie(name: &str, value: &str) -> (r: String)
    ensures
        r@ == rendered_cookie(name@, value@),
{
    let built = cookie::Cookie::build(name, value).http_only(true).same_site(
        cookie::SameSite::Strict,
    ).finish();
    built.to_string()
}

/// Calls `cookie::Cookie::parse` and copies out the name and the value.
/// Trusted: the outcome is a function of the header value.
#[verifier::external_body]
fn parse_pair(header: &str) -> (r: Result<(String, String), cookie::ParseError>)
    ensures
        match r {
            Ok(pair) => parsed_cookie(header@) == Some((pair.0@, pair.1@)),
            Err(_) => parsed_cookie(header@) is None,
        },
{
    let parsed = cookie::Cookie::parse(header)?;
    Ok((String::from(parsed.name()), String::from(parsed.value())))
}

/// The token that a parsed pair carries, where it is the session cookie.
pub open spec fn session_value(parsed: Option<(Seq<char>, Seq<char>)>) -> Result<
    Seq<char>,
    CookieError,
> {
    match parsed {
        None => Err(CookieError::ParseError),
        Some((name, value)) => if name == session_name() {
            Ok(value)
        } else {
            Err(CookieError::Missing)
        },
    }
}

/// The token that a cookie header carries.
pub open spec fn session_token_of(header: Option<Seq<char>>) -> Result<Seq<char>, CookieError> {
    match header {
        None => Err(CookieError::Missing),
        Some(h) => session_value(parsed_cookie(h)),
    }
}

/// The session that a cookie header proves under `secret` at `now`.
pub open spec fn session_of(header: Option<Seq<char>>, secret: Seq<char>, now: u64) -> Result<
    (Seq<char>, u64),
    AuthError,
> {
    match session_token_of(header) {
        Err(e) => Err(AuthError::Cookie(e)),
        Ok(token) => match verify_spec(token, secret, now) {
            Ok(c) => Ok(c),
            Err(e) => Err(AuthError::Token(e)),
        },
    }
}

/// The view of an authentication result.
pub open spec fn session_view(r: Result<SessionClaims, AuthError>) -> Result<
    (Seq<char>, u64),
    AuthError,
> {
    match r {
        Ok(c) => Ok(c@),
        Err(e) => Err(e),
    }
}

/// Renders a cookie with the attributes `HttpOnly` and `SameSite=Strict`.
pub fn serialize(name: &str, value: &str) -> (r: String)
    ensures
        r@ == rendered_cookie(name@, value@),
{
    render_cookie(name, value)
}

/// Reads the name and the value from a cookie header value.
pub fn parse(header: &str) -> (r: Result<(String, String), CookieError>)
    ensures
        match r {
            Ok(pair) => parsed_cookie(header@) == Some((pair.0@, pair.1@)),
            Err(e) => e == CookieError::ParseError && parsed_cookie(header@) is None,
        },
{
    match parse_pair(header) {
        Ok(pair) => Ok(pair),
        Err(_) => Err(CookieError::ParseError),
    }
}

/// Picks the session token out of a parsed pair.
pub fn select_session(pair: Result<(String, String), CookieError>) -> (r: Result<String, CookieError>)
    ensures
        match pair {
            Ok(p) => match r {
                Ok(v) => p.0@ == session_name() && v@ == p.1@,
                Err(e) => p.0@ != session_name() && e == CookieError::Missing,
            },
            Err(e) => r == Err::<String, CookieError>(e),
        },
{
    match pair {
        Err(e) => Err(e),
        Ok(p) => {
            proof {
                reveal_strlit("session");
                assert("session"@ =~= session_name());
            }
            if same_text(p.0.as_str(), "session") {
                Ok(p.1)
            } else {
                Err(CookieError::Missing)
            }
        },
    }
}

/// The `Set-Cookie` value of a fresh session for `username`, issued under
/// `secret` at the instant `now`.
pub fn session_cookie(secret: &str, username: &str, now: u64) -> (r: Result<String, IssueError>)
    ensures
        match r {
            Ok(c) => exists|t: Seq<char>|
                #![trigger rendered_cookie(session_name(), t)]
                {
                    &&& issue_spec(secret@, username@, now) == Ok::<Seq<char>, IssueError>(t)
                    &&& c@ == rendered_cookie(session_name(), t)
                    &&& expiry_of(now) matches Some(exp) && verifies_until(t, secret@, username@, exp)
                },
            Err(e) => issue_spec(secret@, username@, now) == Err::<Seq<char>, IssueError>(e),
        },
{
    match issue_at(secret, username, now) {
        Err(e) => Err(e),
        Ok(token) => {
            proof {
                reveal_strlit("session");
                assert("session"@ =~= session_name());
            }
            let c = serialize("session", token.as_str());
            assert(c@ == rendered_cookie(session_name(), token@));
            Ok(c)
        },
    }
}

/// The session that a cookie header proves under `secret` at the instant
/// `now`: the header must be present, parse as a pair named `session`, and
/// carry a token that verifies.
pub fn authenticate(header: Option<&str>, secret: &str, now: u64) -> (r: Result<
    SessionClaims,
    AuthError,
>)
    ensures
        session_view(r) == session_of(slice_view(header), secret@, now),
{
    match header {
        None => Err(AuthError::Cookie(CookieError::Missing)),
        Some(h) => match select_session(parse(h)) {
            Err(e) => Err(AuthError::Cookie(e)),
            Ok(token) => match verify_at(token.as_str(), secret, now) {
                Ok(c) => Ok(c),
                Err(e) => Err(AuthError::Token(e)),
            },
        },
    }
}

/// The query fragment of the session that a cookie header value proves.
pub fn decoded_user_info(cookie_str: &str, secret: &str, now: u64) -> (r: Result<String, AuthError>)
    ensures
        match r {
            Ok(q) => session_of(Some(cookie_str@), secret@, now) matches Ok(c) && q@
                == query_fragment(c.0),
            Err(e) => session_of(Some(cookie_str@), secret@, now) == Err::<
                (Seq<char>, u64),
                AuthError,
            >(e),
        },
{
    user_info_as_query_params(Some(cookie_str), secret, now)
}

/// The query fragment of the session that a request's cookie header, if it
/// has one, proves.
pub fn user_info_as_query_params(maybe_cookie: Option<&str>, secret: &str, now: u64) -> (r: Result<
    String,
    AuthError,
>)
    ensures
        match r {
            Ok(q) => session_of(slice_view(maybe_cookie), secret@, now) matches Ok(c) && q@
                == query_fragment(c.0),
            Err(e) => session_of(slice_view(maybe_cookie), secret@, now) == Err::<
                (Seq<char>, u64),
                AuthError,
            >(e),
        },
{
    match authenticate(maybe_cookie, secret, now) {
        Ok(claims) => Ok(to_query_fragment(&claims)),
        Err(e) => Err(e),
    }
}

} // verus!
