use auth_proxy::cookies::{
    authenticate, decoded_user_info, parse, select_session, serialize, session_cookie,
    user_info_as_query_params, AuthError, CookieError,
};
use auth_proxy::token::{issue_at, verify_at, IssueError, SessionClaims, TokenError};

const SECRET: &str = "super_secret";

#[test]
fn cookie_is_rendered_with_both_attributes() {
    assert_eq!(serialize("session", "abc"), "session=abc; HttpOnly; SameSite=Strict");
    assert_eq!(serialize("k", ""), "k=; HttpOnly; SameSite=Strict");
}

#[test]
fn pair_is_read_from_a_header_value() {
    assert_eq!(parse("session=abc"), Ok((String::from("session"), String::from("abc"))));
    assert_eq!(
        parse("session=abc; HttpOnly; SameSite=Strict"),
        Ok((String::from("session"), String::from("abc")))
    );
    assert_eq!(parse(" theme = dark "), Ok((String::from("theme"), String::from("dark"))));
}

#[test]
fn header_without_a_pair_is_a_parse_error() {
    assert_eq!(parse(""), Err(CookieError::ParseError));
    assert_eq!(parse("session"), Err(CookieError::ParseError));
    assert_eq!(parse("=abc"), Err(CookieError::ParseError));
}

#[test]
fn only_the_session_cookie_is_selected() {
    let ours = Ok((String::from("session"), String::from("tok")));
    assert_eq!(select_session(ours), Ok(String::from("tok")));
    let other = Ok((String::from("theme"), String::from("dark")));
    assert_eq!(select_session(other), Err(CookieError::Missing));
    let upper = Ok((String::from("Session"), String::from("tok")));
    assert_eq!(select_session(upper), Err(CookieError::Missing));
    assert_eq!(select_session(Err(CookieError::ParseError)), Err(CookieError::ParseError));
}

#[test]
fn session_cookie_carries_a_token_that_verifies() {
    let cookie = session_cookie(SECRET, "Marten", 1000).expect("signing works");
    let token = issue_at(SECRET, "Marten", 1000).expect("signing works");
    assert_eq!(cookie, format!("session={}; HttpOnly; SameSite=Strict", token));
    let (name, value) = parse(&cookie).expect("the cookie parses");
    assert_eq!(name, "session");
    let claims = verify_at(&value, SECRET, 1000).expect("the token verifies");
    assert_eq!(claims, SessionClaims { subject: String::from("Marten"), expires_at: 4600 });
}

#[test]
fn session_cookie_at_the_end_of_time_fails() {
    assert_eq!(session_cookie(SECRET, "Marten", u64::MAX), Err(IssueError::ClockOutOfRange));
}

#[test]
fn empty_header_value_is_a_parse_error() {
    assert_eq!(authenticate(Some(""), SECRET, 0), Err(AuthError::Cookie(CookieError::ParseError)));
}

#[test]
fn session_under_an_empty_secret_is_an_invalid_signature() {
    let token = issue_at(SECRET, "alice", 1000).expect("signing works");
    let header = format!("session={}", token);
    assert_eq!(
        authenticate(Some(&header), "", 1000),
        Err(AuthError::Token(TokenError::InvalidSignature))
    );
    assert_eq!(session_cookie("", "Marten", 1000), Err(IssueError::UnusableSecret));
}

#[test]
fn absent_header_is_a_missing_cookie() {
    assert_eq!(authenticate(None, SECRET, 0), Err(AuthError::Cookie(CookieError::Missing)));
}

#[test]
fn each_failure_of_authentication_has_its_error() {
    let token = issue_at(SECRET, "alice", 1000).expect("signing works");
    let header = format!("session={}", token);
    assert_eq!(
        authenticate(Some(&header), SECRET, 1000),
        Ok(SessionClaims { subject: String::from("alice"), expires_at: 4600 })
    );
    assert_eq!(
        authenticate(Some(&header), SECRET, 4600),
        Err(AuthError::Token(TokenError::Expired))
    );
    assert_eq!(
        authenticate(Some(&header), "another secret", 1000),
        Err(AuthError::Token(TokenError::InvalidSignature))
    );
    assert_eq!(
        authenticate(Some("session=junk"), SECRET, 1000),
        Err(AuthError::Token(TokenError::Malformed))
    );
    assert_eq!(
        authenticate(Some("junk"), SECRET, 1000),
        Err(AuthError::Cookie(CookieError::ParseError))
    );
    let other = format!("theme={}", token);
    assert_eq!(
        authenticate(Some(&other), SECRET, 1000),
        Err(AuthError::Cookie(CookieError::Missing))
    );
}

#[test]
fn user_info_is_the_name_parameter() {
    let token = issue_at(SECRET, "Marten", 1000).expect("signing works");
    let header = format!("session={}", token);
    assert_eq!(decoded_user_info(&header, SECRET, 1000), Ok(String::from("name=Marten")));
    assert_eq!(
        user_info_as_query_params(Some(&header), SECRET, 1000),
        Ok(String::from("name=Marten"))
    );
    assert_eq!(
        user_info_as_query_params(None, SECRET, 1000),
        Err(AuthError::Cookie(CookieError::Missing))
    );
    assert_eq!(
        decoded_user_info("theme=dark", SECRET, 1000),
        Err(AuthError::Cookie(CookieError::Missing))
    );
}

#[test]
fn user_info_is_percent_encoded() {
    let token = issue_at(SECRET, "a b&c", 1000).expect("signing works");
    let header = format!("session={}", token);
    assert_eq!(decoded_user_info(&header, SECRET, 1000), Ok(String::from("name=a%20b%26c")));
}
