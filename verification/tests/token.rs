use auth_proxy::clock::{expiry_after, instant_of, one_hour_from_now, unix_time_now};
use auth_proxy::token::{
    check_claims, decoded_cookie_username, issue_at, secret_is_usable, session_jwt, verify,
    verify_at, DecodeFailure, IssueError, RawClaims, SessionClaims, TokenError,
    MAX_SECRET_BYTES,
};

const SECRET: &str = "super_secret";

#[test]
fn expiry_is_one_hour_later() {
    assert_eq!(expiry_after(0), Some(3600));
    assert_eq!(expiry_after(1_700_000_000), Some(1_700_003_600));
    assert_eq!(expiry_after(u64::MAX - 3600), Some(u64::MAX));
}

#[test]
fn expiry_that_does_not_fit_is_none() {
    assert_eq!(expiry_after(u64::MAX - 3599), None);
    assert_eq!(expiry_after(u64::MAX), None);
}

#[test]
fn one_hour_from_now_lies_an_hour_after_the_clock() {
    let before = unix_time_now().expect("clock after the epoch");
    let expiry = one_hour_from_now().expect("expiry fits");
    let after = unix_time_now().expect("clock after the epoch");
    assert!(before + 3600 <= expiry);
    assert!(expiry <= after + 3600);
}

#[test]
fn issued_token_verifies_to_its_subject() {
    let token = issue_at(SECRET, "alice", 1000).expect("signing works");
    let claims = verify_at(&token, SECRET, 1000).expect("fresh token verifies");
    assert_eq!(claims, SessionClaims { subject: String::from("alice"), expires_at: 4600 });
}

#[test]
fn issued_token_verifies_for_several_subjects() {
    for subject in ["Marten", "", "a b&c=d", "J\u{f8}rgen \"quoted\" \\ back"] {
        let token = issue_at(SECRET, subject, 5).expect("signing works");
        let claims = verify_at(&token, SECRET, 3604).expect("last live second");
        assert_eq!(claims.subject, subject);
        assert_eq!(claims.expires_at, 3605);
    }
}

#[test]
fn issued_token_has_three_segments_and_the_hs256_header() {
    let token = issue_at(SECRET, "alice", 1000).expect("signing works");
    let segments: Vec<&str> = token.split('.').collect();
    assert_eq!(segments.len(), 3);
    assert_eq!(segments[0], "eyJhbGciOiJIUzI1NiIsInR5cCI6IkpXVCJ9");
    // {"exp":4600,"name":"alice"}
    assert_eq!(segments[1], "eyJleHAiOjQ2MDAsIm5hbWUiOiJhbGljZSJ9");
    assert_eq!(segments[2].len(), 43);
}

#[test]
fn issuing_is_a_function_of_its_arguments() {
    let a = issue_at(SECRET, "alice", 1000).expect("signing works");
    let b = issue_at(SECRET, "alice", 1000).expect("signing works");
    let c = issue_at(SECRET, "alice", 1001).expect("signing works");
    let d = issue_at("other", "alice", 1000).expect("signing works");
    assert_eq!(a, b);
    assert_ne!(a, c);
    assert_ne!(a, d);
    assert_ne!(a, "alice");
}

#[test]
fn issuing_at_the_end_of_time_fails() {
    assert_eq!(issue_at(SECRET, "alice", u64::MAX), Err(IssueError::ClockOutOfRange));
}

#[test]
fn empty_secret_is_refused_before_signing() {
    assert_eq!(issue_at("", "alice", 1000), Err(IssueError::UnusableSecret));
    assert_eq!(issue_at("", "alice", u64::MAX), Err(IssueError::UnusableSecret));
    assert_eq!(session_jwt("", "alice"), Err(IssueError::UnusableSecret));
}

#[test]
fn nothing_verifies_under_an_empty_secret() {
    let token = issue_at(SECRET, "alice", 1000).expect("signing works");
    assert_eq!(verify_at(&token, "", 1000), Err(TokenError::InvalidSignature));
    assert_eq!(verify_at("garbage", "", 1000), Err(TokenError::InvalidSignature));
    assert_eq!(verify(&token, ""), Err(TokenError::InvalidSignature));
}

#[test]
fn secret_is_usable_by_its_length_in_bytes() {
    assert!(!secret_is_usable(""));
    assert!(secret_is_usable("s"));
    assert!(secret_is_usable("\u{e9}"));
    assert!(secret_is_usable(SECRET));
    assert_eq!(MAX_SECRET_BYTES, 2_147_483_647);
}

#[test]
fn clock_before_the_epoch_is_the_end_of_time() {
    assert_eq!(instant_of(Some(0)), 0);
    assert_eq!(instant_of(Some(1_700_000_000)), 1_700_000_000);
    assert_eq!(instant_of(None), u64::MAX);
}

#[test]
fn token_signed_with_another_secret_is_rejected() {
    let token = issue_at("another secret", "alice", 1000).expect("signing works");
    assert_eq!(verify_at(&token, SECRET, 1000), Err(TokenError::InvalidSignature));
}

#[test]
fn tampered_payload_is_rejected() {
    let token = issue_at(SECRET, "alice", 1000).expect("signing works");
    let forged = issue_at(SECRET, "admin", 1000).expect("signing works");
    let ours: Vec<&str> = token.split('.').collect();
    let theirs: Vec<&str> = forged.split('.').collect();
    let mixed = format!("{}.{}.{}", ours[0], theirs[1], ours[2]);
    assert_eq!(verify_at(&mixed, SECRET, 1000), Err(TokenError::InvalidSignature));
}

#[test]
fn expired_token_is_rejected() {
    let token = issue_at(SECRET, "alice", 1000).expect("signing works");
    assert!(verify_at(&token, SECRET, 4599).is_ok());
    assert_eq!(verify_at(&token, SECRET, 4600), Err(TokenError::Expired));
    assert_eq!(verify_at(&token, SECRET, 4601), Err(TokenError::Expired));
    assert_eq!(verify_at(&token, SECRET, u64::MAX), Err(TokenError::Expired));
}

#[test]
fn expired_token_with_wrong_secret_is_an_invalid_signature() {
    let token = issue_at("another secret", "alice", 1000).expect("signing works");
    assert_eq!(verify_at(&token, SECRET, 9999), Err(TokenError::InvalidSignature));
}

#[test]
fn strings_that_are_no_tokens_are_malformed() {
    assert_eq!(verify_at("", SECRET, 0), Err(TokenError::Malformed));
    assert_eq!(verify_at("garbage", SECRET, 0), Err(TokenError::Malformed));
    assert_eq!(verify_at("a.b", SECRET, 0), Err(TokenError::Malformed));
    assert_eq!(verify_at("a.b.c.d", SECRET, 0), Err(TokenError::Malformed));
    assert_eq!(verify_at("!!.??.##", SECRET, 0), Err(TokenError::Malformed));
}

#[test]
fn check_claims_maps_each_decoding() {
    let full = RawClaims { name: Some(String::from("alice")), exp: Some(10) };
    assert_eq!(
        check_claims(Ok(full.clone()), 9),
        Ok(SessionClaims { subject: String::from("alice"), expires_at: 10 })
    );
    assert_eq!(check_claims(Ok(full.clone()), 10), Err(TokenError::Expired));
    assert_eq!(check_claims(Ok(full), 11), Err(TokenError::Expired));
    let nameless = RawClaims { name: None, exp: Some(10) };
    assert_eq!(check_claims(Ok(nameless), 0), Err(TokenError::Malformed));
    let endless = RawClaims { name: Some(String::from("alice")), exp: None };
    assert_eq!(check_claims(Ok(endless), 0), Err(TokenError::Malformed));
    assert_eq!(check_claims(Err(DecodeFailure::Signature), 0), Err(TokenError::InvalidSignature));
    assert_eq!(check_claims(Err(DecodeFailure::Format), 0), Err(TokenError::Malformed));
}

#[test]
fn username_is_read_from_a_live_token() {
    let token = issue_at(SECRET, "Marten", 1000).expect("signing works");
    assert_eq!(decoded_cookie_username(&token, SECRET, 1000), Ok(String::from("Marten")));
    assert_eq!(decoded_cookie_username(&token, SECRET, 5000), Err(TokenError::Expired));
    assert_eq!(decoded_cookie_username("nope", SECRET, 1000), Err(TokenError::Malformed));
}

#[test]
fn token_issued_now_verifies_now() {
    let token = session_jwt(SECRET, "Marten").expect("signing works");
    let claims = verify(&token, SECRET).expect("fresh token verifies");
    assert_eq!(claims.subject, "Marten");
    let now = unix_time_now().expect("clock after the epoch");
    assert!(claims.expires_at > now);
    assert!(claims.expires_at <= now + 3600);
    assert_eq!(verify(&token, "another secret"), Err(TokenError::InvalidSignature));
}
