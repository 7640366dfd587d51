//! The token codec: signed, time-limited session tokens.
//!
//! A token is a compact HS256 web token whose payload carries the subject
//! under `name` and the expiry instant under `exp`. Signing and signature
//! checking are done by `frank_jwt`; the expiry rule and the mapping of
//! failures are decided here.

use vstd::prelude::*;
use vstd::string::*;
use vstd::utf8::encode_utf8;
use crate::clock::{expiry_after, expiry_of, instant_of, unix_time_now};

verus! {

/// What a session token states: who, and until when.
#[derive(Clone, Debug, PartialEq, Eq)]
pub struct SessionClaims {
    pub subject: String,
    pub expires_at: u64,
}

impl View for SessionClaims {
    type V = (Seq<char>, u64);

    open spec fn view(&self) -> (Seq<char>, u64) {
        (self.subject@, self.expires_at)
    }
}

/// Why a token was not accepted.
#[derive(Clone, Copy, Debug, PartialEq, Eq, Structural)]
pub enum TokenError {
    Malformed,
    InvalidSignature,
    Expired,
}

/// Why no token was issued.
#[derive(Clone, Copy, Debug, PartialEq, Eq, Structural)]
pub enum IssueError {
    /// The secret cannot serve as a signing key: it is empty, or longer
    /// than the signer takes.
    UnusableSecret,
    /// The expiry instant does not fit in 64 bits, or the clock reads
    /// earlier than the epoch.
    ClockOutOfRange,
    /// The signer reported a failure.
    Signing,
}

/// How decoding a token string failed, before any claim was read.
#[derive(Clone, Copy, Debug, PartialEq, Eq, Structural)]
pub enum DecodeFailure {
    /// The string is well formed, but its signature does not match.
    Signature,
    /// The string is not three base64url segments of JSON, or the signer
    /// could not be run.
    Format,
}

/// The two payload fields of a token whose signature matched, each `None`
/// where the payload lacks it or holds another kind of value.
#[derive(Clone, Debug, PartialEq, Eq)]
pub struct RawClaims {
    pub name: Option<String>,
    pub exp: Option<u64>,
}

impl View for RawClaims {
    type V = (Option<Seq<char>>, Option<u64>);

    open spec fn view(&self) -> (Option<Seq<char>>, Option<u64>) {
        (
            match self.name {
                Some(n) => Some(n@),
                None => None,
            },
            self.exp,
        )
    }
}

/// The longest signing key, in bytes, that the signer takes: what a C `int`
/// can count.
pub const MAX_SECRET_BYTES: usize = 0x7fff_ffff;

/// A secret that can serve as a signing key: its UTF-8 form is not empty
/// and at most `MAX_SECRET_BYTES` long.
pub open spec fn usable_secret(secret: Seq<char>) -> bool {
    0 < encode_utf8(secret).len() <= MAX_SECRET_BYTES
}

/// `frank_jwt::Error`, carried as it comes and never looked into.
#[verifier::external_type_specification]
#[verifier::external_body]
pub struct ExJwtError(frank_jwt::Error);

/// The token that `frank_jwt::encode` gives for the payload
/// `{"exp": expires_at, "name": subject}` under HS256 with `secret`, or
/// `None` where it reports an error.
pub uninterp spec fn signed_token(secret: Seq<char>, subject: Seq<char>, expires_at: u64) -> Option<Seq<char>>;

/// What `frank_jwt::decode` gives for `token` under HS256 with `secret`,
/// expiry left unexamined: the payload's `name` and `exp`, or the failure.
pub uninterp spec fn decoded_token(token: Seq<char>, secret: Seq<char>) -> Result<
    (Option<Seq<char>>, Option<u64>),
    DecodeFailure,
>;

/// The view of a decoding result.
pub open spec fn decoding_view(r: Result<RawClaims, DecodeFailure>) -> Result<
    (Option<Seq<char>>, Option<u64>),
    DecodeFailure,
> {
    match r {
        Ok(c) => Ok(c@),
        Err(e) => Err(e),
    }
}

/// The view of a verification result.
pub open spec fn claims_view(r: Result<SessionClaims, TokenError>) -> Result<
    (Seq<char>, u64),
    TokenError,
> {
    match r {
        Ok(c) => Ok(c@),
        Err(e) => Err(e),
    }
}

/// Calls `frank_jwt::encode` with an empty header, the payload
/// `{"exp": expires_at, "name": subject}`, the key `secret` and HS256.
/// The key goes to OpenSSL's `PKey::hmac`, which aborts on a key longer
/// than `MAX_SECRET_BYTES` and treats an empty one as its build sees fit:
/// both are left out. Trusted: the outcome is a function of the three
/// arguments, and a token that comes out decodes under the same secret to
/// the same two fields.
#[verifier::external_body]
fn sign_claims(secret: &str, subject: &str, expires_at: u64) -> (r: Result<String, frank_jwt::Error>)
    requires
        usable_secret(secret@),
    ensures
        match r {
            Ok(t) => signed_token(secret@, subject@, expires_at) == Some(t@) && decoded_token(
                t@,
                secret@,
            ) == Ok::<(Option<Seq<char>>, Option<u64>), DecodeFailure>(
                (Some(subject@), Some(expires_at)),
            ),
            Err(_) => signed_token(secret@, subject@, expires_at) is None,
        },
{
    let mut payload = serde_json::Map::new();
    payload.insert(String::from("name"), serde_json::Value::from(subject));
    payload.insert(String::from("exp"), serde_json::Value::from(expires_at));
    let header = serde_json::Value::Object(serde_json::Map::new());
    let body = serde_json::Value::Object(payload);
    frank_jwt::encode(header, &String::from(secret), &body, frank_jwt::Algorithm::HS256)
}

/// Calls `frank_jwt::decode` with the key `secret`, HS256 and expiry
/// validation switched off, and reads `name` as a string and `exp` as an
/// unsigned integer from the payload. The key goes to OpenSSL's
/// `PKey::hmac`, which aborts on a key longer than `MAX_SECRET_BYTES` and
/// treats an empty one as its build sees fit: both are left out. Trusted:
/// the outcome is a function of the two arguments. A signature mismatch is
/// told apart from every other failure.
#[verifier::external_body]
fn decode_token(token: &str, secret: &str) -> (r: Result<RawClaims, DecodeFailure>)
    requires
        usable_secret(secret@),
    ensures
        decoding_view(r) == decoded_token(token@, secret@),
{
    let lax = frank_jwt::ValidationOptions::dangerous();
    match frank_jwt::decode(token, &String::from(secret), frank_jwt::Algorithm::HS256, &lax) {
        Ok((_, payload)) => Ok(RawClaims {
            name: payload.get("name").and_then(|v| v.as_str()).map(String::from),
            exp: payload.get("exp").and_then(|v| v.as_u64()),
        }),
        Err(frank_jwt::Error::SignatureInvalid) => Err(DecodeFailure::Signature),
        Err(_) => Err(DecodeFailure::Format),
    }
}

/// What is made of a decoding at the instant `now`: a failure maps to its
/// error, a payload that lacks either field is malformed, and a token is
/// live only while `now` lies strictly before its expiry.
pub open spec fn claims_outcome(
    decoded: Result<(Option<Seq<char>>, Option<u64>), DecodeFailure>,
    now: u64,
) -> Result<(Seq<char>, u64), TokenError> {
    match decoded {
        Err(DecodeFailure::Signature) => Err(TokenError::InvalidSignature),
        Err(DecodeFailure::Format) => Err(TokenError::Malformed),
        Ok((Some(name), Some(exp))) => if now < exp {
            Ok((name, exp))
        } else {
            Err(TokenError::Expired)
        },
        Ok(_) => Err(TokenError::Malformed),
    }
}

/// The result of verifying `token` under `secret` at the instant `now`.
/// Under a secret that cannot serve as a key no signature matches.
pub open spec fn verify_spec(token: Seq<char>, secret: Seq<char>, now: u64) -> Result<
    (Seq<char>, u64),
    TokenError,
> {
    if usable_secret(secret) {
        claims_outcome(decoded_token(token, secret), now)
    } else {
        Err(TokenError::InvalidSignature)
    }
}

/// `token` verifies under `secret`, at every instant before `exp`, to
/// `subject` and `exp`.
pub open spec fn verifies_until(token: Seq<char>, secret: Seq<char>, subject: Seq<char>, exp: u64) -> bool {
    forall|at: u64|
        at < exp ==> #[trigger] verify_spec(token, secret, at) == Ok::<(Seq<char>, u64), TokenError>(
            (subject, exp),
        )
}

/// The result of issuing a token for `subject` under `secret` at `now`.
pub open spec fn issue_spec(secret: Seq<char>, subject: Seq<char>, now: u64) -> Result<
    Seq<char>,
    IssueError,
> {
    if !usable_secret(secret) {
        Err(IssueError::UnusableSecret)
    } else {
        match expiry_of(now) {
            None => Err(IssueError::ClockOutOfRange),
            Some(exp) => match signed_token(secret, subject, exp) {
                Some(t) => Ok(t),
                None => Err(IssueError::Signing),
            },
        }
    }
}

/// Whether `secret` can serve as a signing key.
pub fn secret_is_usable(secret: &str) -> (r: bool)
    ensures
        r == usable_secret(secret@),
{
    let n: usize = secret.as_bytes().len();
    0 < n && n <= MAX_SECRET_BYTES
}

/// Judges a decoding at the instant `now`.
pub fn check_claims(decoded: Result<RawClaims, DecodeFailure>, now: u64) -> (r: Result<
    SessionClaims,
    TokenError,
>)
    ensures
        claims_view(r) == claims_outcome(decoding_view(decoded), now),
{
    match decoded {
        Err(DecodeFailure::Signature) => Err(TokenError::InvalidSignature),
        Err(DecodeFailure::Format) => Err(TokenError::Malformed),
        Ok(raw) => match (raw.name, raw.exp) {
            (Some(name), Some(exp)) => if now < exp {
                Ok(SessionClaims { subject: name, expires_at: exp })
            } else {
                Err(TokenError::Expired)
            },
            _ => Err(TokenError::Malformed),
        },
    }
}

/// Verifies `token` under `secret` at the instant `now`. A secret that
/// cannot serve as a key is never handed to the signer: the token is then
/// rejected for its signature.
pub fn verify_at(token: &str, secret: &str, now: u64) -> (r: Result<SessionClaims, TokenError>)
    ensures
        claims_view(r) == verify_spec(token@, secret@, now),
{
    if !secret_is_usable(secret) {
        return Err(TokenError::InvalidSignature);
    }
    check_claims(decode_token(token, secret), now)
}

/// Verifies `token` under `secret` at this moment. A clock that reads
/// earlier than the epoch counts as the end of time: every token is then
/// expired.
pub fn verify(token: &str, secret: &str) -> (r: Result<SessionClaims, TokenError>)
    ensures
        exists|now: u64| claims_view(r) == #[trigger] verify_spec(token@, secret@, now),
{
    verify_at(token, secret, instant_of(unix_time_now()))
}

/// Issues a token for `subject` under `secret` at the instant `now`; it
/// expires an hour later. A secret that cannot serve as a key is refused
/// before the signer is called. A token that comes out verifies under the
/// same secret, at every instant before its expiry, to the subject and the
/// expiry it was issued with.
pub fn issue_at(secret: &str, subject: &str, now: u64) -> (r: Result<String, IssueError>)
    ensures
        match r {
            Ok(t) => issue_spec(secret@, subject@, now) == Ok::<Seq<char>, IssueError>(t@),
            Err(e) => issue_spec(secret@, subject@, now) == Err::<Seq<char>, IssueError>(e),
        },
        r matches Ok(t) ==> expiry_of(now) matches Some(exp) && verifies_until(
            t@,
            secret@,
            subject@,
            exp,
        ),
{
    if !secret_is_usable(secret) {
        return Err(IssueError::UnusableSecret);
    }
    match expiry_after(now) {
        None => Err(IssueError::ClockOutOfRange),
        Some(exp) => match sign_claims(secret, subject, exp) {
            Ok(t) => Ok(t),
            Err(_) => Err(IssueError::Signing),
        },
    }
}

/// Issues a token for `username` under `secret` at this moment.
pub fn session_jwt(secret: &str, username: &str) -> (r: Result<String, IssueError>)
    ensures
        r matches Ok(t) ==> exists|now: u64| #[trigger]
            issue_spec(secret@, username@, now) == Ok::<Seq<char>, IssueError>(t@),
        r matches Ok(t) ==> exists|exp: u64| #[trigger] verifies_until(t@, secret@, username@, exp),
        r matches Err(e) ==> e == IssueError::ClockOutOfRange || exists|now: u64| #[trigger]
            issue_spec(secret@, username@, now) == Err::<Seq<char>, IssueError>(e),
{
    match unix_time_now() {
        None => Err(IssueError::ClockOutOfRange),
        Some(now) => {
            let r = issue_at(secret, username, now);
            proof {
                if let Ok(t) = &r {
                    assert(verifies_until(t@, secret@, username@, expiry_of(now)->0));
                }
            }
            r
        },
    }
}

/// The subject of `encoded_token`, where it verifies under `secret` at the
/// instant `now`.
pub fn decoded_cookie_username(encoded_token: &str, secret: &str, now: u64) -> (r: Result<
    String,
    TokenError,
>)
    ensures
        match r {
            Ok(name) => verify_spec(encoded_token@, secret@, now) matches Ok(c) && c.0 == name@,
            Err(e) => verify_spec(encoded_token@, secret@, now) == Err::<(Seq<char>, u64), TokenError>(e),
        },
{
    match verify_at(encoded_token, secret, now) {
        Ok(claims) => Ok(claims.subject),
        Err(e) => Err(e),
    }
}

/// A token whose signature matches under a usable secret and whose expiry
/// is not after `now` is rejected as expired.
pub proof fn lemma_expired_token_rejected(token: Seq<char>, secret: Seq<char>, now: u64)
    requires
        usable_secret(secret),
        decoded_token(token, secret) matches Ok((Some(_), Some(exp))) && exp <= now,
    ensures
        verify_spec(token, secret, now) == Err::<(Seq<char>, u64), TokenError>(TokenError::Expired),
{
}

} // verus!
