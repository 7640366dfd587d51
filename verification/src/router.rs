//! The auth gate: what is done with one request.
//!
//! The router decides and builds plain values; whoever calls it writes the
//! response or sends the rewritten request upstream.

use vstd::prelude::*;
use vstd::string::*;
use crate::clock::{expiry_of, instant_of, unix_time_now};
use crate::cookies::{
    authenticate, rendered_cookie, session_cookie, session_name, session_of, session_view,
    AuthError,
};
use crate::query::{is_plain, lemma_plain_subject_fragment, query_fragment, to_query_fragment};
use crate::rewrite::{
    built_target, kept_as_given, outbound_path, replace_authority_and_add_extras,
    upstream_scheme, Request, RewriteError,
};
use crate::text::{push_char, same_text, slice_view};
use crate::token::{issue_spec, verifies_until, IssueError, SessionClaims};

verus! {

/// What is done with a request.
#[derive(Clone, Debug, PartialEq, Eq)]
pub enum RouteDecision {
    ServeLoginForm,
    HandleLogin,
    ForwardAuthenticated(SessionClaims),
}

/// A decision with its claims as plain values.
pub enum DecisionView {
    ServeLoginForm,
    HandleLogin,
    ForwardAuthenticated((Seq<char>, u64)),
}

impl View for RouteDecision {
    type V = DecisionView;

    open spec fn view(&self) -> DecisionView {
        match self {
            RouteDecision::ServeLoginForm => DecisionView::ServeLoginForm,
            RouteDecision::HandleLogin => DecisionView::HandleLogin,
            RouteDecision::ForwardAuthenticated(c) => DecisionView::ForwardAuthenticated(c@),
        }
    }
}

/// A response held as plain values.
#[derive(Clone, Debug, PartialEq, Eq)]
pub struct Response {
    pub status: u16,
    pub headers: Vec<(String, String)>,
    pub body: String,
}

/// What the caller is to do: answer at once, or send a request upstream
/// and hand its response back unchanged.
#[derive(Clone, Debug, PartialEq, Eq)]
pub enum Action {
    Respond(Response),
    Forward(Request),
}

/// How sending a request upstream failed.
#[derive(Clone, Copy, Debug, PartialEq, Eq, Structural)]
pub enum UpstreamError {
    ConnectFailed,
    Timeout,
    ProtocolError,
}

/// What stays the same from request to request. It holds the signing key,
/// so it has no `Debug`.
#[derive(Clone, PartialEq, Eq)]
pub struct Config {
    /// The key that session tokens are signed with.
    pub secret: String,
    /// The authority of the upstream service, `host:port`.
    pub upstream: String,
    /// The subject that a login is issued for.
    pub login_subject: String,
    /// The login page, served as it is.
    pub login_form: String,
}

/// The method that submits a login.
pub open spec fn login_method() -> Seq<char> {
    seq!['P', 'O', 'S', 'T']
}

/// The path that a login is submitted to.
pub open spec fn login_path() -> Seq<char> {
    seq!['/', 'l', 'o', 'g', 'i', 'n']
}

/// The name of the request header that carries cookies.
pub open spec fn cookie_header_name() -> Seq<char> {
    seq!['c', 'o', 'o', 'k', 'i', 'e']
}

/// The name of the response header that sets a cookie.
pub open spec fn set_cookie_header_name() -> Seq<char> {
    seq!['s', 'e', 't', '-', 'c', 'o', 'o', 'k', 'i', 'e']
}

/// Where the path of `s` ends: at the first `?`, or at the end of `s`.
pub open spec fn path_end(s: Seq<char>) -> int {
    choose|i: int| is_path_end(s, i)
}

/// `i` is where the path of `s` ends.
pub open spec fn is_path_end(s: Seq<char>, i: int) -> bool {
    &&& 0 <= i <= s.len()
    &&& i < s.len() ==> s[i] == '?'
    &&& forall|j: int| 0 <= j < i ==> s[j] != '?'
}

/// The path of a request: its path and query up to the first `?`, and `/`
/// where it has none.
pub open spec fn request_path(path_and_query: Option<Seq<char>>) -> Seq<char> {
    match path_and_query {
        Some(p) => p.take(path_end(p)),
        None => seq!['/'],
    }
}

/// The value of the first header called `name`.
pub open spec fn first_header(headers: Seq<(String, String)>, name: Seq<char>) -> Option<Seq<char>>
    decreases headers.len(),
{
    if headers.len() == 0 {
        None
    } else if headers[0].0@ == name {
        Some(headers[0].1@)
    } else {
        first_header(headers.drop_first(), name)
    }
}

/// The decision table: a valid session is forwarded; without one, a `POST`
/// to `/login` is a login, and anything else is shown the form.
pub open spec fn decision(
    method: Seq<char>,
    path: Seq<char>,
    session: Result<(Seq<char>, u64), AuthError>,
) -> DecisionView {
    match session {
        Ok(c) => DecisionView::ForwardAuthenticated(c),
        Err(_) => if method == login_method() && path == login_path() {
            DecisionView::HandleLogin
        } else {
            DecisionView::ServeLoginForm
        },
    }
}

/// The decision for a request under `secret` at the instant `now`.
pub open spec fn route_spec(req: Request, secret: Seq<char>, now: u64) -> DecisionView {
    decision(
        req.method@,
        request_path(req.target@.2),
        session_of(first_header(req.headers@, cookie_header_name()), secret, now),
    )
}

/// The path of a path and query: what stands before the first `?`.
pub fn path_of(path_and_query: &str) -> (r: String)
    ensures
        r@ == request_path(Some(path_and_query@)),
{
    broadcast use axiom_spec_iter;

    let mut out = String::new();
    for c in it: path_and_query.chars()
        invariant
            it.seq() == path_and_query@,
            out@ == path_and_query@.take(it.index() as int),
            forall|j: int| 0 <= j < it.index() ==> path_and_query@[j] != '?',
    {
        if c == '?' {
            proof {
                lemma_path_end_unique(path_and_query@, it.index() as int);
            }
            return out;
        }
        push_char(&mut out, c);
        assert(out@ =~= path_and_query@.take(it.index() + 1));
    }
    proof {
        lemma_path_end_unique(path_and_query@, path_and_query@.len() as int);
        assert(path_and_query@.take(path_and_query@.len() as int) =~= path_and_query@);
    }
    out
}

/// A text has one path end.
pub proof fn lemma_path_end_unique(s: Seq<char>, i: int)
    requires
        is_path_end(s, i),
    ensures
        path_end(s) == i,
{
    let k = path_end(s);
    assert(is_path_end(s, k));
    if k < i {
        assert(s[k] != '?');
    }
    if i < k {
        assert(s[i] != '?');
    }
}

/// The value of the first header called `name`, if there is one.
pub fn find_header<'a>(headers: &'a Vec<(String, String)>, name: &str) -> (r: Option<&'a str>)
    ensures
        slice_view(r) == first_header(headers@, name@),
{
    let mut i: usize = 0;
    assert(headers@.skip(0) =~= headers@);
    while i < headers.len()
        invariant
            i <= headers.len(),
            first_header(headers@, name@) == first_header(headers@.skip(i as int), name@),
        decreases headers.len() - i,
    {
        proof {
            assert(headers@.skip(i as int)[0] == headers@[i as int]);
            assert(headers@.skip(i as int).drop_first() =~= headers@.skip(i + 1));
        }
        if same_text(headers[i].0.as_str(), name) {
            return Some(headers[i].1.as_str());
        }
        i += 1;
    }
    None
}

/// Applies the decision table.
pub fn decide(method: &str, path: &str, session: Result<SessionClaims, AuthError>) -> (r:
    RouteDecision)
    ensures
        r@ == decision(method@, path@, session_view(session)),
{
    proof {
        reveal_strlit("POST");
        reveal_strlit("/login");
        assert("POST"@ =~= login_method());
        assert("/login"@ =~= login_path());
    }
    match session {
        Ok(claims) => RouteDecision::ForwardAuthenticated(claims),
        Err(_) => if same_text(method, "POST") && same_text(path, "/login") {
            RouteDecision::HandleLogin
        } else {
            RouteDecision::ServeLoginForm
        },
    }
}

/// Decides what is done with `req` under `secret` at the instant `now`.
pub fn route(req: &Request, secret: &str, now: u64) -> (r: RouteDecision)
    ensures
        r@ == route_spec(*req, secret@, now),
{
    proof {
        reveal_strlit("cookie");
        reveal_strlit("/");
        assert("cookie"@ =~= cookie_header_name());
        assert("/"@ =~= seq!['/']);
    }
    let session = authenticate(find_header(&req.headers, "cookie"), secret, now);
    let path = match &req.target.path_and_query {
        Some(p) => path_of(p.as_str()),
        None => String::from_str("/"),
    };
    decide(req.method.as_str(), path.as_str(), session)
}

/// The login page: status 200, no header, the form as body.
pub fn prompt_login(login_form: &str) -> (r: Response)
    ensures
        r.status == 200,
        r.headers@.len() == 0,
        r.body@ == login_form@,
{
    Response { status: 200, headers: Vec::new(), body: String::from_str(login_form) }
}

/// An empty response with the given status and no header.
pub fn empty_response(status: u16) -> (r: Response)
    ensures
        r.status == status,
        r.headers@.len() == 0,
        r.body@.len() == 0,
{
    Response { status, headers: Vec::new(), body: String::new() }
}

/// The answer where the request could not be rewritten or no session could
/// be issued: status 500, empty.
pub fn internal_failure() -> (r: Response)
    ensures
        r.status == 500,
        r.headers@.len() == 0,
        r.body@.len() == 0,
{
    empty_response(500)
}

/// The status that tells the client how the upstream failed: 504 where it
/// did not answer in time, 502 where it could not be reached or did not
/// answer as HTTP.
pub open spec fn failure_status(error: UpstreamError) -> u16 {
    match error {
        UpstreamError::ConnectFailed => 502,
        UpstreamError::Timeout => 504,
        UpstreamError::ProtocolError => 502,
    }
}

/// The answer where forwarding failed: the status of the failure, empty.
pub fn upstream_failure(error: UpstreamError) -> (r: Response)
    ensures
        r.status == failure_status(error),
        r.headers@.len() == 0,
        r.body@.len() == 0,
{
    match error {
        UpstreamError::ConnectFailed => empty_response(502),
        UpstreamError::Timeout => empty_response(504),
        UpstreamError::ProtocolError => empty_response(502),
    }
}

/// Ends a forwarded exchange. What the upstream answered goes back as it
/// is; where the call failed, the failure response for that failure goes
/// back in its place. Either way the exchange is over: nothing is sent
/// again.
pub fn conclude<T>(outcome: Result<T, UpstreamError>) -> (r: Result<T, Response>)
    ensures
        match outcome {
            Ok(answer) => r == Ok::<T, Response>(answer),
            Err(error) => r matches Err(resp) && resp.status == failure_status(error)
                && resp.headers@.len() == 0 && resp.body@.len() == 0,
        },
{
    match outcome {
        Ok(answer) => Ok(answer),
        Err(error) => Err(upstream_failure(error)),
    }
}

/// However the upstream call fails, the status that answers it is 502 or
/// 504: neither the 200 of the login page and of a login, nor the 500 of a
/// failure of the proxy itself.
pub proof fn lemma_upstream_failure_is_told_apart(error: UpstreamError)
    ensures
        failure_status(error) == 502 || failure_status(error) == 504,
        failure_status(error) != 200,
        failure_status(error) != 500,
{
}

/// `resp` is the answer to a login for `subject` at `now`: status 200, an
/// empty body, and one header that sets the session cookie to a token
/// issued for `subject`.
pub open spec fn is_login_response(resp: Response, secret: Seq<char>, subject: Seq<char>, now: u64) -> bool {
    &&& resp.status == 200
    &&& resp.body@.len() == 0
    &&& resp.headers@.len() == 1
    &&& resp.headers@[0].0@ == set_cookie_header_name()
    &&& exists|t: Seq<char>|
        #![trigger rendered_cookie(session_name(), t)]
        {
            &&& issue_spec(secret, subject, now) == Ok::<Seq<char>, IssueError>(t)
            &&& resp.headers@[0].1@ == rendered_cookie(session_name(), t)
            &&& expiry_of(now) matches Some(exp) && verifies_until(t, secret, subject, exp)
        }
}

/// Answers a login: a fresh session for `subject`, set as a cookie on an
/// empty 200 response. Whatever was submitted is not looked at.
pub fn handle_login(secret: &str, subject: &str, now: u64) -> (r: Result<Response, IssueError>)
    ensures
        match r {
            Ok(resp) => is_login_response(resp, secret@, subject@, now),
            Err(e) => issue_spec(secret@, subject@, now) == Err::<Seq<char>, IssueError>(e),
        },
{
    match session_cookie(secret, subject, now) {
        Err(e) => Err(e),
        Ok(cookie_text) => {
            proof {
                reveal_strlit("set-cookie");
                assert("set-cookie"@ =~= set_cookie_header_name());
            }
            let mut headers: Vec<(String, String)> = Vec::new();
            headers.push((String::from_str("set-cookie"), cookie_text));
            Ok(Response { status: 200, headers, body: String::new() })
        },
    }
}

/// Rewrites an authenticated request for the upstream, the session's
/// parameters merged into its query.
pub fn forward_request(req: Request, upstream: &str, extra_parameters: &str) -> (r: Result<
    Request,
    RewriteError,
>)
    ensures
        match r {
            Ok(out) => {
                &&& built_target(upstream@, outbound_path(req.target@.2, Some(extra_parameters@)))
                    == Some(out.target@)
                &&& out.target@.0 == Some(upstream_scheme())
                &&& out.target@.1 == Some(upstream@)
                &&& kept_as_given(outbound_path(req.target@.2, Some(extra_parameters@)))
                    ==> out.target@.2 == Some(
                    outbound_path(req.target@.2, Some(extra_parameters@)),
                )
                &&& out.method == req.method
                &&& out.headers == req.headers
                &&& out.body == req.body
            },
            Err(_) => built_target(
                upstream@,
                outbound_path(req.target@.2, Some(extra_parameters@)),
            ) is None,
        },
{
    replace_authority_and_add_extras(upstream, Some(extra_parameters), req)
}

/// What `action` must be for a request that was decided as `decided`.
pub open spec fn action_fits(
    action: Action,
    decided: DecisionView,
    req: Request,
    config: Config,
    now: u64,
) -> bool {
    match decided {
        DecisionView::ServeLoginForm => action matches Action::Respond(resp) && resp.status == 200
            && resp.headers@.len() == 0 && resp.body@ == config.login_form@,
        DecisionView::HandleLogin => action matches Action::Respond(resp) && (
        if issue_spec(config.secret@, config.login_subject@, now) is Ok {
            is_login_response(resp, config.secret@, config.login_subject@, now)
        } else {
            resp.status == 500 && resp.headers@.len() == 0 && resp.body@.len() == 0
        }),
        DecisionView::ForwardAuthenticated(c) => match built_target(
            config.upstream@,
            outbound_path(req.target@.2, Some(query_fragment(c.0))),
        ) {
            Some(t) => {
                &&& action matches Action::Forward(out) && out.target@ == t && out.method
                    == req.method && out.headers == req.headers && out.body == req.body
                &&& t.0 == Some(upstream_scheme())
                &&& t.1 == Some(config.upstream@)
                &&& kept_as_given(outbound_path(req.target@.2, Some(query_fragment(c.0))))
                    ==> t.2 == Some(outbound_path(req.target@.2, Some(query_fragment(c.0))))
            },
            None => action matches Action::Respond(resp) && resp.status == 500
                && resp.headers@.len() == 0 && resp.body@.len() == 0,
        },
    }
}

/// Handles one request at the instant `now`: decides, and builds either
/// the response or the request to send upstream.
pub fn respond(req: Request, config: &Config, now: u64) -> (r: Action)
    ensures
        action_fits(r, route_spec(req, config.secret@, now), req, *config, now),
{
    match route(&req, config.secret.as_str(), now) {
        RouteDecision::ServeLoginForm => Action::Respond(prompt_login(config.login_form.as_str())),
        RouteDecision::HandleLogin => match handle_login(
            config.secret.as_str(),
            config.login_subject.as_str(),
            now,
        ) {
            Ok(resp) => Action::Respond(resp),
            Err(_) => Action::Respond(internal_failure()),
        },
        RouteDecision::ForwardAuthenticated(claims) => {
            let extras = to_query_fragment(&claims);
            match forward_request(req, config.upstream.as_str(), extras.as_str()) {
                Ok(out) => Action::Forward(out),
                Err(_) => Action::Respond(internal_failure()),
            }
        },
    }
}

/// Handles one request at this moment. A clock that reads earlier than the
/// epoch counts as the end of time.
pub fn respond_now(req: Request, config: &Config) -> (r: Action)
    ensures
        exists|now: u64| #[trigger]
            action_fits(r, route_spec(req, config.secret@, now), req, *config, now),
{
    respond(req, config, instant_of(unix_time_now()))
}

/// The path and query that goes upstream for a session whose subject is
/// made of unreserved ASCII characters: the inbound one, then `?name=` and
/// the subject where it had no query, `&name=` and the subject where it
/// had one. What was there stays in front, unaltered.
pub proof fn lemma_forwarded_path_names_subject(path_and_query: Seq<char>, subject: Seq<char>)
    requires
        is_plain(subject),
    ensures
        !path_and_query.contains('?') ==> outbound_path(
            Some(path_and_query),
            Some(query_fragment(subject)),
        ) == path_and_query + seq!['?', 'n', 'a', 'm', 'e', '='] + subject,
        path_and_query.contains('?') ==> outbound_path(
            Some(path_and_query),
            Some(query_fragment(subject)),
        ) == path_and_query + seq!['&', 'n', 'a', 'm', 'e', '='] + subject,
        path_and_query.is_prefix_of(
            outbound_path(Some(path_and_query), Some(query_fragment(subject))),
        ),
{
    lemma_plain_subject_fragment(subject);
    let name = seq!['n', 'a', 'm', 'e', '='];
    assert(path_and_query + seq!['?'] + (name + subject) =~= path_and_query + seq![
        '?',
        'n',
        'a',
        'm',
        'e',
        '=',
    ] + subject);
    assert(path_and_query + seq!['&'] + (name + subject) =~= path_and_query + seq![
        '&',
        'n',
        'a',
        'm',
        'e',
        '=',
    ] + subject);
}

} // verus!
