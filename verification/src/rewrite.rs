//! The URI rewriter: a request is pointed at the upstream, its path and
//! query kept and extended, everything else left alone.
//!
//! Whether a target is a valid URI is decided by the `http` crate's URI
//! builder, reached through `hyper`; how path, query and extra parameters
//! are merged is decided here.

use vstd::prelude::*;
use vstd::string::*;
use crate::text::{contains_char, slice_view, text_view};

verus! {

/// Where a request is addressed: the three parts of its URI, each absent
/// where the URI lacks it.
#[derive(Clone, Debug, PartialEq, Eq)]
pub struct Target {
    pub scheme: Option<String>,
    pub authority: Option<String>,
    pub path_and_query: Option<String>,
}

impl View for Target {
    type V = (Option<Seq<char>>, Option<Seq<char>>, Option<Seq<char>>);

    open spec fn view(&self) -> (Option<Seq<char>>, Option<Seq<char>>, Option<Seq<char>>) {
        (text_view(self.scheme), text_view(self.authority), text_view(self.path_and_query))
    }
}

/// A request held as plain values.
#[derive(Clone, Debug, PartialEq, Eq)]
pub struct Request {
    pub method: String,
    pub target: Target,
    pub headers: Vec<(String, String)>,
    pub body: Vec<u8>,
}

/// The target of a request could not be built as a URI.
#[derive(Clone, Copy, Debug, PartialEq, Eq, Structural)]
pub enum RewriteError {
    InvalidTarget,
}

/// `http::Error`, carried as it comes and never looked into.
#[verifier::external_type_specification]
#[verifier::external_body]
pub struct ExHttpError(hyper::http::Error);

/// The parts of the URI that `http::uri::Builder` builds from the scheme
/// `http`, `authority` and `path_and_query`, or `None` where it reports an
/// error.
pub uninterp spec fn built_target(authority: Seq<char>, path_and_query: Seq<char>) -> Option<
    (Option<Seq<char>>, Option<Seq<char>>, Option<Seq<char>>),
>;

/// The scheme of every rewritten request.
pub open spec fn upstream_scheme() -> Seq<char> {
    seq!['h', 't', 't', 'p']
}

/// Path and query with `extras` merged in: introduced by `?` where the
/// text holds none yet, appended with `&` where it does.
pub open spec fn merged(path_and_query: Seq<char>, extras: Seq<char>) -> Seq<char> {
    if path_and_query.contains('?') {
        path_and_query + seq!['&'] + extras
    } else {
        path_and_query + seq!['?'] + extras
    }
}

/// The path and query of the outbound request: that of the inbound one, or
/// `/` where it has none, with the extra parameters merged in where there
/// are any.
pub open spec fn outbound_path(path_and_query: Option<Seq<char>>, extras: Option<Seq<char>>) -> Seq<
    char,
> {
    let base = match path_and_query {
        Some(p) => p,
        None => seq!['/'],
    };
    match extras {
        Some(e) => merged(base, e),
        None => base,
    }
}

/// A path and query that a built URI holds letter for letter: it is not
/// empty, and no fragment is cut off it.
pub open spec fn kept_as_given(path_and_query: Seq<char>) -> bool {
    path_and_query.len() > 0 && !path_and_query.contains('#')
}

/// Runs `http::uri::Builder` (as `hyper::Uri::builder`) with the scheme
/// `http`, the given authority and the given path and query, and copies out
/// the three parts of the URI it builds. Trusted: the outcome is a function
/// of the two arguments; a URI that is built has the scheme `http` and the
/// authority as given, and keeps a non-empty path and query without `#` as
/// given.
#[verifier::external_body]
fn build_target(authority: &str, path_and_query: &str) -> (r: Result<Target, hyper::http::Error>)
    ensures
        match r {
            Ok(t) => {
                &&& built_target(authority@, path_and_query@) == Some(t@)
                &&& t@.0 == Some(upstream_scheme())
                &&& t@.1 == Some(authority@)
                &&& kept_as_given(path_and_query@) ==> t@.2 == Some(path_and_query@)
            },
            Err(_) => built_target(authority@, path_and_query@) is None,
        },
{
    let uri = hyper::Uri::builder().scheme("http").authority(authority).path_and_query(
        path_and_query,
    ).build()?;
    Ok(Target {
        scheme: uri.scheme_str().map(String::from),
        authority: uri.authority().map(|a| String::from(a.as_str())),
        path_and_query: uri.path_and_query().map(|p| String::from(p.as_str())),
    })
}

/// Merges `extras` into a path and query.
pub fn with_extras(path_and_query: &str, extras: &str) -> (r: String)
    ensures
        r@ == merged(path_and_query@, extras@),
{
    let mut out = String::from_str(path_and_query);
    proof {
        reveal_strlit("&");
        reveal_strlit("?");
        assert("&"@ =~= seq!['&']);
        assert("?"@ =~= seq!['?']);
    }
    if contains_char(path_and_query, '?') {
        out.append("&");
    } else {
        out.append("?");
    }
    out.append(extras);
    out
}

/// The path and query that the outbound request asks the builder for.
pub fn outbound_path_and_query(path_and_query: &Option<String>, extras: Option<&str>) -> (r: String)
    ensures
        r@ == outbound_path(text_view(*path_and_query), slice_view(extras)),
{
    proof {
        reveal_strlit("/");
        assert("/"@ =~= seq!['/']);
    }
    let base: &str = match path_and_query {
        Some(p) => p.as_str(),
        None => "/",
    };
    match extras {
        Some(e) => with_extras(base, e),
        None => String::from_str(base),
    }
}

/// Puts a built target in the place of a request's own; method, headers
/// and body stay.
pub fn retarget(req: Request, built: Option<Target>) -> (r: Result<Request, RewriteError>)
    ensures
        match built {
            Some(t) => r matches Ok(out) && out.target == t && out.method == req.method
                && out.headers == req.headers && out.body == req.body,
            None => r == Err::<Request, RewriteError>(RewriteError::InvalidTarget),
        },
{
    match built {
        Some(t) => Ok(Request { method: req.method, target: t, headers: req.headers, body: req.body }),
        None => Err(RewriteError::InvalidTarget),
    }
}

/// Points `req` at `replacement` over plain HTTP and merges
/// `extra_parameters` into its query. Succeeds exactly where the builder
/// accepts the target; method, headers and body are never touched.
pub fn replace_authority_and_add_extras(
    replacement: &str,
    extra_parameters: Option<&str>,
    req: Request,
) -> (r: Result<Request, RewriteError>)
    ensures
        match r {
            Ok(out) => {
                &&& built_target(
                    replacement@,
                    outbound_path(req.target@.2, slice_view(extra_parameters)),
                ) == Some(out.target@)
                &&& out.target@.0 == Some(upstream_scheme())
                &&& out.target@.1 == Some(replacement@)
                &&& kept_as_given(outbound_path(req.target@.2, slice_view(extra_parameters)))
                    ==> out.target@.2 == Some(
                    outbound_path(req.target@.2, slice_view(extra_parameters)),
                )
                &&& out.method == req.method
                &&& out.headers == req.headers
                &&& out.body == req.body
            },
            Err(e) => e == RewriteError::InvalidTarget && built_target(
                replacement@,
                outbound_path(req.target@.2, slice_view(extra_parameters)),
            ) is None,
        },
{
    let path_and_query = outbound_path_and_query(&req.target.path_and_query, extra_parameters);
    let built = match build_target(replacement, path_and_query.as_str()) {
        Ok(t) => Some(t),
        Err(_) => None,
    };
    retarget(req, built)
}

/// Without a query, the extras are introduced by `?`.
pub proof fn lemma_merge_without_query(path: Seq<char>, extras: Seq<char>)
    requires
        !path.contains('?'),
    ensures
        outbound_path(Some(path), Some(extras)) == path + seq!['?'] + extras,
{
}

/// With a query, the extras are appended with `&`, and what was there
/// stays in front, unaltered.
pub proof fn lemma_merge_with_query(path_and_query: Seq<char>, extras: Seq<char>)
    requires
        path_and_query.contains('?'),
    ensures
        outbound_path(Some(path_and_query), Some(extras)) == path_and_query + seq!['&'] + extras,
{
}

/// Merging never alters what was there: the inbound path and query is a
/// prefix of the outbound one.
pub proof fn lemma_merge_keeps_prefix(path_and_query: Seq<char>, extras: Option<Seq<char>>)
    ensures
        path_and_query.is_prefix_of(outbound_path(Some(path_and_query), extras)),
{
}

} // verus!
