//! Absolute URLs of substituters and of the files they serve.
use vstd::prelude::*;

use crate::text::{chars_of, copy_opt_string, copy_string, eq_exec, opt_view, string_of, through_last, through_last_exec};

verus! {

#[verifier::external_type_specification]
#[verifier::external_body]
pub struct ExUrlParseError(url::ParseError);

/// What `url::Url::parse` makes of a text, as plain values: the
/// serialization, the scheme, whether there is a host, the path and the
/// query; `None` where it refuses the text.
pub uninterp spec fn url_parse(input: Seq<char>) -> Option<(Seq<char>, Seq<char>, bool, Seq<char>, Option<Seq<char>>)>;

/// What `url::Url::join` makes of `input` relative to the URL serialized as
/// `base`: serialization, path and query; `None` where it refuses.
pub uninterp spec fn url_join(base: Seq<char>, input: Seq<char>) -> Option<(Seq<char>, Seq<char>, Option<Seq<char>>)>;

/// The URL serialized as `base` after `url::Url::set_query(query)`:
/// serialization, path and query.
pub uninterp spec fn url_set_query(base: Seq<char>, query: Option<Seq<char>>) -> (Seq<char>, Seq<char>, Option<Seq<char>>);

/// The URL serialized as `base` after `url::Url::set_path(path)`:
/// serialization, path and query.
pub uninterp spec fn url_set_path(base: Seq<char>, path: Seq<char>) -> (Seq<char>, Seq<char>, Option<Seq<char>>);

/// The path of the URL that `url::Url::parse` makes of `input`.
pub open spec fn path_of_parsed(input: Seq<char>) -> Seq<char> {
    let parsed = url_parse(input)->0;
    parsed.3
}

/// The view of an optional string slice.
pub open spec fn opt_str_view(o: Option<&str>) -> Option<Seq<char>> {
    match o {
        Some(s) => Some(s@),
        None => None,
    }
}

/// Calls `url::Url::parse` and reads the parsed URL's serialization
/// (`as_str`), `scheme`, whether `host_str` is present, `path` and `query`.
/// The contract claims that the outcome is a function of the text alone,
/// named `url_parse`, and that the serialization of a parsed URL parses
/// again to the same path. That is the invariant the `url` crate states of
/// every URL in `check_invariants` (parsing the serialization again keeps
/// serialization, path start and query start); the crate runs that check in
/// its own tests and on deserialization, not on every call.
#[verifier::external_body]
fn parse_url(input: &str) -> (r: Result<(String, String, bool, String, Option<String>), url::ParseError>)
    ensures
        r is Ok <==> url_parse(input@) is Some,
        r matches Ok(p) ==> url_parse(input@) == Some((p.0@, p.1@, p.2, p.3@, opt_view(p.4))),
        r matches Ok(p) ==> url_parse(p.0@) is Some,
        r matches Ok(p) ==> path_of_parsed(p.0@) == p.3@,
{
    url::Url::parse(input).map(
        |u| (u.as_str().to_string(), u.scheme().to_string(), u.host_str().is_some(), u.path().to_string(), u.query().map(|q| q.to_string())),
    )
}

/// Calls `url::Url::join` on the URL serialized as `base` (read back with
/// `url::Url::parse`) and reads the result's serialization, path and query.
/// The contract claims that the outcome is a function of the two texts alone,
/// named `url_join`; the parse of `base` is not stated to succeed, and where
/// it fails the result is `Err`, which `url_join` then names `None`. The
/// serialization of the joined URL parses again to the same path (the
/// invariant of `check_invariants`, as for `parse_url`).
#[verifier::external_body]
fn join_url(base: &str, input: &str) -> (r: Result<(String, String, Option<String>), url::ParseError>)
    ensures
        r is Ok <==> url_join(base@, input@) is Some,
        r matches Ok(p) ==> url_join(base@, input@) == Some((p.0@, p.1@, opt_view(p.2))),
        r matches Ok(p) ==> url_parse(p.0@) is Some,
        r matches Ok(p) ==> path_of_parsed(p.0@) == p.1@,
{
    url::Url::parse(base).and_then(|b| b.join(input)).map(
        |u| (u.as_str().to_string(), u.path().to_string(), u.query().map(|q| q.to_string())),
    )
}

/// Calls `url::Url::set_query` on the URL serialized as `base`, read back
/// with `url::Url::parse`, and reads serialization, path and query. The
/// contract names the outcome `url_set_query` and states, as the source of
/// `set_query` shows, that clearing the query leaves none, that setting one
/// leaves a query and the path of `base` as it was (only what follows the
/// path is rewritten), and that the new serialization parses again to the
/// same path (the invariant of `check_invariants`). What the new query reads
/// is not stated: the crate percent-encodes it.
#[verifier::external_body]
fn set_url_query(base: &str, query: Option<&str>) -> (r: (String, String, Option<String>))
    requires
        url_parse(base@) is Some,
    ensures
        url_set_query(base@, opt_str_view(query)) == (r.0@, r.1@, opt_view(r.2)),
        query is None ==> r.2 is None,
        query is Some ==> r.2 is Some && r.1@ == path_of_parsed(base@),
        url_parse(r.0@) is Some,
        path_of_parsed(r.0@) == r.1@,
{
    let mut u = url::Url::parse(base).expect("a serialized URL parses again");
    u.set_query(query);
    (u.as_str().to_string(), u.path().to_string(), u.query().map(|q| q.to_string()))
}

/// Calls `url::Url::set_path` on the URL serialized as `base`, read back with
/// `url::Url::parse`, and reads serialization, path and query. The contract
/// names the outcome `url_set_path` and states of it only that the new
/// serialization parses again to the same path (the invariant of
/// `check_invariants`).
#[verifier::external_body]
fn set_url_path(base: &str, path: &str) -> (r: (String, String, Option<String>))
    requires
        url_parse(base@) is Some,
    ensures
        url_set_path(base@, path@) == (r.0@, r.1@, opt_view(r.2)),
        url_parse(r.0@) is Some,
        path_of_parsed(r.0@) == r.1@,
{
    let mut u = url::Url::parse(base).expect("a serialized URL parses again");
    u.set_path(path);
    (u.as_str().to_string(), u.path().to_string(), u.query().map(|q| q.to_string()))
}

/// The plain parts of a URL that this crate reads.
pub struct UrlView {
    pub value: Seq<char>,
    pub path: Seq<char>,
    pub query: Option<Seq<char>>,
}

/// An absolute URL, held as its serialization together with its path and
/// query as the `url` crate reports them.
#[derive(Debug, PartialEq, Eq, PartialOrd, Ord, Hash)]
pub struct Url {
    value: String,
    path: String,
    query: Option<String>,
}

impl Url {
    /// A URL holds a serialization that the `url` crate parses, and the
    /// path that parsing it gives.
    #[verifier::type_invariant]
    closed spec fn parses(self) -> bool {
        url_parse(self.value@) is Some && path_of_parsed(self.value@) == self.path@
    }
}

impl View for Url {
    type V = UrlView;

    closed spec fn view(&self) -> UrlView {
        UrlView { value: self.value@, path: self.path@, query: opt_view(self.query) }
    }
}

impl Clone for Url {
    fn clone(&self) -> (r: Self)
        ensures
            r@ == self@,
    {
        self.duplicate()
    }
}

/// What `Url::as_dir` gives: a slash appended to a non-empty path that does
/// not end in one.
pub open spec fn as_dir_spec(u: UrlView) -> UrlView {
    if u.path.len() > 0 && u.path.last() != '/' {
        view_of_parts(url_set_path(u.value, u.path.push('/')))
    } else {
        u
    }
}

/// What `Url::join` gives for a relative reference, as a view.
pub open spec fn join_spec(u: UrlView, rel: Seq<char>) -> Option<UrlView> {
    match url_join(u.value, rel) {
        Some(p) => Some(view_of_parts(p)),
        None => None,
    }
}

/// The view of the URL that parts from the `url` crate describe.
pub open spec fn view_of_parts(p: (Seq<char>, Seq<char>, Option<Seq<char>>)) -> UrlView {
    UrlView { value: p.0, path: p.1, query: p.2 }
}

pub open spec fn http_scheme() -> Seq<char> {
    seq!['h', 't', 't', 'p']
}

pub open spec fn https_scheme() -> Seq<char> {
    seq!['h', 't', 't', 'p', 's']
}

/// What `Url::new` gives for a text.
pub open spec fn url_new_spec(input: Seq<char>) -> Result<UrlView, UrlErrorView> {
    match url_parse(input) {
        None => Err(UrlErrorView::Invalid),
        Some((value, scheme, has_host, path, query)) => {
            if scheme != http_scheme() && scheme != https_scheme() {
                Err(UrlErrorView::UnsupportedScheme(scheme))
            } else if !has_host {
                Err(UrlErrorView::NoHost)
            } else {
                Ok(UrlView { value, path, query })
            }
        },
    }
}

/// The kind of refusal of a URL, with the scheme that was not accepted.
pub enum UrlErrorView {
    NoHost,
    UnsupportedScheme(Seq<char>),
    Invalid,
}

/// Why a text is not accepted as a substituter URL.
#[derive(Debug, PartialEq, Eq)]
pub enum TryNewUrlError {
    NoHost,
    UnsupportedScheme { scheme: String },
    Invalid { source: url::ParseError },
}

impl TryNewUrlError {
    pub open spec fn view_kind(&self) -> UrlErrorView {
        match self {
            TryNewUrlError::NoHost => UrlErrorView::NoHost,
            TryNewUrlError::UnsupportedScheme { scheme } => UrlErrorView::UnsupportedScheme(scheme@),
            TryNewUrlError::Invalid { .. } => UrlErrorView::Invalid,
        }
    }

    /// The message of the error.
    pub fn message(&self) -> (r: String)
        ensures
            r@ == match self {
                TryNewUrlError::NoHost => "URL should have a host"@,
                TryNewUrlError::UnsupportedScheme { scheme } => "URL scheme `"@ + scheme@
                    + "` is not one of `http` or `https`"@,
                TryNewUrlError::Invalid { .. } => "could not build invalid URL"@,
            },
    {
        match self {
            TryNewUrlError::NoHost => String::from_str("URL should have a host"),
            TryNewUrlError::UnsupportedScheme { scheme } => {
                let mut m = String::from_str("URL scheme `");
                m.append(scheme.as_str());
                m.append("` is not one of `http` or `https`");
                m
            },
            TryNewUrlError::Invalid { .. } => String::from_str("could not build invalid URL"),
        }
    }
}

impl Url {
    /// Parses an absolute `http` or `https` URL that has a host.
    pub fn new(value: &str) -> (r: Result<Url, TryNewUrlError>)
        ensures
            match (r, url_new_spec(value@)) {
                (Ok(u), Ok(v)) => u@ == v,
                (Err(e), Err(k)) => e.view_kind() == k,
                _ => false,
            },
    {
        match parse_url(value) {
            Err(source) => Err(TryNewUrlError::Invalid { source }),
            Ok((serialized, scheme, has_host, path, query)) => {
                let sch = chars_of(scheme.as_str());
                let http = vec!['h', 't', 't', 'p'];
                let https = vec!['h', 't', 't', 'p', 's'];
                assert(http@ =~= http_scheme());
                assert(https@ =~= https_scheme());
                if !eq_exec(&sch, &http) && !eq_exec(&sch, &https) {
                    Err(TryNewUrlError::UnsupportedScheme { scheme })
                } else if !has_host {
                    Err(TryNewUrlError::NoHost)
                } else {
                    Ok(Url { value: serialized, path, query })
                }
            },
        }
    }

    /// Whether two URLs are the same: their serializations agree, as the
    /// `url` crate's own equality has it.
    pub fn is_same(&self, other: &Url) -> (r: bool)
        ensures
            r == (self@.value == other@.value),
    {
        let a = chars_of(self.value.as_str());
        let b = chars_of(other.value.as_str());
        eq_exec(&a, &b)
    }

    /// A copy of this URL.
    pub fn duplicate(&self) -> (r: Url)
        ensures
            r@ == self@,
    {
        proof {
            use_type_invariant(self);
        }
        Url {
            value: copy_string(&self.value),
            path: copy_string(&self.path),
            query: copy_opt_string(&self.query),
        }
    }

    /// This URL with its query set to `query_params` (removed for `None`).
    pub fn with_query_params(self, query_params: Option<&str>) -> (r: Url)
        ensures
            r@ == view_of_parts(url_set_query(self@.value, opt_str_view(query_params))),
            query_params is None ==> r@.query is None,
            query_params is Some ==> r@.query is Some && r@.path == self@.path,
    {
        proof {
            use_type_invariant(&self);
        }
        let (value, path, query) = set_url_query(self.value.as_str(), query_params);
        Url { value, path, query }
    }

    /// The serialization of this URL.
    pub fn value(&self) -> (r: &str)
        ensures
            r@ == self@.value,
    {
        self.value.as_str()
    }

    /// The path of this URL.
    pub fn path(&self) -> (r: &str)
        ensures
            r@ == self@.path,
    {
        self.path.as_str()
    }

    /// The query of this URL.
    pub fn query(&self) -> (r: Option<&str>)
        ensures
            opt_str_view(r) == self@.query,
    {
        match &self.query {
            Some(q) => Some(q.as_str()),
            None => None,
        }
    }

    /// The URL that `path` refers to relative to this one.
    pub fn join(&self, path: &str) -> (r: Result<Url, TryNewUrlError>)
        ensures
            match join_spec(self@, path@) {
                Some(v) => r matches Ok(u) && u@ == v,
                None => r matches Err(e) && e.view_kind() == UrlErrorView::Invalid,
            },
    {
        match join_url(self.value.as_str(), path) {
            Ok((value, path, query)) => Ok(Url { value, path, query }),
            Err(source) => Err(TryNewUrlError::Invalid { source }),
        }
    }

    /// This URL as a directory: a slash is appended to a non-empty path that
    /// does not already end in one.
    pub fn as_dir(&self) -> (r: Url)
        ensures
            r@ == as_dir_spec(self@),
    {
        proof {
            use_type_invariant(self);
        }
        let path = chars_of(self.path.as_str());
        if path.len() > 0 && path[path.len() - 1] != '/' {
            let mut dir = path;
            dir.push('/');
            let dir = string_of(&dir);
            let (value, path, query) = set_url_path(self.value.as_str(), dir.as_str());
            Url { value, path, query }
        } else {
            self.duplicate()
        }
    }

    /// The directory of this URL: the text up to and including its last
    /// slash, parsed again; `None` where that text is not a valid URL.
    pub fn try_get_dir(&self) -> (r: Option<Url>)
        ensures
            match url_new_spec(through_last(self@.value, '/')) {
                Ok(v) => r matches Some(u) && u@ == v,
                Err(_) => r is None,
            },
    {
        let value = chars_of(self.value.as_str());
        let dir = string_of(&through_last_exec(&value, '/'));
        match Url::new(dir.as_str()) {
            Ok(_) => Some(self.get_dir()),
            Err(_) => None,
        }
    }

    /// The directory of this URL: the text up to and including its last
    /// slash, parsed again.
    pub fn get_dir(&self) -> (r: Url)
        requires
            url_new_spec(through_last(self@.value, '/')) is Ok,
        ensures
            url_new_spec(through_last(self@.value, '/')) == Ok::<UrlView, UrlErrorView>(r@),
    {
        let value = chars_of(self.value.as_str());
        let dir = string_of(&through_last_exec(&value, '/'));
        match Url::new(dir.as_str()) {
            Ok(u) => u,
            Err(_) => {
                assert(false);
                self.duplicate()
            },
        }
    }
}

} // verus!
