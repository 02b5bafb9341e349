//! Reading the nar file reference out of a narinfo text.
use vstd::prelude::*;

use crate::domain::substituter::url::{url_new_spec, UrlView};
use crate::text::{
    after_first, after_last, before_first, has_char, has_prefix, has_prefix_exec, lines,
    raw_url,
};

verus! {

pub open spec fn http_prefix() -> Seq<char> {
    seq!['h', 't', 't', 'p', ':', '/', '/']
}

pub open spec fn https_prefix() -> Seq<char> {
    seq!['h', 't', 't', 'p', 's', ':', '/', '/']
}

/// The URL value starts like an absolute `http` or `https` URL.
pub open spec fn looks_absolute(raw: Seq<char>) -> bool {
    has_prefix(raw, http_prefix()) || has_prefix(raw, https_prefix())
}

/// Whether `raw` starts like an absolute `http` or `https` URL.
pub fn looks_absolute_exec(raw: &Vec<char>) -> (r: bool)
    ensures
        r == looks_absolute(raw@),
{
    let http = vec!['h', 't', 't', 'p', ':', '/', '/'];
    let https = vec!['h', 't', 't', 'p', 's', ':', '/', '/'];
    assert(http@ =~= http_prefix());
    assert(https@ =~= https_prefix());
    has_prefix_exec(raw, &http) || has_prefix_exec(raw, &https)
}

/// The URL that an absolute URL value names, when it is an accepted
/// substituter URL.
pub open spec fn absolute_source(raw: Seq<char>) -> Option<UrlView> {
    if looks_absolute(raw) {
        match url_new_spec(raw) {
            Ok(u) => Some(u),
            Err(_) => None,
        }
    } else {
        None
    }
}

/// `raw` begins with the literal text `http://` or `https://`.
pub open spec fn begins_with_web_scheme(raw: Seq<char>) -> bool {
    (raw.len() >= 7 && raw.subrange(0, 7) =~= seq!['h', 't', 't', 'p', ':', '/', '/']) || (raw.len() >= 8
        && raw.subrange(0, 8) =~= seq!['h', 't', 't', 'p', 's', ':', '/', '/'])
}

/// A URL value that begins with `http://` or with `https://` is taken as an
/// absolute URL, the nar source, wherever it is an accepted substituter URL;
/// a value that begins with neither is never taken as absolute.
pub proof fn law_absolute_source_by_scheme_prefix(raw: Seq<char>)
    ensures
        begins_with_web_scheme(raw) ==> absolute_source(raw) == match url_new_spec(raw) {
            Ok(u) => Some(u),
            Err(_) => None::<UrlView>,
        },
        !begins_with_web_scheme(raw) ==> absolute_source(raw) is None,
{
    assert(http_prefix().len() == 7);
    assert(https_prefix().len() == 8);
}

/// The last segment of a URL path, as `url::Url::path_segments` and
/// `next_back` give it; empty when the path does not start with a slash.
pub open spec fn last_path_segment(path: Seq<char>) -> Seq<char> {
    if has_prefix(path, seq!['/']) {
        after_last(path, '/')
    } else {
        seq![]
    }
}

/// The nar file name in a relative URL value: its last path segment, without
/// the query.
pub open spec fn relative_file_name(raw: Seq<char>) -> Seq<char> {
    after_last(before_first(raw, '?'), '/')
}

/// The query of a relative URL value: what follows its first `?`.
pub open spec fn relative_query(raw: Seq<char>) -> Option<Seq<char>> {
    after_first(raw, '?')
}

pub proof fn lemma_subrange_keeps_absence(s: Seq<char>, lo: int, hi: int, c: char)
    requires
        0 <= lo <= hi <= s.len(),
        !has_char(s, c),
    ensures
        !has_char(s.subrange(lo, hi), c),
{
    if has_char(s.subrange(lo, hi), c) {
        let i = choose|i: int| 0 <= i < hi - lo && s.subrange(lo, hi)[i] == c;
        assert(s[lo + i] == c);
    }
}

} // verus!
