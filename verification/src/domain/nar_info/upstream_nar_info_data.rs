//! A narinfo as a substituter serves it.
use vstd::prelude::*;

use crate::domain::nar_info::nar_file_name::{nar_file_name_check, NarFileName, TryNewNarFileNameError};
use crate::domain::nar_info::narinfo_text::{
    absolute_source, begins_with_web_scheme, last_path_segment, law_absolute_source_by_scheme_prefix,
    looks_absolute, looks_absolute_exec, relative_file_name, relative_query,
};
use crate::domain::substituter::url::{url_new_spec, Url, UrlView};
use crate::text::{
    after_first_exec, after_last_exec, before_first_exec, chars_of, copy_opt_string,
    copy_string, has_prefix, opt_view, raw_url, raw_url_exec, string_of,
};

verus! {

/// Why a text is not accepted as a narinfo.
#[derive(Debug, Clone, Copy, PartialEq, Eq)]
pub enum TryUpstreamNewNarInfoData {
    NoUrlField,
    InvalidNarFileName { source: TryNewNarFileNameError },
}

pub struct UpstreamNarInfoDataView {
    pub content: Seq<char>,
    pub nar_file: Seq<char>,
    pub nar_source_url: Option<UrlView>,
    pub query_params: Option<Seq<char>>,
}

pub open spec fn opt_url_view(o: Option<Url>) -> Option<UrlView> {
    match o {
        Some(u) => Some(u@),
        None => None,
    }
}

/// What `UpstreamNarInfoData::new` makes of a narinfo text: the URL field
/// names the nar file, absolutely (an `http` or `https` URL that is accepted,
/// whose last path segment is the file name) or relatively (the file name is
/// its last segment without the query).
pub open spec fn upstream_spec(content: Seq<char>) -> Result<UpstreamNarInfoDataView, TryUpstreamNewNarInfoData> {
    match raw_url(content) {
        None => Err(TryUpstreamNewNarInfoData::NoUrlField),
        Some(raw) => match absolute_source(raw) {
            Some(u) => {
                let name = last_path_segment(u.path);
                match nar_file_name_check(name) {
                    Err(k) => Err(TryUpstreamNewNarInfoData::InvalidNarFileName { source: k }),
                    Ok(()) => Ok(
                        UpstreamNarInfoDataView {
                            content,
                            nar_file: name,
                            nar_source_url: Some(u),
                            query_params: u.query,
                        },
                    ),
                }
            },
            None => {
                let name = relative_file_name(raw);
                match nar_file_name_check(name) {
                    Err(k) => Err(TryUpstreamNewNarInfoData::InvalidNarFileName { source: k }),
                    Ok(()) => Ok(
                        UpstreamNarInfoDataView {
                            content,
                            nar_file: name,
                            nar_source_url: None,
                            query_params: relative_query(raw),
                        },
                    ),
                }
            },
        },
    }
}

/// A narinfo whose URL field begins with `http://` or `https://` and is an
/// accepted substituter URL names that URL as the source of its nar file,
/// with the URL's query; one whose URL field begins with neither names no
/// source, the file after the last `/` before any `?`, and the query after
/// the first `?`.
pub proof fn law_upstream_source_by_scheme_prefix(content: Seq<char>)
    requires
        upstream_spec(content) is Ok,
    ensures
        ({
            let raw = raw_url(content)->0;
            let up = upstream_spec(content)->Ok_0;
            &&& (begins_with_web_scheme(raw) && url_new_spec(raw) is Ok) ==> up.nar_source_url == Some(
                url_new_spec(raw)->Ok_0,
            ) && up.query_params == url_new_spec(raw)->Ok_0.query
            &&& !begins_with_web_scheme(raw) ==> up.nar_source_url is None && up.query_params
                == relative_query(raw) && up.nar_file == relative_file_name(raw)
        }),
{
    law_absolute_source_by_scheme_prefix(raw_url(content)->0);
}

/// A narinfo as a substituter serves it, with the nar file it names and,
/// where the URL field is absolute, the URL of that nar file.
#[derive(Debug, PartialEq, Eq, Hash)]
pub struct UpstreamNarInfoData {
    content: String,
    nar_file: NarFileName,
    nar_source_url: Option<Url>,
    query_params: Option<String>,
}

impl View for UpstreamNarInfoData {
    type V = UpstreamNarInfoDataView;

    closed spec fn view(&self) -> UpstreamNarInfoDataView {
        UpstreamNarInfoDataView {
            content: self.content@,
            nar_file: self.nar_file@,
            nar_source_url: opt_url_view(self.nar_source_url),
            query_params: opt_view(self.query_params),
        }
    }
}

pub fn copy_opt_url(o: &Option<Url>) -> (r: Option<Url>)
    ensures
        opt_url_view(r) == opt_url_view(*o),
{
    match o {
        Some(u) => Some(u.clone()),
        None => None,
    }
}

impl Clone for UpstreamNarInfoData {
    fn clone(&self) -> (r: Self)
        ensures
            r@ == self@,
    {
        UpstreamNarInfoData {
            content: copy_string(&self.content),
            nar_file: self.nar_file.clone(),
            nar_source_url: copy_opt_url(&self.nar_source_url),
            query_params: copy_opt_string(&self.query_params),
        }
    }
}

impl UpstreamNarInfoData {
    /// Reads the nar file that a narinfo text names.
    pub fn new(content: String) -> (r: Result<UpstreamNarInfoData, TryUpstreamNewNarInfoData>)
        ensures
            match (r, upstream_spec(content@)) {
                (Ok(d), Ok(v)) => d@ == v,
                (Err(e), Err(k)) => e == k,
                _ => false,
            },
    {
        let text = chars_of(content.as_str());
        let raw = match raw_url_exec(&text) {
            Some(raw) => raw,
            None => return Err(TryUpstreamNewNarInfoData::NoUrlField),
        };
        let raw_str = string_of(&raw);
        let absolute = if looks_absolute_exec(&raw) {
            match Url::new(raw_str.as_str()) {
                Ok(u) => Some(u),
                Err(_) => None,
            }
        } else {
            None
        };
        match absolute {
            Some(nar_source_url) => {
                let path = chars_of(nar_source_url.path());
                let name = if path.len() > 0 && path[0] == '/' {
                    after_last_exec(&path, '/')
                } else {
                    Vec::new()
                };
                assert(has_prefix(path@, seq!['/']) == (path@.len() > 0 && path@[0] == '/')) by {
                    if path@.len() > 0 && path@[0] == '/' {
                        assert(path@.subrange(0, 1) =~= seq!['/']);
                    }
                    if has_prefix(path@, seq!['/']) {
                        assert(path@.subrange(0, 1)[0] == seq!['/'][0]);
                    }
                }
                assert(name@ =~= last_path_segment(path@));
                let nar_file = match NarFileName::new(string_of(&name)) {
                    Ok(n) => n,
                    Err(source) => return Err(TryUpstreamNewNarInfoData::InvalidNarFileName { source }),
                };
                let query_params = match nar_source_url.query() {
                    Some(q) => Some(q.to_owned()),
                    None => None,
                };
                Ok(UpstreamNarInfoData { content, nar_file, nar_source_url: Some(nar_source_url), query_params })
            },
            None => {
                let nar_path = before_first_exec(&raw, '?');
                let name = after_last_exec(&nar_path, '/');
                let nar_file = match NarFileName::new(string_of(&name)) {
                    Ok(n) => n,
                    Err(source) => return Err(TryUpstreamNewNarInfoData::InvalidNarFileName { source }),
                };
                let query_params = match after_first_exec(&raw, '?') {
                    Some(q) => Some(string_of(&q)),
                    None => None,
                };
                Ok(UpstreamNarInfoData { content, nar_file, nar_source_url: None, query_params })
            },
        }
    }

    pub fn content(&self) -> (r: &String)
        ensures
            r@ == self@.content,
    {
        &self.content
    }

    pub fn nar_file(&self) -> (r: &NarFileName)
        ensures
            r@ == self@.nar_file,
    {
        &self.nar_file
    }

    /// The URL of the nar file, where the narinfo gives it absolutely.
    pub fn nar_source_url(&self) -> (r: Option<&Url>)
        ensures
            match (r, self@.nar_source_url) {
                (Some(u), Some(v)) => u@ == v,
                (None, None) => true,
                _ => false,
            },
    {
        match &self.nar_source_url {
            Some(u) => Some(u),
            None => None,
        }
    }

    /// The query of the nar file's URL as the narinfo gives it.
    pub fn query_params(&self) -> (r: Option<&str>)
        ensures
            crate::domain::substituter::url::opt_str_view(r) == self@.query_params,
    {
        match &self.query_params {
            Some(q) => Some(q.as_str()),
            None => None,
        }
    }
}

} // verus!
