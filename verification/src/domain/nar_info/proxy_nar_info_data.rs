//! A narinfo as the proxy serves it to Nix clients.
use vstd::prelude::*;

use crate::domain::nar_info::nar_file_name::NarFileName;
use crate::domain::nar_info::nar_info_data::self_url;
use crate::domain::nar_info::upstream_nar_info_data::{UpstreamNarInfoData, UpstreamNarInfoDataView};
use crate::domain::substituter::substituter_meta::SubstituterMeta;
use crate::domain::substituter::url::{
    as_dir_spec, join_spec, url_set_query, view_of_parts, Url, UrlView,
};
use crate::text::{append_vec, chars_of, copy_string, replace_url, replace_url_exec, string_of};

verus! {

pub struct ProxyNarInfoDataView {
    pub content: Seq<char>,
    pub nar_file: Seq<char>,
}

/// Where the nar file of an upstream narinfo is fetched from: the absolute
/// URL the narinfo gives, or else the file under the substituter's storage
/// URL; either way with the narinfo's query.
pub open spec fn nar_source_spec(up: UpstreamNarInfoDataView, storage_url: UrlView) -> Option<UrlView> {
    let base = match up.nar_source_url {
        Some(u) => Some(u),
        None => join_spec(as_dir_spec(storage_url), up.nar_file),
    };
    match base {
        Some(b) => Some(view_of_parts(url_set_query(b.value, up.query_params))),
        None => None,
    }
}

/// What `proxy_by_keep_url` gives: the narinfo unchanged, with the URL of
/// its nar file.
pub open spec fn keep_url_spec(up: UpstreamNarInfoDataView, storage_url: UrlView) -> (ProxyNarInfoDataView, UrlView) {
    (ProxyNarInfoDataView { content: up.content, nar_file: up.nar_file }, nar_source_spec(up, storage_url)->0)
}

/// What `proxy_by_rewrite_url_to_self` gives: the narinfo with its URL
/// field pointed at the proxy, with the URL of its nar file.
pub open spec fn rewrite_to_self_spec(up: UpstreamNarInfoDataView, storage_url: UrlView) -> (ProxyNarInfoDataView, UrlView) {
    (
        ProxyNarInfoDataView { content: replace_url(up.content, self_url(up.nar_file)), nar_file: up.nar_file },
        nar_source_spec(up, storage_url)->0,
    )
}

/// What `proxy_by_rewrite_url_to_upstream` gives: the narinfo with its URL
/// field pointed at the URL of its nar file, with that URL.
pub open spec fn rewrite_to_upstream_spec(up: UpstreamNarInfoDataView, storage_url: UrlView) -> (ProxyNarInfoDataView, UrlView) {
    let source = nar_source_spec(up, storage_url)->0;
    (ProxyNarInfoDataView { content: replace_url(up.content, source.value), nar_file: up.nar_file }, source)
}

/// The three ways of serving a narinfo agree on the URL of its nar file and
/// on the file it names; keeping leaves the content as it was, pointing at
/// the proxy sets its URL field to `nar/<file>`, and pointing upstream sets
/// it to the URL of the nar file.
pub proof fn law_proxies_agree(up: UpstreamNarInfoDataView, storage_url: UrlView)
    ensures
        keep_url_spec(up, storage_url).1 == rewrite_to_self_spec(up, storage_url).1,
        rewrite_to_self_spec(up, storage_url).1 == rewrite_to_upstream_spec(up, storage_url).1,
        keep_url_spec(up, storage_url).0.nar_file == up.nar_file,
        rewrite_to_self_spec(up, storage_url).0.nar_file == up.nar_file,
        rewrite_to_upstream_spec(up, storage_url).0.nar_file == up.nar_file,
        keep_url_spec(up, storage_url).0.content == up.content,
        rewrite_to_self_spec(up, storage_url).0.content == replace_url(up.content, self_url(up.nar_file)),
        rewrite_to_upstream_spec(up, storage_url).0.content == replace_url(
            up.content,
            keep_url_spec(up, storage_url).1.value,
        ),
{
}

/// A narinfo as served by the proxy, with the nar file it names.
#[derive(Debug, PartialEq, Eq, Hash)]
pub struct ProxyNarInfoData {
    content: String,
    nar_file: NarFileName,
}

impl View for ProxyNarInfoData {
    type V = ProxyNarInfoDataView;

    closed spec fn view(&self) -> ProxyNarInfoDataView {
        ProxyNarInfoDataView { content: self.content@, nar_file: self.nar_file@ }
    }
}

impl Clone for ProxyNarInfoData {
    fn clone(&self) -> (r: Self)
        ensures
            r@ == self@,
    {
        ProxyNarInfoData { content: copy_string(&self.content), nar_file: self.nar_file.clone() }
    }
}

impl ProxyNarInfoData {
    /// The narinfo unchanged, with the URL of its nar file.
    pub fn proxy_by_keep_url(upstream_data: &UpstreamNarInfoData, substituter: &SubstituterMeta) -> (r: (ProxyNarInfoData, Url))
        requires
            nar_source_spec(upstream_data@, substituter@.storage_url) is Some,
        ensures
            r.0@ == (ProxyNarInfoDataView {
                content: upstream_data@.content,
                nar_file: upstream_data@.nar_file,
            }),
            r.1@ == nar_source_spec(upstream_data@, substituter@.storage_url)->0,
            (r.0@, r.1@) == keep_url_spec(upstream_data@, substituter@.storage_url),
    {
        let proxy_data = ProxyNarInfoData {
            content: copy_string(upstream_data.content()),
            nar_file: upstream_data.nar_file().clone(),
        };
        let nar_source_url = ProxyNarInfoData::build_nar_source_url(upstream_data, substituter.storage_url());
        (proxy_data, nar_source_url)
    }

    /// The narinfo pointed at the proxy (`nar/<file>`), with the URL of its
    /// nar file.
    pub fn proxy_by_rewrite_url_to_self(upstream_data: &UpstreamNarInfoData, substituter: &SubstituterMeta) -> (r: (ProxyNarInfoData, Url))
        requires
            nar_source_spec(upstream_data@, substituter@.storage_url) is Some,
        ensures
            r.0@ == (ProxyNarInfoDataView {
                content: replace_url(upstream_data@.content, self_url(upstream_data@.nar_file)),
                nar_file: upstream_data@.nar_file,
            }),
            r.1@ == nar_source_spec(upstream_data@, substituter@.storage_url)->0,
            (r.0@, r.1@) == rewrite_to_self_spec(upstream_data@, substituter@.storage_url),
    {
        let mut new_url = vec!['n', 'a', 'r', '/'];
        append_vec(&mut new_url, &chars_of(upstream_data.nar_file().value()));
        assert(new_url@ =~= self_url(upstream_data@.nar_file));
        let proxy_data = ProxyNarInfoData {
            content: ProxyNarInfoData::replace_url(upstream_data.content(), &new_url),
            nar_file: upstream_data.nar_file().clone(),
        };
        let nar_source_url = ProxyNarInfoData::build_nar_source_url(upstream_data, substituter.storage_url());
        (proxy_data, nar_source_url)
    }

    /// The narinfo pointed at the nar file's URL upstream, with that URL.
    pub fn proxy_by_rewrite_url_to_upstream(upstream_data: &UpstreamNarInfoData, substituter: &SubstituterMeta) -> (r: (ProxyNarInfoData, Url))
        requires
            nar_source_spec(upstream_data@, substituter@.storage_url) is Some,
        ensures
            r.1@ == nar_source_spec(upstream_data@, substituter@.storage_url)->0,
            r.0@ == (ProxyNarInfoDataView {
                content: replace_url(upstream_data@.content, r.1@.value),
                nar_file: upstream_data@.nar_file,
            }),
            (r.0@, r.1@) == rewrite_to_upstream_spec(upstream_data@, substituter@.storage_url),
    {
        let nar_source_url = ProxyNarInfoData::build_nar_source_url(upstream_data, substituter.storage_url());
        let proxy_data = ProxyNarInfoData {
            content: ProxyNarInfoData::replace_url(upstream_data.content(), &chars_of(nar_source_url.value())),
            nar_file: upstream_data.nar_file().clone(),
        };
        (proxy_data, nar_source_url)
    }

    fn build_nar_source_url(upstream_data: &UpstreamNarInfoData, storage_url: &Url) -> (r: Url)
        requires
            nar_source_spec(upstream_data@, storage_url@) is Some,
        ensures
            r@ == nar_source_spec(upstream_data@, storage_url@)->0,
    {
        let base = match upstream_data.nar_source_url() {
            Some(u) => u.clone(),
            None => upstream_data.nar_file().with_storage_prefix(storage_url),
        };
        base.with_query_params(upstream_data.query_params())
    }

    fn replace_url(content: &String, new_url: &Vec<char>) -> (r: String)
        ensures
            r@ == replace_url(content@, new_url@),
    {
        string_of(&replace_url_exec(&chars_of(content.as_str()), new_url))
    }

    /// A served narinfo with `content`, naming `nar_file`, as one was kept.
    pub fn from_parts(content: String, nar_file: NarFileName) -> (r: ProxyNarInfoData)
        ensures
            r@ == (ProxyNarInfoDataView { content: content@, nar_file: nar_file@ }),
    {
        ProxyNarInfoData { content, nar_file }
    }

    pub fn content(&self) -> (r: &String)
        ensures
            r@ == self@.content,
    {
        &self.content
    }

    pub fn nar_file(&self) -> (r: &NarFileName)
        ensures
            r@ == self@.nar_file,
    {
        &self.nar_file
    }
}

} // verus!
