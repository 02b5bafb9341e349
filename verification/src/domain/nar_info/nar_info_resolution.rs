//! The outcome of resolving a store path hash against the substituters.
use vstd::prelude::*;

use crate::domain::nar_info::nar_info_data::self_url;
use crate::domain::nar_info::proxy_nar_info_data::{
    keep_url_spec, nar_source_spec, rewrite_to_self_spec, rewrite_to_upstream_spec, ProxyNarInfoData,
    ProxyNarInfoDataView,
};
use crate::domain::nar_info::upstream_nar_info_data::{UpstreamNarInfoData, UpstreamNarInfoDataView};
use crate::domain::substituter::substituter_meta::{SubstituterMeta, SubstituterMetaView};
use crate::domain::substituter::url::{Url, UrlView};
use crate::text::replace_url;

verus! {

/// How the URL field of a narinfo is served to clients.
#[derive(Debug, Clone, Copy, PartialEq, Eq, Hash)]
pub enum NarUrlRewriteOption {
    /// As the substituter gave it.
    Keep,
    /// Pointed at the proxy.
    ToSelf,
    /// Pointed at the nar file's URL upstream.
    ToUpstream,
}

pub enum NarInfoResolutionView {
    Resolved { nar_info: ProxyNarInfoDataView, substituter: SubstituterMetaView, source_url: UrlView },
    NotFound,
}

/// The narinfo served for an upstream narinfo under a rewrite option.
pub open spec fn proxy_content_spec(up: UpstreamNarInfoDataView, source: UrlView, option: NarUrlRewriteOption) -> Seq<char> {
    match option {
        NarUrlRewriteOption::Keep => up.content,
        NarUrlRewriteOption::ToSelf => replace_url(up.content, self_url(up.nar_file)),
        NarUrlRewriteOption::ToUpstream => replace_url(up.content, source.value),
    }
}

/// The nar source of a successful query can be formed.
pub open spec fn outcome_resolvable(outcome: Option<(UpstreamNarInfoDataView, SubstituterMetaView)>) -> bool {
    match outcome {
        Some((up, meta)) => nar_source_spec(up, meta.storage_url) is Some,
        None => true,
    }
}

/// What `NarInfoResolution::from_completed_query` makes of a query's outcome.
pub open spec fn resolution_spec(outcome: Option<(UpstreamNarInfoDataView, SubstituterMetaView)>, option: NarUrlRewriteOption) -> NarInfoResolutionView {
    match outcome {
        Some((up, meta)) => {
            let source = nar_source_spec(up, meta.storage_url)->0;
            NarInfoResolutionView::Resolved {
                nar_info: ProxyNarInfoDataView { content: proxy_content_spec(up, source, option), nar_file: up.nar_file },
                substituter: meta,
                source_url: source,
            }
        },
        None => NarInfoResolutionView::NotFound,
    }
}

/// What the proxy function that `option` picks gives for `up` under
/// `storage_url`.
pub open spec fn proxy_spec(up: UpstreamNarInfoDataView, storage_url: UrlView, option: NarUrlRewriteOption) -> (ProxyNarInfoDataView, UrlView) {
    match option {
        NarUrlRewriteOption::Keep => keep_url_spec(up, storage_url),
        NarUrlRewriteOption::ToSelf => rewrite_to_self_spec(up, storage_url),
        NarUrlRewriteOption::ToUpstream => rewrite_to_upstream_spec(up, storage_url),
    }
}

/// The outcome of a query resolves to what the proxy function that the
/// rewrite option picks gives, with the substituter it came from; no
/// outcome resolves to none found, whatever the option.
pub proof fn law_resolution_is_chosen_proxy(
    up: UpstreamNarInfoDataView,
    meta: SubstituterMetaView,
    option: NarUrlRewriteOption,
)
    ensures
        resolution_spec(Some((up, meta)), option) == (NarInfoResolutionView::Resolved {
            nar_info: proxy_spec(up, meta.storage_url, option).0,
            substituter: meta,
            source_url: proxy_spec(up, meta.storage_url, option).1,
        }),
        resolution_spec(None, option) == NarInfoResolutionView::NotFound,
{
}

pub open spec fn outcome_view(o: Option<(UpstreamNarInfoData, SubstituterMeta)>) -> Option<(UpstreamNarInfoDataView, SubstituterMetaView)> {
    match o {
        Some((up, meta)) => Some((up@, meta@)),
        None => None,
    }
}

/// A narinfo found, with the substituter it came from and the URL of its
/// nar file; or none found.
#[derive(Debug, PartialEq, Eq, Hash)]
pub enum NarInfoResolution {
    Resolved { nar_info: ProxyNarInfoData, substituter: SubstituterMeta, source_url: Url },
    NotFound,
}

impl View for NarInfoResolution {
    type V = NarInfoResolutionView;

    open spec fn view(&self) -> NarInfoResolutionView {
        match self {
            NarInfoResolution::Resolved { nar_info, substituter, source_url } => NarInfoResolutionView::Resolved {
                nar_info: nar_info@,
                substituter: substituter@,
                source_url: source_url@,
            },
            NarInfoResolution::NotFound => NarInfoResolutionView::NotFound,
        }
    }
}

impl Clone for NarInfoResolution {
    fn clone(&self) -> (r: Self)
        ensures
            r@ == self@,
    {
        match self {
            NarInfoResolution::Resolved { nar_info, substituter, source_url } => NarInfoResolution::Resolved {
                nar_info: nar_info.clone(),
                substituter: substituter.clone(),
                source_url: source_url.clone(),
            },
            NarInfoResolution::NotFound => NarInfoResolution::NotFound,
        }
    }
}

impl NarInfoResolution {
    /// The resolution for the outcome of a query: the narinfo of the chosen
    /// substituter, served as `rewrite_nar_url` says, or none found.
    pub fn from_completed_query(
        successful_outcome: Option<(UpstreamNarInfoData, SubstituterMeta)>,
        rewrite_nar_url: NarUrlRewriteOption,
    ) -> (r: NarInfoResolution)
        requires
            outcome_resolvable(outcome_view(successful_outcome)),
        ensures
            r@ == resolution_spec(outcome_view(successful_outcome), rewrite_nar_url),
    {
        match successful_outcome {
            Some((nar_info, substituter)) => {
                let (nar_info, source_url) = match rewrite_nar_url {
                    NarUrlRewriteOption::Keep => ProxyNarInfoData::proxy_by_keep_url(&nar_info, &substituter),
                    NarUrlRewriteOption::ToSelf => ProxyNarInfoData::proxy_by_rewrite_url_to_self(&nar_info, &substituter),
                    NarUrlRewriteOption::ToUpstream => ProxyNarInfoData::proxy_by_rewrite_url_to_upstream(&nar_info, &substituter),
                };
                NarInfoResolution::Resolved { nar_info, substituter, source_url }
            },
            None => NarInfoResolution::NotFound,
        }
    }

    /// The same, with a check that the nar source can be formed; `None`
    /// where it cannot.
    pub fn try_from_completed_query(
        successful_outcome: Option<(UpstreamNarInfoData, SubstituterMeta)>,
        rewrite_nar_url: NarUrlRewriteOption,
    ) -> (r: Option<NarInfoResolution>)
        ensures
            outcome_resolvable(outcome_view(successful_outcome)) ==> (r matches Some(res) && res@
                == resolution_spec(outcome_view(successful_outcome), rewrite_nar_url)),
            !outcome_resolvable(outcome_view(successful_outcome)) ==> r is None,
    {
        let resolvable = match &successful_outcome {
            Some((up, meta)) => match up.nar_source_url() {
                Some(_) => true,
                None => up.nar_file().try_with_storage_prefix(meta.storage_url()).is_some(),
            },
            None => true,
        };
        if resolvable {
            Some(NarInfoResolution::from_completed_query(successful_outcome, rewrite_nar_url))
        } else {
            None
        }
    }

    pub fn nar_info(&self) -> (r: Option<&ProxyNarInfoData>)
        ensures
            match (r, self@) {
                (Some(d), NarInfoResolutionView::Resolved { nar_info, .. }) => d@ == nar_info,
                (None, NarInfoResolutionView::NotFound) => true,
                _ => false,
            },
    {
        match self {
            NarInfoResolution::Resolved { nar_info, .. } => Some(nar_info),
            NarInfoResolution::NotFound => None,
        }
    }

    pub fn source_url(&self) -> (r: Option<&Url>)
        ensures
            match (r, self@) {
                (Some(u), NarInfoResolutionView::Resolved { source_url, .. }) => u@ == source_url,
                (None, NarInfoResolutionView::NotFound) => true,
                _ => false,
            },
    {
        match self {
            NarInfoResolution::Resolved { source_url, .. } => Some(source_url),
            NarInfoResolution::NotFound => None,
        }
    }
}

} // verus!
