//! Answering narinfo requests: a narinfo already resolved is served as it
//! is; otherwise the resolution is run, and its outcome is kept, answered
//! and announced to the nar file index.
use vstd::prelude::*;

use crate::application::error::{AppError, AppErrorKind};
use crate::application::substituter::SubstituterRequest;
use crate::domain::common::expire_at::ExpireAt;
use crate::domain::nar_file::nar_file_location::{NarFileLocation, NarFileLocationView};
use crate::domain::nar_info::nar_file_index::{NarFileEvent, NarFileEventView};
use crate::domain::nar_info::nar_info::{check_expiry_spec, NarInfo, NarInfoView};
use crate::domain::nar_info::nar_info_resolution::{NarInfoResolution, NarInfoResolutionView};
use crate::domain::nar_info::proxy_nar_info_data::{ProxyNarInfoData, ProxyNarInfoDataView};
use crate::domain::nar_info::resolution::{
    events_view, NarResolutionEvent, NarResolutionEventView, ResolveNarInfoError,
};
use crate::domain::substituter::url::{Url, UrlView};

verus! {

/// The answer to a narinfo request: the narinfo served (none where no
/// substituter has it) or the error, and what the resolution reports of the
/// substituters.
#[derive(Debug)]
pub struct ResolveNarInfoResponse {
    pub result: Result<Option<ProxyNarInfoData>, ResolveNarInfoError>,
    pub events: Vec<NarResolutionEvent>,
}

pub open spec fn result_view(
    r: Result<Option<ProxyNarInfoData>, ResolveNarInfoError>,
) -> Result<Option<ProxyNarInfoDataView>, ResolveNarInfoError> {
    match r {
        Ok(Some(d)) => Ok(Some(d@)),
        Ok(None) => Ok(None),
        Err(e) => Err(e),
    }
}

/// The narinfo a resolution serves, if it found one.
pub open spec fn served_spec(r: NarInfoResolutionView) -> Option<ProxyNarInfoDataView> {
    match r {
        NarInfoResolutionView::Resolved { nar_info, .. } => Some(nar_info),
        NarInfoResolutionView::NotFound => None,
    }
}

/// What the nar file index is told of a resolution: where the nar file of a
/// narinfo found is, with the nar timeout of its substituter.
pub open spec fn registration_spec(r: NarInfoResolutionView) -> Option<NarFileEventView> {
    match r {
        NarInfoResolutionView::Resolved { nar_info, substituter, source_url } => Some(
            NarFileEventView::Registered {
                nar_file: nar_info.nar_file,
                location: NarFileLocationView { source_url, timeout: substituter.nar_timeout },
            },
        ),
        NarInfoResolutionView::NotFound => None,
    }
}

pub open spec fn opt_event_view(e: Option<NarFileEvent>) -> Option<NarFileEventView> {
    match e {
        Some(e) => Some(e@),
        None => None,
    }
}

impl ResolveNarInfoResponse {
    pub fn new(
        result: Result<Option<ProxyNarInfoData>, ResolveNarInfoError>,
        events: Vec<NarResolutionEvent>,
    ) -> (r: ResolveNarInfoResponse)
        ensures
            r.result == result,
            r.events == events,
    {
        ResolveNarInfoResponse { result, events }
    }
}

/// The answer for a narinfo already resolved: what it serves, with nothing
/// to report; `None` where it has not been resolved.
pub fn cached_response(nar: &NarInfo) -> (r: Option<ResolveNarInfoResponse>)
    ensures
        match nar@.resolution {
            Some((res, _)) => r matches Some(resp) && result_view(resp.result) == Ok::<
                Option<ProxyNarInfoDataView>,
                ResolveNarInfoError,
            >(served_spec(res)) && resp.events@.len() == 0,
            None => r is None,
        },
{
    match nar.resolution() {
        Some(res) => {
            let served = match res.nar_info() {
                Some(d) => Some(d.clone()),
                None => None,
            };
            Some(ResolveNarInfoResponse::new(Ok(served), Vec::new()))
        },
        None => None,
    }
}

/// What the nar file index is told of `resolution`.
pub fn registration_event(resolution: &NarInfoResolution) -> (r: Option<NarFileEvent>)
    ensures
        opt_event_view(r) == registration_spec(resolution@),
{
    match resolution {
        NarInfoResolution::Resolved { nar_info, substituter, source_url } => Some(
            NarFileEvent::Registered {
                nar_file: nar_info.nar_file().clone(),
                location: NarFileLocation::new(source_url.clone(), substituter.nar_timeout()),
            },
        ),
        NarInfoResolution::NotFound => None,
    }
}

/// What becomes of `nar` once its resolution came to `result`: a resolution
/// is kept until `expire_at`, answered with what it serves and announced to
/// the nar file index; an error is answered and leaves `nar` as it was.
/// The substituters' reports go with the answer either way.
pub fn on_resolution(
    nar: NarInfo,
    result: Result<NarInfoResolution, ResolveNarInfoError>,
    events: Vec<NarResolutionEvent>,
    expire_at: ExpireAt,
) -> (r: (NarInfo, ResolveNarInfoResponse, Option<NarFileEvent>))
    ensures
        events_view(r.1.events@) == events_view(events@),
        match result {
            Ok(res) => {
                &&& r.0@ == (NarInfoView { hash: nar@.hash, resolution: Some((res@, expire_at)) })
                &&& result_view(r.1.result) == Ok::<Option<ProxyNarInfoDataView>, ResolveNarInfoError>(
                    served_spec(res@),
                )
                &&& opt_event_view(r.2) == registration_spec(res@)
            },
            Err(e) => {
                &&& r.0@ == nar@
                &&& result_view(r.1.result) == Err::<Option<ProxyNarInfoDataView>, ResolveNarInfoError>(e)
                &&& r.2 is None
            },
        },
{
    match result {
        Ok(resolution) => {
            let registration = registration_event(&resolution);
            let served = match resolution.nar_info() {
                Some(d) => Some(d.clone()),
                None => None,
            };
            let nar = nar.on_resolved(resolution, expire_at);
            (nar, ResolveNarInfoResponse::new(Ok(served), events), registration)
        },
        Err(e) => (nar, ResolveNarInfoResponse::new(Err(e), events), None),
    }
}

/// What the nar file index is told when `nar` is no longer held: the nar
/// file of a narinfo found is evicted.
pub fn eviction_event(nar: &NarInfo) -> (r: Option<NarFileEvent>)
    ensures
        match nar@.resolution {
            Some((NarInfoResolutionView::Resolved { nar_info, .. }, _)) => opt_event_view(r) == Some(
                NarFileEventView::Evicted { nar_file: nar_info.nar_file },
            ),
            _ => r is None,
        },
{
    match nar.nar_info() {
        Some(d) => Some(NarFileEvent::Evicted { nar_file: d.nar_file().clone() }),
        None => None,
    }
}

/// The result of a narinfo request: the narinfo served; not found where no
/// substituter has it; an infrastructure error where it could not be
/// fetched.
pub fn response_result(result: Result<Option<ProxyNarInfoData>, ResolveNarInfoError>) -> (r: Result<
    ProxyNarInfoData,
    AppError,
>)
    ensures
        match (result, r) {
            (Ok(Some(a)), Ok(b)) => a@ == b@,
            (Ok(None), Err(e)) => e.kind_spec() == AppErrorKind::NotFound,
            (Err(_), Err(e)) => e.kind_spec() == AppErrorKind::Infrastructure,
            _ => false,
        },
{
    match result {
        Ok(Some(d)) => Ok(d),
        Ok(None) => Err(AppError::not_found()),
        Err(e) => Err(AppError::message(AppErrorKind::Infrastructure, e.message())),
    }
}

/// The substituter a resolution event is about, and what its actor is told.
pub fn substituter_request_for(event: &NarResolutionEvent) -> (r: (Url, SubstituterRequest))
    ensures
        match event@ {
            NarResolutionEventView::SubstituterSucceeded(u) => r.0@ == u && r.1
                == SubstituterRequest::ServiceSuccessful,
            NarResolutionEventView::SubstituterFailed(u) => r.0@ == u && r.1
                == SubstituterRequest::ServiceError,
        },
{
    match event {
        NarResolutionEvent::SubstituterSucceeded(u) => (u.clone(), SubstituterRequest::ServiceSuccessful),
        NarResolutionEvent::SubstituterFailed(u) => (u.clone(), SubstituterRequest::ServiceError),
    }
}

/// A resolution, once kept, is what later requests are answered with,
/// without querying again, for as long as it has not expired.
pub proof fn law_resolution_served_until_expiry(
    nar: NarInfoView,
    resolution: NarInfoResolutionView,
    expire_at: ExpireAt,
    now: crate::domain::common::time::WallTime,
)
    requires
        !expire_at.has_expired_spec(now),
    ensures
        ({
            let kept = NarInfoView { hash: nar.hash, resolution: Some((resolution, expire_at)) };
            &&& check_expiry_spec(kept, now) == kept
            &&& check_expiry_spec(kept, now).resolution matches Some((r, _)) && served_spec(r)
                == served_spec(resolution)
        }),
{
}

/// Once it has expired, a kept resolution is forgotten, and the next
/// request resolves the narinfo again.
pub proof fn law_expired_resolution_forgotten(
    nar: NarInfoView,
    resolution: NarInfoResolutionView,
    expire_at: ExpireAt,
    now: crate::domain::common::time::WallTime,
)
    requires
        expire_at.has_expired_spec(now),
    ensures
        check_expiry_spec(
            NarInfoView { hash: nar.hash, resolution: Some((resolution, expire_at)) },
            now,
        ).resolution is None,
{
}

} // verus!
