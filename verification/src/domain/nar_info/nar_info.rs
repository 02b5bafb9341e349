//! What the proxy knows of one store path hash: nothing yet, or a
//! resolution that holds until it expires.
use vstd::prelude::*;

use crate::domain::common::expire_at::ExpireAt;
use crate::domain::common::time::WallTime;
use crate::domain::nar_info::nar_info_resolution::{NarInfoResolution, NarInfoResolutionView};
use crate::domain::nar_info::proxy_nar_info_data::ProxyNarInfoData;
use crate::domain::nar_info::store_path_hash::StorePathHash;
use crate::domain::substituter::url::Url;

verus! {

pub struct NarInfoView {
    pub hash: Seq<char>,
    pub resolution: Option<(NarInfoResolutionView, ExpireAt)>,
}

/// Whether a known resolution has expired by `now`; an unknown one counts
/// as expired.
pub open spec fn nar_info_expired(n: NarInfoView, now: WallTime) -> bool {
    match n.resolution {
        Some((_, e)) => e.has_expired_spec(now),
        None => true,
    }
}

/// What `check_expiry_and_update` leaves: the resolution is forgotten once
/// it has expired.
pub open spec fn check_expiry_spec(n: NarInfoView, now: WallTime) -> NarInfoView {
    if nar_info_expired(n, now) {
        NarInfoView { hash: n.hash, resolution: None }
    } else {
        n
    }
}

#[derive(Debug, PartialEq, Eq)]
pub struct NarInfo {
    hash: StorePathHash,
    resolution: Option<(NarInfoResolution, ExpireAt)>,
}

impl View for NarInfo {
    type V = NarInfoView;

    closed spec fn view(&self) -> NarInfoView {
        NarInfoView {
            hash: self.hash@,
            resolution: match self.resolution {
                Some((r, e)) => Some((r@, e)),
                None => None,
            },
        }
    }
}

impl Clone for NarInfo {
    fn clone(&self) -> (r: Self)
        ensures
            r@ == self@,
    {
        NarInfo {
            hash: self.hash.clone(),
            resolution: match &self.resolution {
                Some((r, e)) => Some((r.clone(), *e)),
                None => None,
            },
        }
    }
}

impl NarInfo {
    /// Nothing known yet of `hash`.
    pub fn new(hash: StorePathHash) -> (r: NarInfo)
        ensures
            r@ == (NarInfoView { hash: hash@, resolution: None }),
    {
        NarInfo { hash, resolution: None }
    }

    pub fn hash(&self) -> (r: &StorePathHash)
        ensures
            r@ == self@.hash,
    {
        &self.hash
    }

    /// `resolution` is known until `expire_at`.
    pub fn on_resolved(self, resolution: NarInfoResolution, expire_at: ExpireAt) -> (r: NarInfo)
        ensures
            r@ == (NarInfoView { hash: self@.hash, resolution: Some((resolution@, expire_at)) }),
    {
        NarInfo { hash: self.hash, resolution: Some((resolution, expire_at)) }
    }

    pub fn resolution(&self) -> (r: Option<&NarInfoResolution>)
        ensures
            match (r, self@.resolution) {
                (Some(res), Some((v, _))) => res@ == v,
                (None, None) => true,
                _ => false,
            },
    {
        match &self.resolution {
            Some((r, _)) => Some(r),
            None => None,
        }
    }

    pub fn expire_at(&self) -> (r: Option<ExpireAt>)
        ensures
            match (r, self@.resolution) {
                (Some(e), Some((_, f))) => e == f,
                (None, None) => true,
                _ => false,
            },
    {
        match &self.resolution {
            Some((_, e)) => Some(*e),
            None => None,
        }
    }

    /// The narinfo served, where one was found.
    pub fn nar_info(&self) -> (r: Option<&ProxyNarInfoData>)
        ensures
            match (r, self@.resolution) {
                (Some(d), Some((NarInfoResolutionView::Resolved { nar_info, .. }, _))) => d@ == nar_info,
                (None, Some((NarInfoResolutionView::NotFound, _))) => true,
                (None, None) => true,
                _ => false,
            },
    {
        match self.resolution() {
            Some(res) => res.nar_info(),
            None => None,
        }
    }

    /// The URL of the nar file, where a narinfo was found.
    pub fn source_url(&self) -> (r: Option<&Url>)
        ensures
            match (r, self@.resolution) {
                (Some(u), Some((NarInfoResolutionView::Resolved { source_url, .. }, _))) => u@ == source_url,
                (None, Some((NarInfoResolutionView::NotFound, _))) => true,
                (None, None) => true,
                _ => false,
            },
    {
        match self.resolution() {
            Some(res) => res.source_url(),
            None => None,
        }
    }

    /// Forgets the resolution once it has expired by `now`.
    pub fn check_expiry_and_update(self, now: WallTime) -> (r: NarInfo)
        requires
            now.wf(),
        ensures
            r@ == check_expiry_spec(self@, now),
    {
        if self.has_expired(now) {
            NarInfo { hash: self.hash, resolution: None }
        } else {
            self
        }
    }

    fn has_expired(&self, now: WallTime) -> (r: bool)
        requires
            now.wf(),
        ensures
            r == nar_info_expired(self@, now),
    {
        match self.expire_at() {
            Some(e) => e.has_expired(now),
            None => true,
        }
    }
}

/// Checking expiry twice at the same time does no more than checking once,
/// and what is left after a check has not expired, unless it is unknown.
pub proof fn law_check_expiry_settles(n: NarInfoView, now: WallTime)
    ensures
        check_expiry_spec(check_expiry_spec(n, now), now) == check_expiry_spec(n, now),
        check_expiry_spec(n, now).resolution is Some ==> !nar_info_expired(check_expiry_spec(n, now), now),
        check_expiry_spec(n, now).hash == n.hash,
{
}

/// A resolution checked at a later time than one at which it had expired is
/// gone too: expiry does not reverse as time goes on.
pub proof fn law_expiry_is_monotone(n: NarInfoView, earlier: WallTime, later: WallTime)
    requires
        earlier.secs_spec() <= later.secs_spec(),
        nar_info_expired(n, earlier),
    ensures
        nar_info_expired(n, later),
        check_expiry_spec(n, later).resolution is None,
{
}

} // verus!
