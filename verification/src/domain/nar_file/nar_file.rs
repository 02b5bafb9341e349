//! What the proxy knows of one nar file: nothing yet, or a location that
//! holds until it expires.
use vstd::prelude::*;

use crate::domain::common::expire_at::ExpireAt;
use crate::domain::common::time::WallTime;
use crate::domain::nar_file::nar_file_key::{NarFileKey, NarFileKeyView};
use crate::domain::nar_file::nar_file_location::{NarFileLocation, NarFileLocationView};

verus! {

pub struct NarFileView {
    pub key: NarFileKeyView,
    pub location: Option<(NarFileLocationView, ExpireAt)>,
}

/// Whether a known location has expired by `now`; an unknown one counts as
/// expired.
pub open spec fn nar_file_expired(f: NarFileView, now: WallTime) -> bool {
    match f.location {
        Some((_, e)) => e.has_expired_spec(now),
        None => true,
    }
}

/// What `check_expiry_and_update` leaves: the location is forgotten once it
/// has expired.
pub open spec fn nar_file_check_spec(f: NarFileView, now: WallTime) -> NarFileView {
    if nar_file_expired(f, now) {
        NarFileView { key: f.key, location: None }
    } else {
        f
    }
}

/// What `on_relocated` leaves: a known location is replaced and keeps its
/// expiry; an unknown one stays unknown.
pub open spec fn relocated_spec(f: NarFileView, location: NarFileLocationView) -> NarFileView {
    NarFileView {
        key: f.key,
        location: match f.location {
            Some((_, e)) => Some((location, e)),
            None => None,
        },
    }
}

#[derive(Debug, PartialEq, Eq, Hash)]
pub struct NarFile {
    key: NarFileKey,
    location: Option<(NarFileLocation, ExpireAt)>,
}

impl View for NarFile {
    type V = NarFileView;

    closed spec fn view(&self) -> NarFileView {
        NarFileView {
            key: self.key@,
            location: match self.location {
                Some((l, e)) => Some((l@, e)),
                None => None,
            },
        }
    }
}

impl Clone for NarFile {
    fn clone(&self) -> (r: Self)
        ensures
            r@ == self@,
    {
        NarFile {
            key: self.key.clone(),
            location: match &self.location {
                Some((l, e)) => Some((l.clone(), *e)),
                None => None,
            },
        }
    }
}

impl NarFile {
    /// Nothing known yet of the file with `key`.
    pub fn new(key: NarFileKey) -> (r: NarFile)
        ensures
            r@ == (NarFileView { key: key@, location: None }),
    {
        NarFile { key, location: None }
    }

    pub fn key(&self) -> (r: &NarFileKey)
        ensures
            r@ == self@.key,
    {
        &self.key
    }

    /// The file is at `location` until `expire_at`.
    pub fn on_located(self, location: NarFileLocation, expire_at: ExpireAt) -> (r: NarFile)
        ensures
            r@ == (NarFileView { key: self@.key, location: Some((location@, expire_at)) }),
    {
        NarFile { key: self.key, location: Some((location, expire_at)) }
    }

    /// The file has moved to `location`; the expiry stays.
    pub fn on_relocated(self, location: NarFileLocation) -> (r: NarFile)
        ensures
            r@ == relocated_spec(self@, location@),
    {
        let location = match self.location {
            Some((_, expire_at)) => Some((location, expire_at)),
            None => None,
        };
        NarFile { key: self.key, location }
    }

    pub fn location(&self) -> (r: Option<&NarFileLocation>)
        ensures
            match (r, self@.location) {
                (Some(l), Some((v, _))) => l@ == v,
                (None, None) => true,
                _ => false,
            },
    {
        match &self.location {
            Some((l, _)) => Some(l),
            None => None,
        }
    }

    pub fn expire_at(&self) -> (r: Option<ExpireAt>)
        ensures
            match (r, self@.location) {
                (Some(e), Some((_, f))) => e == f,
                (None, None) => true,
                _ => false,
            },
    {
        match &self.location {
            Some((_, e)) => Some(*e),
            None => None,
        }
    }

    /// Forgets the location once it has expired by `now`.
    pub fn check_expiry_and_update(self, now: WallTime) -> (r: NarFile)
        requires
            now.wf(),
        ensures
            r@ == nar_file_check_spec(self@, now),
    {
        if self.has_expired(now) {
            NarFile { key: self.key, location: None }
        } else {
            self
        }
    }

    fn has_expired(&self, now: WallTime) -> (r: bool)
        requires
            now.wf(),
        ensures
            r == nar_file_expired(self@, now),
    {
        match self.expire_at() {
            Some(e) => e.has_expired(now),
            None => true,
        }
    }
}

/// Checking expiry twice at the same time does no more than checking once;
/// a location left after a check has not expired.
pub proof fn law_nar_file_check_settles(f: NarFileView, now: WallTime)
    ensures
        nar_file_check_spec(nar_file_check_spec(f, now), now) == nar_file_check_spec(f, now),
        nar_file_check_spec(f, now).location is Some ==> !nar_file_expired(nar_file_check_spec(f, now), now),
        nar_file_check_spec(f, now).key == f.key,
{
}

/// Relocating keeps the expiry, so it neither revives an expired location
/// nor shortens a valid one.
pub proof fn law_relocation_keeps_expiry(f: NarFileView, location: NarFileLocationView, now: WallTime)
    ensures
        nar_file_expired(relocated_spec(f, location), now) == nar_file_expired(f, now),
        relocated_spec(f, location).key == f.key,
{
}

} // verus!
