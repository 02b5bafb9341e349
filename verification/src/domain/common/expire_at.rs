//! The moment a cached entry stops being valid.
use vstd::prelude::*;

use crate::domain::common::time::{Span, WallTime, MAX_UNIX_SECS, NANOS_PER_SEC};

verus! {

/// A moment, in whole seconds since the Unix epoch, at and after which a
/// cached entry has expired.
#[derive(Debug, Clone, Copy, PartialEq, Eq, PartialOrd, Ord, Hash)]
pub struct ExpireAt(u64);

/// The whole seconds of `time + ttl`.
pub open spec fn secs_after(time: WallTime, ttl: Span) -> int {
    time.secs_spec() + ttl.secs_spec() + if time.nanos_spec() + ttl.nanos_spec() >= NANOS_PER_SEC {
        1int
    } else {
        0int
    }
}

impl ExpireAt {
    pub closed spec fn secs_spec(self) -> u64 {
        self.0
    }

    /// The moment `secs` whole seconds after the Unix epoch.
    pub closed spec fn at_secs(secs: u64) -> ExpireAt {
        ExpireAt(secs)
    }

    /// A moment is the moment at its own whole seconds.
    pub proof fn law_at_own_secs(self)
        ensures
            ExpireAt::at_secs(self.secs_spec()) == self,
    {
    }

    /// A moment that a system time can hold.
    pub open spec fn wf(self) -> bool {
        self.secs_spec() <= MAX_UNIX_SECS
    }

    /// The moment `time`, to the whole second.
    pub fn new(time: WallTime) -> (r: ExpireAt)
        requires
            time.wf(),
        ensures
            r.secs_spec() == time.secs_spec(),
            r == ExpireAt::at_secs(time.secs_spec()),
            r.wf(),
    {
        ExpireAt(time.secs())
    }

    /// The moment `ttl` after `created_at`, to the whole second.
    pub fn since(created_at: WallTime, ttl: Span) -> (r: ExpireAt)
        requires
            created_at.wf(),
            ttl.wf(),
            secs_after(created_at, ttl) <= MAX_UNIX_SECS,
        ensures
            r.secs_spec() == secs_after(created_at, ttl),
            r == ExpireAt::at_secs(secs_after(created_at, ttl) as u64),
            r.wf(),
    {
        let carry: u64 = if created_at.subsec_nanos() as u64 + ttl.subsec_nanos() as u64
            >= NANOS_PER_SEC as u64 {
            1
        } else {
            0
        };
        ExpireAt(created_at.secs() + ttl.secs() + carry)
    }

    /// The moment `ttl` after `created_at`, to the whole second; `None`
    /// where that lies beyond what a system time can hold.
    pub fn try_since(created_at: WallTime, ttl: Span) -> (r: Option<ExpireAt>)
        requires
            created_at.wf(),
            ttl.wf(),
        ensures
            secs_after(created_at, ttl) <= MAX_UNIX_SECS ==> r == Some(
                ExpireAt::at_secs(secs_after(created_at, ttl) as u64),
            ),
            secs_after(created_at, ttl) > MAX_UNIX_SECS ==> r is None,
    {
        let carry: u64 = if created_at.subsec_nanos() as u64 + ttl.subsec_nanos() as u64
            >= NANOS_PER_SEC as u64 {
            1
        } else {
            0
        };
        if ttl.secs() > MAX_UNIX_SECS - created_at.secs() || ttl.secs() + created_at.secs() > MAX_UNIX_SECS - carry {
            None
        } else {
            Some(ExpireAt::since(created_at, ttl))
        }
    }

    /// The whole seconds since the Unix epoch.
    pub fn unix_timpstamp(&self) -> (r: u64)
        ensures
            r == self.secs_spec(),
            ExpireAt::at_secs(r) == *self,
    {
        self.0
    }

    /// Whether the moment has come by `now`.
    pub open spec fn has_expired_spec(self, now: WallTime) -> bool {
        self.secs_spec() <= now.secs_spec()
    }

    /// Whether the moment has come by `now`: the moment, taken as a time, is
    /// not later than `now`.
    pub fn has_expired(&self, now: WallTime) -> (r: bool)
        requires
            now.wf(),
        ensures
            r == self.has_expired_spec(now),
    {
        self.0 <= now.secs()
    }
}

} // verus!
