//! Points in wall-clock time and lengths of time, as plain values.
use vstd::prelude::*;

verus! {

/// Nanoseconds in a second.
pub const NANOS_PER_SEC: u32 = 1_000_000_000;

/// The greatest number of whole seconds since the Unix epoch that a system
/// time can hold.
pub const MAX_UNIX_SECS: u64 = 0x7fff_ffff_ffff_ffff;

/// A point in wall-clock time at or after the Unix epoch: whole seconds since
/// the epoch and the nanoseconds beyond them.
#[derive(Debug, Clone, Copy, PartialEq, Eq, Hash)]
pub struct WallTime {
    secs: u64,
    nanos: u32,
}

/// A length of time: whole seconds and the nanoseconds beyond them.
#[derive(Debug, Clone, Copy, PartialEq, Eq, Hash)]
pub struct Span {
    secs: u64,
    nanos: u32,
}

impl WallTime {
    /// The whole seconds since the Unix epoch.
    pub closed spec fn secs_spec(self) -> u64 {
        self.secs
    }

    /// The nanoseconds beyond the whole seconds.
    pub closed spec fn nanos_spec(self) -> u32 {
        self.nanos
    }

    /// A valid point in time: within the range of a system time, with fewer
    /// than a second's worth of extra nanoseconds.
    pub open spec fn wf(self) -> bool {
        self.secs_spec() <= MAX_UNIX_SECS && self.nanos_spec() < NANOS_PER_SEC
    }

    pub fn new(secs: u64, nanos: u32) -> (r: WallTime)
        requires
            secs <= MAX_UNIX_SECS,
            nanos < NANOS_PER_SEC,
        ensures
            r.secs_spec() == secs,
            r.nanos_spec() == nanos,
            r.wf(),
    {
        WallTime { secs, nanos }
    }

    /// The point in time `secs` seconds and `nanos` nanoseconds after the
    /// Unix epoch; `None` where it is out of range.
    pub fn try_new(secs: u64, nanos: u32) -> (r: Option<WallTime>)
        ensures
            match r {
                Some(t) => secs <= MAX_UNIX_SECS && nanos < NANOS_PER_SEC && t.secs_spec() == secs
                    && t.nanos_spec() == nanos,
                None => !(secs <= MAX_UNIX_SECS && nanos < NANOS_PER_SEC),
            },
    {
        if secs <= MAX_UNIX_SECS && nanos < NANOS_PER_SEC {
            Some(WallTime::new(secs, nanos))
        } else {
            None
        }
    }

    /// The whole seconds since the Unix epoch.
    pub fn secs(&self) -> (r: u64)
        ensures
            r == self.secs_spec(),
    {
        self.secs
    }

    /// The nanoseconds beyond the whole seconds.
    pub fn subsec_nanos(&self) -> (r: u32)
        ensures
            r == self.nanos_spec(),
    {
        self.nanos
    }
}

impl Span {
    pub closed spec fn secs_spec(self) -> u64 {
        self.secs
    }

    pub closed spec fn nanos_spec(self) -> u32 {
        self.nanos
    }

    pub open spec fn wf(self) -> bool {
        self.nanos_spec() < NANOS_PER_SEC
    }

    pub fn new(secs: u64, nanos: u32) -> (r: Span)
        requires
            nanos < NANOS_PER_SEC,
        ensures
            r.secs_spec() == secs,
            r.nanos_spec() == nanos,
            r.wf(),
    {
        Span { secs, nanos }
    }

    pub fn from_secs(secs: u64) -> (r: Span)
        ensures
            r.secs_spec() == secs,
            r.nanos_spec() == 0,
            r.wf(),
    {
        Span { secs, nanos: 0 }
    }

    pub fn secs(&self) -> (r: u64)
        ensures
            r == self.secs_spec(),
    {
        self.secs
    }

    pub fn subsec_nanos(&self) -> (r: u32)
        ensures
            r == self.nanos_spec(),
    {
        self.nanos
    }

    /// The whole milliseconds of the length.
    pub open spec fn millis_spec(self) -> int {
        self.secs_spec() * 1000 + self.nanos_spec() / 1_000_000
    }

    /// The whole milliseconds of the length.
    pub fn as_millis(&self) -> (r: u128)
        ensures
            r == self.millis_spec(),
    {
        self.secs as u128 * 1000 + (self.nanos / 1_000_000) as u128
    }
}

} // verus!
