//! The rules of the expiring key-value cache: when an entry is still alive,
//! and when expired entries are swept. The store itself is outside.
use vstd::prelude::*;

verus! {

/// Seconds since the Unix epoch.
pub type UnixTimestamp = u64;

/// The most expired entries one sweep removes.
pub const CLEANUP_LIMIT: usize = 20;

/// The seconds between sweeps.
pub const CLEANUP_PERIOD: UnixTimestamp = 30;

/// The current time as the cache takes it: a given moment, or the system's
/// clock.
#[derive(Debug, Clone, Copy, PartialEq, Eq, Hash)]
pub enum UnixTimestampArg {
    Pure(UnixTimestamp),
    SystemNow,
}

/// Calls `std::time::SystemTime::elapsed` on the Unix epoch: the time from
/// the epoch to now, `None` where the clock is before the epoch. Nothing is
/// stated of it: it depends on the time.
#[verifier::external_body]
fn since_unix_epoch() -> Option<std::time::Duration> {
    std::time::UNIX_EPOCH.elapsed().ok()
}

/// Calls `std::time::Duration::as_secs`: the whole seconds of `d`. Nothing
/// is stated of it: a `Duration` is opaque here.
#[verifier::external_body]
fn whole_secs(d: &std::time::Duration) -> UnixTimestamp {
    d.as_secs()
}

impl UnixTimestampArg {
    /// The moment: the one given, or a reading of the system clock (`None`
    /// where the clock is before the epoch).
    pub fn get(self) -> (r: Option<UnixTimestamp>)
        ensures
            self matches UnixTimestampArg::Pure(now) ==> r == Some(now),
    {
        match self {
            UnixTimestampArg::Pure(now) => Some(now),
            UnixTimestampArg::SystemNow => match since_unix_epoch() {
                Some(d) => Some(whole_secs(&d)),
                None => None,
            },
        }
    }
}

/// An entry that expires at `expire_at` is still alive at `now`.
pub fn entry_alive(expire_at: UnixTimestamp, now: UnixTimestamp) -> (r: bool)
    ensures
        r == (expire_at > now),
{
    expire_at > now
}

/// A sweep is due at `now` when the last one, at `last_cleanup`, is at least
/// a sweep period ago (the period counted up to the end of the clock).
pub fn cleanup_due(last_cleanup: UnixTimestamp, now: UnixTimestamp) -> (r: bool)
    ensures
        r == ((if last_cleanup + CLEANUP_PERIOD > u64::MAX {
            u64::MAX as int
        } else {
            last_cleanup + CLEANUP_PERIOD
        }) <= now),
{
    last_cleanup.saturating_add(CLEANUP_PERIOD) <= now
}

} // verus!
