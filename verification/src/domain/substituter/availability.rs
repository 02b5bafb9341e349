//! Whether a substituter is believed to serve requests, and the back-off
//! schedule for retrying one that failed.
use vstd::prelude::*;

verus! {

/// Milliseconds before a substituter that answered normally is probed again.
pub const REPROBING_PERIOD_MS: u64 = 60_000;

/// Milliseconds before an offline substituter is tried again.
pub const OFFLINE_RETRY_PERIOD_MS: u64 = 10_000;

/// Milliseconds before a substituter that reported a service error for the
/// first time is tried again; each earlier failure doubles it.
pub const SERVICE_ERROR_BASE_RETRY_MS: u64 = 500;

/// The number of earlier failures beyond which the service error back-off
/// stops growing.
pub const MAX_BACKOFF_EXPONENT: usize = 10;

/// The longest delay that any transition schedules, in milliseconds.
pub const MAX_DELAY_MS: u64 = 512_000;

/// The state of a substituter's availability. Instants are milliseconds of a
/// monotonic clock.
#[derive(Debug, Clone, Copy, PartialEq, Eq, Hash)]
pub enum Availability {
    /// Serving requests.
    Normal,
    /// Retried after failures, not yet confirmed to serve requests.
    MaybeReady { prev_failures: usize },
    /// Unreachable since `detected_at`.
    Offline { detected_at: u64, prev_failures: usize },
    /// Answering with errors since `detected_at`.
    ServiceError { detected_at: u64, prev_failures: usize },
}

/// `2^e`.
pub open spec fn pow2(e: nat) -> nat
    decreases e,
{
    if e == 0 {
        1
    } else {
        2 * pow2((e - 1) as nat)
    }
}

/// The service error back-off after `prev_failures` earlier failures.
pub open spec fn service_error_retry_ms(prev_failures: usize) -> nat {
    let e = if prev_failures < MAX_BACKOFF_EXPONENT {
        prev_failures as nat
    } else {
        MAX_BACKOFF_EXPONENT as nat
    };
    (SERVICE_ERROR_BASE_RETRY_MS as nat) * pow2(e)
}

proof fn lemma_pow2_pos(e: nat)
    ensures
        1 <= pow2(e),
    decreases e,
{
    if e > 0 {
        lemma_pow2_pos((e - 1) as nat);
    }
}

proof fn lemma_pow2_mono(a: nat, b: nat)
    requires
        a <= b,
    ensures
        1 <= pow2(a) <= pow2(b),
    decreases b,
{
    lemma_pow2_pos(a);
    if b > a {
        lemma_pow2_mono(a, (b - 1) as nat);
    }
}

pub proof fn lemma_pow2_bound(e: nat)
    requires
        e <= 10,
    ensures
        1 <= pow2(e) <= 1024,
        e < 10 ==> pow2(e) <= 512,
{
    reveal_with_fuel(pow2, 11);
    assert(pow2(9) == 512);
    assert(pow2(10) == 1024);
    if e < 10 {
        lemma_pow2_mono(e, 9);
    } else {
        lemma_pow2_mono(e, 10);
    }
}

impl Availability {
    pub open spec fn prev_failures_spec(self) -> usize {
        match self {
            Availability::Normal => 0,
            Availability::MaybeReady { prev_failures } => prev_failures,
            Availability::Offline { prev_failures, .. } => prev_failures,
            Availability::ServiceError { prev_failures, .. } => prev_failures,
        }
    }

    pub open spec fn is_unavailable_spec(self) -> bool {
        self is Offline || self is ServiceError
    }

    /// How long to wait before retrying, for the states that wait.
    pub open spec fn retry_ms_spec(self) -> Option<nat> {
        match self {
            Availability::Offline { .. } => Some(OFFLINE_RETRY_PERIOD_MS as nat),
            Availability::ServiceError { prev_failures, .. } => Some(
                service_error_retry_ms(prev_failures),
            ),
            _ => None,
        }
    }

    pub open spec fn to_normal_spec(self) -> Availability {
        match self {
            Availability::Normal | Availability::MaybeReady { .. } => Availability::Normal,
            other => other,
        }
    }

    /// The failure count after one more failure.
    pub open spec fn next_failures_spec(self) -> usize {
        match self {
            Availability::MaybeReady { prev_failures } => if prev_failures < usize::MAX {
                (prev_failures + 1) as usize
            } else {
                prev_failures
            },
            _ => self.prev_failures_spec(),
        }
    }

    pub open spec fn to_offline_spec(self, now: u64) -> Availability {
        match self {
            Availability::Normal | Availability::MaybeReady { .. } => Availability::Offline {
                detected_at: now,
                prev_failures: self.next_failures_spec(),
            },
            other => other,
        }
    }

    pub open spec fn to_service_error_spec(self, now: u64) -> Availability {
        match self {
            Availability::Normal | Availability::MaybeReady { .. } => Availability::ServiceError {
                detected_at: now,
                prev_failures: self.next_failures_spec(),
            },
            other => other,
        }
    }

    pub open spec fn to_maybe_ready_spec(self) -> Availability {
        match self {
            Availability::Offline { prev_failures, .. } => Availability::MaybeReady {
                prev_failures,
            },
            Availability::ServiceError { prev_failures, .. } => Availability::MaybeReady {
                prev_failures,
            },
            other => other,
        }
    }

    /// The number of failures before the current state.
    pub fn prev_failures(&self) -> (r: usize)
        ensures
            r == self.prev_failures_spec(),
    {
        match self {
            Availability::Normal => 0,
            Availability::MaybeReady { prev_failures } => *prev_failures,
            Availability::Offline { prev_failures, .. } => *prev_failures,
            Availability::ServiceError { prev_failures, .. } => *prev_failures,
        }
    }

    pub fn is_unavailable(&self) -> (r: bool)
        ensures
            r == self.is_unavailable_spec(),
    {
        match self {
            Availability::Offline { .. } | Availability::ServiceError { .. } => true,
            _ => false,
        }
    }

    /// How long to wait before retrying, for the states that wait.
    pub fn retry_ms(&self) -> (r: Option<u64>)
        ensures
            match (r, self.retry_ms_spec()) {
                (Some(a), Some(b)) => a == b && a <= MAX_DELAY_MS,
                (None, None) => true,
                _ => false,
            },
    {
        match self {
            Availability::Offline { .. } => Some(OFFLINE_RETRY_PERIOD_MS),
            Availability::ServiceError { prev_failures, .. } => {
                let e: usize = if *prev_failures < MAX_BACKOFF_EXPONENT {
                    *prev_failures
                } else {
                    MAX_BACKOFF_EXPONENT
                };
                let mut factor: u64 = 1;
                let mut i: usize = 0;
                while i < e
                    invariant
                        i <= e <= 10,
                        factor == pow2(i as nat),
                    decreases e - i,
                {
                    proof {
                        lemma_pow2_bound(i as nat);
                    }
                    factor = factor * 2;
                    i = i + 1;
                }
                proof {
                    lemma_pow2_bound(e as nat);
                }
                Some(SERVICE_ERROR_BASE_RETRY_MS * factor)
            },
            _ => None,
        }
    }

    pub fn try_change_to_normal(self) -> (r: Availability)
        ensures
            r == self.to_normal_spec(),
    {
        match self {
            Availability::Normal | Availability::MaybeReady { .. } => Availability::Normal,
            other => other,
        }
    }

    fn next_failures(&self) -> (r: usize)
        ensures
            r == self.next_failures_spec(),
    {
        match self {
            Availability::MaybeReady { prev_failures } => prev_failures.saturating_add(1),
            _ => self.prev_failures(),
        }
    }

    pub fn try_change_to_offline(self, now: u64) -> (r: Availability)
        ensures
            r == self.to_offline_spec(now),
    {
        match self {
            Availability::Normal | Availability::MaybeReady { .. } => Availability::Offline {
                detected_at: now,
                prev_failures: self.next_failures(),
            },
            other => other,
        }
    }

    pub fn try_change_to_service_error(self, now: u64) -> (r: Availability)
        ensures
            r == self.to_service_error_spec(now),
    {
        match self {
            Availability::Normal | Availability::MaybeReady { .. } => Availability::ServiceError {
                detected_at: now,
                prev_failures: self.next_failures(),
            },
            other => other,
        }
    }

    pub fn try_change_to_maybe_ready(self) -> (r: Availability)
        ensures
            r == self.to_maybe_ready_spec(),
    {
        match self {
            Availability::Offline { prev_failures, .. } => Availability::MaybeReady {
                prev_failures,
            },
            Availability::ServiceError { prev_failures, .. } => Availability::MaybeReady {
                prev_failures,
            },
            other => other,
        }
    }
}

} // verus!
