//! A substituter together with its availability, and the transitions of
//! that availability as the substituter succeeds and fails.
use vstd::prelude::*;

use crate::domain::substituter::availability::{
    lemma_pow2_bound, pow2, Availability, MAX_BACKOFF_EXPONENT, MAX_DELAY_MS, REPROBING_PERIOD_MS,
    SERVICE_ERROR_BASE_RETRY_MS,
};
use crate::domain::substituter::priority::Priority;
use crate::domain::substituter::substituter_meta::{SubstituterMeta, SubstituterMetaView};
use crate::domain::substituter::url::{Url, UrlView};

verus! {

/// What the owner of a substituter has to do after a transition. Instants are
/// milliseconds of a monotonic clock.
#[derive(Debug, Clone, Copy, PartialEq, Eq, Hash)]
pub enum UpdateSubstituterEvent {
    /// Retry the substituter at the given instant.
    ScheduleRetryReady(u64),
    /// Probe the substituter, now (`None`) or at the given instant.
    ScheduleProbing(Option<u64>),
    NotifyUnavailable,
    NotifyAvailable,
}

/// The outcome of probing a substituter.
#[derive(Debug, Clone, Copy, PartialEq, Eq, Hash)]
pub enum ProbedState {
    Normal,
    Offline,
    ServiceError,
}

/// Whether a substituter found normal is probed again periodically.
#[derive(Debug, Clone, Copy, PartialEq, Eq, Hash)]
pub enum PeriodicProbingOption {
    Enabled,
    Disabled,
}

pub struct SubstituterView {
    pub target: SubstituterMetaView,
    pub availability: Availability,
}

#[derive(Debug, PartialEq, Eq, Hash)]
pub struct Substituter {
    target: SubstituterMeta,
    availability: Availability,
}

impl View for Substituter {
    type V = SubstituterView;

    closed spec fn view(&self) -> SubstituterView {
        SubstituterView { target: self.target@, availability: self.availability }
    }
}

impl Clone for Substituter {
    fn clone(&self) -> (r: Self)
        ensures
            r@ == self@,
    {
        Substituter { target: self.target.clone(), availability: self.availability }
    }
}

/// The instants no transition may start beyond, so that every instant it
/// schedules is a valid one.
pub open spec fn valid_now(now: u64) -> bool {
    now <= u64::MAX - MAX_DELAY_MS
}

/// Whether a substituter may take a transition at `now`.
pub fn is_valid_now(now: u64) -> (r: bool)
    ensures
        r == valid_now(now),
{
    now <= u64::MAX - MAX_DELAY_MS
}

/// What a success of the substituter does.
pub open spec fn on_successful_spec(a: Availability) -> (Availability, Seq<UpdateSubstituterEvent>) {
    let n = a.to_normal_spec();
    (n, if !n.is_unavailable_spec() { seq![UpdateSubstituterEvent::NotifyAvailable] } else { seq![] })
}

/// What a failure (offline when `offline`, else a service error) does.
pub open spec fn on_failure_spec(a: Availability, offline: bool, now: u64) -> (Availability, Seq<UpdateSubstituterEvent>) {
    if a.is_unavailable_spec() {
        (a, seq![])
    } else {
        let n = if offline { a.to_offline_spec(now) } else { a.to_service_error_spec(now) };
        (n, seq![
            UpdateSubstituterEvent::NotifyUnavailable,
            UpdateSubstituterEvent::ScheduleRetryReady((now + n.retry_ms_spec()->0) as u64),
        ])
    }
}

/// What the end of a retry delay does.
pub open spec fn on_next_retry_ready_spec(a: Availability) -> (Availability, Seq<UpdateSubstituterEvent>) {
    (a.to_maybe_ready_spec(), seq![UpdateSubstituterEvent::ScheduleProbing(None)])
}

/// What a finished probe does.
pub open spec fn on_probing_finished_spec(
    a: Availability,
    probed: ProbedState,
    periodic: PeriodicProbingOption,
    now: u64,
) -> (Availability, Seq<UpdateSubstituterEvent>) {
    match probed {
        ProbedState::Normal => if a.is_unavailable_spec() {
            (a, seq![])
        } else {
            (a.to_maybe_ready_spec(), match periodic {
                PeriodicProbingOption::Enabled => seq![
                    UpdateSubstituterEvent::NotifyAvailable,
                    UpdateSubstituterEvent::ScheduleProbing(Some((now + REPROBING_PERIOD_MS) as u64)),
                ],
                PeriodicProbingOption::Disabled => seq![UpdateSubstituterEvent::NotifyAvailable],
            })
        },
        ProbedState::Offline => on_failure_spec(a, true, now),
        ProbedState::ServiceError => on_failure_spec(a, false, now),
    }
}

/// The least grace that any substituter has: the priority times the
/// tolerance stays below 2^96.
pub const MIN_GRACE: i128 = -0x1_0000_0000_0000_0000_0000_0000;

/// The grace of a substituter, in milliseconds, when each step of priority
/// is worth `tolerance` milliseconds of latency: the better (the lower) its
/// priority, the more latency it is forgiven against the others.
pub open spec fn grace_spec(priority: u32, tolerance: u64) -> int {
    -(priority * tolerance)
}

impl Substituter {
    pub fn new(target: SubstituterMeta, availability: Availability) -> (r: Substituter)
        ensures
            r@ == (SubstituterView { target: target@, availability }),
    {
        Substituter { target, availability }
    }

    pub fn target(&self) -> (r: &SubstituterMeta)
        ensures
            r@ == self@.target,
    {
        &self.target
    }

    pub fn availability(&self) -> (r: &Availability)
        ensures
            *r == self@.availability,
    {
        &self.availability
    }

    pub fn url(&self) -> (r: &Url)
        ensures
            r@ == self@.target.url,
    {
        self.target.url()
    }

    pub fn priority(&self) -> (r: Priority)
        ensures
            r.value_spec() == self@.target.priority,
    {
        self.target.priority()
    }

    /// The grace of the substituter when each step of priority is worth
    /// `tolerance` milliseconds of latency.
    pub fn grace(&self, tolerance: u64) -> (r: i128)
        ensures
            r == grace_spec(self@.target.priority, tolerance),
            MIN_GRACE <= r <= 0,
    {
        let p: u32 = self.target.priority().value();
        proof {
            assert(p as int * tolerance as int <= 0xffff_ffff * 0xffff_ffff_ffff_ffff) by (nonlinear_arith)
                requires
                    p <= 0xffff_ffff,
                    tolerance <= 0xffff_ffff_ffff_ffff,
            ;
            assert(0 <= p as int * tolerance as int) by (nonlinear_arith)
                requires
                    0 <= p,
                    0 <= tolerance,
            ;
        }
        let product: i128 = p as i128 * tolerance as i128;
        -product
    }

    pub fn prev_failures(&self) -> (r: usize)
        ensures
            r == self@.availability.prev_failures_spec(),
    {
        self.availability.prev_failures()
    }

    pub fn is_normal(&self) -> (r: bool)
        ensures
            r == (self@.availability is Normal),
    {
        match &self.availability {
            Availability::Normal => true,
            _ => false,
        }
    }

    pub fn is_maybe_ready(&self) -> (r: bool)
        ensures
            r == (self@.availability is MaybeReady),
    {
        match &self.availability {
            Availability::MaybeReady { .. } => true,
            _ => false,
        }
    }

    pub fn is_unavailable(&self) -> (r: bool)
        ensures
            r == self@.availability.is_unavailable_spec(),
    {
        self.availability.is_unavailable()
    }

    /// The substituter served a request.
    pub fn update_on_service_successful(self) -> (r: (Substituter, Vec<UpdateSubstituterEvent>))
        ensures
            r.0@.target == self@.target,
            (r.0@.availability, r.1@) == on_successful_spec(self@.availability),
    {
        let mut s = self;
        s.availability = s.availability.try_change_to_normal();
        let mut events = Vec::new();
        if !s.is_unavailable() {
            events.push(UpdateSubstituterEvent::NotifyAvailable);
        }
        proof {
            assert(events@ =~= on_successful_spec(self@.availability).1);
        }
        (s, events)
    }

    fn update_on_failure(self, offline: bool, now: u64) -> (r: (Substituter, Vec<UpdateSubstituterEvent>))
        requires
            valid_now(now),
        ensures
            r.0@.target == self@.target,
            (r.0@.availability, r.1@) == on_failure_spec(self@.availability, offline, now),
    {
        if self.is_unavailable() {
            let events: Vec<UpdateSubstituterEvent> = Vec::new();
            assert(events@ =~= on_failure_spec(self@.availability, offline, now).1);
            (self, events)
        } else {
            let mut s = self;
            s.availability = if offline {
                s.availability.try_change_to_offline(now)
            } else {
                s.availability.try_change_to_service_error(now)
            };
            let delay = match s.availability.retry_ms() {
                Some(d) => d,
                None => {
                    assert(false);
                    0
                },
            };
            let mut events = Vec::new();
            events.push(UpdateSubstituterEvent::NotifyUnavailable);
            events.push(UpdateSubstituterEvent::ScheduleRetryReady(now + delay));
            assert(events@ =~= on_failure_spec(self@.availability, offline, now).1);
            (s, events)
        }
    }

    /// The substituter could not be reached.
    pub fn update_on_service_offline(self, now: u64) -> (r: (Substituter, Vec<UpdateSubstituterEvent>))
        requires
            valid_now(now),
        ensures
            r.0@.target == self@.target,
            (r.0@.availability, r.1@) == on_failure_spec(self@.availability, true, now),
    {
        self.update_on_failure(true, now)
    }

    /// The substituter answered with an error.
    pub fn update_on_service_error(self, now: u64) -> (r: (Substituter, Vec<UpdateSubstituterEvent>))
        requires
            valid_now(now),
        ensures
            r.0@.target == self@.target,
            (r.0@.availability, r.1@) == on_failure_spec(self@.availability, false, now),
    {
        self.update_on_failure(false, now)
    }

    /// The retry delay of the substituter has passed.
    pub fn update_on_next_retry_ready(self) -> (r: (Substituter, Vec<UpdateSubstituterEvent>))
        ensures
            r.0@.target == self@.target,
            (r.0@.availability, r.1@) == on_next_retry_ready_spec(self@.availability),
    {
        let mut s = self;
        s.availability = s.availability.try_change_to_maybe_ready();
        let mut events = Vec::new();
        events.push(UpdateSubstituterEvent::ScheduleProbing(None));
        assert(events@ =~= on_next_retry_ready_spec(self@.availability).1);
        (s, events)
    }

    /// A probe of the substituter finished with `probed_state`.
    pub fn update_on_probing_finished(
        self,
        probed_state: ProbedState,
        periodic_probing: PeriodicProbingOption,
        now: u64,
    ) -> (r: (Substituter, Vec<UpdateSubstituterEvent>))
        requires
            valid_now(now),
        ensures
            r.0@.target == self@.target,
            (r.0@.availability, r.1@) == on_probing_finished_spec(
                self@.availability,
                probed_state,
                periodic_probing,
                now,
            ),
    {
        match probed_state {
            ProbedState::Normal => {
                if self.is_unavailable() {
                    let events: Vec<UpdateSubstituterEvent> = Vec::new();
                    assert(events@ =~= on_probing_finished_spec(
                        self@.availability,
                        probed_state,
                        periodic_probing,
                        now,
                    ).1);
                    (self, events)
                } else {
                    let mut s = self;
                    s.availability = s.availability.try_change_to_maybe_ready();
                    let mut events = Vec::new();
                    events.push(UpdateSubstituterEvent::NotifyAvailable);
                    match periodic_probing {
                        PeriodicProbingOption::Enabled => {
                            events.push(
                                UpdateSubstituterEvent::ScheduleProbing(
                                    Some(now + REPROBING_PERIOD_MS),
                                ),
                            );
                        },
                        PeriodicProbingOption::Disabled => {},
                    }
                    assert(events@ =~= on_probing_finished_spec(
                        self@.availability,
                        probed_state,
                        periodic_probing,
                        now,
                    ).1);
                    (s, events)
                }
            },
            ProbedState::Offline => self.update_on_service_offline(now),
            ProbedState::ServiceError => self.update_on_service_error(now),
        }
    }
}

/// A failure is announced once: after a substituter has failed, a further
/// failure leaves it as it is and announces nothing, until its retry delay
/// has passed.
pub proof fn law_failure_announced_once(
    a: Availability,
    first_offline: bool,
    first_now: u64,
    second_offline: bool,
    second_now: u64,
)
    ensures
        ({
            let failed = on_failure_spec(a, first_offline, first_now).0;
            on_failure_spec(failed, second_offline, second_now) == (
                failed,
                Seq::<UpdateSubstituterEvent>::empty(),
            )
        }),
{
    assert(on_failure_spec(a, first_offline, first_now).0.is_unavailable_spec());
}

/// A failure of a substituter that was believed available marks it
/// unavailable, announces that, and schedules a retry.
pub proof fn law_failure_makes_unavailable(a: Availability, offline: bool, now: u64)
    requires
        !a.is_unavailable_spec(),
        valid_now(now),
    ensures
        ({
            let (b, events) = on_failure_spec(a, offline, now);
            &&& b.is_unavailable_spec()
            &&& events.len() == 2
            &&& events[0] == UpdateSubstituterEvent::NotifyUnavailable
            &&& events[1] matches UpdateSubstituterEvent::ScheduleRetryReady(t) && now < t
                <= now + MAX_DELAY_MS
        }),
{
    let b = on_failure_spec(a, offline, now).0;
    match b {
        Availability::ServiceError { prev_failures, .. } => {
            let e: nat = if prev_failures < MAX_BACKOFF_EXPONENT {
                prev_failures as nat
            } else {
                MAX_BACKOFF_EXPONENT as nat
            };
            lemma_pow2_bound(e);
        },
        _ => {},
    }
}

/// A substituter that failed comes back once its retry delay has passed and
/// it then serves a request: it is normal again and announced available,
/// its failures forgotten.
pub proof fn law_recovery_after_retry(a: Availability)
    requires
        a.is_unavailable_spec(),
    ensures
        ({
            let ready = on_next_retry_ready_spec(a).0;
            &&& ready matches Availability::MaybeReady { prev_failures } && prev_failures
                == a.prev_failures_spec()
            &&& on_successful_spec(ready) == (
                Availability::Normal,
                seq![UpdateSubstituterEvent::NotifyAvailable],
            )
        }),
{
}

/// Each further service error of a substituter on retry doubles the delay
/// before the next retry, until the delay reaches its cap.
pub proof fn law_service_error_backoff_doubles(prev_failures: usize, now: u64)
    requires
        prev_failures + 2 <= MAX_BACKOFF_EXPONENT,
        valid_now(now),
    ensures
        ({
            let first = on_failure_spec(Availability::MaybeReady { prev_failures }, false, now).1;
            let next = on_failure_spec(
                Availability::MaybeReady { prev_failures: (prev_failures + 1) as usize },
                false,
                now,
            ).1;
            &&& first[1] matches UpdateSubstituterEvent::ScheduleRetryReady(t1)
            &&& next[1] matches UpdateSubstituterEvent::ScheduleRetryReady(t2)
            &&& t2 - now == 2 * (t1 - now)
        }),
{
    let e = (prev_failures + 1) as nat;
    lemma_pow2_bound(e);
    lemma_pow2_bound(e + 1);
    assert(pow2(e + 1) == 2 * pow2(e));
    assert(SERVICE_ERROR_BASE_RETRY_MS * pow2(e + 1) == 2 * (SERVICE_ERROR_BASE_RETRY_MS
        * pow2(e))) by (nonlinear_arith);
}

/// Once a substituter has failed often enough, every further service error
/// on retry waits the longest delay.
pub proof fn law_service_error_backoff_capped(prev_failures: usize, now: u64)
    requires
        MAX_BACKOFF_EXPONENT <= prev_failures + 1,
        prev_failures < usize::MAX,
        valid_now(now),
    ensures
        on_failure_spec(Availability::MaybeReady { prev_failures }, false, now).1[1]
            == UpdateSubstituterEvent::ScheduleRetryReady((now + MAX_DELAY_MS) as u64),
{
    reveal_with_fuel(pow2, 11);
}

} // verus!
