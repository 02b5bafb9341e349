//! The actor that owns a substituter's availability: what each request and
//! each timer does to it, and what the availability index is told.
use vstd::prelude::*;

use crate::domain::substituter::substituter::{
    on_failure_spec, on_next_retry_ready_spec, on_successful_spec, valid_now, Substituter,
    SubstituterView, UpdateSubstituterEvent,
};
use crate::domain::substituter::substituter_meta::SubstituterMeta;
use crate::domain::substituter::url::{Url, UrlView};

verus! {

/// What the substituter's actor is told about the substituter.
#[derive(Debug, Clone, Copy, PartialEq, Eq, Hash)]
pub enum SubstituterRequest {
    ServiceSuccessful,
    ServiceOffline,
    ServiceError,
}

/// The actor's own timers.
#[derive(Debug, Clone, Copy, PartialEq, Eq, Hash)]
pub enum SubstituterInternal {
    NextRetryReady,
}

/// What the index of available substituters is told.
#[derive(Debug, PartialEq, Eq, Hash)]
pub enum SubstituterAvailabilityEvent {
    BecameUnavailable(Url),
    BecameAvailable(Substituter),
}

pub enum SubstituterAvailabilityEventView {
    BecameUnavailable(UrlView),
    BecameAvailable(SubstituterView),
}

impl View for SubstituterAvailabilityEvent {
    type V = SubstituterAvailabilityEventView;

    open spec fn view(&self) -> SubstituterAvailabilityEventView {
        match self {
            SubstituterAvailabilityEvent::BecameUnavailable(u) => SubstituterAvailabilityEventView::BecameUnavailable(u@),
            SubstituterAvailabilityEvent::BecameAvailable(s) => SubstituterAvailabilityEventView::BecameAvailable(s@),
        }
    }
}

/// What a request does to the substituter's availability, and the events
/// it raises.
pub open spec fn on_request_spec(
    s: SubstituterView,
    request: SubstituterRequest,
    now: u64,
) -> (crate::domain::substituter::availability::Availability, Seq<UpdateSubstituterEvent>) {
    match request {
        SubstituterRequest::ServiceSuccessful => on_successful_spec(s.availability),
        SubstituterRequest::ServiceOffline => on_failure_spec(s.availability, true, now),
        SubstituterRequest::ServiceError => on_failure_spec(s.availability, false, now),
    }
}

/// The substituter after `request` at `now` (milliseconds of a monotonic
/// clock), and the events to carry out.
pub fn on_request(state: Substituter, request: SubstituterRequest, now: u64) -> (r: (
    Substituter,
    Vec<UpdateSubstituterEvent>,
))
    requires
        valid_now(now),
    ensures
        r.0@.target == state@.target,
        (r.0@.availability, r.1@) == on_request_spec(state@, request, now),
{
    match request {
        SubstituterRequest::ServiceSuccessful => state.update_on_service_successful(),
        SubstituterRequest::ServiceOffline => state.update_on_service_offline(now),
        SubstituterRequest::ServiceError => state.update_on_service_error(now),
    }
}

/// The substituter after one of the actor's timers, and the events to carry
/// out.
pub fn on_internal(state: Substituter, internal: SubstituterInternal) -> (r: (
    Substituter,
    Vec<UpdateSubstituterEvent>,
))
    ensures
        r.0@.target == state@.target,
        (r.0@.availability, r.1@) == on_next_retry_ready_spec(state@.availability),
{
    match internal {
        SubstituterInternal::NextRetryReady => state.update_on_next_retry_ready(),
    }
}

/// What the availability index is told of an event of `substituter`: its
/// URL when it became unavailable, the substituter itself when it became
/// available, and nothing for the timers.
pub fn availability_notice(substituter: &Substituter, event: &UpdateSubstituterEvent) -> (r: Option<
    SubstituterAvailabilityEvent,
>)
    ensures
        match event {
            UpdateSubstituterEvent::NotifyUnavailable => r matches Some(e) && e@
                == SubstituterAvailabilityEventView::BecameUnavailable(substituter@.target.url),
            UpdateSubstituterEvent::NotifyAvailable => r matches Some(e) && e@
                == SubstituterAvailabilityEventView::BecameAvailable(substituter@),
            _ => r is None,
        },
{
    match event {
        UpdateSubstituterEvent::NotifyUnavailable => Some(
            SubstituterAvailabilityEvent::BecameUnavailable(substituter.url().clone()),
        ),
        UpdateSubstituterEvent::NotifyAvailable => Some(
            SubstituterAvailabilityEvent::BecameAvailable(substituter.clone()),
        ),
        _ => None,
    }
}

/// The configured facts of each of `substituters`, in order.
pub fn metas_of(substituters: &Vec<Substituter>) -> (r: Vec<SubstituterMeta>)
    ensures
        r@.len() == substituters@.len(),
        forall|i: int| 0 <= i < r@.len() ==> (#[trigger] r@[i])@ == substituters@[i]@.target,
{
    let mut r: Vec<SubstituterMeta> = Vec::new();
    let mut i: usize = 0;
    while i < substituters.len()
        invariant
            i <= substituters@.len(),
            r@.len() == i,
            forall|j: int| 0 <= j < i ==> (#[trigger] r@[j])@ == substituters@[j]@.target,
        decreases substituters@.len() - i,
    {
        r.push(substituters[i].target().clone());
        i = i + 1;
    }
    r
}

} // verus!
