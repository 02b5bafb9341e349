use std::collections::HashSet;

use selector4nix::domain::substituter::availability::{
    Availability, MAX_DELAY_MS, OFFLINE_RETRY_PERIOD_MS, REPROBING_PERIOD_MS,
};
use selector4nix::domain::substituter::priority::Priority;
use selector4nix::domain::substituter::substituter::{
    PeriodicProbingOption, ProbedState, Substituter, UpdateSubstituterEvent,
};
use selector4nix::domain::substituter::substituter_meta::SubstituterMeta;
use selector4nix::domain::substituter::url::Url;

fn make_substituter(availability: Availability) -> Substituter {
    let url = Url::new("https://cache.nixos.org").unwrap();
    let priority = Priority::new(40);
    let meta = SubstituterMeta::new(url, priority);
    Substituter::new(meta, availability)
}

fn assert_events_eq(
    actual: impl IntoIterator<Item = UpdateSubstituterEvent>,
    expected: impl IntoIterator<Item = UpdateSubstituterEvent>,
) {
    assert_eq!(
        actual.into_iter().collect::<HashSet<_>>(),
        expected.into_iter().collect::<HashSet<_>>(),
    );
}

/// A moment of the monotonic clock, in milliseconds.
const NOW: u64 = 1_000_000;

#[test]
fn update_on_service_successful_given_maybe_ready() {
    let substituter = make_substituter(Availability::MaybeReady { prev_failures: 0 });
    let (result, events) = substituter.update_on_service_successful();
    assert!(!result.is_unavailable());
    assert_events_eq(events, vec![UpdateSubstituterEvent::NotifyAvailable]);
}

#[test]
fn update_on_service_failed_changes_state_from_normal() {
    let substituter = make_substituter(Availability::Normal);
    let now = NOW;

    let (result, events) = substituter.update_on_service_error(now);

    assert!(result.is_unavailable());
    assert_events_eq(
        events,
        vec![
            UpdateSubstituterEvent::NotifyUnavailable,
            UpdateSubstituterEvent::ScheduleRetryReady(now + 500),
        ],
    );
}

#[test]
fn update_on_service_error_increments_backoff_given_repeated_error() {
    let substituter = make_substituter(Availability::MaybeReady { prev_failures: 2 });
    let now = NOW;

    let (result, events) = substituter.update_on_service_error(now);

    assert!(result.is_unavailable());
    assert!(matches!(
        result.availability(),
        Availability::ServiceError {
            prev_failures: 3,
            ..
        }
    ));
    assert_events_eq(
        events,
        vec![
            UpdateSubstituterEvent::NotifyUnavailable,
            UpdateSubstituterEvent::ScheduleRetryReady(now + 4000),
        ],
    );
}

#[test]
fn update_on_next_retry_ready_succeeds() {
    let substituter = make_substituter(Availability::ServiceError {
        detected_at: NOW,
        prev_failures: 0,
    });

    let (result, events) = substituter.update_on_next_retry_ready();

    assert!(!result.is_unavailable());
    assert_events_eq(events, vec![UpdateSubstituterEvent::ScheduleProbing(None)]);
}

#[test]
fn update_on_probing_finished_succeeds_given_probed_state_normal() {
    let substituter = make_substituter(Availability::MaybeReady { prev_failures: 0 });
    let now = NOW;

    let (result, events) = substituter.update_on_probing_finished(
        ProbedState::Normal,
        PeriodicProbingOption::Enabled,
        now,
    );

    assert!(!result.is_unavailable());
    assert_events_eq(
        events,
        vec![
            UpdateSubstituterEvent::NotifyAvailable,
            UpdateSubstituterEvent::ScheduleProbing(Some(now + REPROBING_PERIOD_MS)),
        ],
    );
}

#[test]
fn update_on_probing_finished_schedules_reprobing_given_already_normal() {
    let substituter = make_substituter(Availability::Normal);
    let now = NOW;

    let (result, events) = substituter.update_on_probing_finished(
        ProbedState::Normal,
        PeriodicProbingOption::Enabled,
        now,
    );

    assert!(result.is_normal());
    assert_events_eq(
        events,
        vec![
            UpdateSubstituterEvent::NotifyAvailable,
            UpdateSubstituterEvent::ScheduleProbing(Some(now + REPROBING_PERIOD_MS)),
        ],
    );
}

#[test]
fn update_on_probing_finished_emits_unavailable_given_offline() {
    let substituter = make_substituter(Availability::MaybeReady { prev_failures: 0 });
    let now = NOW;

    let (result, events) = substituter.update_on_probing_finished(
        ProbedState::Offline,
        PeriodicProbingOption::Enabled,
        now,
    );

    assert!(result.is_unavailable());
    assert_events_eq(
        events,
        vec![
            UpdateSubstituterEvent::NotifyUnavailable,
            UpdateSubstituterEvent::ScheduleRetryReady(now + OFFLINE_RETRY_PERIOD_MS),
        ],
    );
}

#[test]
fn update_on_probing_finished_emits_unavailable_given_service_error() {
    let substituter = make_substituter(Availability::MaybeReady { prev_failures: 2 });
    let now = NOW;

    let (result, events) = substituter.update_on_probing_finished(
        ProbedState::ServiceError,
        PeriodicProbingOption::Enabled,
        now,
    );

    assert!(result.is_unavailable());
    assert_events_eq(
        events,
        vec![
            UpdateSubstituterEvent::NotifyUnavailable,
            UpdateSubstituterEvent::ScheduleRetryReady(now + 4000),
        ],
    );
}

#[test]
fn second_failure_is_not_announced() {
    let substituter = make_substituter(Availability::Normal);
    let (failed, events) = substituter.update_on_service_offline(NOW);
    assert_eq!(events.len(), 2);
    let before = *failed.availability();
    let (again, events) = failed.update_on_service_error(NOW + 10);
    assert!(events.is_empty());
    assert_eq!(*again.availability(), before);
}

#[test]
fn recovery_after_retry_resets_failures() {
    let substituter = make_substituter(Availability::Offline { detected_at: NOW, prev_failures: 4 });
    let (ready, _) = substituter.update_on_next_retry_ready();
    assert_eq!(ready.prev_failures(), 4);
    assert!(ready.is_maybe_ready());
    let (normal, events) = ready.update_on_service_successful();
    assert!(normal.is_normal());
    assert_eq!(normal.prev_failures(), 0);
    assert_eq!(events, vec![UpdateSubstituterEvent::NotifyAvailable]);
}

#[test]
fn backoff_doubles_until_capped() {
    let mut expected = 1000;
    for p in 0..8 {
        let (_, events) = make_substituter(Availability::MaybeReady { prev_failures: p })
            .update_on_service_error(NOW);
        assert_eq!(events[1], UpdateSubstituterEvent::ScheduleRetryReady(NOW + expected));
        expected *= 2;
    }
    for p in 9..12 {
        let (_, events) = make_substituter(Availability::MaybeReady { prev_failures: p })
            .update_on_service_error(NOW);
        assert_eq!(events[1], UpdateSubstituterEvent::ScheduleRetryReady(NOW + MAX_DELAY_MS));
    }
}

#[test]
fn probing_disabled_announces_only() {
    let substituter = make_substituter(Availability::MaybeReady { prev_failures: 1 });
    let (result, events) = substituter.update_on_probing_finished(
        ProbedState::Normal,
        PeriodicProbingOption::Disabled,
        NOW,
    );
    assert!(result.is_maybe_ready());
    assert_eq!(events, vec![UpdateSubstituterEvent::NotifyAvailable]);
}

#[test]
fn probing_normal_while_unavailable_changes_nothing() {
    let substituter = make_substituter(Availability::Offline { detected_at: NOW, prev_failures: 1 });
    let (result, events) = substituter.update_on_probing_finished(
        ProbedState::Normal,
        PeriodicProbingOption::Enabled,
        NOW,
    );
    assert!(result.is_unavailable());
    assert!(events.is_empty());
}

#[test]
fn grace_is_priority_times_tolerance() {
    let substituter = make_substituter(Availability::Normal);
    assert_eq!(substituter.grace(10), -400);
    assert_eq!(substituter.grace(0), 0);
    assert_eq!(substituter.priority().value(), 40);
}
