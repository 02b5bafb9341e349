use selector4nix::domain::common::time::Span;
use selector4nix::domain::nar_info::deadline_group::DeadlineGroup;
use selector4nix::domain::nar_info::nar_info_resolution::{NarInfoResolution, NarUrlRewriteOption};
use selector4nix::domain::nar_info::resolution::{
    NarInfoQueryData, NarResolutionEvent, NarResolutionService, QueryNarInfoError,
    ResolveNarInfoError,
};
use selector4nix::domain::nar_info::store_path_hash::StorePathHash;
use selector4nix::domain::nar_info::upstream_nar_info_data::UpstreamNarInfoData;
use selector4nix::domain::substituter::availability::Availability;
use selector4nix::domain::substituter::priority::Priority;
use selector4nix::domain::substituter::substituter::Substituter;
use selector4nix::domain::substituter::substituter_meta::SubstituterMeta;
use selector4nix::domain::substituter::url::Url;

#[test]
fn wait_returns_earliest_key() {
    let mut group = DeadlineGroup::new();
    let now = 1_000;
    group.insert_or_set_earlier(0, now + 5_000);
    group.insert_or_set_earlier(1, now + 2_000);
    group.insert_or_set_earlier(2, now + 8_000);

    let (key, at) = group.earliest().unwrap();
    assert_eq!(key, 1);
    assert_eq!(at, now + 2_000);
}

#[test]
fn insert_or_set_earlier_updates_given_earlier() {
    let mut group = DeadlineGroup::new();
    let now = 1_000;
    group.insert_or_set_earlier(0, now + 10_000);
    group.insert_or_set_earlier(0, now + 3_000);

    assert_eq!(group.earliest(), Some((0, now + 3_000)));
}

#[test]
fn insert_or_set_earlier_ignores_given_later() {
    let mut group = DeadlineGroup::new();
    let now = 1_000;
    group.insert_or_set_earlier(0, now + 3_000);
    group.insert_or_set_earlier(0, now + 10_000);

    assert_eq!(group.earliest(), Some((0, now + 3_000)));
}

#[test]
fn deadline_group_remove_and_empty() {
    let mut group = DeadlineGroup::new();
    assert!(group.is_empty());
    assert_eq!(group.earliest(), None);
    group.insert_or_set_earlier(4, 10);
    group.insert_or_set_earlier(7, 5);
    group.remove(7);
    assert_eq!(group.earliest(), Some((4, 10)));
    group.remove(9);
    group.remove(4);
    assert!(group.is_empty());
}

fn substituter(url: &str, priority: u32, availability: Availability) -> Substituter {
    let meta = SubstituterMeta::new(Url::new(url).unwrap(), Priority::new(priority));
    Substituter::new(meta, availability)
}

fn data(latency_ms: u32) -> NarInfoQueryData {
    let upstream = UpstreamNarInfoData::new(
        "StorePath: /nix/store/p4pclmv1gyja5kzc26npqpia1qqxrf0l-hello\nURL: nar/abc.nar.xz\n"
            .into(),
    )
    .unwrap();
    NarInfoQueryData::new(upstream, Span::new(0, latency_ms * 1_000_000))
}

fn three() -> Vec<Substituter> {
    vec![
        substituter("https://a.example.com", 40, Availability::Normal),
        substituter("https://b.example.com", 40, Availability::MaybeReady { prev_failures: 1 }),
        substituter("https://c.example.com", 50, Availability::Normal),
    ]
}

#[test]
fn query_targets_are_narinfo_urls() {
    let service = NarResolutionService::new(NarUrlRewriteOption::ToSelf, 10);
    let hash = StorePathHash::new("p4pclmv1gyja5kzc26npqpia1qqxrf0l".into()).unwrap();
    let targets = service.query_targets(&hash, &three()).unwrap();
    assert_eq!(targets.len(), 3);
    assert_eq!(
        targets[1].0.value(),
        "https://b.example.com/p4pclmv1gyja5kzc26npqpia1qqxrf0l.narinfo"
    );
    assert_eq!(targets[1].1, None);
}

#[test]
fn round_prunes_hopeless_queries_and_keeps_best() {
    let service = NarResolutionService::new(NarUrlRewriteOption::ToSelf, 10);
    let start = 10_000;
    let mut round = service.start_query(three(), start);
    assert_eq!(round.next_deadline(), None);

    // a answers first after 100 ms: preference -400 - 100 = -500.
    round.on_query_finished(0, Ok(Some(data(100))));
    // b (grace -400) has until 100 ms to beat it; c (grace -500) cannot.
    assert_eq!(round.next_deadline(), Some((2, start)));
    assert!(round.prune(2));
    assert!(!round.is_pending(2));
    assert_eq!(round.next_deadline(), Some((1, start + 100)));

    // b answers after 50 ms: preference -450 beats -500.
    round.on_query_finished(1, Ok(Some(data(50))));
    // c finishing after it was pruned changes nothing.
    round.on_query_finished(2, Err(QueryNarInfoError::Offline { source: anyhow::Error::msg("late") }));
    assert_eq!(round.next_deadline(), None);

    let (answer, events) = round.finish();
    let (chosen, _) = answer.unwrap().unwrap();
    assert_eq!(chosen.url().value(), "https://b.example.com/");
    // b was not normal, so its success is reported; c's late failure is not.
    assert_eq!(events.len(), 1);
    assert!(matches!(&events[0], NarResolutionEvent::SubstituterSucceeded(u) if u.value() == "https://b.example.com/"));
}

#[test]
fn round_keeps_later_answer_on_tie() {
    let service = NarResolutionService::new(NarUrlRewriteOption::Keep, 10);
    let mut round = service.start_query(three(), 0);
    round.on_query_finished(0, Ok(Some(data(100))));
    round.on_query_finished(1, Ok(Some(data(100))));
    let (answer, _) = round.finish();
    let (chosen, _) = answer.unwrap().unwrap();
    assert_eq!(chosen.url().value(), "https://b.example.com/");
}

#[test]
fn round_without_narinfo_is_not_found_or_error() {
    let service = NarResolutionService::new(NarUrlRewriteOption::ToSelf, 10);
    let mut round = service.start_query(three(), 0);
    round.on_query_finished(0, Ok(None));
    round.on_query_finished(1, Ok(None));
    round.on_query_finished(2, Ok(None));
    let (answer, events) = round.finish();
    assert!(matches!(answer, Ok(None)));
    assert_eq!(events.len(), 1);

    let mut round = service.start_query(three(), 0);
    round.on_query_finished(0, Ok(None));
    round.on_query_finished(2, Err(QueryNarInfoError::Service { source: anyhow::Error::msg("boom") }));
    let (answer, events) = round.finish();
    assert!(matches!(answer, Err(ResolveNarInfoError::Fetch)));
    assert!(matches!(&events[0], NarResolutionEvent::SubstituterFailed(u) if u.value() == "https://c.example.com/"));
    assert_eq!(ResolveNarInfoError::Fetch.message(), "could not fetch narinfo");
}

#[test]
fn resolution_of_serves_best_answer() {
    let service = NarResolutionService::new(NarUrlRewriteOption::ToSelf, 10);
    let mut round = service.start_query(three(), 0);
    round.on_query_finished(0, Ok(Some(data(10))));
    let (answer, _) = round.finish();
    let resolution = service.resolution_of(answer).unwrap().unwrap();
    match resolution {
        NarInfoResolution::Resolved { source_url, nar_info, .. } => {
            assert_eq!(source_url.value(), "https://a.example.com/nar/abc.nar.xz");
            assert!(nar_info.content().contains("URL: nar/abc.nar.xz\n"));
        }
        NarInfoResolution::NotFound => panic!("expected Resolved"),
    }
    assert!(matches!(
        service.resolution_of(Err(ResolveNarInfoError::Fetch)),
        Some(Err(ResolveNarInfoError::Fetch))
    ));
    assert!(matches!(
        service.resolution_of(Ok(None)),
        Some(Ok(NarInfoResolution::NotFound))
    ));
}
