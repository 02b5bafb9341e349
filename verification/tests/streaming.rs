use selector4nix::domain::common::expire_at::ExpireAt;
use selector4nix::domain::common::time::{Span, WallTime, MAX_UNIX_SECS};
use selector4nix::domain::nar_file::nar_file::NarFile;
use selector4nix::domain::nar_file::nar_file_key::NarFileKey;
use selector4nix::domain::nar_file::nar_file_location::NarFileLocation;
use selector4nix::domain::nar_file::service::{
    NarFileService, StreamNarFileError, StreamNext, StreamOutcome, StreamPhase,
};
use selector4nix::domain::nar_info::deadline_group::DeadlineGroup;
use selector4nix::domain::nar_info::nar_file_name::NarFileName;
use selector4nix::domain::nar_info::proxy_nar_info_data::ProxyNarInfoData;
use selector4nix::domain::substituter::availability::MAX_DELAY_MS;
use selector4nix::domain::substituter::substituter::is_valid_now;
use selector4nix::domain::substituter::url::Url;

fn name() -> NarFileName {
    NarFileName::new("abc.nar.xz".into()).unwrap()
}

fn location(url: &str) -> NarFileLocation {
    NarFileLocation::new(Url::new(url).unwrap(), None)
}

fn located_file(url: &str, expire_secs: u64) -> NarFile {
    NarFile::new(NarFileKey::from_file_name(&name()))
        .on_located(location(url), ExpireAt::new(WallTime::new(expire_secs, 0)))
}

#[test]
fn first_attempt_tries_known_location_alone() {
    let service = NarFileService::new(Span::from_secs(60));
    let file = located_file("https://a.example.com/nar/abc.nar.xz", 500);
    let (phase, cached) = service.first_attempt(&file);
    assert_eq!(phase, StreamPhase::Cached);
    let cached = cached.unwrap();
    assert_eq!(cached.len(), 1);
    assert_eq!(cached[0].source_url().value(), "https://a.example.com/nar/abc.nar.xz");

    let unknown = NarFile::new(NarFileKey::from_file_name(&name()));
    let (phase, cached) = service.first_attempt(&unknown);
    assert_eq!(phase, StreamPhase::All);
    assert!(cached.is_none());
}

#[test]
fn served_from_known_location_is_done_unchanged() {
    let service = NarFileService::new(Span::from_secs(60));
    let file = located_file("https://a.example.com/nar/abc.nar.xz", 500);
    let (phase, cached) = service.first_attempt(&file);
    let served = Url::new("https://a.example.com/nar/abc.nar.xz").unwrap();
    let next = service.on_attempt(file.clone(), phase, cached.unwrap(), StreamOutcome::Served(served), WallTime::new(100, 0));
    match next {
        StreamNext::Done(f, result) => {
            assert_eq!(f, file);
            assert_eq!(result, Ok(true));
        }
        StreamNext::TryAll(_) => panic!("a served file is done with"),
    }
}

#[test]
fn known_location_failing_falls_back_to_all() {
    let service = NarFileService::new(Span::from_secs(60));
    for outcome in [StreamOutcome::Missing, StreamOutcome::Failed] {
        let file = located_file("https://a.example.com/nar/abc.nar.xz", 500);
        let (phase, cached) = service.first_attempt(&file);
        match service.on_attempt(file.clone(), phase, cached.unwrap(), outcome, WallTime::new(100, 0)) {
            StreamNext::TryAll(f) => assert_eq!(f, file),
            StreamNext::Done(..) => panic!("the known location failing falls back"),
        }
    }
}

#[test]
fn trying_all_learns_the_location_or_reports() {
    let service = NarFileService::new(Span::from_secs(60));
    let now = WallTime::new(100, 0);
    let candidates = vec![
        location("https://a.example.com/nar/abc.nar.xz"),
        location("https://b.example.com/nar/abc.nar.xz"),
    ];
    let file = NarFile::new(NarFileKey::from_file_name(&name()));
    let served = Url::new("https://b.example.com/nar/abc.nar.xz").unwrap();
    match service.on_attempt(file.clone(), StreamPhase::All, candidates.clone(), StreamOutcome::Served(served), now) {
        StreamNext::Done(f, result) => {
            assert_eq!(result, Ok(true));
            assert_eq!(f.location().unwrap().source_url().value(), "https://b.example.com/nar/abc.nar.xz");
            assert_eq!(f.expire_at().unwrap().unix_timpstamp(), 160);
        }
        StreamNext::TryAll(_) => panic!("trying all is the last attempt"),
    }

    match service.on_attempt(file.clone(), StreamPhase::All, candidates.clone(), StreamOutcome::Missing, now) {
        StreamNext::Done(f, result) => {
            assert_eq!(f, file);
            assert_eq!(result, Ok(false));
        }
        StreamNext::TryAll(_) => panic!("trying all is the last attempt"),
    }
    match service.on_attempt(file.clone(), StreamPhase::All, candidates, StreamOutcome::Failed, now) {
        StreamNext::Done(f, result) => {
            assert_eq!(f, file);
            assert_eq!(result, Err(StreamNarFileError::Infrastructure));
        }
        StreamNext::TryAll(_) => panic!("trying all is the last attempt"),
    }
}

#[test]
fn relocating_keeps_expiry_when_trying_all() {
    let service = NarFileService::new(Span::from_secs(60));
    let file = located_file("https://a.example.com/nar/abc.nar.xz", 500);
    let candidates = vec![location("https://b.example.com/nar/abc.nar.xz")];
    let served = Url::new("https://b.example.com/nar/abc.nar.xz").unwrap();
    match service.on_attempt(file, StreamPhase::All, candidates, StreamOutcome::Served(served), WallTime::new(100, 0)) {
        StreamNext::Done(f, result) => {
            assert_eq!(result, Ok(true));
            assert_eq!(f.location().unwrap().source_url().value(), "https://b.example.com/nar/abc.nar.xz");
            assert_eq!(f.expire_at().unwrap().unix_timpstamp(), 500);
        }
        StreamNext::TryAll(_) => panic!("trying all is the last attempt"),
    }
}

#[test]
fn valid_now_bounds() {
    assert!(is_valid_now(0));
    assert!(is_valid_now(u64::MAX - MAX_DELAY_MS));
    assert!(!is_valid_now(u64::MAX - MAX_DELAY_MS + 1));
    assert!(!is_valid_now(u64::MAX));
}

#[test]
fn wall_time_try_new_bounds() {
    let t = WallTime::try_new(MAX_UNIX_SECS, 999_999_999).unwrap();
    assert_eq!(t.secs(), MAX_UNIX_SECS);
    assert_eq!(t.subsec_nanos(), 999_999_999);
    assert!(WallTime::try_new(MAX_UNIX_SECS + 1, 0).is_none());
    assert!(WallTime::try_new(0, 1_000_000_000).is_none());
}

#[test]
fn proxy_nar_info_from_parts_keeps_them() {
    let data = ProxyNarInfoData::from_parts("StorePath: /nix/store/x\\n".into(), name());
    assert_eq!(data.content(), "StorePath: /nix/store/x\\n");
    assert_eq!(data.nar_file().value(), "abc.nar.xz");
}

#[test]
fn deadline_group_keeps_earliest_per_key() {
    let mut group = DeadlineGroup::new();
    assert!(group.is_empty());
    assert_eq!(group.earliest(), None);
    group.insert_or_set_earlier(1, 300);
    group.insert_or_set_earlier(2, 200);
    group.insert_or_set_earlier(1, 400);
    assert_eq!(group.earliest(), Some((2, 200)));
    group.insert_or_set_earlier(1, 100);
    assert_eq!(group.earliest(), Some((1, 100)));
    group.remove(1);
    assert_eq!(group.earliest(), Some((2, 200)));
    group.remove(2);
    assert!(group.is_empty());
}
