use selector4nix::actor::{ActorPreBuilder, DEFAULT_REQUESTER_CAPACITY};
use selector4nix::api::{
    nar_response_headers, nix_cache_info_body, parse_nar_info_path, parse_nar_path, CacheInfo,
    NixCacheInfoQuery,
};
use selector4nix::application::error::{AppError, AppErrorKind, AppOptionExt, AppResultExt};
use selector4nix::application::nar_file::{initial_state, on_set_location};
use selector4nix::application::nar_info::{
    cached_response, eviction_event, on_resolution, response_result, substituter_request_for,
};
use selector4nix::application::substituter::{
    availability_notice, metas_of, on_internal, on_request, SubstituterAvailabilityEvent,
    SubstituterInternal, SubstituterRequest,
};
use selector4nix::cache_kv::{cleanup_due, entry_alive, UnixTimestampArg};
use selector4nix::cli::{Cli, Commands, LogLevel};
use selector4nix::domain::common::expire_at::ExpireAt;
use selector4nix::domain::common::passthrough_headers::PassthroughHeaders;
use selector4nix::domain::common::time::{Span, WallTime};
use selector4nix::domain::common::upstream_status::{upstream_status, UpstreamStatus};
use selector4nix::domain::nar_file::nar_file::NarFile;
use selector4nix::domain::nar_file::nar_file_key::NarFileKey;
use selector4nix::domain::nar_file::nar_file_location::NarFileLocation;
use selector4nix::domain::nar_file::service::{
    NarFileService, NarStreamHeaders, StreamNarFileError, StreamOutcome,
};
use selector4nix::domain::nar_info::nar_file_index::NarFileEvent;
use selector4nix::domain::nar_info::nar_file_name::NarFileName;
use selector4nix::domain::nar_info::nar_info::NarInfo;
use selector4nix::domain::nar_info::nar_info_resolution::{NarInfoResolution, NarUrlRewriteOption};
use selector4nix::domain::nar_info::resolution::{NarResolutionEvent, ResolveNarInfoError};
use selector4nix::domain::nar_info::store_path_hash::StorePathHash;
use selector4nix::domain::nar_info::upstream_nar_info_data::UpstreamNarInfoData;
use selector4nix::domain::substituter::availability::Availability;
use selector4nix::domain::substituter::priority::Priority;
use selector4nix::domain::substituter::substituter::{Substituter, UpdateSubstituterEvent};
use selector4nix::domain::substituter::substituter_meta::SubstituterMeta;
use selector4nix::domain::substituter::url::Url;

fn meta(url: &str) -> SubstituterMeta {
    SubstituterMeta::new(Url::new(url).unwrap(), Priority::new(40))
}

#[test]
fn app_error_kinds_and_responses() {
    let e = AppError::not_found();
    assert_eq!(e.kind(), AppErrorKind::NotFound);
    assert_eq!(e.kind().status_code(), 404);
    assert_eq!(e.response_message(), "404 NOT FOUND - data or entity doesn't exist");
    let e = AppError::message(AppErrorKind::Infrastructure, "down".into());
    assert_eq!(e.kind().status_code(), 502);
    assert_eq!(e.response_message(), "502 BAD GATEWAY - infrastructure error");
    let e = AppError::new(AppErrorKind::Unknown, anyhow::Error::msg("x"));
    assert_eq!(e.response_message(), "500 INTERNAL SERVER ERROR - unknown error");
    assert_eq!(AppErrorKind::Input.status_code(), 400);
    assert_eq!(AppErrorKind::Rule.status_code(), 422);
}

#[test]
fn flat_and_wrap() {
    assert_eq!(Some(3).flat().unwrap(), 3);
    assert_eq!(None::<u8>.flat().unwrap_err().kind(), AppErrorKind::NotFound);
    let r: Result<Option<u8>, AppError> = Ok(None);
    assert_eq!(r.flat().unwrap_err().kind(), AppErrorKind::NotFound);
    let r: Result<Option<u8>, AppError> = Err(AppError::message(AppErrorKind::Rule, "r".into()));
    assert_eq!(r.flat().unwrap_err().kind(), AppErrorKind::Rule);
    let r: Result<u8, anyhow::Error> = Err(anyhow::Error::msg("gone"));
    assert_eq!(r.wrap(AppErrorKind::Unknown).unwrap_err().kind(), AppErrorKind::Unknown);
    let r: Result<u8, anyhow::Error> = Ok(1);
    assert_eq!(r.wrap(AppErrorKind::Unknown).unwrap(), 1);
}

fn hash() -> StorePathHash {
    StorePathHash::new("p4pclmv1gyja5kzc26npqpia1qqxrf0l".into()).unwrap()
}

fn resolved() -> NarInfoResolution {
    let upstream = UpstreamNarInfoData::new(
        "StorePath: /nix/store/p4pclmv1gyja5kzc26npqpia1qqxrf0l-hello\nURL: nar/abc.nar.xz\n"
            .into(),
    )
    .unwrap();
    NarInfoResolution::from_completed_query(
        Some((upstream, meta("https://cache.example.com"))),
        NarUrlRewriteOption::ToSelf,
    )
}

#[test]
fn nar_request_lifecycle() {
    let nar = NarInfo::new(hash());
    assert!(cached_response(&nar).is_none());
    assert!(eviction_event(&nar).is_none());

    let events = vec![NarResolutionEvent::SubstituterSucceeded(Url::new("https://a.example.com").unwrap())];
    let (nar, response, registration) =
        on_resolution(nar, Ok(resolved()), events, ExpireAt::new(WallTime::new(100, 0)));
    assert_eq!(response.events.len(), 1);
    let served = response.result.unwrap().unwrap();
    assert_eq!(served.nar_file().value(), "abc.nar.xz");
    match registration.unwrap() {
        NarFileEvent::Registered { nar_file, location } => {
            assert_eq!(nar_file.value(), "abc.nar.xz");
            assert_eq!(location.source_url().value(), "https://cache.example.com/nar/abc.nar.xz");
        }
        NarFileEvent::Evicted { .. } => panic!("expected Registered"),
    }

    let cached = cached_response(&nar).unwrap();
    assert!(cached.events.is_empty());
    assert_eq!(cached.result.unwrap().unwrap().nar_file().value(), "abc.nar.xz");
    assert!(matches!(eviction_event(&nar), Some(NarFileEvent::Evicted { nar_file }) if nar_file.value() == "abc.nar.xz"));

    let fresh = NarInfo::new(hash());
    let (same, response, registration) =
        on_resolution(fresh, Err(ResolveNarInfoError::Fetch), Vec::new(), ExpireAt::new(WallTime::new(100, 0)));
    assert!(same.resolution().is_none());
    assert!(matches!(response.result, Err(ResolveNarInfoError::Fetch)));
    assert!(registration.is_none());
}

#[test]
fn response_results() {
    assert_eq!(response_result(Ok(None)).unwrap_err().kind(), AppErrorKind::NotFound);
    assert_eq!(
        response_result(Err(ResolveNarInfoError::Fetch)).unwrap_err().kind(),
        AppErrorKind::Infrastructure
    );
    let (url, request) = substituter_request_for(&NarResolutionEvent::SubstituterFailed(
        Url::new("https://a.example.com").unwrap(),
    ));
    assert_eq!(url.value(), "https://a.example.com/");
    assert_eq!(request, SubstituterRequest::ServiceError);
}

#[test]
fn substituter_actor_transitions() {
    let s = Substituter::new(meta("https://a.example.com"), Availability::Normal);
    let (s, events) = on_request(s, SubstituterRequest::ServiceOffline, 1_000);
    assert!(s.is_unavailable());
    assert_eq!(events[1], UpdateSubstituterEvent::ScheduleRetryReady(11_000));
    match availability_notice(&s, &events[0]).unwrap() {
        SubstituterAvailabilityEvent::BecameUnavailable(u) => assert_eq!(u.value(), "https://a.example.com/"),
        SubstituterAvailabilityEvent::BecameAvailable(_) => panic!("expected BecameUnavailable"),
    }
    assert!(availability_notice(&s, &events[1]).is_none());
    let (s, events) = on_internal(s, SubstituterInternal::NextRetryReady);
    assert!(s.is_maybe_ready());
    assert_eq!(events, vec![UpdateSubstituterEvent::ScheduleProbing(None)]);
    let (s, events) = on_request(s, SubstituterRequest::ServiceSuccessful, 2_000);
    assert!(s.is_normal());
    assert!(matches!(availability_notice(&s, &events[0]), Some(SubstituterAvailabilityEvent::BecameAvailable(_))));
    let metas = metas_of(&vec![s]);
    assert_eq!(metas[0].url().value(), "https://a.example.com/");
}

#[test]
fn request_paths() {
    let h = parse_nar_info_path("p4pclmv1gyja5kzc26npqpia1qqxrf0l.narinfo").unwrap();
    assert_eq!(h.value(), "p4pclmv1gyja5kzc26npqpia1qqxrf0l");
    assert_eq!(parse_nar_info_path("p4pclmv1gyja5kzc26npqpia1qqxrf0l").unwrap_err().kind(), AppErrorKind::Input);
    assert_eq!(parse_nar_info_path("short.narinfo").unwrap_err().kind(), AppErrorKind::Input);
    assert_eq!(parse_nar_info_path("").unwrap_err().kind(), AppErrorKind::Input);
    assert_eq!(parse_nar_path("abc.nar.xz".into()).unwrap().value(), "abc.nar.xz");
    assert_eq!(parse_nar_path("a/b.nar".into()).unwrap_err().kind(), AppErrorKind::Input);
}

#[test]
fn cache_info_body() {
    let info = CacheInfo { store_dir: "/nix/store".into(), want_mass_query: true, priority: Priority::new(30) };
    assert_eq!(
        nix_cache_info_body(&info, &NixCacheInfoQuery { priority: None }),
        "StoreDir: /nix/store\nWantMassQuery: 1\nPriority: 30\n"
    );
    let info = CacheInfo { store_dir: "/nix/store".into(), want_mass_query: false, priority: Priority::new(30) };
    assert_eq!(
        nix_cache_info_body(&info, &NixCacheInfoQuery { priority: Some(4_294_967_295) }),
        "StoreDir: /nix/store\nWantMassQuery: 0\nPriority: 4294967295\n"
    );
    assert_eq!(
        nix_cache_info_body(&info, &NixCacheInfoQuery { priority: Some(0) }),
        "StoreDir: /nix/store\nWantMassQuery: 0\nPriority: 0\n"
    );
}

#[test]
fn nar_headers() {
    let h = NarStreamHeaders { content_length: Some(1024), content_type: None, content_encoding: Some("br".into()) };
    assert_eq!(
        nar_response_headers(&h),
        vec![
            ("content-length".to_string(), "1024".to_string()),
            ("content-type".to_string(), "application/x-nix-nar".to_string()),
            ("content-encoding".to_string(), "br".to_string()),
        ]
    );
    let h = NarStreamHeaders { content_length: None, content_type: Some("text/plain".into()), content_encoding: None };
    assert_eq!(nar_response_headers(&h), vec![("content-type".to_string(), "text/plain".to_string())]);
}

#[test]
fn nar_file_streaming_decisions() {
    let service = NarFileService::new(Span::from_secs(3600));
    let name = NarFileName::new("abc.nar.xz".into()).unwrap();
    let metas = vec![meta("https://a.example.com"), meta("https://b.example.com/store")];
    let candidates = service.build_candidates_from_all(&name, &metas).unwrap();
    assert_eq!(candidates[0].source_url().value(), "https://a.example.com/nar/abc.nar.xz");
    assert_eq!(candidates[1].source_url().value(), "https://b.example.com/store/nar/abc.nar.xz");

    let file = NarFile::new(NarFileKey::from_file_name(&name));
    assert!(service.cached_candidates(&file).is_none());
    let served = Url::new("https://b.example.com/store/nar/abc.nar.xz").unwrap();
    assert_eq!(NarFileService::find_candidate(&candidates, &served), Some(1));
    let now = WallTime::new(1_000, 0);
    let (file, result) = service.on_stream_outcome(file, candidates, StreamOutcome::Served(served), now);
    assert_eq!(result, Ok(true));
    assert_eq!(file.location().unwrap().source_url().value(), "https://b.example.com/store/nar/abc.nar.xz");
    assert_eq!(file.expire_at().unwrap().unix_timpstamp(), 4_600);
    assert_eq!(service.cached_candidates(&file).unwrap().len(), 1);

    let (file, result) = service.on_stream_outcome(file, Vec::new(), StreamOutcome::Failed, now);
    assert_eq!(result, Err(StreamNarFileError::Infrastructure));
    assert!(file.location().is_some());
    let (_, result) = service.on_stream_outcome(file, Vec::new(), StreamOutcome::Missing, now);
    assert_eq!(result, Ok(false));
    assert_eq!(StreamNarFileError::Infrastructure.message(), "failed to stream nar file");
}

#[test]
fn nar_file_actor_decisions() {
    let key = NarFileKey::new("abc".into());
    let file = initial_state(key, None);
    assert!(file.location().is_none());
    let location = NarFileLocation::new(Url::new("https://a.example.com/nar/abc.nar").unwrap(), None);
    let file = on_set_location(file, location, WallTime::new(10, 500_000_000), Span::new(5, 600_000_000));
    assert_eq!(file.expire_at().unwrap().unix_timpstamp(), 16);
    let again = initial_state(NarFileKey::new("other".into()), Some(file.clone()));
    assert_eq!(again, file);
}

#[test]
fn cache_kv_rules() {
    assert!(entry_alive(11, 10));
    assert!(!entry_alive(10, 10));
    assert!(cleanup_due(0, 30));
    assert!(!cleanup_due(0, 29));
    assert!(!cleanup_due(u64::MAX - 5, u64::MAX - 1));
    assert!(cleanup_due(u64::MAX - 5, u64::MAX));
    assert_eq!(UnixTimestampArg::Pure(42).get(), Some(42));
    assert!(UnixTimestampArg::SystemNow.get().unwrap() > 1_600_000_000);
}

#[test]
fn cli_and_builder() {
    assert_eq!(LogLevel::Warn.as_str(), "warn");
    assert_eq!(LogLevel::Trace.as_str(), "trace");
    let cli = Cli { command: None, config_file: None, log_level: None, no_log_timestamp: false };
    assert_eq!(cli.command_or_default(), Commands::Serve);
    let builder: ActorPreBuilder<u8> = ActorPreBuilder::new();
    assert_eq!(builder.requester_capacity(), DEFAULT_REQUESTER_CAPACITY);
    assert_eq!(builder.capacity(8).requester_capacity(), 8);
    let builder: ActorPreBuilder<u8> = Default::default();
    assert_eq!(builder.requester_capacity(), 64);
}

#[test]
fn passthrough_user_agent() {
    let h = PassthroughHeaders::with_user_agent(Some(b"Nix/2.18".to_vec())).proxyed();
    assert_eq!(h.user_agent().unwrap(), &b"Nix/2.18 selector4nix/0.1.0".to_vec());
    let h = PassthroughHeaders::with_user_agent(Some(Vec::new())).proxyed();
    assert_eq!(h.user_agent().unwrap().len(), 0);
    assert!(PassthroughHeaders::empty().proxyed().user_agent().is_none());
}

#[test]
fn upstream_statuses() {
    assert_eq!(upstream_status(200), UpstreamStatus::Found);
    assert_eq!(upstream_status(299), UpstreamStatus::Found);
    assert_eq!(upstream_status(404), UpstreamStatus::Missing);
    assert_eq!(upstream_status(403), UpstreamStatus::Missing);
    assert_eq!(upstream_status(500), UpstreamStatus::Failed);
    assert_eq!(upstream_status(302), UpstreamStatus::Failed);
}
