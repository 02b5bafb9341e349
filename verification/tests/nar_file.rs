use std::time::{Duration, SystemTime, UNIX_EPOCH};

use selector4nix::domain::common::expire_at::ExpireAt;
use selector4nix::domain::common::time::{Span, WallTime};
use selector4nix::domain::nar_file::nar_file::NarFile;
use selector4nix::domain::nar_file::nar_file_key::NarFileKey;
use selector4nix::domain::nar_file::nar_file_location::NarFileLocation;
use selector4nix::domain::nar_info::nar_file_name::NarFileName;
use selector4nix::domain::substituter::url::Url;

fn wall(t: SystemTime) -> WallTime {
    let d = t.duration_since(UNIX_EPOCH).unwrap();
    WallTime::new(d.as_secs(), d.subsec_nanos())
}

fn make_nar_file(expire_at: SystemTime) -> NarFile {
    let nar_file_name = NarFileName::new("abc123.nar.xz".into()).unwrap();
    let key = NarFileKey::from_file_name(&nar_file_name);
    let location =
        NarFileLocation::new(Url::new("https://example.com/abc123.nar.xz").unwrap(), None);
    NarFile::new(key).on_located(location, ExpireAt::new(wall(expire_at)))
}

#[test]
fn check_expiry_and_update_clears_location_given_expired() {
    let now = SystemTime::now();
    let expire_at = now - Duration::from_secs(1);

    let nar_file = make_nar_file(expire_at);
    let nar_file = nar_file.check_expiry_and_update(wall(now));

    assert!(nar_file.location().is_none());
}

#[test]
fn check_expiry_and_update_preserves_location_given_not_expired() {
    let now = SystemTime::now();
    let expire_at = now + Duration::from_secs(1);

    let nar_file = make_nar_file(expire_at);
    let nar_file = nar_file.check_expiry_and_update(wall(now));

    assert!(nar_file.location().is_some());
}

#[test]
fn new_succeeds_given_compression() {
    let name =
        NarFileName::new("1w1fff338fvdw53sqgamddn1b2xgds473pv6y13gizdbqjv4i5p3.nar.xz".into())
            .unwrap();
    let key = NarFileKey::from_file_name(&name);
    assert_eq!(
        key.file_hash(),
        "1w1fff338fvdw53sqgamddn1b2xgds473pv6y13gizdbqjv4i5p3",
    );
    assert_eq!(key.compression(), Some("xz"));
}

#[test]
fn new_succeeds_given_no_compression() {
    let name =
        NarFileName::new("0mcjpwqknlcvkb42x5kyn7pmxa6ibpmrxqrcgzjm6fhwl99v19kd.nar".into())
            .unwrap();
    let key = NarFileKey::from_file_name(&name);
    assert_eq!(
        key.file_hash(),
        "0mcjpwqknlcvkb42x5kyn7pmxa6ibpmrxqrcgzjm6fhwl99v19kd",
    );
}

#[test]
fn nar_file_key_round_trips_through_file_name() {
    let name = NarFileName::new("abc.nar.zst".into()).unwrap();
    let key = NarFileKey::from_file_name(&name);
    assert_eq!(key.file_hash(), "abc");
    assert_eq!(key.compression(), Some("zst"));
    assert_eq!(key.to_file_name().value(), "abc.nar.zst");

    let key = NarFileKey::new("def".into()).with_compression(Some("xz".into()));
    let again = NarFileKey::from_file_name(&key.to_file_name());
    assert_eq!(again.file_hash(), "def");
    assert_eq!(again.compression(), Some("xz"));
}

#[test]
fn nar_file_key_without_compression_names_bare_nar() {
    let key = NarFileKey::new("def".into());
    assert_eq!(key.compression(), None);
    assert_eq!(key.to_file_name().value(), "def.nar");
}

#[test]
fn on_relocated_keeps_expiry() {
    let now = SystemTime::now();
    let nar_file = make_nar_file(now + Duration::from_secs(60));
    let expiry = nar_file.expire_at();
    let moved = NarFileLocation::new(Url::new("https://other.example.com/abc123.nar.xz").unwrap(), None);
    let nar_file = nar_file.on_relocated(moved);
    assert_eq!(nar_file.expire_at(), expiry);
    assert_eq!(
        nar_file.location().unwrap().source_url().value(),
        "https://other.example.com/abc123.nar.xz"
    );
}

#[test]
fn on_relocated_leaves_unknown_location_unknown() {
    let key = NarFileKey::new("abc".into());
    let moved = NarFileLocation::new(Url::new("https://other.example.com/abc.nar").unwrap(), None);
    let nar_file = NarFile::new(key).on_relocated(moved);
    assert!(nar_file.location().is_none());
}

#[test]
fn expire_at_since_carries_nanoseconds() {
    let created = WallTime::new(100, 600_000_000);
    let ttl = Span::new(10, 500_000_000);
    assert_eq!(ExpireAt::since(created, ttl).unix_timpstamp(), 111);
    let ttl = Span::new(10, 300_000_000);
    assert_eq!(ExpireAt::since(created, ttl).unix_timpstamp(), 110);
    let e = ExpireAt::new(WallTime::new(50, 999_999_999));
    assert!(e.has_expired(WallTime::new(50, 0)));
    assert!(!e.has_expired(WallTime::new(49, 999_999_999)));
}

#[test]
fn expire_at_try_since_refuses_overflow() {
    let created = WallTime::new(0x7fff_ffff_ffff_fff0, 900_000_000);
    assert_eq!(ExpireAt::try_since(created, Span::new(15, 0)).unwrap().unix_timpstamp(), 0x7fff_ffff_ffff_ffff);
    assert!(ExpireAt::try_since(created, Span::new(15, 200_000_000)).is_none());
    assert!(ExpireAt::try_since(created, Span::new(16, 0)).is_none());
    assert!(ExpireAt::try_since(created, Span::new(u64::MAX, 0)).is_none());
}

#[test]
fn check_expiry_settles_and_expiry_stays() {
    let now = SystemTime::now();
    let nar_file = make_nar_file(now - Duration::from_secs(3));
    let once = nar_file.clone().check_expiry_and_update(wall(now));
    let twice = once.clone().check_expiry_and_update(wall(now));
    assert_eq!(once, twice);

    let e = ExpireAt::new(wall(now));
    assert!(e.has_expired(wall(now)));
    assert!(e.has_expired(wall(now + Duration::from_secs(10))));
}
