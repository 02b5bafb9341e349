use selector4nix::domain::common::expire_at::ExpireAt;
use selector4nix::domain::common::time::{Span, WallTime};
use selector4nix::domain::nar_info::nar_info_resolution::{NarInfoResolution, NarUrlRewriteOption};
use selector4nix::domain::nar_info::proxy_nar_info_data::ProxyNarInfoData;
use selector4nix::domain::nar_info::upstream_nar_info_data::UpstreamNarInfoData;
use selector4nix::domain::substituter::priority::Priority;
use selector4nix::domain::substituter::substituter_meta::SubstituterMeta;
use selector4nix::domain::substituter::url::Url;

fn upstream(url_line: &str) -> UpstreamNarInfoData {
    UpstreamNarInfoData::new(format!("StorePath: /nix/store/abc-hello\n{url_line}\nCompression: xz\n")).unwrap()
}

fn meta() -> SubstituterMeta {
    SubstituterMeta::new(Url::new("https://cache.example.com/store").unwrap(), Priority::new(40))
}

#[test]
fn expire_at_since_equals_new_of_later_time() {
    let since = ExpireAt::since(WallTime::new(10, 0), Span::from_secs(5));
    assert_eq!(since, ExpireAt::new(WallTime::new(15, 0)));
    assert_eq!(since.unix_timpstamp(), 15);
}

#[test]
fn expire_at_new_of_own_seconds_gives_it_back() {
    let e = ExpireAt::since(WallTime::new(1_000, 700_000_000), Span::new(20, 400_000_000));
    assert_eq!(e.unix_timpstamp(), 1_021);
    assert_eq!(ExpireAt::new(WallTime::new(e.unix_timpstamp(), 0)), e);
    assert!(e.has_expired(WallTime::new(1_021, 0)));
    assert!(!e.has_expired(WallTime::new(1_020, 999_999_999)));
}

#[test]
fn with_query_params_sets_query_and_keeps_path() {
    let u = Url::new("https://cache.example.com/store/nar/abc.nar.xz").unwrap();
    let a = u.clone().with_query_params(Some("token=abc"));
    assert_eq!(a.query(), Some("token=abc"));
    assert_eq!(a.path(), u.path());
    assert_eq!(a.value(), "https://cache.example.com/store/nar/abc.nar.xz?token=abc");
    let b = a.clone().with_query_params(None);
    assert_eq!(b.query(), None);
    assert_eq!(b.path(), u.path());
    assert_eq!(b.value(), u.value());
}

#[test]
fn proxies_agree_on_source_and_file() {
    for line in ["URL: nar/abc.nar.xz?token=t", "URL: https://other.com/custom/abc.nar.xz"] {
        let up = upstream(line);
        let (p1, u1) = ProxyNarInfoData::proxy_by_keep_url(&up, &meta());
        let (p2, u2) = ProxyNarInfoData::proxy_by_rewrite_url_to_self(&up, &meta());
        let (p3, u3) = ProxyNarInfoData::proxy_by_rewrite_url_to_upstream(&up, &meta());
        assert_eq!(u1, u2);
        assert_eq!(u2, u3);
        assert_eq!(p1.content(), up.content());
        assert_eq!(
            p2.content(),
            &format!("StorePath: /nix/store/abc-hello\nURL: nar/{}\nCompression: xz\n", up.nar_file().value())
        );
        assert_eq!(
            p3.content(),
            &format!("StorePath: /nix/store/abc-hello\nURL: {}\nCompression: xz\n", u3.value())
        );
        assert_eq!(p1.nar_file(), up.nar_file());
        assert_eq!(p2.nar_file(), up.nar_file());
        assert_eq!(p3.nar_file(), up.nar_file());
    }
}

#[test]
fn resolution_is_the_chosen_proxy() {
    let up = upstream("URL: nar/abc.nar.xz");
    for option in [NarUrlRewriteOption::Keep, NarUrlRewriteOption::ToSelf, NarUrlRewriteOption::ToUpstream] {
        let (nar_info, source_url) = match option {
            NarUrlRewriteOption::Keep => ProxyNarInfoData::proxy_by_keep_url(&up, &meta()),
            NarUrlRewriteOption::ToSelf => ProxyNarInfoData::proxy_by_rewrite_url_to_self(&up, &meta()),
            NarUrlRewriteOption::ToUpstream => ProxyNarInfoData::proxy_by_rewrite_url_to_upstream(&up, &meta()),
        };
        let resolved = NarInfoResolution::from_completed_query(Some((upstream("URL: nar/abc.nar.xz"), meta())), option);
        assert_eq!(resolved, NarInfoResolution::Resolved { nar_info, substituter: meta(), source_url });
        assert_eq!(NarInfoResolution::from_completed_query(None, option), NarInfoResolution::NotFound);
    }
}
