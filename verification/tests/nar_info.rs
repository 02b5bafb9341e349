use std::time::{Duration, SystemTime, UNIX_EPOCH};

use selector4nix::domain::common::expire_at::ExpireAt;
use selector4nix::domain::common::time::WallTime;
use selector4nix::domain::nar_info::nar_file_name::{NarFileName, TryNewNarFileNameError};
use selector4nix::domain::nar_info::nar_info::NarInfo;
use selector4nix::domain::nar_info::nar_info_data::NarInfoData;
use selector4nix::domain::nar_info::nar_info_resolution::{NarInfoResolution, NarUrlRewriteOption};
use selector4nix::domain::nar_info::proxy_nar_info_data::ProxyNarInfoData;
use selector4nix::domain::nar_info::store_path_hash::{StorePathHash, TryNewStorePathHashError};
use selector4nix::domain::nar_info::upstream_nar_info_data::UpstreamNarInfoData;
use selector4nix::domain::substituter::priority::Priority;
use selector4nix::domain::substituter::substituter_meta::SubstituterMeta;
use selector4nix::domain::substituter::url::Url;

fn wall(t: SystemTime) -> WallTime {
    let d = t.duration_since(UNIX_EPOCH).unwrap();
    WallTime::new(d.as_secs(), d.subsec_nanos())
}

// --- nar file names

#[test]
fn nar_file_name_new_succeeds() {
    let name =
        NarFileName::new("1w1fff338fvdw53sqgamddn1b2xgds473pv6y13gizdbqjv4i5p3.nar.xz".into())
            .unwrap();
    assert_eq!(
        name.value(),
        "1w1fff338fvdw53sqgamddn1b2xgds473pv6y13gizdbqjv4i5p3.nar.xz"
    );
}

#[test]
fn new_fails_given_empty() {
    assert!(matches!(
        NarFileName::new("".into()),
        Err(TryNewNarFileNameError::Empty)
    ));
}

#[test]
fn nar_file_name_new_fails_given_slash() {
    assert!(matches!(
        NarFileName::new("nar/abc.nar.xz".into()),
        Err(TryNewNarFileNameError::ContainsSlash)
    ));
}

#[test]
fn new_fails_given_no_nar_extension() {
    assert!(matches!(
        NarFileName::new("abc.txt".into()),
        Err(TryNewNarFileNameError::MissingNarExtension)
    ));
}

#[test]
fn nar_file_name_refuses_marker_without_extension() {
    for name in ["a.narx", "x.narinfo", "abc.nar-xz", "nar.xz"] {
        assert!(
            matches!(
                NarFileName::new(name.into()),
                Err(TryNewNarFileNameError::MissingNarExtension)
            ),
            "{name}"
        );
    }
}

#[test]
fn nar_file_name_accepts_trailing_nar_and_inner_extension() {
    for name in ["abc.nar", "abc.nar.xz", "a.narx.nar.zst", ".nar"] {
        assert_eq!(NarFileName::new(name.into()).unwrap().value(), name);
    }
}

#[test]
fn with_storage_prefix_succeeds() {
    let name = NarFileName::new("abc.nar.xz".into()).unwrap();
    let prefix = Url::new("https://cache.nixos.org/nar").unwrap();
    let url = name.with_storage_prefix(&prefix);
    assert_eq!(url.value(), "https://cache.nixos.org/nar/abc.nar.xz");
}

#[test]
fn nar_file_name_error_messages() {
    assert_eq!(
        TryNewNarFileNameError::ContainsSlash.message(),
        "nar file name should not contain `/`"
    );
    assert_eq!(
        TryNewNarFileNameError::MissingNarExtension.message(),
        "nar file name should end with `.nar.{compression}`"
    );
}

// --- narinfo expiry

fn make_hash() -> StorePathHash {
    StorePathHash::new("p4pclmv1gyja5kzc26npqpia1qqxrf0l".into()).unwrap()
}

fn make_nar_info(expire_at: SystemTime) -> NarInfo {
    let hash = make_hash();
    let nar = NarInfo::new(hash.clone());
    nar.on_resolved(NarInfoResolution::NotFound, ExpireAt::new(wall(expire_at)))
}

#[test]
fn check_expiry_and_update_changed_to_unknown_given_expired() {
    let now = SystemTime::now();
    let expire_at = now - Duration::from_secs(1);

    let nar_info = make_nar_info(expire_at);
    let nar_info = nar_info.check_expiry_and_update(wall(now));

    assert!(nar_info.resolution().is_none());
}

#[test]
fn check_expiry_and_update_kept_unchanged_given_not_expired() {
    let now = SystemTime::now();
    let expire_at = now + Duration::from_secs(1);

    let nar_info = make_nar_info(expire_at);
    let nar_info = nar_info.check_expiry_and_update(wall(now));

    assert!(nar_info.resolution().is_some());
}

#[test]
fn check_expiry_twice_is_once() {
    let now = SystemTime::now();
    let nar_info = make_nar_info(now - Duration::from_secs(5));
    let once = nar_info.clone().check_expiry_and_update(wall(now));
    let twice = once.clone().check_expiry_and_update(wall(now));
    assert_eq!(once, twice);
}

// --- narinfo data

#[test]
fn nar_info_data_new_succeeds() {
    let mut content = String::new();
    content.push_str("StorePath: /nix/store/p4pclmv1gyja5kzc26npqpia1qqxrf0l-ruby-2.7.3\n");
    content.push_str("URL: nar/1w1fff338fvdw53sqgamddn1b2xgds473pv6y13gizdbqjv4i5p3.nar.xz\n");
    content.push_str("Compression: xz\n");
    content.push_str("FileHash: sha256:1w1fff338fvdw53sqgamddn1b2xgds473pv6y13gizdbqjv4i5p3\n");
    content.push_str("FileSize: 4029176\n");
    content.push_str("NarHash: sha256:1impfw8zdgisxkghq9a3q7cn7jb9zyzgxdydiamp8z2nlyyl0h5h\n");
    content.push_str("NarSize: 18735072\n");
    content.push_str("References: 0d71ygfwbmy1xjlbj1v027dfmy9cqavy-libffi-3.3 0dbbrvlw2rahvzi69bmpqy1z9mvzg62s-gdbm-1.19 0i6vphc3vnr8mg0gxjr61564hnp0s2md-gnugrep-3.6 0vkw1m51q34dr64z5i87dy99an4hfmyg-coreutils-8.32 64ylsrpd025kcyi608w3dqckzyz57mdc-libyaml-0.2.5 65ys3k6gn2s27apky0a0la7wryg3az9q-zlib-1.2.11 9m4hy7cy70w6v2rqjmhvd7ympqkj6yxk-ncurses-6.2 a4yw1svqqk4d8lhwinn9xp847zz9gfma-bash-4.4-p23 hbm0951q7xrl4qd0ccradp6bhjayfi4b-openssl-1.1.1k hjwjf3bj86gswmxva9k40nqx6jrb5qvl-readline-6.3p08 p4pclmv1gyja5kzc26npqpia1qqxrf0l-ruby-2.7.3 sbbifs2ykc05inws26203h0xwcadnf0l-glibc-2.32-46\n");
    content.push_str("Deriver: bidkcs01mww363s4s7akdhbl6ws66b0z-ruby-2.7.3.drv\n");
    content.push_str("Sig: cache.nixos.org-1:GrGV/Ls10TzoOaCnrcAqmPbKXFLLSBDeGNh5EQGKyuGA4K1wv1LcRVb6/sU+NAPK8lDiam8XcdJzUngmdhfTBQ==\n");

    let data = NarInfoData::rewritten(content).unwrap();
    assert_eq!(
        data.nar_file().value(),
        "1w1fff338fvdw53sqgamddn1b2xgds473pv6y13gizdbqjv4i5p3.nar.xz"
    );
    assert!(
        data.content()
            .contains("URL: nar/1w1fff338fvdw53sqgamddn1b2xgds473pv6y13gizdbqjv4i5p3.nar.xz\n")
    );
}

#[test]
fn new_rewrites_url_given_non_standard_substituter() {
    let mut content = String::new();
    content.push_str("StorePath: /nix/store/p4pclmv1gyja5kzc26npqpia1qqxrf0l-hello\n");
    content.push_str("URL: https://other.com/custom/abc.nar.xz\n");
    content.push_str("Compression: xz\n");

    let data = NarInfoData::rewritten(content).unwrap();
    assert_eq!(data.nar_file().value(), "abc.nar.xz");
    assert!(data.content().contains("URL: nar/abc.nar.xz\n"));
    assert!(!data.content().contains("https://other.com"));
}

#[test]
fn new_fails_given_no_url_field() {
    let content = "StorePath: /nix/store/abc-hello\nCompression: xz\n".to_string();
    assert!(NarInfoData::rewritten(content).is_err());
}

#[test]
fn original_preserves_content() {
    let data = NarInfoData::original(
        "StorePath: /nix/store/abc-hello\nURL: https://other.com/custom/abc.nar.xz\n".into(),
    )
    .unwrap();
    assert!(data.content().contains("https://other.com/custom/abc.nar.xz"));
    assert!(!data.content().contains("URL: nar/abc.nar.xz"));
}

#[test]
fn rewrite_url_to_self_rewrites_given_external_url() {
    let data = NarInfoData::original(
        "StorePath: /nix/store/abc-hello\nURL: https://other.com/custom/abc.nar.xz\n".into(),
    )
    .unwrap();
    let rewritten = data.rewrite_url_to_self();
    assert!(rewritten.content().contains("URL: nar/abc.nar.xz\n"));
    assert!(!rewritten.content().contains("https://other.com"));
}

#[test]
fn rewrite_url_to_self_is_idempotent() {
    let data =
        NarInfoData::rewritten("StorePath: /nix/store/abc-hello\nURL: nar/abc.nar.xz\n".into())
            .unwrap();
    let rewritten = data.clone().rewrite_url_to_self();
    assert_eq!(data, rewritten);
}

#[test]
fn nar_info_data_source_url_is_some_given_absolute_url() {
    let data = NarInfoData::original(
        "StorePath: /nix/store/abc-hello\nURL: https://other.com/custom/abc.nar.xz\n".into(),
    )
    .unwrap();
    assert!(data.source_url().is_some());
    assert_eq!(
        data.source_url().as_ref().unwrap().value(),
        "https://other.com/custom/abc.nar.xz"
    );
}

#[test]
fn nar_info_data_source_url_is_none_given_relative_path() {
    let data =
        NarInfoData::original("StorePath: /nix/store/abc-hello\nURL: nar/abc.nar.xz\n".into())
            .unwrap();
    assert!(data.source_url().is_none());
}

#[test]
fn nar_info_data_nar_file_strips_query_params() {
    let data = NarInfoData::original(
        "StorePath: /nix/store/abc-hello\nURL: nar/abc.nar.xz?X-Amz-Signature=abc123\n".into(),
    )
    .unwrap();
    assert_eq!(data.nar_file().value(), "abc.nar.xz");
    assert!(data.source_url().is_none());
}

#[test]
fn nar_info_data_source_url_preserves_query_params_given_absolute_url() {
    let data = NarInfoData::original(
        "StorePath: /nix/store/abc-hello\nURL: https://storage.com/nar/abc.nar.xz?X-Amz-Algorithm=AWS4-HMAC-SHA256&X-Amz-Signature=f776\n".into(),
    )
    .unwrap();
    let source_url = data.source_url().unwrap();
    assert!(source_url.value().contains("X-Amz-Algorithm=AWS4-HMAC-SHA256"));
    assert!(source_url.value().contains("X-Amz-Signature=f776"));
    assert_eq!(data.nar_file().value(), "abc.nar.xz");
}

#[test]
fn set_source_and_rewrite_url_points_at_storage() {
    let data =
        NarInfoData::original("StorePath: /nix/store/abc-hello\nURL: nar/abc.nar.xz\n".into())
            .unwrap();
    let storage = Url::new("https://cache.example.com/nar").unwrap();
    let data = data.set_source_and_rewrite_url(&storage);
    assert_eq!(
        data.source_url().unwrap().value(),
        "https://cache.example.com/nar/abc.nar.xz"
    );
    assert!(data.content().contains("URL: https://cache.example.com/nar/abc.nar.xz\n"));
}

// --- resolutions

fn make_upstream_nar_info_data() -> UpstreamNarInfoData {
    UpstreamNarInfoData::new(
        "StorePath: /nix/store/p4pclmv1gyja5kzc26npqpia1qqxrf0l-ruby-2.7.3\n\
         URL: nar/1w1fff338fvdw53sqgamddn1b2xgds473pv6y13gizdbqjv4i5p3.nar.xz\n"
            .into(),
    )
    .unwrap()
}

fn make_upstream_nar_info_data_with_external_url() -> UpstreamNarInfoData {
    UpstreamNarInfoData::new(
        "StorePath: /nix/store/p4pclmv1gyja5kzc26npqpia1qqxrf0l-ruby-2.7.3\n\
         URL: https://storage.example.com/nar/1w1fff338fvdw53sqgamddn1b2xgds473pv6y13gizdbqjv4i5p3.nar.xz\n"
            .into(),
    )
    .unwrap()
}

fn make_substituter_meta() -> SubstituterMeta {
    SubstituterMeta::new(
        Url::new("https://cache.nixos.org").unwrap(),
        Priority::new(40),
    )
}

#[test]
fn from_completed_query_returns_not_found_given_none() {
    let resolution = NarInfoResolution::from_completed_query(None, NarUrlRewriteOption::ToSelf);
    assert!(matches!(resolution, NarInfoResolution::NotFound));
}

#[test]
fn from_completed_query_resolves_given_relative_url() {
    let resolution = NarInfoResolution::from_completed_query(
        Some((make_upstream_nar_info_data(), make_substituter_meta())),
        NarUrlRewriteOption::ToSelf,
    );

    match resolution {
        NarInfoResolution::Resolved {
            nar_info,
            source_url,
            ..
        } => {
            assert!(nar_info.content().contains(
                "URL: nar/1w1fff338fvdw53sqgamddn1b2xgds473pv6y13gizdbqjv4i5p3.nar.xz\n"
            ));
            assert_eq!(
                source_url.value(),
                "https://cache.nixos.org/nar/1w1fff338fvdw53sqgamddn1b2xgds473pv6y13gizdbqjv4i5p3.nar.xz"
            );
        }
        _ => panic!("expected Resolved"),
    }
}

#[test]
fn from_completed_query_resolves_given_external_url_and_rewrite_true() {
    let resolution = NarInfoResolution::from_completed_query(
        Some((
            make_upstream_nar_info_data_with_external_url(),
            make_substituter_meta(),
        )),
        NarUrlRewriteOption::ToSelf,
    );

    match resolution {
        NarInfoResolution::Resolved {
            nar_info,
            source_url,
            ..
        } => {
            assert!(nar_info.content().contains(
                "URL: nar/1w1fff338fvdw53sqgamddn1b2xgds473pv6y13gizdbqjv4i5p3.nar.xz\n"
            ));
            assert!(!nar_info.content().contains("https://storage.example.com"));
            assert_eq!(
                source_url.value(),
                "https://storage.example.com/nar/1w1fff338fvdw53sqgamddn1b2xgds473pv6y13gizdbqjv4i5p3.nar.xz"
            );
        }
        _ => panic!("expected Resolved"),
    }
}

#[test]
fn from_completed_query_preserves_external_url_given_rewrite_false() {
    let resolution = NarInfoResolution::from_completed_query(
        Some((
            make_upstream_nar_info_data_with_external_url(),
            make_substituter_meta(),
        )),
        NarUrlRewriteOption::Keep,
    );

    match resolution {
        NarInfoResolution::Resolved {
            nar_info,
            source_url,
            ..
        } => {
            assert!(nar_info.content().contains("https://storage.example.com/nar/1w1fff338fvdw53sqgamddn1b2xgds473pv6y13gizdbqjv4i5p3.nar.xz"));
            assert!(!nar_info.content().contains("URL: nar/"));
            assert_eq!(
                source_url.value(),
                "https://storage.example.com/nar/1w1fff338fvdw53sqgamddn1b2xgds473pv6y13gizdbqjv4i5p3.nar.xz"
            );
        }
        _ => panic!("expected Resolved"),
    }
}

// --- proxied narinfos

fn make_upstream_relative() -> UpstreamNarInfoData {
    UpstreamNarInfoData::new(
        "StorePath: /nix/store/abc-hello\n\
         URL: nar/abc.nar.xz?query=abc\n\
         Compression: xz\n"
            .into(),
    )
    .unwrap()
}

fn make_upstream_absolute() -> UpstreamNarInfoData {
    UpstreamNarInfoData::new(
        "StorePath: /nix/store/abc-hello\n\
         URL: https://other.com/custom/abc.nar.xz\n\
         Compression: xz\n"
            .into(),
    )
    .unwrap()
}

fn make_meta() -> SubstituterMeta {
    SubstituterMeta::new(
        Url::new("https://cache.example.com").unwrap(),
        Priority::new(40),
    )
}

#[test]
fn keep_preserves_relative_url() {
    let (proxy, nar_source_url) =
        ProxyNarInfoData::proxy_by_keep_url(&make_upstream_relative(), &make_meta());
    assert_eq!(proxy.nar_file().value(), "abc.nar.xz");
    assert!(proxy.content().contains("URL: nar/abc.nar.xz?query=abc\n"));
    assert_eq!(
        nar_source_url.value(),
        "https://cache.example.com/nar/abc.nar.xz?query=abc"
    );
}

#[test]
fn keep_preserves_absolute_url() {
    let (proxy, nar_source_url) =
        ProxyNarInfoData::proxy_by_keep_url(&make_upstream_absolute(), &make_meta());
    assert_eq!(proxy.nar_file().value(), "abc.nar.xz");
    assert!(proxy
        .content()
        .contains("URL: https://other.com/custom/abc.nar.xz\n"));
    assert_eq!(nar_source_url.value(), "https://other.com/custom/abc.nar.xz");
}

#[test]
fn to_self_strips_query_param_given_relative_url() {
    let (proxy, nar_source_url) =
        ProxyNarInfoData::proxy_by_rewrite_url_to_self(&make_upstream_relative(), &make_meta());
    assert_eq!(proxy.nar_file().value(), "abc.nar.xz");
    assert!(proxy.content().contains("URL: nar/abc.nar.xz\n"));
    assert_eq!(
        nar_source_url.value(),
        "https://cache.example.com/nar/abc.nar.xz?query=abc"
    );
}

#[test]
fn to_self_rewrites_absolute_url_to_relative() {
    let (proxy, nar_source_url) =
        ProxyNarInfoData::proxy_by_rewrite_url_to_self(&make_upstream_absolute(), &make_meta());
    assert_eq!(proxy.nar_file().value(), "abc.nar.xz");
    assert!(proxy.content().contains("URL: nar/abc.nar.xz\n"));
    assert!(!proxy.content().contains("https://other.com"));
    assert_eq!(nar_source_url.value(), "https://other.com/custom/abc.nar.xz");
}

#[test]
fn to_upstream_rewrites_relative_url_to_absolute() {
    let (proxy, nar_source_url) = ProxyNarInfoData::proxy_by_rewrite_url_to_upstream(
        &make_upstream_relative(),
        &make_meta(),
    );
    assert_eq!(proxy.nar_file().value(), "abc.nar.xz");
    assert!(proxy
        .content()
        .contains("URL: https://cache.example.com/nar/abc.nar.xz?query=abc\n"));
    assert_eq!(
        nar_source_url.value(),
        "https://cache.example.com/nar/abc.nar.xz?query=abc"
    );
}

#[test]
fn to_upstream_preserves_absolute_url() {
    let (proxy, nar_source_url) = ProxyNarInfoData::proxy_by_rewrite_url_to_upstream(
        &make_upstream_absolute(),
        &make_meta(),
    );
    assert_eq!(proxy.nar_file().value(), "abc.nar.xz");
    assert!(proxy
        .content()
        .contains("URL: https://other.com/custom/abc.nar.xz\n"));
    assert_eq!(nar_source_url.value(), "https://other.com/custom/abc.nar.xz");
}

// --- store path hashes

#[test]
fn store_path_hash_new_succeeds() {
    let hash = StorePathHash::new("p4pclmv1gyja5kzc26npqpia1qqxrf0l".to_string()).unwrap();
    assert_eq!(hash.value(), "p4pclmv1gyja5kzc26npqpia1qqxrf0l");
}

#[test]
fn new_fails_given_wrong_length() {
    assert!(matches!(
        StorePathHash::new("abc".to_string()),
        Err(TryNewStorePathHashError::InvalidLength)
    ));
    assert!(matches!(
        StorePathHash::new("p4pclmv1gyja5kzc26npqpia1qqxrf0lxxx".to_string()),
        Err(TryNewStorePathHashError::InvalidLength)
    ));
}

#[test]
fn new_fails_given_uppercase() {
    assert!(matches!(
        StorePathHash::new("P4pclmv1gyja5kzc26npqpia1qqxrf0l".to_string()),
        Err(TryNewStorePathHashError::InvalidCharacter)
    ));
}

#[test]
fn store_path_hash_new_fails_given_slash() {
    assert!(matches!(
        StorePathHash::new("p4pclmv1gyja5kzc26n/qpia1qqxrf0l".to_string()),
        Err(TryNewStorePathHashError::InvalidCharacter)
    ));
}

#[test]
fn store_path_hash_counts_utf8_bytes() {
    // 16 two-byte characters make 32 bytes: the length passes, the characters fail.
    assert!(matches!(
        StorePathHash::new("éééééééééééééééé".to_string()),
        Err(TryNewStorePathHashError::InvalidCharacter)
    ));
}

#[test]
fn build_nar_info_url_succeeds() {
    let hash = StorePathHash::new("p4pclmv1gyja5kzc26npqpia1qqxrf0l".into()).unwrap();
    let meta = SubstituterMeta::new(
        Url::new("https://cache.nixos.org").unwrap(),
        Priority::new(40),
    );
    assert_eq!(
        hash.on_substituter(&meta).value(),
        "https://cache.nixos.org/p4pclmv1gyja5kzc26npqpia1qqxrf0l.narinfo",
    );
}

#[test]
fn build_nar_info_url_succeeds_given_base_path() {
    let hash = StorePathHash::new("p4pclmv1gyja5kzc26npqpia1qqxrf0l".into()).unwrap();
    let meta = SubstituterMeta::new(
        Url::new("https://mirrors.ustc.edu.cn/nix-channels/store").unwrap(),
        Priority::new(40),
    );
    assert_eq!(
        hash.on_substituter(&meta).value(),
        "https://mirrors.ustc.edu.cn/nix-channels/store/p4pclmv1gyja5kzc26npqpia1qqxrf0l.narinfo",
    );
}

// --- upstream narinfos

#[test]
fn upstream_nar_info_data_source_url_is_some_given_absolute_url() {
    let data = UpstreamNarInfoData::new(
        "StorePath: /nix/store/abc-hello\n\
         URL: https://other.com/custom/abc.nar.xz\n"
            .into(),
    )
    .unwrap();
    assert!(data.nar_source_url().is_some());
    assert_eq!(
        data.nar_source_url().as_ref().unwrap().value(),
        "https://other.com/custom/abc.nar.xz"
    );
}

#[test]
fn upstream_nar_info_data_source_url_is_none_given_relative_path() {
    let data = UpstreamNarInfoData::new(
        "StorePath: /nix/store/abc-hello\n\
         URL: nar/abc.nar.xz\n"
            .into(),
    )
    .unwrap();
    assert!(data.nar_source_url().is_none());
}

#[test]
fn upstream_nar_info_data_nar_file_strips_query_params() {
    let data = UpstreamNarInfoData::new(
        "StorePath: /nix/store/abc-hello\n\
         URL: nar/abc.nar.xz?X-Amz-Signature=abc123\n"
            .into(),
    )
    .unwrap();
    assert_eq!(data.nar_file().value(), "abc.nar.xz");
    assert!(data.nar_source_url().is_none());
}

#[test]
fn upstream_nar_info_data_source_url_preserves_query_params_given_absolute_url() {
    let data = UpstreamNarInfoData::new(
        "StorePath: /nix/store/abc-hello\n\
         URL: https://storage.com/nar/abc.nar.xz?X-Amz-Algorithm=AWS4-HMAC-SHA256&X-Amz-Signature=f776\n".into(),
    )
    .unwrap();
    let source_url = data.nar_source_url().unwrap();
    assert!(source_url
        .value()
        .contains("X-Amz-Algorithm=AWS4-HMAC-SHA256&X-Amz-Signature=f776"));
    assert_eq!(data.nar_file().value(), "abc.nar.xz");
}

#[test]
fn upstream_query_params_of_relative_url() {
    let data = UpstreamNarInfoData::new(
        "StorePath: /nix/store/abc-hello\nURL: nar/abc.nar.xz?a=1&b=2\n".into(),
    )
    .unwrap();
    assert_eq!(data.query_params(), Some("a=1&b=2"));
    let data =
        UpstreamNarInfoData::new("StorePath: /nix/store/abc-hello\nURL: nar/abc.nar.xz\n".into())
            .unwrap();
    assert_eq!(data.query_params(), None);
}
