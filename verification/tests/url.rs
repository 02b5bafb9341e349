use selector4nix::domain::substituter::url::{TryNewUrlError, Url};

#[test]
fn url_new_succeeds() {
    let _ = Url::new("http://cache.nixos.org").unwrap();
    let _ = Url::new("https://cache.nixos.org/path").unwrap();
    let _ = Url::new("http://localhost:8080").unwrap();
}

#[test]
fn new_fails_given_invalid_urls() {
    assert!(matches!(
        Url::new("ftp://files.example.com"),
        Err(TryNewUrlError::UnsupportedScheme { .. }),
    ));
    assert!(matches!(
        Url::new("cache.nixos.org"),
        Err(TryNewUrlError::Invalid { .. }),
    ));
    assert!(matches!(Url::new(""), Err(TryNewUrlError::Invalid { .. }),));
}

#[test]
fn join_url_with_path_succeeds() {
    let base = Url::new("https://cache.nixos.org").unwrap();
    assert_eq!(
        base.join("nar/abc.nar.xz").unwrap().value(),
        "https://cache.nixos.org/nar/abc.nar.xz"
    );
    assert_eq!(
        base.join("0bm7a1sgh5q7nf19yl7basf6bqw9i0i2.narinfo")
            .unwrap()
            .value(),
        "https://cache.nixos.org/0bm7a1sgh5q7nf19yl7basf6bqw9i0i2.narinfo"
    );
}

#[test]
fn as_dir_appends_slash_given_path_without_trailing_slash() {
    let url = Url::new("https://mirrors.ustc.edu.cn/nix-channels/store").unwrap();
    let dir = url.as_dir();
    assert_eq!(dir.value(), "https://mirrors.ustc.edu.cn/nix-channels/store/");
}

#[test]
fn as_dir_preserves_url_given_path_with_trailing_slash() {
    let url = Url::new("https://mirrors.ustc.edu.cn/nix-channels/store/").unwrap();
    let dir = url.as_dir();
    assert_eq!(dir.value(), "https://mirrors.ustc.edu.cn/nix-channels/store/");
}

#[test]
fn as_dir_preserves_url_given_root_path() {
    let url = Url::new("https://cache.nixos.org").unwrap();
    let dir = url.as_dir();
    assert_eq!(dir.value(), "https://cache.nixos.org/");
}

#[test]
fn join_preserves_path_segments_given_dir_url() {
    let base = Url::new("https://mirrors.ustc.edu.cn/nix-channels/store")
        .unwrap()
        .as_dir();
    let joined = base.join("abc.narinfo").unwrap();
    assert_eq!(
        joined.value(),
        "https://mirrors.ustc.edu.cn/nix-channels/store/abc.narinfo"
    );
}

#[test]
fn get_dir_returns_dir_given_url_of_file() {
    let url = Url::new("https://mirrors.ustc.edu.cn/nix-channels/store/abc.narinfo").unwrap();
    let dir = url.get_dir();
    assert_eq!(dir.value(), "https://mirrors.ustc.edu.cn/nix-channels/store/");
}

#[test]
fn get_dir_returns_self_given_url_of_dir() {
    let url = Url::new("https://mirrors.ustc.edu.cn/nix-channels/store/").unwrap();
    let dir = url.get_dir();
    assert_eq!(dir.value(), "https://mirrors.ustc.edu.cn/nix-channels/store/");
}

#[test]
fn new_fails_given_missing_host() {
    assert!(matches!(Url::new("http:/"), Err(TryNewUrlError::Invalid { .. }) | Err(TryNewUrlError::NoHost)));
    let e = Url::new("ftp://files.example.com").unwrap_err();
    assert_eq!(e.message(), "URL scheme `ftp` is not one of `http` or `https`");
}

#[test]
fn with_query_params_sets_and_clears_query() {
    let url = Url::new("https://cache.example.com/nar/abc.nar.xz").unwrap();
    let with = url.with_query_params(Some("a=1"));
    assert_eq!(with.value(), "https://cache.example.com/nar/abc.nar.xz?a=1");
    assert_eq!(with.query(), Some("a=1"));
    let without = with.with_query_params(None);
    assert_eq!(without.value(), "https://cache.example.com/nar/abc.nar.xz");
    assert_eq!(without.query(), None);
}

#[test]
fn is_same_compares_serializations() {
    let a = Url::new("https://cache.nixos.org").unwrap();
    let b = Url::new("https://cache.nixos.org/").unwrap();
    let c = Url::new("https://cache.nixos.org/nar").unwrap();
    assert!(a.is_same(&b));
    assert!(!a.is_same(&c));
}
