use schematic::error::ConfigError;
use schematic::source::{is_file_like, is_url_like, Source};

#[test]
fn url_source_requires_secure_scheme() {
    let err = Source::url("http://example.com/config.yml").unwrap_err();
    assert_eq!(err, ConfigError::HttpsOnly);

    let ok = Source::url("https://example.com/config.yml").unwrap();
    assert_eq!(
        ok,
        Source::Url { url: String::from("https://example.com/config.yml") }
    );
}

#[test]
fn new_rejects_insecure_url_whatever_the_parent() {
    let parent = Source::File { path: String::from("base/app.yml") };
    let err = Source::new("http://example.com/config.yml", Some(&parent)).unwrap_err();
    assert_eq!(err, ConfigError::HttpsOnly);

    let err = Source::new("http://example.com/config.yml", None).unwrap_err();
    assert_eq!(err, ConfigError::HttpsOnly);
}

#[test]
fn relative_path_resolves_against_parent_file_directory() {
    let parent = Source::File { path: String::from("configs/base.yml") };
    let child = Source::new("./child.yml", Some(&parent)).unwrap();
    assert_eq!(
        child,
        Source::File { path: String::from("configs/./child.yml") }
    );

    let sibling = Source::new("other.json", Some(&parent)).unwrap();
    assert_eq!(
        sibling,
        Source::File { path: String::from("configs/other.json") }
    );
}

#[test]
fn relative_path_under_code_parent_is_rejected() {
    let parent = Source::Code { code: String::from("a: 1") };
    let err = Source::new("./child.yml", Some(&parent)).unwrap_err();
    assert_eq!(err, ConfigError::ExtendsFromParentFileOnly);

    let env_parent = Source::Env;
    let err = Source::new("./child.yml", Some(&env_parent)).unwrap_err();
    assert_eq!(err, ConfigError::ExtendsFromParentFileOnly);
}

#[test]
fn relative_path_without_parent_is_taken_verbatim() {
    let s = Source::new("./child.yml", None).unwrap();
    assert_eq!(s, Source::File { path: String::from("./child.yml") });
}

#[test]
fn absolute_path_ignores_parent_directory() {
    let parent = Source::File { path: String::from("configs/base.yml") };
    let s = Source::new("/etc/app.yml", Some(&parent)).unwrap();
    assert_eq!(s, Source::File { path: String::from("/etc/app.yml") });
}

#[test]
fn file_scheme_prefix_is_stripped() {
    let s = Source::new("file://settings.json", None).unwrap();
    assert_eq!(s, Source::File { path: String::from("settings.json") });
}

#[test]
fn plain_text_becomes_code() {
    let s = Source::new("key: value", None).unwrap();
    assert_eq!(s, Source::Code { code: String::from("key: value") });
}

#[test]
fn url_like_classification() {
    assert!(is_url_like("https://example.com"));
    assert!(is_url_like("http://example.com"));
    assert!(is_url_like("www.example.com"));
    assert!(!is_url_like("./local.yml"));
    assert!(!is_url_like("plain text"));
}

#[test]
fn file_like_classification() {
    assert!(is_file_like("file://x.yml"));
    assert!(is_file_like("/etc/app.toml"));
    assert!(is_file_like("./relative.json"));
    assert!(is_file_like("dir/nested.txt"));
    assert!(is_file_like("settings.yaml"));
    assert!(is_file_like("settings.yml"));
    assert!(is_file_like("settings.json"));
    assert!(is_file_like("settings.toml"));
    assert!(!is_file_like("plain text"));
    assert!(!is_file_like("key=value"));
}

#[test]
fn source_labels() {
    assert_eq!(Source::Defaults.label(), "defaults");
    assert_eq!(Source::Env.label(), "env");
    assert_eq!(
        Source::Code { code: String::from("x") }.label(),
        "code"
    );
    assert_eq!(
        Source::File { path: String::from("a/b.yml") }.label(),
        "a/b.yml"
    );
    assert_eq!(
        Source::Url { url: String::from("https://e.com/c.yml") }.label(),
        "https://e.com/c.yml"
    );
}

#[test]
fn www_prefix_is_url_like_but_insecure() {
    let err = Source::new("www.example.com/config.yml", None).unwrap_err();
    assert_eq!(err, ConfigError::HttpsOnly);
}
