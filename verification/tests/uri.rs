use tauri_runtime_verso::uri::{
    http_or_https, is_custom_protocol_uri, is_work_around_uri, revert_custom_protocol_work_around,
    reverted_uri, synthesized_origin, work_around_uri_prefix, MalformedUri, UriConvention,
};

#[test]
fn work_around_prefix_is_scheme_protocol_dot() {
    assert_eq!(work_around_uri_prefix("http", "p"), "http://p.");
    assert_eq!(work_around_uri_prefix("https", "ipc"), "https://ipc.");
}

#[test]
fn work_around_uri_is_recognised() {
    assert!(is_work_around_uri("http://p.foo/bar", "http", "p"));
    assert!(is_work_around_uri("https://tauri.localhost/index.html", "https", "tauri"));
}

#[test]
fn other_protocol_is_not_recognised() {
    assert!(!is_work_around_uri("https://other.foo/bar", "http", "p"));
    assert!(!is_work_around_uri("https://other.foo/bar", "https", "p"));
    assert!(!is_work_around_uri("http://p.foo/bar", "https", "p"));
}

#[test]
fn work_around_needs_the_dot_after_the_protocol() {
    assert!(!is_work_around_uri("http://p/foo", "http", "p"));
    assert!(!is_work_around_uri("http://pq.foo", "http", "p"));
    assert!(!is_work_around_uri("http://p", "http", "p"));
    assert!(is_work_around_uri("http://p.", "http", "p"));
    assert!(!is_work_around_uri("", "http", "p"));
}

#[test]
fn work_around_is_reverted() {
    assert_eq!(reverted_uri("http://p.foo/bar", "http", "p"), "p://foo/bar");
    assert_eq!(
        revert_custom_protocol_work_around("http://p.foo/bar", "http", "p"),
        Ok(String::from("p://foo/bar"))
    );
    assert_eq!(
        revert_custom_protocol_work_around("https://ipc.localhost/cmd?x=1", "https", "ipc"),
        Ok(String::from("ipc://localhost/cmd?x=1"))
    );
}

#[test]
fn only_the_leading_prefix_is_reverted() {
    assert_eq!(
        reverted_uri("http://p.foo/bar?next=http://p.baz", "http", "p"),
        "p://foo/bar?next=http://p.baz"
    );
}

#[test]
fn uri_of_another_form_is_left_alone() {
    assert_eq!(reverted_uri("https://other.foo/bar", "http", "p"), "https://other.foo/bar");
}

#[test]
fn reverting_to_no_uri_fails() {
    assert_eq!(revert_custom_protocol_work_around("http://p.", "http", "p"), Err(MalformedUri));
    assert_eq!(
        revert_custom_protocol_work_around("http://p.foo bar", "http", "p"),
        Err(MalformedUri)
    );
}

#[test]
fn non_ascii_text_is_compared_by_character() {
    assert!(is_work_around_uri("http://é.ü/x", "http", "é"));
    assert_eq!(reverted_uri("http://é.ü/x", "http", "é"), "é://ü/x");
}

#[test]
fn scheme_follows_the_webview() {
    assert_eq!(http_or_https(false), "http");
    assert_eq!(http_or_https(true), "https");
}

#[test]
fn origin_follows_the_convention() {
    assert_eq!(synthesized_origin(UriConvention::HttpWorkAround, false), "http://tauri.localhost");
    assert_eq!(synthesized_origin(UriConvention::HttpWorkAround, true), "https://tauri.localhost");
    assert_eq!(synthesized_origin(UriConvention::DirectScheme, false), "tauri://localhost");
    assert_eq!(synthesized_origin(UriConvention::DirectScheme, true), "tauri://localhost");
}

#[test]
fn direct_convention_compares_schemes() {
    let direct = UriConvention::DirectScheme;
    assert!(is_custom_protocol_uri(direct, false, "p://foo/bar", Some("p"), "p"));
    assert!(!is_custom_protocol_uri(direct, false, "p://foo/bar", Some("p"), "q"));
    assert!(!is_custom_protocol_uri(direct, false, "/foo/bar", None, "p"));
    assert!(!is_custom_protocol_uri(direct, false, "http://p.foo/bar", Some("http"), "p"));
}

#[test]
fn work_around_convention_compares_prefixes() {
    let work_around = UriConvention::HttpWorkAround;
    assert!(is_custom_protocol_uri(work_around, false, "http://p.foo/bar", Some("http"), "p"));
    assert!(!is_custom_protocol_uri(work_around, true, "http://p.foo/bar", Some("http"), "p"));
    assert!(is_custom_protocol_uri(work_around, true, "https://p.foo/bar", Some("https"), "p"));
    assert!(!is_custom_protocol_uri(work_around, false, "p://foo/bar", Some("p"), "p"));
}
