use tauri_runtime_verso::text::{chars_of, chars_start_with, starts_with, strip_prefix};
use tauri_runtime_verso::uri::same_text;

#[test]
fn characters_are_counted_not_bytes() {
    assert_eq!(chars_of("aé€"), vec!['a', 'é', '€']);
    assert_eq!(chars_of(""), Vec::<char>::new());
}

#[test]
fn prefix_is_recognised() {
    assert!(starts_with("http://p.foo", "http://"));
    assert!(starts_with("abc", ""));
    assert!(starts_with("abc", "abc"));
    assert!(!starts_with("abc", "abcd"));
    assert!(!starts_with("abc", "b"));
    assert!(!starts_with("", "a"));
    assert!(chars_start_with(&vec!['a', 'b'], &vec!['a']));
    assert!(!chars_start_with(&vec!['a', 'b'], &vec!['b']));
}

#[test]
fn prefix_is_taken_off() {
    assert_eq!(strip_prefix("http://p.foo", "http://"), Some("p.foo"));
    assert_eq!(strip_prefix("éa€b", "éa"), Some("€b"));
    assert_eq!(strip_prefix("abc", "abc"), Some(""));
    assert_eq!(strip_prefix("abc", ""), Some("abc"));
    assert_eq!(strip_prefix("abc", "x"), None);
    assert_eq!(strip_prefix("ab", "abc"), None);
}

#[test]
fn texts_are_compared_by_character() {
    assert!(same_text("ipc", "ipc"));
    assert!(same_text("", ""));
    assert!(!same_text("ipc", "IPC"));
    assert!(!same_text("ipc", "ipcs"));
    assert!(!same_text("ipcs", "ipc"));
}
