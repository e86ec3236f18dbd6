use x9_transfer::text::{chars_of, contains_str, decimal, join2, join3, join4, strip_prefix_str};

#[test]
fn decimal_matches_to_string() {
    for n in [0u64, 1, 9, 10, 11, 99, 100, 305, 65536, 1234567890, u64::MAX] {
        assert_eq!(decimal(n), n.to_string());
    }
}

#[test]
fn strip_prefix_cases() {
    assert_eq!(strip_prefix_str("sqlite://db/queue.db", "sqlite://"), Some("db/queue.db".to_string()));
    assert_eq!(strip_prefix_str("sqlite:", "sqlite://"), None);
    assert_eq!(strip_prefix_str("postgres://x", "sqlite://"), None);
    assert_eq!(strip_prefix_str("abc", ""), Some("abc".to_string()));
    assert_eq!(strip_prefix_str("çãoé", "çã"), Some("oé".to_string()));
}

#[test]
fn contains_cases() {
    assert!(contains_str("Copiando: x", "Copiando:"));
    assert!(contains_str("aaab", "aab"));
    assert!(!contains_str("Copiand", "Copiando:"));
    assert!(contains_str("", ""));
    assert!(contains_str("x", ""));
    assert!(!contains_str("", "x"));
    assert!(contains_str("ção final", "final"));
}

#[test]
fn joins() {
    assert_eq!(join2("a", "b"), "ab");
    assert_eq!(join3("a", "b", "c"), "abc");
    assert_eq!(join4("a", "", "c", "d"), "acd");
    assert_eq!(chars_of("héllo"), vec!['h', 'é', 'l', 'l', 'o']);
}
