use driftguard::text::{decimal, same_text, starts_with, strip_prefixes, trim};

#[test]
fn trim_matches_std() {
    for s in ["", "  ", " a ", "\u{3000}x\u{85}", "\t\nab c\r\n", "abc", "\u{200b}x"] {
        assert_eq!(trim(s), s.trim(), "input {:?}", s);
    }
}

#[test]
fn decimal_matches_std() {
    for n in [0u64, 7, 10, 99, 100, 12345, u64::MAX] {
        assert_eq!(decimal(n), n.to_string());
    }
}

#[test]
fn prefix_operations() {
    assert!(starts_with("/api/x", "/api/"));
    assert!(!starts_with("/ap", "/api/"));
    assert_eq!(strip_prefixes("ababc", "ab"), "c");
    assert_eq!(strip_prefixes("abab", "ab"), "");
    assert_eq!(strip_prefixes("xab", "ab"), "xab");
    assert!(same_text("é", "é"));
    assert!(!same_text("a", "b"));
}
