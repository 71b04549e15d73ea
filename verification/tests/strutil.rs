use pylot::strutil::{join, parse_usize, split_on, starts_with, str_eq, trim, vec_contains_str};

#[test]
fn trim_strips_outer_whitespace() {
    assert_eq!(trim("  hello \t\r\n"), "hello");
    assert_eq!(trim("hello"), "hello");
    assert_eq!(trim("   "), "");
    assert_eq!(trim(""), "");
    assert_eq!(trim(" a b "), "a b");
}

#[test]
fn str_eq_compares_contents() {
    assert!(str_eq("abc", "abc"));
    assert!(!str_eq("abc", "abd"));
    assert!(!str_eq("abc", "ab"));
    assert!(str_eq("", ""));
}

#[test]
fn starts_with_checks_prefixes() {
    assert!(starts_with("version = 3.10", "version"));
    assert!(!starts_with("ver", "version"));
    assert!(starts_with("anything", ""));
}

#[test]
fn parse_usize_reads_digits_only() {
    assert_eq!(parse_usize("0"), Some(0));
    assert_eq!(parse_usize("42"), Some(42));
    assert_eq!(parse_usize("007"), Some(7));
    assert_eq!(parse_usize(""), None);
    assert_eq!(parse_usize("4a"), None);
    assert_eq!(parse_usize("-4"), None);
    assert_eq!(parse_usize("99999999999999999999999999"), None);
}

#[test]
fn split_on_keeps_empty_pieces() {
    assert_eq!(split_on("a=b", '='), vec!["a", "b"]);
    assert_eq!(split_on("a=b=c", '='), vec!["a", "b", "c"]);
    assert_eq!(split_on("", '='), vec![""]);
    assert_eq!(split_on("=", '='), vec!["", ""]);
    assert_eq!(split_on("a\nb\n", '\n'), vec!["a", "b", ""]);
}

#[test]
fn join_interleaves_separator() {
    assert_eq!(join(&vec![], " "), "");
    assert_eq!(join(&vec!["a".to_string()], " "), "a");
    assert_eq!(
        join(&vec!["a".to_string(), "b".to_string(), "c".to_string()], ", "),
        "a, b, c"
    );
}

#[test]
fn vec_contains_matches_exactly() {
    let v = vec!["numpy".to_string(), "pandas".to_string()];
    assert!(vec_contains_str(&v, "numpy"));
    assert!(!vec_contains_str(&v, "numpy=1.0"));
    assert!(!vec_contains_str(&v, "NumPy"));
}
