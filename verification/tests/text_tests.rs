use launcher_core::text::{
    contains_ci, contains_sub, ends_with_ci, ends_with_str, eq_ci, find_char_from, join_with,
    split_char, str_lt, trim_str, u64_to_hex, u64_to_string,
};

#[test]
fn lexicographic_iso_dates() {
    assert!(str_lt("2024-05-01", "2024-06-01"));
    assert!(!str_lt("2024-06-01", "2024-05-01"));
    assert!(!str_lt("2024-06-01", "2024-06-01"));
    assert!(str_lt("2024-06-01", "2024-06-01T10:00:00"));
    assert!(str_lt("", "2024"));
    assert!(!str_lt("2024", ""));
}

#[test]
fn case_insensitive_matching() {
    assert!(contains_ci("Boolean-Client-1.0.JAR", "boolean"));
    assert!(contains_ci("shakedown", "SHAKEDOWN"));
    assert!(!contains_ci("sodium-fabric.jar", "boolean"));
    assert!(ends_with_ci("client.JaR", ".jar"));
    assert!(!ends_with_ci("client.jar.txt", ".jar"));
    assert!(eq_ci("META-INF", "meta-inf"));
    assert!(!eq_ci("meta-inf", "meta"));
}

#[test]
fn case_sensitive_matching() {
    assert!(contains_sub("openjdk version \"21.0.5\"", "version"));
    assert!(!contains_sub("openjdk VERSION", "version"));
    assert!(ends_with_str("archive.zip", ".zip"));
    assert!(!ends_with_str("archive.ZIP", ".zip"));
}

#[test]
fn split_and_join_round_trip() {
    let parts = vec![
        String::from("/lib/a.jar"),
        String::from("/lib/b.jar"),
        String::from("/main.jar"),
    ];
    let joined = join_with(&parts, ":");
    assert_eq!(joined, "/lib/a.jar:/lib/b.jar:/main.jar");
    let back = split_char(&joined, ':');
    assert_eq!(back, parts);
}

#[test]
fn split_keeps_empty_pieces() {
    let r = split_char("a//b/", '/');
    assert_eq!(r, vec!["a", "", "b", ""]);
    let r2 = split_char("", '/');
    assert_eq!(r2, vec![""]);
}

#[test]
fn trim_removes_surrounding_whitespace() {
    assert_eq!(trim_str("  2024-06-01\n"), "2024-06-01");
    assert_eq!(trim_str("x"), "x");
    assert_eq!(trim_str(" \t\r\n "), "");
    assert_eq!(trim_str("a b"), "a b");
}

#[test]
fn decimal_rendering() {
    assert_eq!(u64_to_string(0), "0");
    assert_eq!(u64_to_string(7), "7");
    assert_eq!(u64_to_string(2048), "2048");
    assert_eq!(u64_to_string(18446744073709551615), "18446744073709551615");
}

#[test]
fn hex_rendering() {
    assert_eq!(u64_to_hex(255, 4), "00ff");
    assert_eq!(u64_to_hex(0, 2), "00");
    assert_eq!(u64_to_hex(0xdeadbeef, 8), "deadbeef");
}

#[test]
fn finding_characters() {
    assert_eq!(find_char_from("ab\"cd\"e", '"', 0), Some(2));
    assert_eq!(find_char_from("ab\"cd\"e", '"', 3), Some(5));
    assert_eq!(find_char_from("abc", '"', 0), None);
}
