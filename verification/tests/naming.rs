use rust_analyzer_bridge::naming::{file_base_name, push_decimal, temp_file_name, TokenSource};
use std::path::Path;

fn base(path: &str) -> Option<String> {
    file_base_name(path)
}

fn named(name: &str) -> Option<String> {
    Some(name.to_string())
}

fn decimal(n: u64) -> String {
    let mut s = String::new();
    push_decimal(&mut s, n);
    s
}

#[test]
fn base_name_of_plain_paths() {
    assert_eq!(base("main.rs"), named("main.rs"));
    assert_eq!(base("src/main.rs"), named("main.rs"));
    assert_eq!(base("/home/user/project/src/lib.rs"), named("lib.rs"));
    assert_eq!(base("tmp/foo.txt"), named("foo.txt"));
    assert_eq!(base("..."), named("..."));
    assert_eq!(base(".hidden"), named(".hidden"));
    assert_eq!(base("a/..b"), named("..b"));
}

#[test]
fn base_name_passes_over_trailing_separators_and_dots() {
    assert_eq!(base("/usr/bin/"), named("bin"));
    assert_eq!(base("foo.txt/."), named("foo.txt"));
    assert_eq!(base("foo.txt/.//"), named("foo.txt"));
    assert_eq!(base("a//b///"), named("b"));
    assert_eq!(base("./a"), named("a"));
    assert_eq!(base("a/./."), named("a"));
}

#[test]
fn base_name_is_missing_where_the_path_names_nothing() {
    assert_eq!(base(""), None);
    assert_eq!(base("/"), None);
    assert_eq!(base("//"), None);
    assert_eq!(base("."), None);
    assert_eq!(base("./"), None);
    assert_eq!(base("/."), None);
    assert_eq!(base(".."), None);
    assert_eq!(base("foo.txt/.."), None);
    assert_eq!(base("a/b/../"), None);
    assert_eq!(base("a/../."), None);
}

#[test]
fn base_name_agrees_with_std_paths() {
    let paths = [
        "", "/", "//", ".", "..", "./", "../", "/.", "/..", "a", "a/", "a/.", "a/..", "a/b",
        "a//b", "/a/b/", "./a", "../a", "a/./b", "a/b/.", "a/b/./", "a/b/..", "...", ".a", "a.",
        "a/.b", "a/b.", "x/é.rs", "a b/c d.rs", "a/.../", "a/..b/", "/./.",
    ];
    for path in paths {
        let expected = Path::new(path).file_name().and_then(|n| n.to_str()).map(|n| n.to_string());
        assert_eq!(base(path), expected);
    }
}

#[test]
fn decimal_notation_of_numbers() {
    assert_eq!(decimal(0), "0");
    assert_eq!(decimal(7), "7");
    assert_eq!(decimal(9), "9");
    assert_eq!(decimal(10), "10");
    assert_eq!(decimal(42), "42");
    assert_eq!(decimal(1005), "1005");
    assert_eq!(decimal(1234567890), "1234567890");
    assert_eq!(decimal(u64::MAX), "18446744073709551615");
}

#[test]
fn decimal_is_appended_to_what_is_there() {
    let mut s = "id".to_string();
    push_decimal(&mut s, 308);
    assert_eq!(s, "id308");
}

#[test]
fn decimal_agrees_with_std_formatting() {
    for n in [0u64, 1, 9, 10, 11, 99, 100, 101, 999, 1000, 65535, 4294967296, u64::MAX - 1] {
        assert_eq!(decimal(n), format!("{}", n));
    }
}

#[test]
fn temp_file_name_joins_token_and_base_name() {
    assert_eq!(temp_file_name(Some("src/main.rs"), 7), named("7-main.rs"));
    assert_eq!(temp_file_name(Some("main.rs"), 0), named("0-main.rs"));
    assert_eq!(temp_file_name(Some("/a/b/c.py/"), 120), named("120-c.py"));
    assert_eq!(
        temp_file_name(Some("x.rs"), u64::MAX),
        named("18446744073709551615-x.rs")
    );
}

#[test]
fn temp_file_name_without_identifier_is_generated() {
    assert_eq!(temp_file_name(None, 0), named("0-snippet.rs"));
    assert_eq!(temp_file_name(None, 31), named("31-snippet.rs"));
}

#[test]
fn temp_file_name_is_missing_without_base_name() {
    assert_eq!(temp_file_name(Some("src/.."), 1), None);
    assert_eq!(temp_file_name(Some(""), 1), None);
    assert_eq!(temp_file_name(Some("/"), 1), None);
}

#[test]
fn temp_file_names_differ_by_token() {
    let a = temp_file_name(Some("a/main.rs"), 1);
    let b = temp_file_name(Some("b/main.rs"), 2);
    let c = temp_file_name(Some("b/main.rs"), 12);
    assert_ne!(a, b);
    assert_ne!(b, c);
    assert_ne!(temp_file_name(Some("1-x"), 1), temp_file_name(Some("x"), 11));
    assert_ne!(temp_file_name(Some("2-x"), 1), temp_file_name(Some("x"), 12));
}

#[test]
fn temp_file_name_holds_no_separator() {
    for path in ["a/b/c.rs", "/x/", "y/./", "./z.rs"] {
        let name = temp_file_name(Some(path), 5).unwrap();
        assert!(!name.contains('/'));
        assert!(name.starts_with("5-"));
    }
}

#[test]
fn token_source_counts_up_within_a_process() {
    let mut source = TokenSource::new(0);
    assert_eq!(source.issue(), Some(0));
    assert_eq!(source.issue(), Some(1));
    assert_eq!(source.issue(), Some(2));
}

#[test]
fn token_source_keeps_processes_apart() {
    let mut first = TokenSource::new(1);
    let mut second = TokenSource::new(2);
    assert_eq!(first.issue(), Some(4294967296));
    assert_eq!(first.issue(), Some(4294967297));
    assert_eq!(second.issue(), Some(8589934592));
    let mut last = TokenSource::new(u32::MAX);
    assert_eq!(last.issue(), Some(18446744069414584320));
}

#[test]
fn tokens_of_one_source_name_different_files() {
    let mut source = TokenSource::new(77);
    let a = temp_file_name(Some("a/main.rs"), source.issue().unwrap());
    let b = temp_file_name(Some("b/main.rs"), source.issue().unwrap());
    assert_eq!(a, Some("330712481792-main.rs".to_string()));
    assert_eq!(b, Some("330712481793-main.rs".to_string()));
}
