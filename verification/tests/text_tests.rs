use xcraft::paths::{extension, file_name, join, parent, path_has_prefix, same_path, strip_path_prefix};
use xcraft::text::{
    str_concat, contains_char, ends_with, find_char, parse_u32, parse_u64, parse_usize, replace_char,
    rfind_char, starts_with, str_eq, strip_prefix, trim, u64_to_decimal,
};

#[test]
fn string_basics() {
    assert_eq!(str_concat("ab", "cd"), "abcd");
    assert!(str_eq("é", "é"));
    assert!(!str_eq("a", "ab"));
    assert!(starts_with("simulator:1", "simulator:"));
    assert!(!starts_with("sim", "simulator:"));
    assert!(ends_with("App.xcworkspace", ".xcworkspace"));
    assert!(!ends_with("xcworkspace", ".xcworkspace"));
    assert_eq!(strip_prefix("device:X", "device:").as_deref(), Some("X"));
    assert_eq!(strip_prefix("X", "device:"), None);
    assert_eq!(find_char("a-b-c", '-'), Some(1));
    assert_eq!(rfind_char("a-b-c", '-'), Some(3));
    assert_eq!(find_char("abc", '-'), None);
    assert!(contains_char("a=b", '='));
    assert_eq!(replace_char("17-2-1", '-', '.'), "17.2.1");
}

#[test]
fn trimming() {
    assert_eq!(trim("  x y \r\n"), "x y");
    assert_eq!(trim("\u{3000}\u{a0}x\u{2009}"), "x");
    assert_eq!(trim(" \t\n"), "");
    assert_eq!(trim("x"), "x");
}

#[test]
fn decimals() {
    assert_eq!(u64_to_decimal(0), "0");
    assert_eq!(u64_to_decimal(1234567890), "1234567890");
    assert_eq!(u64_to_decimal(u64::MAX), u64::MAX.to_string());
    assert_eq!(parse_u64("18446744073709551615"), Some(u64::MAX));
    assert_eq!(parse_u64("18446744073709551616"), None);
    assert_eq!(parse_u64("007"), Some(7));
    assert_eq!(parse_u64("+"), None);
    assert_eq!(parse_u64(""), None);
    assert_eq!(parse_u64("1a"), None);
    assert_eq!(parse_u32("4294967295"), Some(u32::MAX));
    assert_eq!(parse_u32("4294967296"), None);
    assert_eq!(parse_usize("42"), Some(42));
    for n in [0u64, 5, 10, 12345, u64::MAX] {
        assert_eq!(parse_u64(&u64_to_decimal(n)), Some(n));
    }
}

#[test]
fn path_operations() {
    assert_eq!(file_name("/a/b.txt").as_deref(), Some("b.txt"));
    assert_eq!(file_name("/a/b/").as_deref(), Some("b"));
    assert_eq!(file_name("/a/.."), None);
    assert_eq!(parent("/a/b").as_deref(), Some("/a"));
    assert_eq!(parent("/"), None);
    assert_eq!(strip_path_prefix("/a/b/c", "/a").as_deref(), Some("b/c"));
    assert_eq!(strip_path_prefix("/a/b/c", "/x"), None);
    assert!(path_has_prefix("./x", "."));
    assert!(!path_has_prefix(".x", "."));
    assert!(same_path("a//b", "a/b"));
    assert!(!same_path("a/b", "a/c"));
    assert_eq!(join("/a", "b"), "/a/b");
    assert_eq!(join("/a/", "b"), "/a/b");
    assert_eq!(join("", "b"), "b");
    assert_eq!(join("/a", "/b"), "/b");
    assert_eq!(join("a", ""), "a/");
    assert_eq!(extension("/p/App.xcworkspace").as_deref(), Some("xcworkspace"));
    assert_eq!(extension("/p/.hidden"), None);
    assert_eq!(extension("/p/a.b.c").as_deref(), Some("c"));
    assert_eq!(extension("/p/name."), Some(String::new()));
    assert_eq!(extension("/p/noext"), None);
}

#[test]
fn join_matches_std() {
    for (a, b) in [("/a", "b"), ("/a/", "b"), ("", "b"), ("/a", "/b"), ("a", ""), ("a/b", "c/d"), ("", "")] {
        assert_eq!(join(a, b), std::path::Path::new(a).join(b).to_string_lossy());
    }
}
