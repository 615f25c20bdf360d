use kaiman::path::join_path;
use kaiman::text::{after_last_char, decimal3_string, decimal_string, parse_u32, str_contains, str_eq};

#[test]
fn decimal_renders_like_to_string() {
    assert_eq!(decimal_string(0), "0");
    assert_eq!(decimal_string(7), "7");
    assert_eq!(decimal_string(42), "42");
    assert_eq!(decimal_string(1000), "1000");
    assert_eq!(decimal_string(u64::MAX), u64::MAX.to_string());
}

#[test]
fn decimal3_pads_like_format() {
    assert_eq!(decimal3_string(0), "000");
    assert_eq!(decimal3_string(5), "005");
    assert_eq!(decimal3_string(42), "042");
    assert_eq!(decimal3_string(123), "123");
    assert_eq!(decimal3_string(1234), "1234");
    for n in [0u64, 1, 9, 10, 99, 100, 999, 1000, 65535] {
        assert_eq!(decimal3_string(n), format!("{:03}", n));
    }
}

#[test]
fn parse_u32_accepts_what_str_parse_accepts() {
    assert_eq!(parse_u32("17"), Some(17));
    assert_eq!(parse_u32("+17"), Some(17));
    assert_eq!(parse_u32("007"), Some(7));
    assert_eq!(parse_u32("4294967295"), Some(u32::MAX));
    assert_eq!(parse_u32("4294967296"), None);
    assert_eq!(parse_u32("99999999999999999999999"), None);
    assert_eq!(parse_u32(""), None);
    assert_eq!(parse_u32("+"), None);
    assert_eq!(parse_u32("-1"), None);
    assert_eq!(parse_u32("1a"), None);
    assert_eq!(parse_u32(" 1"), None);
    assert_eq!(parse_u32("++1"), None);
    for s in ["0", "12", "+0", "-0", "abc", "4294967295", "4294967296", "", "+", "١٢"] {
        assert_eq!(parse_u32(s), s.parse::<u32>().ok(), "input {:?}", s);
    }
}

#[test]
fn parse_u32_reads_back_decimal_rendering() {
    for n in [0u32, 1, 9, 10, 255, 65536, 123456789, u32::MAX] {
        assert_eq!(parse_u32(&decimal_string(n as u64)), Some(n));
        assert_eq!(parse_u32(&decimal3_string(n as u64)), Some(n));
    }
}

#[test]
fn after_last_char_is_last_piece() {
    assert_eq!(after_last_char("a/b/c", '/'), "c");
    assert_eq!(after_last_char("abc", '/'), "abc");
    assert_eq!(after_last_char("a/b/", '/'), "");
    assert_eq!(after_last_char("", '/'), "");
    assert_eq!(after_last_char("cover.v2.png", '.'), "png");
    assert_eq!(after_last_char("/chapters/01J76", '/'), "01J76");
}

#[test]
fn str_contains_finds_substrings() {
    assert!(str_contains("/chapters/123", "/chapters/"));
    assert!(str_contains("https://x.com/chapters/1", "/chapters/"));
    assert!(!str_contains("/chapter/123", "/chapters/"));
    assert!(str_contains("abc", ""));
    assert!(!str_contains("", "a"));
    assert!(str_contains("ab", "ab"));
}

#[test]
fn str_eq_compares_characters() {
    assert!(str_eq("mangadex.org", "mangadex.org"));
    assert!(!str_eq("mangadex.org", "mangadex.or"));
    assert!(!str_eq("a", "b"));
    assert!(str_eq("", ""));
}

#[test]
fn join_path_follows_path_join() {
    assert_eq!(join_path("a", "b"), "a/b");
    assert_eq!(join_path("a/", "b"), "a/b");
    assert_eq!(join_path("", "b"), "b");
    assert_eq!(join_path("a", "/b"), "/b");
    assert_eq!(join_path("a", ""), "a/");
    for (base, part) in [("lib", "title"), ("/lib/", "x"), ("", "y"), ("a", "/abs"), ("a/b", "c/d"), ("a", "")] {
        let expected = std::path::PathBuf::from(base).join(part);
        assert_eq!(join_path(base, part), expected.to_str().unwrap());
    }
}
