use reachfms::strutil::{
    contains_str, parse_u16, parse_u32, starts_with_str, str_eq, strip_tag, strip_tag_or_self,
};

#[test]
fn str_eq_basic() {
    assert!(str_eq("abc", "abc"));
    assert!(!str_eq("abc", "abd"));
    assert!(!str_eq("abc", "abcd"));
    assert!(str_eq("", ""));
}

#[test]
fn contains_str_basic() {
    assert!(contains_str("Microsoft Flight Simulator - 2020", "Microsoft Flight Simulator - "));
    assert!(contains_str("abc", ""));
    assert!(contains_str("abc", "bc"));
    assert!(!contains_str("abc", "cb"));
    assert!(!contains_str("ab", "abc"));
}

#[test]
fn starts_with_and_strip() {
    assert!(starts_with_str("AIRCRAFT:B748", "AIRCRAFT:"));
    assert!(!starts_with_str("XAIRCRAFT:B748", "AIRCRAFT:"));
    assert_eq!(strip_tag("AIRCRAFT:B748", "AIRCRAFT:").unwrap(), "B748");
    assert!(strip_tag("B748", "AIRCRAFT:").is_none());
}

#[test]
fn strip_or_self_keeps_untagged() {
    assert_eq!(strip_tag_or_self("RECONNECT:ok", "RECONNECT:"), "ok");
    assert_eq!(strip_tag_or_self("plain", "RECONNECT:"), "plain");
}

#[test]
fn parse_u32_basic() {
    assert_eq!(parse_u32("0"), Some(0));
    assert_eq!(parse_u32("007"), Some(7));
    assert_eq!(parse_u32("4294967295"), Some(u32::MAX));
    assert_eq!(parse_u32("4294967296"), None);
    assert_eq!(parse_u32(""), None);
    assert_eq!(parse_u32("12a"), None);
    assert_eq!(parse_u32("-3"), None);
}

#[test]
fn parse_u16_basic() {
    assert_eq!(parse_u16("65535"), Some(u16::MAX));
    assert_eq!(parse_u16("65536"), None);
    assert_eq!(parse_u16("200"), Some(200));
}
