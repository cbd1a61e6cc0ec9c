use torbridge::text::{contains_str, ends_with_str, parse_u32, starts_with_str, str_eq, u32_to_dec};

#[test]
fn decimal_rendering_is_exact() {
    assert_eq!(u32_to_dec(0), String::from("0"));
    assert_eq!(u32_to_dec(7), String::from("7"));
    assert_eq!(u32_to_dec(10), String::from("10"));
    assert_eq!(u32_to_dec(12345), String::from("12345"));
    assert_eq!(u32_to_dec(u32::MAX), String::from("4294967295"));
}

#[test]
fn parse_accepts_trimmed_digits() {
    assert_eq!(parse_u32("12345"), Some(12345));
    assert_eq!(parse_u32("  12345\n"), Some(12345));
    assert_eq!(parse_u32("0"), Some(0));
    assert_eq!(parse_u32("4294967295"), Some(u32::MAX));
}

#[test]
fn parse_rejects_junk_and_overflow() {
    assert_eq!(parse_u32(""), None);
    assert_eq!(parse_u32("   "), None);
    assert_eq!(parse_u32("---{!}---"), None);
    assert_eq!(parse_u32("12a45"), None);
    assert_eq!(parse_u32("4294967296"), None);
    assert_eq!(parse_u32("99999999999999999999"), None);
}

#[test]
fn substring_search() {
    assert!(contains_str("Bootstrapped 100% (done): ready", "Bootstrapped 100% (done):"));
    assert!(!contains_str("Bootstrapped 99%", "Bootstrapped 100% (done):"));
    assert!(contains_str("abc", ""));
    assert!(!contains_str("", "abc"));
    assert!(contains_str("ααβ", "αβ"));
}

#[test]
fn prefix_and_suffix_tests() {
    assert!(starts_with_str("--log_file=LF", "--log_file="));
    assert!(!starts_with_str("-log_file=LF", "--log_file="));
    assert!(ends_with_str("example.onion", ".onion"));
    assert!(!ends_with_str("example.onion.com", ".onion"));
    assert!(str_eq("startTor", "startTor"));
    assert!(!str_eq("startTor", "starttor"));
}
