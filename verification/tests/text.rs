use seify::text::parse_u32;
use seify::text::str_ci_eq;
use seify::text::str_eq;
use seify::text::u8_dec;
use seify::text::utf8_lossy_string;

#[test]
fn u8_dec_formats_decimal() {
    assert_eq!(u8_dec(0), "0");
    assert_eq!(u8_dec(7), "7");
    assert_eq!(u8_dec(10), "10");
    assert_eq!(u8_dec(200), "200");
    assert_eq!(u8_dec(255), "255");
}

#[test]
fn parse_u32_accepts_decimal_numbers() {
    assert_eq!(parse_u32("0"), Some(0));
    assert_eq!(parse_u32("123"), Some(123));
    assert_eq!(parse_u32("+123"), Some(123));
    assert_eq!(parse_u32("007"), Some(7));
    assert_eq!(parse_u32("4294967295"), Some(u32::MAX));
}

#[test]
fn parse_u32_rejects_everything_else() {
    assert_eq!(parse_u32(""), None);
    assert_eq!(parse_u32("+"), None);
    assert_eq!(parse_u32("-1"), None);
    assert_eq!(parse_u32("12 "), None);
    assert_eq!(parse_u32(" 12"), None);
    assert_eq!(parse_u32("12a"), None);
    assert_eq!(parse_u32("4294967296"), None);
    assert_eq!(parse_u32("99999999999999999999"), None);
}

#[test]
fn str_eq_compares_characters() {
    assert!(str_eq("", ""));
    assert!(str_eq("abc", "abc"));
    assert!(!str_eq("abc", "abd"));
    assert!(!str_eq("abc", "abcd"));
}

#[test]
fn str_ci_eq_ignores_ascii_case_against_lowercase_patterns() {
    assert!(str_ci_eq("HackRF", "hackrf"));
    assert!(str_ci_eq("hackrf", "hackrf"));
    assert!(!str_ci_eq("hackrf1", "hackrf"));
    assert!(!str_ci_eq("hackr", "hackrf"));
}

#[test]
fn utf8_lossy_decodes_ascii_and_replaces_invalid_bytes() {
    assert_eq!(utf8_lossy_string(&b"hackrf".to_vec()), "hackrf");
    assert_eq!(utf8_lossy_string(&Vec::new()), "");
    assert_eq!(utf8_lossy_string(&vec![0xFF, b'a']), "\u{FFFD}a");
}
