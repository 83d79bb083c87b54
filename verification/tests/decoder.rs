//! The typed decoder on its own: numerals, booleans, and their edge cases.

use memprof_opts::parse::parse_bool;
use memprof_opts::parse::parse_u16;
use memprof_opts::parse::parse_u32;
use memprof_opts::parse::parse_u64;
use memprof_opts::parse::parse_usize;
use memprof_opts::parse::str_eq;

#[test]
fn parse_u64_accepts_plain_numerals() {
    assert_eq!(parse_u64("0"), Some(0));
    assert_eq!(parse_u64("7"), Some(7));
    assert_eq!(parse_u64("10000"), Some(10000));
    assert_eq!(parse_u64("0009000"), Some(9000));
}

#[test]
fn parse_u64_accepts_a_leading_plus() {
    assert_eq!(parse_u64("+42"), Some(42));
    assert_eq!(parse_u64("+0"), Some(0));
}

#[test]
fn parse_u64_rejects_malformed_numerals() {
    assert_eq!(parse_u64(""), None);
    assert_eq!(parse_u64("+"), None);
    assert_eq!(parse_u64("++1"), None);
    assert_eq!(parse_u64("-1"), None);
    assert_eq!(parse_u64(" 1"), None);
    assert_eq!(parse_u64("1 "), None);
    assert_eq!(parse_u64("1x"), None);
    assert_eq!(parse_u64("x1"), None);
    assert_eq!(parse_u64("not_a_number"), None);
    assert_eq!(parse_u64("1.5"), None);
    assert_eq!(parse_u64("١٢٣"), None);
}

#[test]
fn parse_u64_observes_the_range() {
    assert_eq!(parse_u64("18446744073709551615"), Some(u64::MAX));
    assert_eq!(parse_u64("18446744073709551616"), None);
    assert_eq!(parse_u64("99999999999999999999999999"), None);
}

#[test]
fn parse_u32_observes_the_range() {
    assert_eq!(parse_u32("4294967295"), Some(u32::MAX));
    assert_eq!(parse_u32("4294967296"), None);
    assert_eq!(parse_u32("1000"), Some(1000));
    assert_eq!(parse_u32("junk"), None);
}

#[test]
fn parse_u16_observes_the_range() {
    assert_eq!(parse_u16("65535"), Some(u16::MAX));
    assert_eq!(parse_u16("65536"), None);
    assert_eq!(parse_u16("9000"), Some(9000));
    assert_eq!(parse_u16("junk"), None);
}

#[test]
fn parse_usize_observes_the_range() {
    assert_eq!(parse_usize("16384"), Some(16384));
    assert_eq!(parse_usize("0"), Some(0));
    assert_eq!(parse_usize("junk"), None);
    assert_eq!(parse_usize("99999999999999999999999999"), None);
}

#[test]
fn parse_bool_accepts_only_the_two_true_spellings() {
    assert!(parse_bool("1"));
    assert!(parse_bool("true"));
    assert!(!parse_bool("TRUE"));
    assert!(!parse_bool("True"));
    assert!(!parse_bool("0"));
    assert!(!parse_bool("yes"));
    assert!(!parse_bool("on"));
    assert!(!parse_bool(""));
    assert!(!parse_bool(" true"));
    assert!(!parse_bool("true "));
}

#[test]
fn str_eq_compares_character_for_character() {
    assert!(str_eq("", ""));
    assert!(str_eq("abc", "abc"));
    assert!(!str_eq("abc", "abd"));
    assert!(!str_eq("abc", "ab"));
    assert!(str_eq("naïve", "naïve"));
    assert!(!str_eq("naïve", "naive"));
}
