use human_index_prover::text::{decimal_text, parse_bool, parse_u64, parse_usize, same_text};

#[test]
fn decimal_text_of_numbers() {
    assert_eq!(decimal_text(0), "0");
    assert_eq!(decimal_text(7), "7");
    assert_eq!(decimal_text(3600), "3600");
    assert_eq!(decimal_text(u64::MAX), "18446744073709551615");
}

#[test]
fn parse_u64_accepts_plain_and_plus_sign() {
    assert_eq!(parse_u64("42"), Some(42));
    assert_eq!(parse_u64("+7"), Some(7));
    assert_eq!(parse_u64("0007"), Some(7));
    assert_eq!(parse_u64("18446744073709551615"), Some(u64::MAX));
}

#[test]
fn parse_u64_refuses_malformed_and_too_large() {
    assert_eq!(parse_u64(""), None);
    assert_eq!(parse_u64("+"), None);
    assert_eq!(parse_u64("-1"), None);
    assert_eq!(parse_u64(" 1"), None);
    assert_eq!(parse_u64("1_000"), None);
    assert_eq!(parse_u64("abc"), None);
    assert_eq!(parse_u64("18446744073709551616"), None);
}

#[test]
fn parse_usize_reads_limits() {
    assert_eq!(parse_usize("2"), Some(2));
    assert_eq!(parse_usize("x2"), None);
}

#[test]
fn parse_bool_reads_only_exact_words() {
    assert_eq!(parse_bool("true"), Some(true));
    assert_eq!(parse_bool("false"), Some(false));
    assert_eq!(parse_bool("TRUE"), None);
    assert_eq!(parse_bool("1"), None);
}

#[test]
fn same_text_compares_characters() {
    assert!(same_text("vm_pk", "vm_pk"));
    assert!(!same_text("vm_pk", "vm_vk"));
    assert!(!same_text("a", "ab"));
    assert!(same_text("", ""));
}
