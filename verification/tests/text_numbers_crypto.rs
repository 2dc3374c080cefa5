use lab_inventory::crypto::{decode_base64, generate_token, hmac_sha256_base64, sha256_hex, to_hex_lower};
use lab_inventory::numeric::{format_i64, parse_i32, parse_i64};
use lab_inventory::text::{
    contains, eq_ignore_ascii_case, is_blank, str_eq, to_ascii_lowercase, trim_end_matches_char,
    trim_matches_char, trim_to_string,
};

#[test]
fn trimming_removes_unicode_whitespace_on_both_ends() {
    assert_eq!(trim_to_string("  \t lab \n"), "lab");
    assert_eq!(trim_to_string("\u{3000}x y\u{a0}"), "x y");
    assert_eq!(trim_to_string("   "), "");
    assert!(is_blank(" \t\r\n"));
    assert!(!is_blank(" a "));
}

#[test]
fn trimming_a_character_only_touches_the_ends() {
    assert_eq!(trim_end_matches_char("https://x/a//", '/'), "https://x/a");
    assert_eq!(trim_matches_char("//assets/1/", '/'), "assets/1");
    assert_eq!(trim_matches_char("////", '/'), "");
}

#[test]
fn text_comparisons() {
    assert!(str_eq("abc", "abc"));
    assert!(!str_eq("abc", "abd"));
    assert!(contains("http://127.0.0.1:8080", "127.0.0.1"));
    assert!(!contains("https://lab.example", "localhost"));
    assert!(contains("abc", ""));
    assert_eq!(to_ascii_lowercase("Lab.EXAMPLE:443"), "lab.example:443");
    assert!(eq_ignore_ascii_case("ABCdef", "abcDEF"));
    assert!(!eq_ignore_ascii_case("abc", "abcd"));
}

#[test]
fn integers_are_written_as_display_writes_them() {
    assert_eq!(format_i64(0), "0");
    assert_eq!(format_i64(-42), "-42");
    assert_eq!(format_i64(i64::MAX), "9223372036854775807");
    assert_eq!(format_i64(i64::MIN), "-9223372036854775808");
}

#[test]
fn integers_are_read_as_str_parse_reads_them() {
    assert_eq!(parse_i64("+17"), Some(17));
    assert_eq!(parse_i64("-9223372036854775808"), Some(i64::MIN));
    assert_eq!(parse_i64("9223372036854775808"), None);
    assert_eq!(parse_i64(""), None);
    assert_eq!(parse_i64("-"), None);
    assert_eq!(parse_i64(" 1"), None);
    assert_eq!(parse_i32("2147483647"), Some(i32::MAX));
    assert_eq!(parse_i32("2147483648"), None);
    for n in [-1000i64, -1, 0, 7, 1234567890123] {
        assert_eq!(parse_i64(&format_i64(n)), Some(n));
    }
}

#[test]
fn hex_and_digests() {
    assert_eq!(to_hex_lower(&[0x00, 0xab, 0x10]), "00ab10");
    assert_eq!(
        sha256_hex(b"abc"),
        "ba7816bf8f01cfea414140de5dae2223b00361a396177a9cb410ff61f20015ad"
    );
    assert_eq!(
        sha256_hex(b""),
        "e3b0c44298fc1c149afbf4c8996fb92427ae41e4649b934ca495991b7852b855"
    );
}

#[test]
fn hmac_tags_are_standard_base64() {
    let tag = hmac_sha256_base64("key", "The quick brown fox jumps over the lazy dog");
    assert_eq!(tag, "97yD9DBThCSxMpjmqm+xQ+9NWaFJRhdZl0edvC0aPNg=");
    assert_eq!(decode_base64(&tag).map(|b| b.len()), Some(32));
    assert_eq!(decode_base64("not base64!"), None);
}

#[test]
fn tokens_are_url_safe_and_sized() {
    let token = generate_token(32).unwrap();
    assert_eq!(token.len(), 43);
    assert!(token.chars().all(|c| c.is_ascii_alphanumeric() || c == '-' || c == '_'));
    assert_ne!(generate_token(24), generate_token(24));
}
