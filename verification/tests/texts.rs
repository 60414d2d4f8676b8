use codex_relay::text::{
    chars_of, join, join3, read_signed, signed_text, text_is, unsigned_text,
};

#[test]
fn numerals_are_written_as_usual() {
    assert_eq!(unsigned_text(0), "0");
    assert_eq!(unsigned_text(1090), "1090");
    assert_eq!(unsigned_text(u64::MAX), "18446744073709551615");
    assert_eq!(signed_text(-7), "-7");
    assert_eq!(signed_text(i64::MIN), "-9223372036854775808");
    assert_eq!(signed_text(i64::MAX), "9223372036854775807");
}

#[test]
fn numerals_are_read_back() {
    for n in [0, 1, -1, 10, -10, i64::MAX, i64::MIN] {
        assert_eq!(read_signed(&signed_text(n)), Some(n));
    }
}

#[test]
fn other_texts_are_no_numerals() {
    for text in [
        "",
        "-",
        "-0",
        "007",
        "+7",
        " 7",
        "7.0",
        "1e3",
        "9223372036854775808",
        "-9223372036854775809",
        "99999999999999999999999999",
        "\u{0667}",
    ] {
        assert_eq!(read_signed(text), None);
    }
}

#[test]
fn texts_are_joined_and_told_apart() {
    assert_eq!(join("a", "b"), "ab");
    assert_eq!(join3("a", "", "c"), "ac");
    assert!(text_is(&"id".to_string(), "id"));
    assert!(!text_is(&"Id".to_string(), "id"));
    assert_eq!(chars_of("a\u{e9}"), vec!['a', '\u{e9}']);
}
