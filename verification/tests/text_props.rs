use dictionary::dtos::{KnownWordVariant, PronunciationVariant};
use dictionary::text::{
    chars_of, join_all, last_segment, parse_u64, render_u64, split_chars, string_of, trim_str,
    u64_string,
};

#[test]
fn trim_removes_unicode_white_space() {
    assert_eq!(trim_str("  cat\t\n"), "cat");
    assert_eq!(trim_str(""), "");
    assert_eq!(trim_str(" \u{A0} "), "");
    assert_eq!(trim_str("cat"), "cat");
    assert_eq!(trim_str("a b"), "a b");
}

#[test]
fn split_keeps_empty_pieces() {
    let v = chars_of("a;b;;c");
    let parts: Vec<String> = split_chars(&v, ';').iter().map(string_of).collect();
    assert_eq!(parts, vec!["a", "b", "", "c"]);

    let empty = chars_of("");
    let parts: Vec<String> = split_chars(&empty, ';').iter().map(string_of).collect();
    assert_eq!(parts, vec![""]);
}

#[test]
fn last_segment_takes_href_tail() {
    let v = chars_of("/definition/english/wildcat_3");
    assert_eq!(string_of(&last_segment(&v, '/')), "wildcat_3");
    let no_sep = chars_of("wildcat");
    assert_eq!(string_of(&last_segment(&no_sep, '/')), "wildcat");
    let trailing = chars_of("a/");
    assert_eq!(string_of(&last_segment(&trailing, '/')), "");
}

#[test]
fn join_with_separator() {
    let parts = vec!["a".to_string(), "b".to_string(), "c".to_string()];
    assert_eq!(join_all(&parts, " "), "a b c");
    let one = vec!["solo".to_string()];
    assert_eq!(join_all(&one, " "), "solo");
    let none: Vec<String> = Vec::new();
    assert_eq!(join_all(&none, " "), "");
}

#[test]
fn decimal_render_and_parse_are_inverse() {
    assert_eq!(u64_string(0), "0");
    assert_eq!(u64_string(1234567890), "1234567890");
    assert_eq!(u64_string(u64::MAX), "18446744073709551615");
    for n in [0u64, 7, 10, 99, 1000, u64::MAX] {
        assert_eq!(parse_u64(&render_u64(n)), Some(n));
    }
}

#[test]
fn parse_rejects_junk_and_overflow() {
    assert_eq!(parse_u64(&chars_of("")), None);
    assert_eq!(parse_u64(&chars_of("12a")), None);
    assert_eq!(parse_u64(&chars_of("-1")), None);
    assert_eq!(parse_u64(&chars_of("18446744073709551615")), Some(u64::MAX));
    assert_eq!(parse_u64(&chars_of("18446744073709551616")), None);
}

#[test]
fn response_name_round_trips() {
    assert_eq!(PronunciationVariant::Uk.as_str_name(), "Uk");
    assert_eq!(
        PronunciationVariant::from_str_name("Usa"),
        Some(PronunciationVariant::Usa)
    );
    assert_eq!(PronunciationVariant::from_str_name("uk"), None);
    assert_eq!(KnownWordVariant::Adjective.as_str_name(), "Adjective");
    assert_eq!(
        KnownWordVariant::from_str_name("Adverb"),
        Some(KnownWordVariant::Adverb)
    );
    assert_eq!(KnownWordVariant::from_str_name("adverb"), None);
}
