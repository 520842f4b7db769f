use athn_document::number::{
    digit, digits_only, float_text, parse_bool, parse_i64, parse_positive_u32, parse_u32,
    read_digits,
};
use athn_document::text::{chars_of, find, is_text, split_once, stands_at, starts_with, string_of};

fn chars(text: &str) -> Vec<char> {
    text.chars().collect()
}

#[test]
fn strings_and_characters_convert_both_ways() {
    for text in ["", "a", "plain", "naïve €uro 🦀", "line\nfeed\r"] {
        assert_eq!(chars_of(text), chars(text));
        assert_eq!(string_of(&chars(text)), text.to_string());
    }
    assert_eq!(chars_of("é€🦀").len(), 3);
    assert_eq!(string_of(&['b', 'c']), "bc".to_string());
}

#[test]
fn finds_the_first_occurrence() {
    assert_eq!(find(&chars("a \\b \\c"), &chars(" \\")), Some(1));
    assert_eq!(find(&chars("aaab"), &chars("ab")), Some(2));
    assert_eq!(find(&chars("abab"), &chars("ab")), Some(0));
    assert_eq!(find(&chars("abc"), &chars("abcd")), None);
    assert_eq!(find(&chars("abc"), &chars("c")), Some(2));
    assert_eq!(find(&chars("abc"), &chars("x")), None);
    assert_eq!(find(&chars(""), &chars("x")), None);
    assert_eq!(find(&chars("abc"), &chars("")), Some(0));
    assert_eq!(find(&chars(""), &chars("")), Some(0));
    assert_eq!(find(&chars("a | | b"), &chars(" | ")), Some(1));
}

#[test]
fn tells_where_a_pattern_stands() {
    let hay = chars("+++ Form");
    assert!(stands_at(&hay, &chars("+++"), 0));
    assert!(!stands_at(&hay, &chars("+++"), 1));
    assert!(stands_at(&hay, &chars("Form"), 4));
    assert!(!stands_at(&hay, &chars("Form"), 5));
    assert!(!stands_at(&hay, &chars("Form"), usize::MAX));
    assert!(stands_at(&hay, &chars(""), 8));
    assert!(!stands_at(&hay, &chars(""), 9));
    assert!(starts_with(&hay, &chars("+++ ")));
    assert!(!starts_with(&hay, &chars("++ ")));
    assert!(!starts_with(&chars("++"), &chars("+++")));
}

#[test]
fn splits_once_at_the_first_occurrence() {
    let hay = chars("url label more");
    let (before, after) = split_once(&hay, &chars(" ")).unwrap();
    assert_eq!(string_of(before), "url");
    assert_eq!(string_of(after), "label more");

    let hay = chars("ends here: ");
    let (before, after) = split_once(&hay, &chars(": ")).unwrap();
    assert_eq!(string_of(before), "ends here");
    assert_eq!(string_of(after), "");

    assert!(split_once(&chars("nothing"), &chars(" ")).is_none());
}

#[test]
fn compares_with_a_text() {
    assert!(is_text(&chars("int"), "int"));
    assert!(!is_text(&chars("int"), "in"));
    assert!(!is_text(&chars("in"), "int"));
    assert!(!is_text(&chars("Int"), "int"));
    assert!(is_text(&chars(""), ""));
    assert!(!is_text(&chars(""), "x"));
    assert!(is_text(&chars("€"), "€"));
}

#[test]
fn reads_digits_up_to_a_limit() {
    assert!(digit('0') && digit('9') && !digit('/') && !digit(':') && !digit('a'));
    assert!(digits_only(&chars("0123456789")));
    assert!(digits_only(&chars("")));
    assert!(!digits_only(&chars("12a")));
    assert_eq!(read_digits(&chars("120"), 120), Some(120));
    assert_eq!(read_digits(&chars("121"), 120), None);
    assert_eq!(read_digits(&chars("0000120"), 120), Some(120));
    assert_eq!(read_digits(&chars(""), 120), None);
    assert_eq!(read_digits(&chars("1x"), 120), None);
    assert_eq!(read_digits(&chars("18446744073709551615"), u64::MAX), Some(u64::MAX));
    assert_eq!(read_digits(&chars("18446744073709551616"), u64::MAX), None);
    assert_eq!(read_digits(&chars("5"), 4), None);
    assert_eq!(read_digits(&chars("0"), 0), Some(0));
}

#[test]
fn reads_numbers_as_the_standard_library_does() {
    let samples = [
        "0", "1", "+1", "-1", "-0", "+0", "00", "4294967295", "4294967296", "+4294967295",
        "9223372036854775807", "9223372036854775808", "-9223372036854775808",
        "-9223372036854775809", "", "+", "-", "++1", "1+", " 1", "1 ", "1.0", "0x1", "１",
        "123456789012345678901234567890", "-00000000000000000000000000000000000042",
    ];
    for text in samples {
        assert_eq!(parse_u32(&chars(text)), text.parse::<u32>().ok(), "{:?}", text);
        assert_eq!(parse_i64(&chars(text)), text.parse::<i64>().ok(), "{:?}", text);
        assert_eq!(
            parse_positive_u32(&chars(text)),
            text.parse::<std::num::NonZeroU32>().ok().map(|n| n.get()),
            "{:?}",
            text
        );
        assert_eq!(parse_bool(&chars(text)), text.parse::<bool>().ok(), "{:?}", text);
        assert_eq!(float_text(&chars(text)), text.parse::<f64>().is_ok(), "{:?}", text);
    }
    assert_eq!(parse_bool(&chars("true")), Some(true));
    assert_eq!(parse_bool(&chars("false")), Some(false));
    assert_eq!(parse_bool(&chars("TRUE")), None);
    assert_eq!(parse_u32(&chars("100")), Some(100));
    assert_eq!(parse_i64(&chars("-100")), Some(-100));
    assert_eq!(parse_positive_u32(&chars("0")), None);
}
