use rig_supervisor::number::{
    decimal_chars, integer_chars, is_float, parse_digits, parse_unsigned,
};
use rig_supervisor::text::{
    chars_of, contains_text, equal, find, same_text, split_text, string_of, trim_text,
};

fn chars(s: &str) -> Vec<char> {
    s.chars().collect()
}

fn strings(parts: Vec<Vec<char>>) -> Vec<String> {
    parts.into_iter().map(|p| p.into_iter().collect()).collect()
}

#[test]
fn chars_and_strings_convert_both_ways() {
    assert_eq!(chars_of("añb"), vec!['a', 'ñ', 'b']);
    assert_eq!(string_of(&vec!['a', 'ñ', 'b']), "añb");
    assert_eq!(string_of(&chars_of("")), "");
}

#[test]
fn find_gives_the_first_occurrence() {
    assert_eq!(find(&chars("abcabc"), &chars("bc")), Some(1));
    assert_eq!(find(&chars("abcabc"), &chars("cb")), None);
    assert_eq!(find(&chars("abc"), &chars("")), Some(0));
    assert_eq!(find(&chars(""), &chars("")), Some(0));
    assert_eq!(find(&chars("ab"), &chars("abc")), None);
}

#[test]
fn contains_text_matches_substrings_only() {
    assert!(contains_text(&chars("/dev/video10"), &chars("video")));
    assert!(!contains_text(&chars("/dev/vide"), &chars("video")));
    assert!(contains_text(&chars("x"), &chars("")));
}

#[test]
fn split_text_parts_at_every_occurrence() {
    assert_eq!(strings(split_text(&chars("a\tb\tc"), &chars("\t"))), vec!["a", "b", "c"]);
    assert_eq!(strings(split_text(&chars("\ta\t"), &chars("\t"))), vec!["", "a", ""]);
    assert_eq!(strings(split_text(&chars(""), &chars("\t"))), vec![""]);
    assert_eq!(strings(split_text(&chars("abc"), &chars("\t"))), vec!["abc"]);
}

#[test]
fn split_text_takes_occurrences_from_the_left_without_overlap() {
    assert_eq!(strings(split_text(&chars("a\n\n\nb"), &chars("\n\n"))), vec!["a", "\nb"]);
    assert_eq!(strings(split_text(&chars("aaa"), &chars("aa"))), vec!["", "a"]);
}

#[test]
fn split_text_with_an_empty_pattern_splits_nothing() {
    assert_eq!(strings(split_text(&chars("abc"), &chars(""))), vec!["abc"]);
}

#[test]
fn trim_text_drops_whitespace_at_both_ends() {
    assert_eq!(string_of(&trim_text(&chars("  \t/dev/video0 \n"))), "/dev/video0");
    assert_eq!(string_of(&trim_text(&chars("a b"))), "a b");
    assert_eq!(string_of(&trim_text(&chars(" \t\n"))), "");
    assert_eq!(string_of(&trim_text(&chars(""))), "");
    assert_eq!(string_of(&trim_text(&chars("\u{a0}x\u{3000}"))), "x");
}

#[test]
fn trim_text_agrees_with_the_standard_library() {
    for case in [" a ", "\u{85}b\u{2003}", "\u{200b}c", "\u{1680}\u{2028}d\u{2029}\u{202f}\u{205f}"] {
        assert_eq!(string_of(&trim_text(&chars(case))), case.trim());
    }
}

#[test]
fn texts_compare_by_their_characters() {
    assert!(equal(&chars("abc"), &chars("abc")));
    assert!(!equal(&chars("abc"), &chars("abd")));
    assert!(!equal(&chars("abc"), &chars("ab")));
    assert!(same_text("", ""));
    assert!(!same_text("a", ""));
}

#[test]
fn parse_digits_reads_decimal_numbers() {
    assert_eq!(parse_digits(&chars("0"), 100), Some(0));
    assert_eq!(parse_digits(&chars("007"), 100), Some(7));
    assert_eq!(parse_digits(&chars("100"), 100), Some(100));
    assert_eq!(parse_digits(&chars("101"), 100), None);
    assert_eq!(parse_digits(&chars(""), 100), None);
    assert_eq!(parse_digits(&chars("1a"), 100), None);
    assert_eq!(parse_digits(&chars("+1"), 100), None);
    assert_eq!(parse_digits(&chars("-1"), 100), None);
}

#[test]
fn parse_digits_stops_at_the_largest_number() {
    assert_eq!(parse_digits(&chars("18446744073709551615"), u64::MAX), Some(u64::MAX));
    assert_eq!(parse_digits(&chars("18446744073709551616"), u64::MAX), None);
    assert_eq!(parse_digits(&chars("99999999999999999999999"), u64::MAX), None);
    assert_eq!(parse_digits(&chars("2147483647"), 2147483647), Some(2147483647));
    assert_eq!(parse_digits(&chars("2147483648"), 2147483647), None);
}

#[test]
fn parse_unsigned_takes_a_plus_and_no_minus() {
    assert_eq!(parse_unsigned(&chars("+5"), 10), Some(5));
    assert_eq!(parse_unsigned(&chars("5"), 10), Some(5));
    assert_eq!(parse_unsigned(&chars("-5"), 10), None);
    assert_eq!(parse_unsigned(&chars("+"), 10), None);
    assert_eq!(parse_unsigned(&chars("++5"), 10), None);
    assert_eq!(parse_unsigned(&chars(" 5"), 10), None);
    assert_eq!(parse_unsigned(&chars("5 "), 10), None);
}

#[test]
fn parse_unsigned_agrees_with_the_standard_library() {
    for case in ["", "+", "-", "0", "+0", "-0", "12", "+12", "1_0", "٣", "18446744073709551615", "18446744073709551616"] {
        assert_eq!(parse_unsigned(&chars(case), u64::MAX), case.parse::<u64>().ok(), "{case}");
    }
}

#[test]
fn decimal_chars_writes_numbers_without_leading_zeros() {
    assert_eq!(string_of(&decimal_chars(0)), "0");
    assert_eq!(string_of(&decimal_chars(7)), "7");
    assert_eq!(string_of(&decimal_chars(1013)), "1013");
    assert_eq!(string_of(&decimal_chars(u64::MAX)), "18446744073709551615");
}

#[test]
fn integer_chars_writes_a_minus_before_negative_numbers() {
    assert_eq!(string_of(&integer_chars(0)), "0");
    assert_eq!(string_of(&integer_chars(42)), "42");
    assert_eq!(string_of(&integer_chars(-42)), "-42");
    assert_eq!(string_of(&integer_chars(i32::MIN)), "-2147483648");
    assert_eq!(string_of(&integer_chars(i32::MAX)), "2147483647");
}

#[test]
fn decimal_chars_reads_back() {
    for n in [0u64, 9, 10, 99, 100, 12345, u64::MAX] {
        assert_eq!(parse_digits(&decimal_chars(n), u64::MAX), Some(n));
    }
}

#[test]
fn is_float_accepts_decimal_notation() {
    for case in ["12.5", "3.14", "-3.14", "2.5E10", "2.5e10", "2.5E-10", "5.", ".5", "7", "007", "1e7", "+1e+7", "0.000000"] {
        assert!(is_float(&chars(case)), "{case}");
    }
}

#[test]
fn is_float_accepts_the_special_words() {
    for case in ["inf", "-inf", "+infinity", "NaN", "nan", "INF", "Infinity", "-NAN"] {
        assert!(is_float(&chars(case)), "{case}");
    }
}

#[test]
fn is_float_rejects_what_is_no_number() {
    for case in ["", "+", "-", ".", "e5", "1e", "1e+", "soon", " 1", "1 ", "1.2.3", "1,5", "--1", "infi", "na", "1e5.0", "0x10", "1_000"] {
        assert!(!is_float(&chars(case)), "{case}");
    }
}

#[test]
fn is_float_agrees_with_the_standard_library() {
    for case in ["", "1", "1.", ".1", ".", "+.1e-3", "1e", "e1", "inf", "infinit", "nan", "NaN", "+nan", "1.5e10", "1.5E+10", "1..5", "١", "1e1e1", "-", "+-1", "12abc"] {
        assert_eq!(is_float(&chars(case)), case.parse::<f64>().is_ok(), "{case}");
    }
}
