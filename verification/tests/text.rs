use quran_segmentation::text::{
    char_is_whitespace, chars_contain, chars_eq, chars_start_with, chars_strip_prefix,
    chars_to_ascii_lower, chars_to_ascii_upper, chars_trim_start_pattern, decode_text,
    dedupe_strings, join_chars, parse_unsigned, push_decimal, push_seconds, split_lines,
    str_chars, str_eq, string_from_chars, trim_chars, trim_end_char_chars,
};

fn chars(s: &str) -> Vec<char> {
    s.chars().collect()
}

fn text(v: &Vec<char>) -> String {
    v.iter().collect()
}

#[test]
fn bytes_are_decoded_with_replacements() {
    assert_eq!(decode_text("héllo ✓".as_bytes()), "héllo ✓");
    assert_eq!(decode_text(b""), "");
    assert_eq!(decode_text(&[b'a', 0xFF, b'b']), "a\u{FFFD}b");
    assert_eq!(decode_text(&[0xE2, 0x9C]), "\u{FFFD}");
}

#[test]
fn str_chars_and_back_keep_the_text() {
    let v = str_chars("héllo ✓");
    assert_eq!(v, chars("héllo ✓"));
    assert_eq!(string_from_chars(&v), "héllo ✓");
    assert_eq!(string_from_chars(&Vec::new()), "");
}

#[test]
fn whitespace_is_the_unicode_white_space_set() {
    for c in ['\t', '\n', '\u{b}', '\u{c}', '\r', ' ', '\u{85}', '\u{a0}', '\u{1680}', '\u{2000}',
        '\u{200a}', '\u{2028}', '\u{2029}', '\u{202f}', '\u{205f}', '\u{3000}'] {
        assert!(char_is_whitespace(c));
    }
    for c in ['a', '0', '\u{200b}', '\u{feff}', '\u{8}', '\u{e}', '\u{1f}', '\u{180e}'] {
        assert!(!char_is_whitespace(c));
    }
}

#[test]
fn whitespace_agrees_with_std_on_every_char() {
    let mut c: u32 = 0;
    while c <= 0x10FFFF {
        if let Some(ch) = char::from_u32(c) {
            assert_eq!(char_is_whitespace(ch), ch.is_whitespace());
        }
        c += 1;
    }
}

#[test]
fn trim_removes_both_ends_only() {
    assert_eq!(text(&trim_chars(&chars("  a b \t\r\n"))), "a b");
    assert_eq!(text(&trim_chars(&chars("\u{a0}x\u{3000}"))), "x");
    assert_eq!(text(&trim_chars(&chars("   "))), "");
    assert_eq!(text(&trim_chars(&chars(""))), "");
    assert_eq!(text(&trim_chars(&chars("abc"))), "abc");
}

#[test]
fn trim_end_char_removes_every_trailing_occurrence() {
    assert_eq!(text(&trim_end_char_chars(&chars("line\r\r"), '\r')), "line");
    assert_eq!(text(&trim_end_char_chars(&chars("\rline"), '\r')), "\rline");
    assert_eq!(text(&trim_end_char_chars(&chars("\r"), '\r')), "");
}

#[test]
fn prefix_and_contains() {
    assert!(chars_start_with(&chars("event: x"), &chars("event:")));
    assert!(!chars_start_with(&chars("even"), &chars("event:")));
    assert!(chars_start_with(&chars("abc"), &chars("")));
    assert!(chars_contain(&chars("hello world"), &chars("o w")));
    assert!(chars_contain(&chars("abc"), &chars("")));
    assert!(chars_contain(&chars("abc"), &chars("c")));
    assert!(!chars_contain(&chars("abc"), &chars("cd")));
    assert!(chars_contain(&chars(""), &chars("")));
    assert_eq!(chars_strip_prefix(&chars("data:{}"), &chars("data:")), Some(chars("{}")));
    assert_eq!(chars_strip_prefix(&chars("dat"), &chars("data:")), None);
}

#[test]
fn trim_start_pattern_removes_every_repetition() {
    assert_eq!(text(&chars_trim_start_pattern(&chars("STATUS:STATUS:{}"), &chars("STATUS:"))), "{}");
    assert_eq!(text(&chars_trim_start_pattern(&chars("xSTATUS:"), &chars("STATUS:"))), "xSTATUS:");
    assert_eq!(text(&chars_trim_start_pattern(&chars("abc"), &chars(""))), "abc");
}

#[test]
fn ascii_case_leaves_other_letters_alone() {
    assert_eq!(text(&chars_to_ascii_lower(&chars("GpU-É1"))), "gpu-É1");
    assert_eq!(text(&chars_to_ascii_upper(&chars("gpu-é1"))), "GPU-é1");
}

#[test]
fn equality_of_texts() {
    assert!(str_eq("abc", "abc"));
    assert!(!str_eq("abc", "abd"));
    assert!(!str_eq("abc", "ab"));
    assert!(chars_eq(&chars(""), &chars("")));
}

#[test]
fn lines_follow_line_feeds_and_drop_one_carriage_return() {
    let ls = split_lines(&chars("a\r\nb\n\nc"));
    let got: Vec<String> = ls.iter().map(text).collect();
    assert_eq!(got, vec!["a", "b", "", "c"]);
    let ls = split_lines(&chars("a\n"));
    assert_eq!(ls.len(), 1);
    let ls = split_lines(&chars("a\r"));
    assert_eq!(text(&ls[0]), "a\r");
    let ls = split_lines(&chars("a\r\r\n"));
    assert_eq!(text(&ls[0]), "a\r");
    assert_eq!(split_lines(&chars("")).len(), 0);
    assert_eq!(split_lines(&chars("\n")).len(), 1);
}

#[test]
fn lines_agree_with_std_on_samples() {
    for s in ["", "\n", "a", "a\n", "a\nb", "a\r\nb\r\n", "\r\n\r\n", "x\ry\n", "a\n\n\nb", "\r", "a\r"] {
        let ours: Vec<String> = split_lines(&chars(s)).iter().map(text).collect();
        let theirs: Vec<String> = s.lines().map(|l| l.to_string()).collect();
        assert_eq!(ours, theirs);
    }
}

#[test]
fn join_puts_the_separator_between_neighbours() {
    let parts = vec![chars("a"), chars("b"), chars("")];
    assert_eq!(text(&join_chars(&parts, &chars(", "))), "a, b, ");
    assert_eq!(text(&join_chars(&Vec::new(), &chars(", "))), "");
    assert_eq!(text(&join_chars(&vec![chars("only")], &chars(", "))), "only");
}

#[test]
fn decimal_formulas() {
    let mut out = Vec::new();
    push_decimal(&mut out, 0);
    push_decimal(&mut out, 7);
    push_decimal(&mut out, 1205);
    push_decimal(&mut out, u64::MAX);
    assert_eq!(text(&out), "07120518446744073709551615");
}

#[test]
fn seconds_have_six_decimals() {
    let mut out = Vec::new();
    push_seconds(&mut out, 1500);
    assert_eq!(text(&out), "1.500000");
    let mut out = Vec::new();
    push_seconds(&mut out, 0);
    assert_eq!(text(&out), "0.000000");
    let mut out = Vec::new();
    push_seconds(&mut out, 61007);
    assert_eq!(text(&out), "61.007000");
    let mut out = Vec::new();
    push_seconds(&mut out, 999);
    assert_eq!(text(&out), "0.999000");
}

#[test]
fn seconds_agree_with_float_formatting_on_a_timeline() {
    for ms in [0u64, 1, 9, 10, 99, 100, 999, 1000, 1001, 59_999, 3_600_000, 86_399_999, 123_456_789] {
        let mut out = Vec::new();
        push_seconds(&mut out, ms);
        assert_eq!(text(&out), format!("{:.6}", ms as f64 / 1000.0));
    }
}

#[test]
fn dedupe_keeps_first_occurrences_in_order() {
    let items = vec!["b".to_string(), "a".to_string(), "b".to_string(), "c".to_string(), "a".to_string()];
    assert_eq!(dedupe_strings(items), vec!["b", "a", "c"]);
    assert_eq!(dedupe_strings(Vec::new()), Vec::<String>::new());
}

#[test]
fn parse_unsigned_reads_digits_only() {
    assert_eq!(parse_unsigned(&chars("0")), Some(0));
    assert_eq!(parse_unsigned(&chars("310")), Some(310));
    assert_eq!(parse_unsigned(&chars("18446744073709551615")), Some(u64::MAX));
    assert_eq!(parse_unsigned(&chars("18446744073709551616")), None);
    assert_eq!(parse_unsigned(&chars("99999999999999999999999")), None);
    assert_eq!(parse_unsigned(&chars("")), None);
    assert_eq!(parse_unsigned(&chars("-1")), None);
    assert_eq!(parse_unsigned(&chars("1.0")), None);
    assert_eq!(parse_unsigned(&chars("1e3")), None);
}
