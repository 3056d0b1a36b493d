use course_catalog::text::{
    digit, equals, from_chars, has, is_one_of, is_white_space, joined, same, same_text,
    split_at_any, split_on, to_chars, to_i32, trimmed, trimmed_text, without,
};

fn chars(s: &str) -> Vec<char> {
    s.chars().collect()
}

fn pieces(parts: &[&str]) -> Vec<Vec<char>> {
    parts.iter().map(|p| chars(p)).collect()
}

#[test]
fn chars_round_trip() {
    assert_eq!(to_chars("a月b"), vec!['a', '月', 'b']);
    assert_eq!(to_chars(""), Vec::<char>::new());
    assert_eq!(from_chars(&vec!['x', '日', 'y']), "x日y".to_string());
    assert_eq!(from_chars(&Vec::new()), String::new());
}

#[test]
fn same_compares_characters() {
    assert!(same(&chars("abc"), &chars("abc")));
    assert!(!same(&chars("abc"), &chars("abd")));
    assert!(!same(&chars("abc"), &chars("ab")));
    assert!(same(&chars(""), &chars("")));
    assert!(equals(&chars("1-2"), "1-2"));
    assert!(!equals(&chars("1-2"), "1-4"));
    assert!(same_text("月曜", "月曜"));
    assert!(!same_text("月曜", "火曜"));
}

#[test]
fn trim_removes_white_space_at_both_ends() {
    assert_eq!(trimmed(&chars("  a b \n")), chars("a b"));
    assert_eq!(trimmed(&chars("\t\r\n x")), chars("x"));
    assert_eq!(trimmed(&chars("x")), chars("x"));
    assert_eq!(trimmed(&chars("")), chars(""));
    assert_eq!(trimmed(&chars(" \n\t ")), chars(""));
    assert_eq!(trimmed_text("\u{3000}機械\u{a0}"), chars("機械"));
}

#[test]
fn trim_keeps_inner_white_space() {
    assert_eq!(trimmed(&chars(" a  b\tc ")), chars("a  b\tc"));
}

#[test]
fn split_finds_separators_from_left_to_right() {
    assert_eq!(split_on(&chars("abcabc"), &chars("bc")), pieces(&["a", "a", ""]));
    assert_eq!(split_on(&chars("aaa"), &chars("aa")), pieces(&["", "a"]));
    assert_eq!(split_on(&chars("xaax"), &chars("a")), pieces(&["x", "", "x"]));
}

#[test]
fn has_tells_containment() {
    assert!(has(&chars("山田 太郎, 鈴木 花子"), &chars("鈴木")));
    assert!(!has(&chars("山田 太郎"), &chars("鈴木")));
    assert!(has(&chars("abc"), &chars("")));
    assert!(has(&chars(""), &chars("")));
    assert!(!has(&chars(""), &chars("a")));
}

#[test]
fn split_cuts_at_every_separator() {
    assert_eq!(split_on(&chars("a--b--c"), &chars("--")), pieces(&["a", "b", "c"]));
    assert_eq!(split_on(&chars("abc"), &chars("--")), pieces(&["abc"]));
    assert_eq!(split_on(&chars(""), &chars("--")), pieces(&[""]));
    assert_eq!(split_on(&chars("--a--"), &chars("--")), pieces(&["", "a", ""]));
    assert_eq!(split_on(&chars("a---b"), &chars("--")), pieces(&["a", "-b"]));
    assert_eq!(split_on(&chars("a----b"), &chars("--")), pieces(&["a", "", "b"]));
}

#[test]
fn split_with_empty_separator_keeps_the_text_whole() {
    assert_eq!(split_on(&chars("abc"), &chars("")), pieces(&["abc"]));
}

#[test]
fn without_removes_every_occurrence() {
    assert_eq!(without(&chars("2023年度"), &chars("年度")), chars("2023"));
    assert_eq!(without(&chars("a&nbsp;b&nbsp;"), &chars("&nbsp;")), chars("ab"));
    assert_eq!(without(&chars("aaa"), &chars("aa")), chars("a"));
    assert_eq!(without(&chars("abc"), &chars("x")), chars("abc"));
    assert_eq!(without(&chars("abc"), &chars("")), chars("abc"));
}

#[test]
fn join_puts_the_separator_between_parts() {
    assert_eq!(joined(&pieces(&["a", "b", "c"]), &chars(", ")), chars("a, b, c"));
    assert_eq!(joined(&pieces(&["a"]), &chars(", ")), chars("a"));
    assert_eq!(joined(&pieces(&[]), &chars(", ")), chars(""));
    assert_eq!(joined(&pieces(&["", ""]), &chars("-")), chars("-"));
}

#[test]
fn split_at_any_cuts_at_each_delimiter() {
    let delims = chars(",;");
    assert_eq!(split_at_any(&chars("a,b;c"), &delims), pieces(&["a", "b", "c"]));
    assert_eq!(split_at_any(&chars("a,,b"), &delims), pieces(&["a", "", "b"]));
    assert_eq!(split_at_any(&chars("a,"), &delims), pieces(&["a", ""]));
    assert_eq!(split_at_any(&chars(""), &delims), pieces(&[""]));
    assert_eq!(split_at_any(&chars("abc"), &delims), pieces(&["abc"]));
    assert!(is_one_of(&delims, ';'));
    assert!(!is_one_of(&delims, '.'));
}

#[test]
fn digits_are_the_ascii_digits() {
    assert!(digit('0'));
    assert!(digit('9'));
    assert!(!digit('a'));
    assert!(!digit('-'));
    assert!(!digit('０'));
}

#[test]
fn integers_are_read_in_base_ten() {
    assert_eq!(to_i32(&chars("0")), Some(0));
    assert_eq!(to_i32(&chars("2")), Some(2));
    assert_eq!(to_i32(&chars("2023")), Some(2023));
    assert_eq!(to_i32(&chars("007")), Some(7));
    assert_eq!(to_i32(&chars("+15")), Some(15));
    assert_eq!(to_i32(&chars("-15")), Some(-15));
    assert_eq!(to_i32(&chars("-0")), Some(0));
}

#[test]
fn integers_at_the_limits() {
    assert_eq!(to_i32(&chars("2147483647")), Some(2147483647));
    assert_eq!(to_i32(&chars("2147483648")), None);
    assert_eq!(to_i32(&chars("-2147483648")), Some(-2147483648));
    assert_eq!(to_i32(&chars("-2147483649")), None);
    assert_eq!(to_i32(&chars("99999999999999999999999999")), None);
    assert_eq!(to_i32(&chars("00000000000000000000000001")), Some(1));
}

#[test]
fn text_that_writes_no_integer_is_refused() {
    assert_eq!(to_i32(&chars("")), None);
    assert_eq!(to_i32(&chars("+")), None);
    assert_eq!(to_i32(&chars("-")), None);
    assert_eq!(to_i32(&chars("12a")), None);
    assert_eq!(to_i32(&chars(" 12")), None);
    assert_eq!(to_i32(&chars("1-2")), None);
    assert_eq!(to_i32(&chars("--1")), None);
    assert_eq!(to_i32(&chars("１２")), None);
}

#[test]
fn white_space_is_what_the_standard_library_calls_white_space() {
    let mut code: u32 = 0;
    while code <= 0x10ffff {
        if let Some(c) = char::from_u32(code) {
            assert_eq!(is_white_space(c), c.is_whitespace(), "U+{:04X}", code);
        }
        code += 1;
    }
}

#[test]
fn trim_agrees_with_the_standard_library() {
    for sample in [" a ", "\u{3000}月\u{2003}", "\u{200b}x\u{200b}", "\u{85}\u{a0}y\u{1680}", "\u{feff}z"] {
        assert_eq!(trimmed_text(sample), chars(sample.trim()));
    }
}
