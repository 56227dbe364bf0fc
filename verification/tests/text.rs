use plan_monitor::text::{
    chars_of, contains, decimal_text, ends_with, find_char, same_text, signed_decimal_text,
    starts_with, text_after_first, text_before_first, text_between, trim_end_text,
    trim_start_text,
};

#[test]
fn numerals_are_written() {
    for n in [0, 9, 10, 99, 1000, 1_234_567, u64::MAX] {
        assert_eq!(decimal_text(n), n.to_string());
    }
    for i in [0, -1, 10, i64::MIN, i64::MAX] {
        assert_eq!(signed_decimal_text(i), i.to_string());
    }
}

#[test]
fn parts_make_up_the_text() {
    assert_eq!(text_before_first("a：b：c", '：'), Some("a".to_string()));
    assert_eq!(text_after_first("a：b：c", '：'), Some("b：c".to_string()));
    assert_eq!(text_before_first("abc", '：'), None);
    assert_eq!(text_after_first("abc", '：'), None);
    assert_eq!(text_after_first("abc：", '：'), Some("".to_string()));
    assert_eq!(find_char(&chars_of("abc"), 'c'), 2);
    assert_eq!(find_char(&chars_of("abc"), 'd'), 3);
    assert_eq!(text_between(&chars_of("配额监控"), 1, 3), "额监");
}

#[test]
fn runs_are_trimmed() {
    assert_eq!(trim_start_text("##a#", '#'), "a#");
    assert_eq!(trim_start_text("##", '#'), "");
    assert_eq!(trim_end_text("%5%%", '%'), "%5");
    assert_eq!(trim_end_text("", '%'), "");
}

#[test]
fn patterns_are_found() {
    let s = chars_of("abcabd");
    assert!(starts_with(&s, "abc") && !starts_with(&s, "abd") && starts_with(&s, ""));
    assert!(ends_with(&s, "abd") && !ends_with(&s, "abc") && !ends_with(&s, "xabcabd"));
    assert!(contains(&s, "cab") && contains(&s, "abd") && !contains(&s, "abe"));
    assert!(contains(&s, "") && contains(&chars_of(""), "") && !contains(&chars_of(""), "a"));
    assert!(same_text("配", "配") && !same_text("a", "b") && !same_text("a", "aa"));
}
