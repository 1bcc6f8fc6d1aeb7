use daily_report::text::{
    all_numeric_text, contains_text, digits_from, remove_text, same_text, starts_with_text,
    text_at, trim_text,
};

#[test]
fn trimming_uses_unicode_white_space() {
    assert_eq!(trim_text("  a b  "), "a b");
    assert_eq!(trim_text("\u{3000}\t工地\n"), "工地");
    assert_eq!(trim_text("   "), "");
    assert_eq!(trim_text(""), "");
    assert_eq!(trim_text("x"), "x");
}

#[test]
fn substring_tests() {
    assert!(contains_text("进度正常，无延误", "正常"));
    assert!(!contains_text("进度", "正常"));
    assert!(contains_text("abc", ""));
    assert!(starts_with_text("2.1", "2."));
    assert!(!starts_with_text("2", "2."));
    assert!(text_at("abcd", 2, "cd"));
    assert!(!text_at("abcd", 3, "cd"));
    assert!(!text_at("abcd", 9, ""));
    assert!(same_text("二", "二"));
    assert!(!same_text("二", "三"));
    assert!(!same_text("二", "二二"));
}

#[test]
fn removal_is_left_to_right_without_overlap() {
    assert_eq!(remove_text("aaa", "aa"), "a");
    assert_eq!(remove_text("XX项目工作日报", "项目工作日报"), "XX");
    assert_eq!(remove_text("日报A日报", "日报"), "A");
    assert_eq!(remove_text("abc", ""), "abc");
    assert_eq!(remove_text("", "x"), "");
}

#[test]
fn numeric_checks() {
    assert!(all_numeric_text("123"));
    assert!(all_numeric_text(""));
    assert!(all_numeric_text("３"));
    assert!(!all_numeric_text("四"));
    assert!(!all_numeric_text("1.1"));
    assert!(digits_from("1.25", 2));
    assert!(!digits_from("1.2a", 2));
    assert!(digits_from("1.", 2));
}
