use model_speed::text::{is_white_space_char, trim_chars, truncate};

fn chars(s: &str) -> Vec<char> {
    s.chars().collect()
}

#[test]
fn truncate_keeps_short_names() {
    assert_eq!(truncate("tiny-model", 20), "tiny-model");
    assert_eq!(truncate("exactly-twenty-chars", 20), "exactly-twenty-chars");
    assert_eq!(truncate("", 20), "");
}

#[test]
fn truncate_cuts_long_names_with_ellipsis() {
    assert_eq!(truncate("mistral-large-instruct-2407", 20), "mistral-large-instru\u{2026}");
    assert_eq!(truncate("abc", 0), "\u{2026}");
}

#[test]
fn truncate_counts_characters_not_bytes() {
    let name = "模型速度测试模型速度测试模型速度测试模型速度测试";
    let cut = truncate(name, 20);
    assert_eq!(cut.chars().count(), 21);
    assert!(cut.starts_with("模型速度测试模型速度测试模型速度测试模型"));
    assert!(cut.ends_with('\u{2026}'));
    assert_eq!(truncate("模型", 20), "模型");
}

#[test]
fn trim_removes_unicode_white_space_at_both_ends() {
    assert_eq!(trim_chars(&chars("  data: x \r")), chars("data: x"));
    assert_eq!(trim_chars(&chars("\u{3000}\u{a0}a b\u{2028}")), chars("a b"));
    assert_eq!(trim_chars(&chars(" \t\r ")), chars(""));
    assert_eq!(trim_chars(&chars("")), chars(""));
}

#[test]
fn white_space_agrees_with_std() {
    for u in 0u32..0x3100 {
        if let Some(c) = char::from_u32(u) {
            assert_eq!(is_white_space_char(c), c.is_whitespace(), "code point {:x}", u);
        }
    }
}
