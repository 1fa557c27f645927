use made::pinyin::match_pinyin;

#[test]
fn pinyin_initials_match_logographic_text() {
    assert!(match_pinyin("bj", "北京"));
    assert!(!match_pinyin("bj", "上海"));
}

#[test]
fn full_pinyin_matches() {
    assert!(match_pinyin("beijing", "北京欢迎你"));
    assert!(match_pinyin("shanghai", "上海"));
}

#[test]
fn literal_substring_matches() {
    assert!(match_pinyin("ell", "Hello"));
    assert!(!match_pinyin("xyz", "Hello"));
}
