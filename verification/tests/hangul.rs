use mecab_ko_core::hangul::{has_jongseong, normalize_jamo, remove_jongseong_rieul};

#[test]
fn test_has_jongseong_with_batchim() {
    assert!(has_jongseong('밥'));
    assert!(has_jongseong('닭'));
    assert!(has_jongseong('한'));
}

#[test]
fn test_has_jongseong_without_batchim() {
    assert!(!has_jongseong('가'));
    assert!(!has_jongseong('나'));
    assert!(!has_jongseong('보'));
    assert!(!has_jongseong('a'));
}

#[test]
fn test_remove_jongseong_rieul_removes_rieul() {
    assert_eq!(remove_jongseong_rieul('할'), Some('하'));
    assert_eq!(remove_jongseong_rieul('갈'), Some('가'));
    assert_eq!(remove_jongseong_rieul('볼'), Some('보'));
}

#[test]
fn test_remove_jongseong_rieul_returns_none_for_other_jongseong() {
    assert_eq!(remove_jongseong_rieul('가'), None);
    assert_eq!(remove_jongseong_rieul('밥'), None);
    assert_eq!(remove_jongseong_rieul('한'), None);
}

#[test]
fn test_normalize_jamo_converts_jongseong_to_compat() {
    let jongseong_rieul = '\u{11AF}';
    assert_eq!(normalize_jamo(&jongseong_rieul.to_string()), "ㄹ");
    let jongseong_nieun = '\u{11AB}';
    assert_eq!(normalize_jamo(&jongseong_nieun.to_string()), "ㄴ");
}

#[test]
fn test_normalize_jamo_passes_through_regular_syllables() {
    assert_eq!(normalize_jamo("가나다"), "가나다");
    assert_eq!(normalize_jamo("hello"), "hello");
}
