use mecab_ko_core::hangul::{
    extract_vowel, has_jongseong, normalize_jamo, remove_jongseong_bieup, remove_jongseong_nieun,
    remove_jongseong_rieul,
};

#[test]
fn removing_a_final_consonant_keeps_the_vowel() {
    for (c, r) in [('할', '하'), ('갈', '가'), ('볼', '보')] {
        assert_eq!(remove_jongseong_rieul(c), Some(r));
        assert_eq!(extract_vowel(r), extract_vowel(c));
        assert!(!has_jongseong(r));
    }
    assert_eq!(remove_jongseong_nieun('온'), Some('오'));
    assert_eq!(extract_vowel('오'), 'ㅗ');
    assert_eq!(remove_jongseong_bieup('합'), Some('하'));
    assert_eq!(extract_vowel('하'), 'ㅏ');
}

#[test]
fn removing_a_different_final_consonant_gives_nothing() {
    assert_eq!(remove_jongseong_rieul('간'), None);
    assert_eq!(remove_jongseong_nieun('가'), None);
    assert_eq!(remove_jongseong_bieup('a'), None);
}

#[test]
fn normalising_twice_is_normalising_once() {
    let s = "가\u{11AB}다\u{11AF}\u{11B8} abc";
    let once = normalize_jamo(s);
    assert_eq!(once, "가ㄴ다ㄹㅂ abc");
    assert_eq!(normalize_jamo(&once), once);
    assert_eq!(once.chars().count(), s.chars().count());
}

#[test]
fn vowels_of_syllables_and_other_characters() {
    assert_eq!(extract_vowel('각'), 'ㅏ');
    assert_eq!(extract_vowel('힣'), 'ㅣ');
    assert_eq!(extract_vowel('x'), 'x');
    assert!(has_jongseong('각'));
    assert!(!has_jongseong('가'));
    assert!(!has_jongseong('ㄱ'));
}
