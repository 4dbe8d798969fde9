use mecab_ko_core::text::{contains_str, split_char, trim_end_char, trimmed};

#[test]
fn split_char_keeps_empty_pieces() {
    assert_eq!(split_char("a+b+", '+'), vec!["a".to_string(), "b".to_string(), String::new()]);
    assert_eq!(split_char("", '+'), vec![String::new()]);
    assert_eq!(split_char("가깝/VA/*", '/'), vec!["가깝".to_string(), "VA".to_string(), "*".to_string()]);
}

#[test]
fn split_pieces_join_back() {
    for s in ["a+b+", "+", "", "가/VV/*+다/EF/*"] {
        assert_eq!(split_char(s, '+').join("+"), s);
    }
}

#[test]
fn trimming() {
    assert_eq!(trimmed("  가/VV \t"), "가/VV");
    assert_eq!(trim_end_char("하면면", '면'), "하");
    assert_eq!(trim_end_char("면면", '면'), "");
    assert_eq!(trim_end_char("하", '면'), "하");
}

#[test]
fn substring_search() {
    assert!(contains_str("EC+VX+EF", "EC+VX"));
    assert!(contains_str("VV+EC+VX+EF", "EC+VX"));
    assert!(!contains_str("EC+EF", "EC+VX"));
    assert!(contains_str("abc", ""));
    assert!(!contains_str("", "a"));
}
