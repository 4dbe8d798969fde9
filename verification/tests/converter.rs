use mecab_ko_core::converter::{format_tokens, SejongConverter};
use mecab_ko_core::splitter::split_morpheme;
use mecab_ko_core::tag_map::init_tag_map;
use mecab_ko_core::types::{EndingRule, SejongToken, Token};

fn token(surface: &str, pos: &str, features: &str, start: usize, end: usize) -> Token {
    Token {
        surface: surface.to_string(),
        pos: pos.to_string(),
        features: features.to_string(),
        start_pos: start,
        end_pos: end,
    }
}

fn pairs(tokens: &[SejongToken]) -> Vec<(String, String)> {
    tokens.iter().map(|t| (t.surface.clone(), t.pos.clone())).collect()
}

const GADDA_FEATURES: &str = "VV+EP+EF,*,F,갔다,Inflect,VV,EF,가/VV/*+았/EP/*+다/EF/*";

#[test]
fn parse_decomposition_reads_each_piece() {
    let ms = SejongConverter::parse_decomposition("가깝/VA/*+아/EC/*");
    assert_eq!(ms.len(), 2);
    assert_eq!(ms[0].surface, "가깝");
    assert_eq!(ms[0].pos, "VA");
    assert_eq!(ms[1].surface, "아");
    assert_eq!(ms[1].pos, "EC");
}

#[test]
fn parse_decomposition_of_star_or_empty_is_empty() {
    assert!(SejongConverter::parse_decomposition("*").is_empty());
    assert!(SejongConverter::parse_decomposition("").is_empty());
}

#[test]
fn parse_decomposition_skips_unnamed_pieces() {
    let ms = SejongConverter::parse_decomposition("*/VV/*+다/EF/*+ +가");
    assert_eq!(ms.len(), 1);
    assert_eq!(ms[0].surface, "다");
    assert_eq!(ms[0].pos, "EF");
}

#[test]
fn extract_decomposition_takes_the_eighth_field() {
    assert_eq!(
        SejongConverter::extract_decomposition(GADDA_FEATURES),
        Some("가/VV/*+았/EP/*+다/EF/*".to_string())
    );
    assert_eq!(SejongConverter::extract_decomposition("NNG,*,T,학교,*,*,*,*"), None);
    assert_eq!(SejongConverter::extract_decomposition("NNG,*,T"), None);
}

#[test]
fn compound_tags_are_recognised_and_split() {
    let c = SejongConverter::new();
    assert!(c.is_compound_tag("VV+EF"));
    assert!(!c.is_compound_tag("NNG"));
    assert_eq!(c.split_compound_tag("VV+EF"), vec!["VV".to_string(), "EF".to_string()]);
}

#[test]
fn split_morpheme_keeps_a_simple_tag() {
    let c = SejongConverter::new();
    assert_eq!(c.split_morpheme("학교", "NNG"), vec![("학교".to_string(), "NNG".to_string())]);
}

#[test]
fn split_morpheme_splits_the_copula_ending() {
    let c = SejongConverter::new();
    assert_eq!(
        c.split_morpheme("입니다", "VCP+EF"),
        vec![("이".to_string(), "VCP".to_string()), ("습니다".to_string(), "EF".to_string())]
    );
}

#[test]
fn convert_token_uses_the_decomposition_column() {
    let c = SejongConverter::new();
    let out = c.convert_token(&token("갔다", "VV+EP+EF", GADDA_FEATURES, 0, 2));
    assert_eq!(
        pairs(&out),
        vec![
            ("가".to_string(), "VV".to_string()),
            ("았".to_string(), "EP".to_string()),
            ("다".to_string(), "EF".to_string())
        ]
    );
    // the pieces follow one another from the token's start
    assert_eq!((out[0].start_pos, out[0].end_pos), (0, 1));
    assert_eq!((out[1].start_pos, out[1].end_pos), (1, 2));
    assert_eq!((out[2].start_pos, out[2].end_pos), (2, 3));
    assert_eq!(out[1].original_surface.as_deref(), Some("갔다"));
    assert_eq!(out[1].original_pos.as_deref(), Some("VV+EP+EF"));
}

#[test]
fn convert_token_ignores_a_decomposition_whose_tags_differ() {
    let c = SejongConverter::new();
    let out = c.convert_token(&token("학교", "NNG", "NNG,*,F,학교,*,*,*,학/NNG/*+교/NNG/*", 3, 5));
    assert_eq!(pairs(&out), vec![("학교".to_string(), "NNG".to_string())]);
    assert_eq!((out[0].start_pos, out[0].end_pos), (3, 5));
    assert_eq!(out[0].original_surface, None);
}

#[test]
fn convert_token_without_decomposition_splits_by_rule() {
    let c = SejongConverter::new().with_decomposition(false);
    let out = c.convert_token(&token("입니다", "VCP+EF", "VCP+EF,*,F,입니다,Inflect,VCP,EF,이/VCP/*+ㅂ니다/EF/*", 0, 3));
    assert_eq!(
        pairs(&out),
        vec![("이".to_string(), "VCP".to_string()), ("습니다".to_string(), "EF".to_string())]
    );
    assert_eq!((out[0].start_pos, out[0].end_pos), (0, 1));
    assert_eq!((out[1].start_pos, out[1].end_pos), (1, 4));
}

#[test]
fn convert_token_never_trusts_the_decomposition_of_nda() {
    let c = SejongConverter::new();
    let out = c.convert_token(&token("는다", "VV+EC", "VV+EC,*,F,는다,Inflect,VV,EC,늘/VV/*+ㄴ다/EC/*", 0, 2));
    assert_eq!(pairs(&out), vec![("는다".to_string(), "EF".to_string())]);
}

#[test]
fn features_do_not_matter_without_decomposition() {
    let c = SejongConverter::new().with_decomposition(false);
    let a = c.convert_token(&token("갔다", "VV+EP+EF", GADDA_FEATURES, 0, 2));
    let b = c.convert_token(&token("갔다", "VV+EP+EF", "", 0, 2));
    assert_eq!(pairs(&a), pairs(&b));
}

#[test]
fn format_sejong_joins_tokens_with_spaces() {
    let c = SejongConverter::new();
    let ts = vec![SejongToken::new("갔", "VV", 0, 1), SejongToken::new("다", "EF", 1, 2)];
    assert_eq!(c.format_sejong(&ts), "갔/VV 다/EF");
    assert_eq!(format_tokens(&ts), "갔/VV 다/EF");
}

#[test]
fn format_sejong_normalises_final_consonant_jamo() {
    let c = SejongConverter::new();
    let ts = vec![SejongToken::new("가", "VV", 0, 1), SejongToken::new("\u{11AB}", "ETM", 1, 1)];
    assert_eq!(c.format_sejong(&ts), "가/VV ㄴ/ETM");
}

#[test]
fn format_sejong_of_no_tokens_is_empty() {
    let c = SejongConverter::new();
    assert_eq!(c.format_sejong(&[]), "");
}

#[test]
fn formatted_text_splits_back_per_token() {
    let c = SejongConverter::new();
    let ts = vec![
        SejongToken::new("학교", "NNG", 0, 2),
        SejongToken::new("에", "JKB", 2, 3),
        SejongToken::new("가", "VV", 4, 5),
    ];
    let text = c.format_sejong(&ts);
    let pieces: Vec<&str> = text.split(' ').collect();
    assert_eq!(pieces, vec!["학교/NNG", "에/JKB", "가/VV"]);
}

#[test]
fn convert_tokens_of_nothing_is_nothing() {
    let c = SejongConverter::new();
    assert!(c.convert_tokens(&[]).is_empty());
    assert_eq!(c.tokens_to_sejong_string(&[]), "");
}

#[test]
fn convert_tokens_converts_and_corrects() {
    let c = SejongConverter::new();
    let tokens = vec![
        token("학교", "NNG", "NNG,*,F,학교,*,*,*,*", 0, 2),
        token("갔다", "VV+EP+EF", GADDA_FEATURES, 3, 5),
    ];
    let out = c.convert_tokens(&tokens);
    assert_eq!(
        pairs(&out),
        vec![
            ("학교".to_string(), "NNG".to_string()),
            ("가".to_string(), "VV".to_string()),
            ("았".to_string(), "EP".to_string()),
            ("다".to_string(), "EF".to_string())
        ]
    );
    assert_eq!(c.tokens_to_sejong_string(&tokens), "학교/NNG 가/VV 았/EP 다/EF");
}

#[test]
fn normalize_jamo_on_the_converter() {
    assert_eq!(SejongConverter::normalize_jamo("\u{11AF}까"), "ㄹ까");
    assert_eq!(SejongConverter::normalize_jamo("학교"), "학교");
    assert_eq!(SejongConverter::normalize_jamo("ㅓ요"), "어요");
    assert_eq!(SejongConverter::normalize_jamo("ㅏ ㅣ ㅢ"), "아 이 의");
    assert_eq!(SejongConverter::normalize_jamo("ㄱ\u{11AB}"), "ㄱㄴ");
}

#[test]
fn split_prefinal_ending_on_the_converter() {
    let (ep, ef) = SejongConverter::split_prefinal_ending("었다");
    assert_eq!(ep, "었");
    assert_eq!(ef, "다");
}

#[test]
fn default_converter_is_the_new_converter() {
    let a = SejongConverter::default();
    let b = SejongConverter::new();
    let t = token("갔다", "VV+EP+EF", GADDA_FEATURES, 0, 2);
    assert_eq!(pairs(&a.convert_token(&t)), pairs(&b.convert_token(&t)));
}

#[test]
fn ending_rules_split_and_untagged_rules_that_do_not_match_are_harmless() {
    let rules = vec![
        EndingRule { pos_pattern: "VV+EF".to_string(), endings: vec!["다".to_string()], target_tags: vec![] },
        EndingRule {
            pos_pattern: "VA+EC".to_string(),
            endings: vec!["고".to_string()],
            target_tags: vec!["VA".to_string(), "EC".to_string()],
        },
    ];
    let m = init_tag_map();
    assert_eq!(
        split_morpheme("크고", "VA+EC", &m, &rules),
        vec![("크".to_string(), "VA".to_string()), ("고".to_string(), "EC".to_string())]
    );
}
