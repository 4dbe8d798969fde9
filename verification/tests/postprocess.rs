use mecab_ko_core::merges::apply_token_merges;
use mecab_ko_core::postprocess::{apply_decomposition_corrections, apply_vv_seyo_splits};
use mecab_ko_core::types::SejongToken;

fn tok(surface: &str, pos: &str) -> SejongToken {
    let end = surface.chars().count();
    SejongToken::new(surface, pos, 0, end)
}

fn tok_at(surface: &str, pos: &str, start: usize, end: usize) -> SejongToken {
    SejongToken::new(surface, pos, start, end)
}

#[test]
fn test_apply_vv_seyo_splits_gaseyo() {
    let tokens = vec![tok("가세요", "VV")];
    let result = apply_vv_seyo_splits(tokens);
    assert_eq!(result.len(), 2);
    assert_eq!(result[0].surface, "가");
    assert_eq!(result[0].pos, "VV");
    assert_eq!(result[1].surface, "세요");
    assert_eq!(result[1].pos, "EF");
}

#[test]
fn test_apply_vv_seyo_splits_passthrough_no_match() {
    let tokens = vec![tok("가다", "VV")];
    let result = apply_vv_seyo_splits(tokens);
    assert_eq!(result.len(), 1);
    assert_eq!(result[0].surface, "가다");
}

#[test]
fn test_apply_token_merges_nalssi_pattern() {
    let mut tokens = vec![
        tok_at("날", "NNG", 0, 1),
        tok_at("씨", "EP", 1, 2),
        tok_at("가", "EF", 2, 3),
    ];
    apply_token_merges(&mut tokens);
    assert_eq!(tokens.len(), 2);
    assert_eq!(tokens[0].surface, "날씨");
    assert_eq!(tokens[0].pos, "NNG");
    assert_eq!(tokens[1].surface, "가");
    assert_eq!(tokens[1].pos, "JKS");
}

#[test]
fn test_apply_token_merges_gada_nng_correction() {
    let mut tokens = vec![tok("가다", "NNG")];
    apply_token_merges(&mut tokens);
    assert_eq!(tokens[0].pos, "VV");
}

#[test]
fn test_apply_decomposition_corrections_va_eun_pattern() {
    let mut tokens = vec![
        tok_at("좋", "VA", 0, 1),
        tok_at("은", "ETM", 1, 2),
        tok_at("다", "EF", 2, 3),
    ];
    apply_decomposition_corrections(&mut tokens);
    assert_eq!(tokens.len(), 2);
    assert_eq!(tokens[0].surface, "좋");
    assert_eq!(tokens[0].pos, "VA");
    assert_eq!(tokens[1].surface, "다");
    assert_eq!(tokens[1].pos, "EF");
}

#[test]
fn test_apply_token_merges_rieul_moves_to_ending() {
    let mut tokens = vec![tok_at("올", "VV", 0, 1), tok_at("까요", "EF", 1, 3)];
    apply_token_merges(&mut tokens);
    assert_eq!(tokens.len(), 2);
    assert_eq!((tokens[0].surface.as_str(), tokens[0].pos.as_str()), ("오", "VV"));
    assert_eq!((tokens[0].start_pos, tokens[0].end_pos), (0, 1));
    assert_eq!((tokens[1].surface.as_str(), tokens[1].pos.as_str()), ("ㄹ까요", "EF"));
    assert_eq!((tokens[1].start_pos, tokens[1].end_pos), (1, 3));
}

#[test]
fn test_apply_token_merges_rieul_stays_before_other_endings() {
    let mut tokens = vec![tok_at("올", "VV", 0, 1), tok_at("어요", "EF", 1, 3)];
    apply_token_merges(&mut tokens);
    assert_eq!(tokens[0].surface, "올");
    assert_eq!(tokens[1].surface, "어요");
}

#[test]
fn test_apply_token_merges_walk_goes_on_after_a_split() {
    let mut tokens = vec![tok_at("그래요", "IC", 0, 3), tok_at("가다", "NNG", 3, 5)];
    apply_token_merges(&mut tokens);
    assert_eq!(tokens.len(), 3);
    assert_eq!((tokens[0].surface.as_str(), tokens[0].pos.as_str()), ("그러", "VV"));
    assert_eq!((tokens[0].start_pos, tokens[0].end_pos), (0, 2));
    assert_eq!((tokens[1].surface.as_str(), tokens[1].pos.as_str()), ("어요", "EF"));
    assert_eq!((tokens[1].start_pos, tokens[1].end_pos), (2, 3));
    assert_eq!((tokens[2].surface.as_str(), tokens[2].pos.as_str()), ("가다", "VV"));
}

#[test]
fn test_apply_token_merges_ji_split() {
    let mut tokens = vec![tok_at("가지", "VV", 0, 2), tok_at("않", "VX", 2, 3)];
    apply_token_merges(&mut tokens);
    assert_eq!(tokens.len(), 3);
    assert_eq!((tokens[0].surface.as_str(), tokens[0].pos.as_str()), ("가", "VV"));
    assert_eq!((tokens[1].surface.as_str(), tokens[1].pos.as_str()), ("지", "EC"));
    assert_eq!((tokens[1].start_pos, tokens[1].end_pos), (1, 2));
    assert_eq!((tokens[2].surface.as_str(), tokens[2].pos.as_str()), ("않", "VX"));
}
