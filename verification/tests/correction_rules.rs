use mecab_ko_core::corrections::compound_and_irregular::apply_compound_and_irregular_corrections;
use mecab_ko_core::corrections::conjugation::apply_conjugation_corrections;
use mecab_ko_core::corrections::particle_and_ending::apply_particle_and_ending_corrections;
use mecab_ko_core::corrections::post_conjugation::apply_post_conjugation_corrections;
use mecab_ko_core::corrections::sentence_final::apply_sentence_final_corrections;
use mecab_ko_core::corrections::sentence_final_endings::apply_sentence_final_endings_corrections;
use mecab_ko_core::corrections::suffix_and_dependency::apply_suffix_and_dependency_corrections;
use mecab_ko_core::corrections::verb_and_morpheme::apply_verb_and_morpheme_corrections;
use mecab_ko_core::corrections::verb_splitting::apply_verb_splitting_corrections;
use mecab_ko_core::corrections::xsv_morpheme_split::apply_xsv_morpheme_split_corrections;
use mecab_ko_core::types::SejongToken;

fn tok(surface: &str, pos: &str) -> SejongToken {
    let end = surface.chars().count();
    SejongToken::new(surface, pos, 0, end)
}

fn tok_at(surface: &str, pos: &str, start: usize, end: usize) -> SejongToken {
    SejongToken::new(surface, pos, start, end)
}

fn pairs(tokens: &[SejongToken]) -> Vec<(String, String)> {
    tokens.iter().map(|t| (t.surface.clone(), t.pos.clone())).collect()
}

fn p(s: &str, t: &str) -> (String, String) {
    (s.to_string(), t.to_string())
}

#[test]
fn jup_irregular_at_the_end_becomes_final() {
    let mut tokens = vec![tok_at("주", "VX", 0, 1), tok_at("워", "NNG", 1, 2)];
    apply_compound_and_irregular_corrections(&mut tokens);
    assert_eq!(pairs(&tokens), vec![p("줍", "VV"), p("어", "EF")]);
    assert_eq!((tokens[1].start_pos, tokens[1].end_pos), (1, 2));
}

#[test]
fn nominalised_verbs_side_by_side_are_both_split() {
    let mut tokens = vec![tok_at("함", "NNG", 0, 1), tok_at("봄", "NNG", 2, 3)];
    apply_verb_and_morpheme_corrections(&mut tokens);
    assert_eq!(pairs(&tokens), vec![p("하", "VV"), p("ㅁ", "ETN"), p("보", "VV"), p("ㅁ", "ETN")]);
    assert_eq!((tokens[2].start_pos, tokens[2].end_pos), (2, 3));
    assert_eq!((tokens[3].start_pos, tokens[3].end_pos), (3, 3));
}

#[test]
fn nominalised_verb_after_a_common_noun_is_kept() {
    let mut tokens = vec![tok("여름", "NNG"), tok("봄", "NNG"), tok("이", "JKS")];
    apply_verb_and_morpheme_corrections(&mut tokens);
    assert_eq!(tokens[1].surface, "봄");
    assert_eq!(tokens[1].pos, "NNG");
}

#[test]
fn copula_restored_after_an_open_syllable_noun() {
    let mut tokens = vec![tok_at("레게노", "NNG", 0, 3), tok_at("다", "NNG", 3, 4)];
    apply_xsv_morpheme_split_corrections(&mut tokens);
    assert_eq!(pairs(&tokens), vec![p("레게노", "NNG"), p("이", "VCP"), p("다", "EF")]);
    assert_eq!((tokens[1].start_pos, tokens[1].end_pos), (3, 3));
}

#[test]
fn copula_not_restored_after_a_closed_syllable_noun() {
    let mut tokens = vec![tok("학생", "NNG"), tok("다", "NNG")];
    apply_xsv_morpheme_split_corrections(&mut tokens);
    assert_eq!(pairs(&tokens), vec![p("학생", "NNG"), p("다", "NNG")]);
}

#[test]
fn contracted_seo_restored_by_vowel_harmony() {
    let mut tokens = vec![tok("만나", "VV"), tok("서", "EC")];
    apply_particle_and_ending_corrections(&mut tokens);
    assert_eq!(tokens[1].surface, "아서");
    let mut tokens = vec![tok("먹", "VV"), tok("서", "EC")];
    apply_particle_and_ending_corrections(&mut tokens);
    assert_eq!(tokens[1].surface, "어서");
}

#[test]
fn hamyeon_seo_becomes_ha_myeonseo() {
    let mut tokens = vec![tok("운동", "NNG"), tok("하면", "XSV"), tok("서", "EC")];
    apply_particle_and_ending_corrections(&mut tokens);
    assert_eq!(tokens[1].surface, "하");
    assert_eq!(tokens[2].surface, "면서");
}

#[test]
fn only_the_first_contracted_ending_is_split() {
    let mut tokens = vec![tok_at("볼게요", "EC+VX+EF", 0, 3), tok_at("갈게요", "EC+VX+EF", 4, 7)];
    apply_verb_splitting_corrections(&mut tokens);
    assert_eq!(pairs(&tokens), vec![p("보", "VV"), p("ㄹ게요", "EF"), p("갈게요", "EC+VX+EF")]);
    assert_eq!((tokens[1].start_pos, tokens[1].end_pos), (1, 3));
}

#[test]
fn purpose_ending_split_before_a_verb() {
    let mut tokens = vec![tok_at("보러", "JKB", 0, 2), tok_at("가", "VV", 3, 4)];
    apply_suffix_and_dependency_corrections(&mut tokens);
    assert_eq!(pairs(&tokens), vec![p("보", "VV"), p("러", "EC"), p("가", "VV")]);
    assert_eq!((tokens[1].start_pos, tokens[1].end_pos), (1, 2));
}

#[test]
fn etm_and_da_merge_into_the_present_ending() {
    let mut tokens = vec![tok_at("먹", "VV", 0, 1), tok_at("는", "ETM", 1, 2), tok_at("다", "EF", 2, 3)];
    apply_post_conjugation_corrections(&mut tokens);
    assert_eq!(pairs(&tokens), vec![p("먹", "VV"), p("는다", "EF")]);
    assert_eq!((tokens[1].start_pos, tokens[1].end_pos), (1, 3));
}

#[test]
fn numerals_merge_and_single_ones_become_numbers() {
    let mut tokens = vec![tok("삼", "NR"), tok("십", "NR"), tok("일", "NR")];
    apply_sentence_final_endings_corrections(&mut tokens);
    assert_eq!(pairs(&tokens), vec![p("삼십", "NR"), p("일", "SN")]);
}

#[test]
fn d_irregular_stem_restored() {
    let mut tokens = vec![tok("걸", "VV"), tok("어", "EF")];
    apply_conjugation_corrections(&mut tokens);
    assert_eq!(tokens[0].surface, "걷");
}

#[test]
fn deuseyo_keeps_its_stem() {
    let mut tokens = vec![tok("들", "VV"), tok("세요", "EF")];
    apply_conjugation_corrections(&mut tokens);
    assert_eq!(tokens[0].surface, "들");
}

#[test]
fn honorific_genitive_is_split_off() {
    let mut tokens = vec![tok_at("선생", "NNG", 0, 2), tok_at("님의", "NNP", 2, 4)];
    apply_particle_and_ending_corrections(&mut tokens);
    assert_eq!(pairs(&tokens), vec![p("선생님", "NNG"), p("의", "JKG")]);
    assert_eq!((tokens[0].start_pos, tokens[0].end_pos), (0, 3));
    assert_eq!((tokens[1].start_pos, tokens[1].end_pos), (3, 4));
}

#[test]
fn honorific_genitive_matches_are_merged_from_the_last() {
    let mut tokens = vec![tok_at("가", "NNG", 0, 1), tok_at("님의", "NNG", 1, 3), tok_at("님의", "NNP", 3, 5)];
    apply_particle_and_ending_corrections(&mut tokens);
    assert_eq!(pairs(&tokens), vec![p("가님", "NNG"), p("의", "JKG"), p("의", "JKG")]);
    assert_eq!((tokens[0].start_pos, tokens[0].end_pos), (0, 3));
    assert_eq!((tokens[1].start_pos, tokens[1].end_pos), (3, 4));
    assert_eq!((tokens[2].start_pos, tokens[2].end_pos), (4, 5));
}

#[test]
fn no_nda_left_as_a_connective_ending() {
    let mut tokens = vec![tok("먹", "VV"), tok("는다", "EC"), tok("가", "VV"), tok("ᆫ다", "EC"), tok("고", "EC")];
    apply_sentence_final_corrections(&mut tokens);
    assert!(tokens
        .iter()
        .all(|t| !((t.surface == "는다" || t.surface == "ㄴ다" || t.surface == "ᆫ다") && t.pos == "EC")));
}
