//! Particles and endings after nouns and verbs.

use vstd::prelude::*;
use crate::converter::tokens_view;
use crate::merges::{strip_prefix, strip_prefix_exec, strip_suffix, strip_suffix_exec};
use crate::rewrite::{in_list, map_where, pos_is, push_token, scan, set_token, splice, splice_tokens, surf_ends, surf_is, surf_starts};
use crate::text::{char_count, concat, is_prefix, is_suffix, owned};
use crate::types::{plain_view, SejongToken, TokenView};

verus! {

/// Where [`p1`] changes a token.
pub open spec fn p1_c(ts: Seq<TokenView>, i: int) -> bool {
    ((0 <= i - 1 < ts.len() && seq!["NNG"@, "NNP"@, "NNB"@, "NP"@, "NR"@].contains(ts[i - 1].pos)) && (0 <= i < ts.len() && seq!["EF"@, "EC"@, "ETN"@, "EP"@, "VV"@, "VA"@, "JKB"@, "NNG"@].contains(ts[i].pos)) && ((0 <= i < ts.len() && ts[i].surface == "께서"@) || (!(0 <= i + 1 < ts.len() && ts[i + 1].pos == "EP"@) && !(0 <= i + 1 < ts.len() && seq!["EF"@, "EC"@].contains(ts[i + 1].pos)) && !(0 <= i - 1 < ts.len() && seq!["어디"@, "언제"@, "뭐"@, "무엇"@, "누구"@, "어느"@, "어떤"@, "왜"@, "어찌"@].contains(ts[i - 1].surface)))) && (0 <= i < ts.len() && seq!["이"@, "가"@, "께서"@, "을"@, "를"@, "에"@, "에서"@, "에게"@, "로"@, "으로"@, "한테"@, "보다"@, "처럼"@, "같이"@, "의"@, "야"@, "여"@, "이여"@, "은"@, "는"@, "도"@, "만"@, "까지"@, "부터"@, "마저"@, "조차"@, "라도"@, "밖에"@, "요"@, "와"@, "과"@, "이랑"@, "랑"@, "하고"@].contains(ts[i].surface)))
}

/// The token [`p1`] puts at `i`.
pub open spec fn p1_t(ts: Seq<TokenView>, i: int) -> TokenView {
    TokenView { pos: (if (0 <= i < ts.len() && seq!["이"@, "가"@, "께서"@].contains(ts[i].surface)) { "JKS"@ } else { (if (0 <= i < ts.len() && seq!["을"@, "를"@].contains(ts[i].surface)) { "JKO"@ } else { (if (0 <= i < ts.len() && seq!["에"@, "에서"@, "에게"@, "로"@, "으로"@, "한테"@, "보다"@, "처럼"@, "같이"@].contains(ts[i].surface)) { "JKB"@ } else { (if (0 <= i < ts.len() && seq!["의"@].contains(ts[i].surface)) { "JKG"@ } else { (if (0 <= i < ts.len() && seq!["야"@, "여"@, "이여"@].contains(ts[i].surface)) { "JKV"@ } else { (if (0 <= i < ts.len() && seq!["은"@, "는"@, "도"@, "만"@, "까지"@, "부터"@, "마저"@, "조차"@, "라도"@, "밖에"@, "요"@].contains(ts[i].surface)) { "JX"@ } else { "JC"@ }) }) }) }) }) }), ..ts[i] }
}

/// A particle after a noun that was tagged as an ending, a verb, an adjective or a noun gets its particle tag (이/JKS, 을/JKO, 에/JKB, 의/JKG, 야/JKV, 은/JX, 와/JC); not before a pre-final or a final or connective ending, nor after an interrogative pronoun, except 께서.
pub open spec fn p1(ts: Seq<TokenView>) -> Seq<TokenView> {
    map_where(ts, |ts: Seq<TokenView>, i: int| p1_c(ts, i), |ts: Seq<TokenView>, i: int| p1_t(ts, i))
}

/// Whether [`p1`] changes the token at `i`.
fn p1_c_exec(tokens: &Vec<SejongToken>, i: usize) -> (r: bool)
    requires
        i < tokens@.len(),
    ensures
        r == p1_c(tokens_view(tokens@), i as int),
{
    assert(tokens_view(tokens@).len() == tokens@.len());
    let l1: [&str; 5] = ["NNG", "NNP", "NNB", "NP", "NR"];
    assert(crate::tag_map::strs_view(l1@) =~= seq!["NNG"@, "NNP"@, "NNB"@, "NP"@, "NR"@]);
    let c0 = (i >= 1) && in_list(&l1, tokens[i - 1].pos.as_str());
    let l3: [&str; 8] = ["EF", "EC", "ETN", "EP", "VV", "VA", "JKB", "NNG"];
    assert(crate::tag_map::strs_view(l3@) =~= seq!["EF"@, "EC"@, "ETN"@, "EP"@, "VV"@, "VA"@, "JKB"@, "NNG"@]);
    let c2 = in_list(&l3, tokens[i].pos.as_str());
    let c4 = surf_is(&tokens[i], "께서");
    let c5 = (tokens.len() - i > 1) && pos_is(&tokens[i + 1], "EP");
    let l7: [&str; 2] = ["EF", "EC"];
    assert(crate::tag_map::strs_view(l7@) =~= seq!["EF"@, "EC"@]);
    let c6 = (tokens.len() - i > 1) && in_list(&l7, tokens[i + 1].pos.as_str());
    let l9: [&str; 9] = ["어디", "언제", "뭐", "무엇", "누구", "어느", "어떤", "왜", "어찌"];
    assert(crate::tag_map::strs_view(l9@) =~= seq!["어디"@, "언제"@, "뭐"@, "무엇"@, "누구"@, "어느"@, "어떤"@, "왜"@, "어찌"@]);
    let c8 = (i >= 1) && in_list(&l9, tokens[i - 1].surface.as_str());
    let l11: [&str; 34] = ["이", "가", "께서", "을", "를", "에", "에서", "에게", "로", "으로", "한테", "보다", "처럼", "같이", "의", "야", "여", "이여", "은", "는", "도", "만", "까지", "부터", "마저", "조차", "라도", "밖에", "요", "와", "과", "이랑", "랑", "하고"];
    assert(crate::tag_map::strs_view(l11@) =~= seq!["이"@, "가"@, "께서"@, "을"@, "를"@, "에"@, "에서"@, "에게"@, "로"@, "으로"@, "한테"@, "보다"@, "처럼"@, "같이"@, "의"@, "야"@, "여"@, "이여"@, "은"@, "는"@, "도"@, "만"@, "까지"@, "부터"@, "마저"@, "조차"@, "라도"@, "밖에"@, "요"@, "와"@, "과"@, "이랑"@, "랑"@, "하고"@]);
    let c10 = in_list(&l11, tokens[i].surface.as_str());
    (c0 && c2 && (c4 || (!c5 && !c6 && !c8)) && c10)
}

/// The token [`p1`] puts at `i`.
fn p1_t_exec(tokens: &Vec<SejongToken>, i: usize) -> (t: SejongToken)
    requires
        i < tokens@.len(),
        p1_c(tokens_view(tokens@), i as int),
    ensures
        t@ == p1_t(tokens_view(tokens@), i as int),
{
    assert(tokens_view(tokens@).len() == tokens@.len());
    let l14: [&str; 3] = ["이", "가", "께서"];
    assert(crate::tag_map::strs_view(l14@) =~= seq!["이"@, "가"@, "께서"@]);
    let c13 = in_list(&l14, tokens[i].surface.as_str());
    let l16: [&str; 2] = ["을", "를"];
    assert(crate::tag_map::strs_view(l16@) =~= seq!["을"@, "를"@]);
    let c15 = in_list(&l16, tokens[i].surface.as_str());
    let l18: [&str; 9] = ["에", "에서", "에게", "로", "으로", "한테", "보다", "처럼", "같이"];
    assert(crate::tag_map::strs_view(l18@) =~= seq!["에"@, "에서"@, "에게"@, "로"@, "으로"@, "한테"@, "보다"@, "처럼"@, "같이"@]);
    let c17 = in_list(&l18, tokens[i].surface.as_str());
    let l20: [&str; 1] = ["의"];
    assert(crate::tag_map::strs_view(l20@) =~= seq!["의"@]);
    let c19 = in_list(&l20, tokens[i].surface.as_str());
    let l22: [&str; 3] = ["야", "여", "이여"];
    assert(crate::tag_map::strs_view(l22@) =~= seq!["야"@, "여"@, "이여"@]);
    let c21 = in_list(&l22, tokens[i].surface.as_str());
    let l24: [&str; 11] = ["은", "는", "도", "만", "까지", "부터", "마저", "조차", "라도", "밖에", "요"];
    assert(crate::tag_map::strs_view(l24@) =~= seq!["은"@, "는"@, "도"@, "만"@, "까지"@, "부터"@, "마저"@, "조차"@, "라도"@, "밖에"@, "요"@]);
    let c23 = in_list(&l24, tokens[i].surface.as_str());
    let s25 = if c13 { let s26 = owned("JKS"); s26 } else if c15 { let s27 = owned("JKO"); s27 } else if c17 { let s28 = owned("JKB"); s28 } else if c19 { let s29 = owned("JKG"); s29 } else if c21 { let s30 = owned("JKV"); s30 } else if c23 { let s31 = owned("JX"); s31 } else { let s32 = owned("JC"); s32 };
    let mut t12 = tokens[i].duplicate();
    t12.pos = s25;
    t12
}

/// A particle after a noun that was tagged as an ending, a verb, an adjective or a noun gets its particle tag (이/JKS, 을/JKO, 에/JKB, 의/JKG, 야/JKV, 은/JX, 와/JC); not before a pre-final or a final or connective ending, nor after an interrogative pronoun, except 께서.
pub fn apply_p1(tokens: &mut Vec<SejongToken>)
    ensures
        tokens_view(final(tokens)@) == p1(tokens_view(old(tokens)@)),
{
    let ghost orig = tokens_view(tokens@);
    let mut out: Vec<SejongToken> = Vec::new();
    let mut k: usize = 0;
    while k < tokens.len()
        invariant
            k <= tokens@.len(),
            orig == tokens_view(tokens@),
            tokens_view(out@) == p1(orig).take(k as int),
        decreases tokens@.len() - k,
    {
        let t = if p1_c_exec(tokens, k) { p1_t_exec(tokens, k) } else { tokens[k].duplicate() };
        push_token(&mut out, t);
        k += 1;
        assert(tokens_view(out@) =~= p1(orig).take(k as int));
    }
    assert(p1(orig).take(k as int) =~= p1(orig));
    *tokens = out;
}

/// Where [`p2`] changes a token.
pub open spec fn p2_c(ts: Seq<TokenView>, i: int) -> bool {
    ((0 <= i - 1 < ts.len() && seq!["VV"@, "VA"@, "VX"@].contains(ts[i - 1].pos)) && (0 <= i < ts.len() && seq!["JX"@, "EF"@, "EC"@].contains(ts[i].pos)) && (0 <= i < ts.len() && seq!["는"@, "ㄴ"@, "은"@, "ㄹ"@, "을"@, "던"@].contains(ts[i].surface)))
}

/// The token [`p2`] puts at `i`.
pub open spec fn p2_t(ts: Seq<TokenView>, i: int) -> TokenView {
    TokenView { pos: "ETM"@, ..ts[i] }
}

/// An adnominal ending after a verb, adjective or auxiliary that was tagged JX, EF or EC is tagged ETM.
pub open spec fn p2(ts: Seq<TokenView>) -> Seq<TokenView> {
    map_where(ts, |ts: Seq<TokenView>, i: int| p2_c(ts, i), |ts: Seq<TokenView>, i: int| p2_t(ts, i))
}

/// Whether [`p2`] changes the token at `i`.
fn p2_c_exec(tokens: &Vec<SejongToken>, i: usize) -> (r: bool)
    requires
        i < tokens@.len(),
    ensures
        r == p2_c(tokens_view(tokens@), i as int),
{
    assert(tokens_view(tokens@).len() == tokens@.len());
    let l34: [&str; 3] = ["VV", "VA", "VX"];
    assert(crate::tag_map::strs_view(l34@) =~= seq!["VV"@, "VA"@, "VX"@]);
    let c33 = (i >= 1) && in_list(&l34, tokens[i - 1].pos.as_str());
    let l36: [&str; 3] = ["JX", "EF", "EC"];
    assert(crate::tag_map::strs_view(l36@) =~= seq!["JX"@, "EF"@, "EC"@]);
    let c35 = in_list(&l36, tokens[i].pos.as_str());
    let l38: [&str; 6] = ["는", "ㄴ", "은", "ㄹ", "을", "던"];
    assert(crate::tag_map::strs_view(l38@) =~= seq!["는"@, "ㄴ"@, "은"@, "ㄹ"@, "을"@, "던"@]);
    let c37 = in_list(&l38, tokens[i].surface.as_str());
    (c33 && c35 && c37)
}

/// The token [`p2`] puts at `i`.
fn p2_t_exec(tokens: &Vec<SejongToken>, i: usize) -> (t: SejongToken)
    requires
        i < tokens@.len(),
        p2_c(tokens_view(tokens@), i as int),
    ensures
        t@ == p2_t(tokens_view(tokens@), i as int),
{
    assert(tokens_view(tokens@).len() == tokens@.len());
    let s40 = owned("ETM");
    let mut t39 = tokens[i].duplicate();
    t39.pos = s40;
    t39
}

/// An adnominal ending after a verb, adjective or auxiliary that was tagged JX, EF or EC is tagged ETM.
pub fn apply_p2(tokens: &mut Vec<SejongToken>)
    ensures
        tokens_view(final(tokens)@) == p2(tokens_view(old(tokens)@)),
{
    let ghost orig = tokens_view(tokens@);
    let mut out: Vec<SejongToken> = Vec::new();
    let mut k: usize = 0;
    while k < tokens.len()
        invariant
            k <= tokens@.len(),
            orig == tokens_view(tokens@),
            tokens_view(out@) == p2(orig).take(k as int),
        decreases tokens@.len() - k,
    {
        let t = if p2_c_exec(tokens, k) { p2_t_exec(tokens, k) } else { tokens[k].duplicate() };
        push_token(&mut out, t);
        k += 1;
        assert(tokens_view(out@) =~= p2(orig).take(k as int));
    }
    assert(p2(orig).take(k as int) =~= p2(orig));
    *tokens = out;
}

/// Where [`p3`] changes a token.
pub open spec fn p3_c(ts: Seq<TokenView>, i: int) -> bool {
    ((0 <= i - 1 < ts.len() && seq!["NNG"@, "NNP"@, "NNB"@].contains(ts[i - 1].pos)) && (0 <= i < ts.len() && seq!["VV"@, "EF"@, "VA"@].contains(ts[i].pos)) && (0 <= i < ts.len() && seq!["하"@, "해"@, "했"@, "되"@, "됐"@].contains(ts[i].surface)))
}

/// The token [`p3`] puts at `i`.
pub open spec fn p3_t(ts: Seq<TokenView>, i: int) -> TokenView {
    TokenView { pos: "XSV"@, ..ts[i] }
}

/// 하, 해, 했, 되, 됐 after a common, proper or bound noun and tagged VV, EF or VA are the verb suffix XSV.
pub open spec fn p3(ts: Seq<TokenView>) -> Seq<TokenView> {
    map_where(ts, |ts: Seq<TokenView>, i: int| p3_c(ts, i), |ts: Seq<TokenView>, i: int| p3_t(ts, i))
}

/// Whether [`p3`] changes the token at `i`.
fn p3_c_exec(tokens: &Vec<SejongToken>, i: usize) -> (r: bool)
    requires
        i < tokens@.len(),
    ensures
        r == p3_c(tokens_view(tokens@), i as int),
{
    assert(tokens_view(tokens@).len() == tokens@.len());
    let l42: [&str; 3] = ["NNG", "NNP", "NNB"];
    assert(crate::tag_map::strs_view(l42@) =~= seq!["NNG"@, "NNP"@, "NNB"@]);
    let c41 = (i >= 1) && in_list(&l42, tokens[i - 1].pos.as_str());
    let l44: [&str; 3] = ["VV", "EF", "VA"];
    assert(crate::tag_map::strs_view(l44@) =~= seq!["VV"@, "EF"@, "VA"@]);
    let c43 = in_list(&l44, tokens[i].pos.as_str());
    let l46: [&str; 5] = ["하", "해", "했", "되", "됐"];
    assert(crate::tag_map::strs_view(l46@) =~= seq!["하"@, "해"@, "했"@, "되"@, "됐"@]);
    let c45 = in_list(&l46, tokens[i].surface.as_str());
    (c41 && c43 && c45)
}

/// The token [`p3`] puts at `i`.
fn p3_t_exec(tokens: &Vec<SejongToken>, i: usize) -> (t: SejongToken)
    requires
        i < tokens@.len(),
        p3_c(tokens_view(tokens@), i as int),
    ensures
        t@ == p3_t(tokens_view(tokens@), i as int),
{
    assert(tokens_view(tokens@).len() == tokens@.len());
    let s48 = owned("XSV");
    let mut t47 = tokens[i].duplicate();
    t47.pos = s48;
    t47
}

/// 하, 해, 했, 되, 됐 after a common, proper or bound noun and tagged VV, EF or VA are the verb suffix XSV.
pub fn apply_p3(tokens: &mut Vec<SejongToken>)
    ensures
        tokens_view(final(tokens)@) == p3(tokens_view(old(tokens)@)),
{
    let ghost orig = tokens_view(tokens@);
    let mut out: Vec<SejongToken> = Vec::new();
    let mut k: usize = 0;
    while k < tokens.len()
        invariant
            k <= tokens@.len(),
            orig == tokens_view(tokens@),
            tokens_view(out@) == p3(orig).take(k as int),
        decreases tokens@.len() - k,
    {
        let t = if p3_c_exec(tokens, k) { p3_t_exec(tokens, k) } else { tokens[k].duplicate() };
        push_token(&mut out, t);
        k += 1;
        assert(tokens_view(out@) =~= p3(orig).take(k as int));
    }
    assert(p3(orig).take(k as int) =~= p3(orig));
    *tokens = out;
}

/// Where [`p4`] changes a token.
pub open spec fn p4_c(ts: Seq<TokenView>, i: int) -> bool {
    ((0 <= i - 1 < ts.len() && seq!["VV"@, "VA"@].contains(ts[i - 1].pos)) && ((0 <= i < ts.len() && ts[i].surface == "서"@) && (0 <= i < ts.len() && ts[i].pos == "EC"@)) && (0 <= i - 1 < ts.len() && ts[i - 1].surface.len() > 0))
}

/// The token [`p4`] puts at `i`.
pub open spec fn p4_t(ts: Seq<TokenView>, i: int) -> TokenView {
    TokenView { surface: (if ((0 <= i - 1 < ts.len()) && ts[i - 1].surface.len() > 0 && (crate::hangul::spec_extract_vowel(ts[i - 1].surface.last()) == 'ㅏ' || crate::hangul::spec_extract_vowel(ts[i - 1].surface.last()) == 'ㅗ')) { "아서"@ } else { "어서"@ }), ..ts[i] }
}

/// 서/EC after a verb or adjective is restored to 아서 after a stem in ㅏ or ㅗ and to 어서 otherwise.
pub open spec fn p4(ts: Seq<TokenView>) -> Seq<TokenView> {
    map_where(ts, |ts: Seq<TokenView>, i: int| p4_c(ts, i), |ts: Seq<TokenView>, i: int| p4_t(ts, i))
}

/// Whether [`p4`] changes the token at `i`.
fn p4_c_exec(tokens: &Vec<SejongToken>, i: usize) -> (r: bool)
    requires
        i < tokens@.len(),
    ensures
        r == p4_c(tokens_view(tokens@), i as int),
{
    assert(tokens_view(tokens@).len() == tokens@.len());
    let l50: [&str; 2] = ["VV", "VA"];
    assert(crate::tag_map::strs_view(l50@) =~= seq!["VV"@, "VA"@]);
    let c49 = (i >= 1) && in_list(&l50, tokens[i - 1].pos.as_str());
    let c51 = surf_is(&tokens[i], "서");
    let c52 = pos_is(&tokens[i], "EC");
    let c53 = (i >= 1) && char_count(tokens[i - 1].surface.as_str()) > 0;
    (c49 && (c51 && c52) && c53)
}

/// The token [`p4`] puts at `i`.
fn p4_t_exec(tokens: &Vec<SejongToken>, i: usize) -> (t: SejongToken)
    requires
        i < tokens@.len(),
        p4_c(tokens_view(tokens@), i as int),
    ensures
        t@ == p4_t(tokens_view(tokens@), i as int),
{
    assert(tokens_view(tokens@).len() == tokens@.len());
    let c55 = (i >= 1) && match crate::text::last_char(tokens[i - 1].surface.as_str()) { Some(ch) => { let v = crate::hangul::extract_vowel(ch); v == 'ㅏ' || v == 'ㅗ' } None => false };
    let s56 = if c55 { let s57 = owned("아서"); s57 } else { let s58 = owned("어서"); s58 };
    let mut t54 = tokens[i].duplicate();
    t54.surface = s56;
    t54
}

/// 서/EC after a verb or adjective is restored to 아서 after a stem in ㅏ or ㅗ and to 어서 otherwise.
pub fn apply_p4(tokens: &mut Vec<SejongToken>)
    ensures
        tokens_view(final(tokens)@) == p4(tokens_view(old(tokens)@)),
{
    let ghost orig = tokens_view(tokens@);
    let mut out: Vec<SejongToken> = Vec::new();
    let mut k: usize = 0;
    while k < tokens.len()
        invariant
            k <= tokens@.len(),
            orig == tokens_view(tokens@),
            tokens_view(out@) == p4(orig).take(k as int),
        decreases tokens@.len() - k,
    {
        let t = if p4_c_exec(tokens, k) { p4_t_exec(tokens, k) } else { tokens[k].duplicate() };
        push_token(&mut out, t);
        k += 1;
        assert(tokens_view(out@) =~= p4(orig).take(k as int));
    }
    assert(p4(orig).take(k as int) =~= p4(orig));
    *tokens = out;
}

/// Where [`p4b`] changes a token.
pub open spec fn p4b_c(ts: Seq<TokenView>, i: int) -> bool {
    ((0 <= i - 1 < ts.len() && seq!["VV"@, "VA"@].contains(ts[i - 1].pos)) && ((0 <= i < ts.len() && ts[i].surface == "요"@) && (0 <= i < ts.len() && ts[i].pos == "EF"@)) && (0 <= i - 1 < ts.len() && ts[i - 1].surface.len() > 0))
}

/// The token [`p4b`] puts at `i`.
pub open spec fn p4b_t(ts: Seq<TokenView>, i: int) -> TokenView {
    TokenView { surface: (if ((0 <= i - 1 < ts.len()) && ts[i - 1].surface.len() > 0 && (crate::hangul::spec_extract_vowel(ts[i - 1].surface.last()) == 'ㅏ' || crate::hangul::spec_extract_vowel(ts[i - 1].surface.last()) == 'ㅗ')) { "아요"@ } else { "어요"@ }), ..ts[i] }
}

/// 요/EF after a verb or adjective is restored to 아요 after a stem in ㅏ or ㅗ and to 어요 otherwise.
pub open spec fn p4b(ts: Seq<TokenView>) -> Seq<TokenView> {
    map_where(ts, |ts: Seq<TokenView>, i: int| p4b_c(ts, i), |ts: Seq<TokenView>, i: int| p4b_t(ts, i))
}

/// Whether [`p4b`] changes the token at `i`.
fn p4b_c_exec(tokens: &Vec<SejongToken>, i: usize) -> (r: bool)
    requires
        i < tokens@.len(),
    ensures
        r == p4b_c(tokens_view(tokens@), i as int),
{
    assert(tokens_view(tokens@).len() == tokens@.len());
    let l60: [&str; 2] = ["VV", "VA"];
    assert(crate::tag_map::strs_view(l60@) =~= seq!["VV"@, "VA"@]);
    let c59 = (i >= 1) && in_list(&l60, tokens[i - 1].pos.as_str());
    let c61 = surf_is(&tokens[i], "요");
    let c62 = pos_is(&tokens[i], "EF");
    let c63 = (i >= 1) && char_count(tokens[i - 1].surface.as_str()) > 0;
    (c59 && (c61 && c62) && c63)
}

/// The token [`p4b`] puts at `i`.
fn p4b_t_exec(tokens: &Vec<SejongToken>, i: usize) -> (t: SejongToken)
    requires
        i < tokens@.len(),
        p4b_c(tokens_view(tokens@), i as int),
    ensures
        t@ == p4b_t(tokens_view(tokens@), i as int),
{
    assert(tokens_view(tokens@).len() == tokens@.len());
    let c65 = (i >= 1) && match crate::text::last_char(tokens[i - 1].surface.as_str()) { Some(ch) => { let v = crate::hangul::extract_vowel(ch); v == 'ㅏ' || v == 'ㅗ' } None => false };
    let s66 = if c65 { let s67 = owned("아요"); s67 } else { let s68 = owned("어요"); s68 };
    let mut t64 = tokens[i].duplicate();
    t64.surface = s66;
    t64
}

/// 요/EF after a verb or adjective is restored to 아요 after a stem in ㅏ or ㅗ and to 어요 otherwise.
pub fn apply_p4b(tokens: &mut Vec<SejongToken>)
    ensures
        tokens_view(final(tokens)@) == p4b(tokens_view(old(tokens)@)),
{
    let ghost orig = tokens_view(tokens@);
    let mut out: Vec<SejongToken> = Vec::new();
    let mut k: usize = 0;
    while k < tokens.len()
        invariant
            k <= tokens@.len(),
            orig == tokens_view(tokens@),
            tokens_view(out@) == p4b(orig).take(k as int),
        decreases tokens@.len() - k,
    {
        let t = if p4b_c_exec(tokens, k) { p4b_t_exec(tokens, k) } else { tokens[k].duplicate() };
        push_token(&mut out, t);
        k += 1;
        assert(tokens_view(out@) =~= p4b(orig).take(k as int));
    }
    assert(p4b(orig).take(k as int) =~= p4b(orig));
    *tokens = out;
}

/// Where rule 0 of [`p5`] applies.
pub open spec fn p5_c0(ts: Seq<TokenView>, i: int) -> bool {
    (((0 <= i - 1 < ts.len() && seq!["XSV"@, "VV"@, "VA"@].contains(ts[i - 1].pos)) && ((0 <= i < ts.len() && ts[i].surface == "서"@) && (0 <= i < ts.len() && ts[i].pos == "EC"@)) && (0 <= i - 1 < ts.len() && is_suffix("면"@, ts[i - 1].surface))) && ((0 <= i - 1 < ts.len()) && (crate::text::trim_char_end(ts[i - 1].surface, '면').len() > 0) == true))
}

/// Where rule 1 of [`p5`] applies.
pub open spec fn p5_c1(ts: Seq<TokenView>, i: int) -> bool {
    ((0 <= i - 1 < ts.len() && seq!["XSV"@, "VV"@, "VA"@].contains(ts[i - 1].pos)) && ((0 <= i < ts.len() && ts[i].surface == "서"@) && (0 <= i < ts.len() && ts[i].pos == "EC"@)) && (0 <= i - 1 < ts.len() && is_suffix("면"@, ts[i - 1].surface)))
}

/// One step of [`p5`] at `i`: the list after it and the next position.
pub open spec fn p5_step(ts: Seq<TokenView>, i: int) -> (Seq<TokenView>, int) {
    if p5_c0(ts, i) {
        (ts.update(i - 1, TokenView { surface: crate::text::trim_char_end(ts[i - 1].surface, '면'), ..ts[i - 1] }).update(i, TokenView { surface: "면서"@, ..ts[i] }), i + 1)
    } else if p5_c1(ts, i) {
        (ts.update(i, TokenView { surface: "면서"@, ..ts[i] }), i + 1)
    } else {
        (ts, i + 1)
    }
}

/// [`p5_step`] as a function value.
pub open spec fn p5_f() -> spec_fn(Seq<TokenView>, int) -> (Seq<TokenView>, int) {
    |ts: Seq<TokenView>, i: int| p5_step(ts, i)
}

/// 하면/XSV 서/EC is 하/XSV 면서/EC: the trailing 면s of the stem move to the ending (the stem is kept when nothing would be left of it).
pub open spec fn p5(ts: Seq<TokenView>) -> Seq<TokenView> {
    scan(ts, 0, p5_f())
}

/// Whether rule 0 of [`p5`] applies at `i`.
fn p5_c0_exec(tokens: &Vec<SejongToken>, i: usize) -> (r: bool)
    requires
        i < tokens@.len(),
    ensures
        r == p5_c0(tokens_view(tokens@), i as int),
{
    assert(tokens_view(tokens@).len() == tokens@.len());
    let l70: [&str; 3] = ["XSV", "VV", "VA"];
    assert(crate::tag_map::strs_view(l70@) =~= seq!["XSV"@, "VV"@, "VA"@]);
    let c69 = (i >= 1) && in_list(&l70, tokens[i - 1].pos.as_str());
    let c71 = surf_is(&tokens[i], "서");
    let c72 = pos_is(&tokens[i], "EC");
    let c73 = (i >= 1) && surf_ends(&tokens[i - 1], "면");
    let c74 = (i >= 1) && (char_count(crate::text::trim_end_char(tokens[i - 1].surface.as_str(), '면').as_str()) > 0) == true;
    ((c69 && (c71 && c72) && c73) && c74)
}

/// Whether rule 1 of [`p5`] applies at `i`.
fn p5_c1_exec(tokens: &Vec<SejongToken>, i: usize) -> (r: bool)
    requires
        i < tokens@.len(),
    ensures
        r == p5_c1(tokens_view(tokens@), i as int),
{
    assert(tokens_view(tokens@).len() == tokens@.len());
    let l76: [&str; 3] = ["XSV", "VV", "VA"];
    assert(crate::tag_map::strs_view(l76@) =~= seq!["XSV"@, "VV"@, "VA"@]);
    let c75 = (i >= 1) && in_list(&l76, tokens[i - 1].pos.as_str());
    let c77 = surf_is(&tokens[i], "서");
    let c78 = pos_is(&tokens[i], "EC");
    let c79 = (i >= 1) && surf_ends(&tokens[i - 1], "면");
    (c75 && (c77 && c78) && c79)
}

/// One step of [`p5`] at `i`; returns the next position.
fn p5_step_exec(tokens: &mut Vec<SejongToken>, i: usize) -> (next: usize)
    requires
        i < old(tokens)@.len(),
    ensures
        (tokens_view(final(tokens)@), next as int) == p5_step(tokens_view(old(tokens)@), i as int),
        final(tokens)@.len() - next < old(tokens)@.len() - i,
        next <= final(tokens)@.len() + 1,
{
    let len0 = tokens.len();
    assert(tokens_view(tokens@).len() == tokens@.len());
    if p5_c0_exec(tokens, i) {
        let s82 = crate::text::trim_end_char(tokens[i - 1].surface.as_str(), '면');
        let mut t80 = tokens[i - 1].duplicate();
        t80.surface = s82;
        let s84 = owned("면서");
        let mut t83 = tokens[i].duplicate();
        t83.surface = s84;
        set_token(tokens, i - 1, t80);
        set_token(tokens, i, t83);
        let _len1 = tokens.len();
        return i + 1;
    }
    if p5_c1_exec(tokens, i) {
        let s86 = owned("면서");
        let mut t85 = tokens[i].duplicate();
        t85.surface = s86;
        set_token(tokens, i, t85);
        let _len1 = tokens.len();
        return i + 1;
    }
    i + 1
}

/// 하면/XSV 서/EC is 하/XSV 면서/EC: the trailing 면s of the stem move to the ending (the stem is kept when nothing would be left of it).
pub fn apply_p5(tokens: &mut Vec<SejongToken>)
    ensures
        tokens_view(final(tokens)@) == p5(tokens_view(old(tokens)@)),
{
    let ghost orig = tokens_view(tokens@);
    let mut i: usize = 0;
    while i < tokens.len()
        invariant
            i <= tokens@.len() + 1,
            scan(tokens_view(tokens@), i as int, p5_f()) == scan(orig, 0, p5_f()),
        decreases tokens@.len() + 1 - i,
    {
        let ghost before = tokens_view(tokens@);
        assert(before.len() == tokens@.len());
        i = p5_step_exec(tokens, i);
        assert(tokens_view(tokens@).len() == tokens@.len());
    }
}

/// Where rule 0 of [`p7`] applies.
pub open spec fn p7_c0(ts: Seq<TokenView>, i: int) -> bool {
    (((0 <= i < ts.len() && ts[i].surface == "합니"@) && (0 <= i < ts.len() && ts[i].pos == "VV"@)) && ((0 <= i + 1 < ts.len() && ts[i + 1].surface == "다"@) && (0 <= i + 1 < ts.len() && ts[i + 1].pos == "EF"@)))
}

/// One step of [`p7`] at `i`: the list after it and the next position.
pub open spec fn p7_step(ts: Seq<TokenView>, i: int) -> (Seq<TokenView>, int) {
    if p7_c0(ts, i) {
        (splice(ts, i, 2, seq![TokenView { surface: (ts[i].surface + ts[i + 1].surface), pos: "EF"@, end_pos: ts[i + 1].end_pos, ..ts[i] }]), i + 1)
    } else {
        (ts, i + 1)
    }
}

/// [`p7_step`] as a function value.
pub open spec fn p7_f() -> spec_fn(Seq<TokenView>, int) -> (Seq<TokenView>, int) {
    |ts: Seq<TokenView>, i: int| p7_step(ts, i)
}

/// 합니/VV 다/EF is the final ending 합니다/EF.
pub open spec fn p7(ts: Seq<TokenView>) -> Seq<TokenView> {
    scan(ts, 0, p7_f())
}

/// Whether rule 0 of [`p7`] applies at `i`.
fn p7_c0_exec(tokens: &Vec<SejongToken>, i: usize) -> (r: bool)
    requires
        i < tokens@.len(),
    ensures
        r == p7_c0(tokens_view(tokens@), i as int),
{
    assert(tokens_view(tokens@).len() == tokens@.len());
    let c87 = surf_is(&tokens[i], "합니");
    let c88 = pos_is(&tokens[i], "VV");
    let c89 = (tokens.len() - i > 1) && surf_is(&tokens[i + 1], "다");
    let c90 = (tokens.len() - i > 1) && pos_is(&tokens[i + 1], "EF");
    ((c87 && c88) && (c89 && c90))
}

/// One step of [`p7`] at `i`; returns the next position.
fn p7_step_exec(tokens: &mut Vec<SejongToken>, i: usize) -> (next: usize)
    requires
        i < old(tokens)@.len(),
    ensures
        (tokens_view(final(tokens)@), next as int) == p7_step(tokens_view(old(tokens)@), i as int),
        final(tokens)@.len() - next < old(tokens)@.len() - i,
        next <= final(tokens)@.len() + 1,
{
    let len0 = tokens.len();
    assert(tokens_view(tokens@).len() == tokens@.len());
    if p7_c0_exec(tokens, i) {
        let s93 = tokens[i].surface.clone();
        let s94 = tokens[i + 1].surface.clone();
        let s92 = concat(s93.as_str(), s94.as_str());
        let s95 = owned("EF");
        let n96 = tokens[i + 1].end_pos;
        let mut t91 = tokens[i].duplicate();
        t91.surface = s92;
        t91.pos = s95;
        t91.end_pos = n96;
        let mut nv97: Vec<SejongToken> = Vec::new();
        push_token(&mut nv97, t91);
        splice_tokens(tokens, i, 2, nv97);
        let _len1 = tokens.len();
        return i + 1;
    }
    i + 1
}

/// 합니/VV 다/EF is the final ending 합니다/EF.
pub fn apply_p7(tokens: &mut Vec<SejongToken>)
    ensures
        tokens_view(final(tokens)@) == p7(tokens_view(old(tokens)@)),
{
    let ghost orig = tokens_view(tokens@);
    let mut i: usize = 0;
    while i < tokens.len()
        invariant
            i <= tokens@.len() + 1,
            scan(tokens_view(tokens@), i as int, p7_f()) == scan(orig, 0, p7_f()),
        decreases tokens@.len() + 1 - i,
    {
        let ghost before = tokens_view(tokens@);
        assert(before.len() == tokens@.len());
        i = p7_step_exec(tokens, i);
        assert(tokens_view(tokens@).len() == tokens@.len());
    }
}

/// Where [`p8`] changes a token.
pub open spec fn p8_c(ts: Seq<TokenView>, i: int) -> bool {
    ((0 <= i < ts.len() && ts[i].pos == "EC"@) && (0 <= i < ts.len() && seq!["니"@, "다"@, "요"@, "죠"@, "지"@, "나"@, "자"@].contains(ts[i].surface)) && !(0 <= i + 1 < ts.len() && true))
}

/// The token [`p8`] puts at `i`.
pub open spec fn p8_t(ts: Seq<TokenView>, i: int) -> TokenView {
    TokenView { pos: "EF"@, ..ts[i] }
}

/// A connective ending 니, 다, 요, 죠, 지, 나 or 자 that ends the sentence is a final ending (EF).
pub open spec fn p8(ts: Seq<TokenView>) -> Seq<TokenView> {
    map_where(ts, |ts: Seq<TokenView>, i: int| p8_c(ts, i), |ts: Seq<TokenView>, i: int| p8_t(ts, i))
}

/// Whether [`p8`] changes the token at `i`.
fn p8_c_exec(tokens: &Vec<SejongToken>, i: usize) -> (r: bool)
    requires
        i < tokens@.len(),
    ensures
        r == p8_c(tokens_view(tokens@), i as int),
{
    assert(tokens_view(tokens@).len() == tokens@.len());
    let c98 = pos_is(&tokens[i], "EC");
    let l100: [&str; 7] = ["니", "다", "요", "죠", "지", "나", "자"];
    assert(crate::tag_map::strs_view(l100@) =~= seq!["니"@, "다"@, "요"@, "죠"@, "지"@, "나"@, "자"@]);
    let c99 = in_list(&l100, tokens[i].surface.as_str());
    let c101 = (tokens.len() - i > 1) && true;
    (c98 && c99 && !c101)
}

/// The token [`p8`] puts at `i`.
fn p8_t_exec(tokens: &Vec<SejongToken>, i: usize) -> (t: SejongToken)
    requires
        i < tokens@.len(),
        p8_c(tokens_view(tokens@), i as int),
    ensures
        t@ == p8_t(tokens_view(tokens@), i as int),
{
    assert(tokens_view(tokens@).len() == tokens@.len());
    let s103 = owned("EF");
    let mut t102 = tokens[i].duplicate();
    t102.pos = s103;
    t102
}

/// A connective ending 니, 다, 요, 죠, 지, 나 or 자 that ends the sentence is a final ending (EF).
pub fn apply_p8(tokens: &mut Vec<SejongToken>)
    ensures
        tokens_view(final(tokens)@) == p8(tokens_view(old(tokens)@)),
{
    let ghost orig = tokens_view(tokens@);
    let mut out: Vec<SejongToken> = Vec::new();
    let mut k: usize = 0;
    while k < tokens.len()
        invariant
            k <= tokens@.len(),
            orig == tokens_view(tokens@),
            tokens_view(out@) == p8(orig).take(k as int),
        decreases tokens@.len() - k,
    {
        let t = if p8_c_exec(tokens, k) { p8_t_exec(tokens, k) } else { tokens[k].duplicate() };
        push_token(&mut out, t);
        k += 1;
        assert(tokens_view(out@) =~= p8(orig).take(k as int));
    }
    assert(p8(orig).take(k as int) =~= p8(orig));
    *tokens = out;
}

/// Where [`p9`] changes a token.
pub open spec fn p9_c(ts: Seq<TokenView>, i: int) -> bool {
    (((0 <= i < ts.len() && seq!["하"@, "해"@, "했"@].contains(ts[i].surface)) && (0 <= i < ts.len() && ts[i].pos == "XSV"@) && (0 <= i + 1 < ts.len() && ts[i + 1].pos == "EC"@) && (0 <= i + 1 < ts.len() && seq!["아야"@, "어야"@, "야"@].contains(ts[i + 1].surface))) || (((0 <= i < ts.len() && ts[i].surface == "하"@) && (0 <= i < ts.len() && ts[i].pos == "XSV"@)) && (0 <= i + 1 < ts.len() && ts[i + 1].pos == "EF"@) && (0 <= i + 1 < ts.len() && seq!["세요"@, "시오"@, "십시오"@].contains(ts[i + 1].surface))))
}

/// The token [`p9`] puts at `i`.
pub open spec fn p9_t(ts: Seq<TokenView>, i: int) -> TokenView {
    TokenView { pos: "VV"@, ..ts[i] }
}

/// 하/XSV before 아야/EC or before 세요/EF (and similar) is the verb 하/VV.
pub open spec fn p9(ts: Seq<TokenView>) -> Seq<TokenView> {
    map_where(ts, |ts: Seq<TokenView>, i: int| p9_c(ts, i), |ts: Seq<TokenView>, i: int| p9_t(ts, i))
}

/// Whether [`p9`] changes the token at `i`.
fn p9_c_exec(tokens: &Vec<SejongToken>, i: usize) -> (r: bool)
    requires
        i < tokens@.len(),
    ensures
        r == p9_c(tokens_view(tokens@), i as int),
{
    assert(tokens_view(tokens@).len() == tokens@.len());
    let l105: [&str; 3] = ["하", "해", "했"];
    assert(crate::tag_map::strs_view(l105@) =~= seq!["하"@, "해"@, "했"@]);
    let c104 = in_list(&l105, tokens[i].surface.as_str());
    let c106 = pos_is(&tokens[i], "XSV");
    let c107 = (tokens.len() - i > 1) && pos_is(&tokens[i + 1], "EC");
    let l109: [&str; 3] = ["아야", "어야", "야"];
    assert(crate::tag_map::strs_view(l109@) =~= seq!["아야"@, "어야"@, "야"@]);
    let c108 = (tokens.len() - i > 1) && in_list(&l109, tokens[i + 1].surface.as_str());
    let c110 = surf_is(&tokens[i], "하");
    let c111 = pos_is(&tokens[i], "XSV");
    let c112 = (tokens.len() - i > 1) && pos_is(&tokens[i + 1], "EF");
    let l114: [&str; 3] = ["세요", "시오", "십시오"];
    assert(crate::tag_map::strs_view(l114@) =~= seq!["세요"@, "시오"@, "십시오"@]);
    let c113 = (tokens.len() - i > 1) && in_list(&l114, tokens[i + 1].surface.as_str());
    ((c104 && c106 && c107 && c108) || ((c110 && c111) && c112 && c113))
}

/// The token [`p9`] puts at `i`.
fn p9_t_exec(tokens: &Vec<SejongToken>, i: usize) -> (t: SejongToken)
    requires
        i < tokens@.len(),
        p9_c(tokens_view(tokens@), i as int),
    ensures
        t@ == p9_t(tokens_view(tokens@), i as int),
{
    assert(tokens_view(tokens@).len() == tokens@.len());
    let s116 = owned("VV");
    let mut t115 = tokens[i].duplicate();
    t115.pos = s116;
    t115
}

/// 하/XSV before 아야/EC or before 세요/EF (and similar) is the verb 하/VV.
pub fn apply_p9(tokens: &mut Vec<SejongToken>)
    ensures
        tokens_view(final(tokens)@) == p9(tokens_view(old(tokens)@)),
{
    let ghost orig = tokens_view(tokens@);
    let mut out: Vec<SejongToken> = Vec::new();
    let mut k: usize = 0;
    while k < tokens.len()
        invariant
            k <= tokens@.len(),
            orig == tokens_view(tokens@),
            tokens_view(out@) == p9(orig).take(k as int),
        decreases tokens@.len() - k,
    {
        let t = if p9_c_exec(tokens, k) { p9_t_exec(tokens, k) } else { tokens[k].duplicate() };
        push_token(&mut out, t);
        k += 1;
        assert(tokens_view(out@) =~= p9(orig).take(k as int));
    }
    assert(p9(orig).take(k as int) =~= p9(orig));
    *tokens = out;
}

/// Where rule 0 of [`p11`] applies.
pub open spec fn p11_c0(ts: Seq<TokenView>, i: int) -> bool {
    ((0 <= i < ts.len() && ts[i].pos == "NP"@) && (0 <= i + 1 < ts.len() && seq!["EF"@, "EC"@].contains(ts[i + 1].pos)) && (0 <= i + 1 < ts.len() && seq!["세요"@, "에요"@, "예요"@].contains(ts[i + 1].surface)))
}

/// One step of [`p11`] at `i`: the list after it and the next position.
pub open spec fn p11_step(ts: Seq<TokenView>, i: int) -> (Seq<TokenView>, int) {
    if p11_c0(ts, i) {
        (splice(ts, i + 1, 1, seq![plain_view("이"@, "VCP"@, ts[i + 1].start_pos, ts[i + 1].start_pos), TokenView { pos: "EF"@, ..ts[i + 1] }]), i + 3)
    } else {
        (ts, i + 1)
    }
}

/// [`p11_step`] as a function value.
pub open spec fn p11_f() -> spec_fn(Seq<TokenView>, int) -> (Seq<TokenView>, int) {
    |ts: Seq<TokenView>, i: int| p11_step(ts, i)
}

/// The copula 이/VCP is restored between a pronoun and 세요, 에요 or 예요 (누구/NP 이/VCP 세요/EF).
pub open spec fn p11(ts: Seq<TokenView>) -> Seq<TokenView> {
    scan(ts, 0, p11_f())
}

/// Whether rule 0 of [`p11`] applies at `i`.
fn p11_c0_exec(tokens: &Vec<SejongToken>, i: usize) -> (r: bool)
    requires
        i < tokens@.len(),
    ensures
        r == p11_c0(tokens_view(tokens@), i as int),
{
    assert(tokens_view(tokens@).len() == tokens@.len());
    let c117 = pos_is(&tokens[i], "NP");
    let l119: [&str; 2] = ["EF", "EC"];
    assert(crate::tag_map::strs_view(l119@) =~= seq!["EF"@, "EC"@]);
    let c118 = (tokens.len() - i > 1) && in_list(&l119, tokens[i + 1].pos.as_str());
    let l121: [&str; 3] = ["세요", "에요", "예요"];
    assert(crate::tag_map::strs_view(l121@) =~= seq!["세요"@, "에요"@, "예요"@]);
    let c120 = (tokens.len() - i > 1) && in_list(&l121, tokens[i + 1].surface.as_str());
    (c117 && c118 && c120)
}

/// One step of [`p11`] at `i`; returns the next position.
fn p11_step_exec(tokens: &mut Vec<SejongToken>, i: usize) -> (next: usize)
    requires
        i < old(tokens)@.len(),
    ensures
        (tokens_view(final(tokens)@), next as int) == p11_step(tokens_view(old(tokens)@), i as int),
        final(tokens)@.len() - next < old(tokens)@.len() - i,
        next <= final(tokens)@.len() + 1,
{
    let len0 = tokens.len();
    assert(tokens_view(tokens@).len() == tokens@.len());
    if p11_c0_exec(tokens, i) {
        let s123 = owned("이");
        let s124 = owned("VCP");
        let n125 = tokens[i + 1].start_pos;
        let n126 = tokens[i + 1].start_pos;
        let t122 = SejongToken::new(s123.as_str(), s124.as_str(), n125, n126);
        let s128 = owned("EF");
        let mut t127 = tokens[i + 1].duplicate();
        t127.pos = s128;
        let mut nv129: Vec<SejongToken> = Vec::new();
        push_token(&mut nv129, t122);
        push_token(&mut nv129, t127);
        splice_tokens(tokens, i + 1, 1, nv129);
        let _len1 = tokens.len();
        return i + 3;
    }
    i + 1
}

/// The copula 이/VCP is restored between a pronoun and 세요, 에요 or 예요 (누구/NP 이/VCP 세요/EF).
pub fn apply_p11(tokens: &mut Vec<SejongToken>)
    ensures
        tokens_view(final(tokens)@) == p11(tokens_view(old(tokens)@)),
{
    let ghost orig = tokens_view(tokens@);
    let mut i: usize = 0;
    while i < tokens.len()
        invariant
            i <= tokens@.len() + 1,
            scan(tokens_view(tokens@), i as int, p11_f()) == scan(orig, 0, p11_f()),
        decreases tokens@.len() + 1 - i,
    {
        let ghost before = tokens_view(tokens@);
        assert(before.len() == tokens@.len());
        i = p11_step_exec(tokens, i);
        assert(tokens_view(tokens@).len() == tokens@.len());
    }
}

/// Where [`p12`] changes a token.
pub open spec fn p12_c(ts: Seq<TokenView>, i: int) -> bool {
    (((0 <= i < ts.len() && ts[i].surface == "지"@) && (0 <= i < ts.len() && ts[i].pos == "NNB"@)) && ((0 <= i + 1 < ts.len() && ts[i + 1].surface == "않"@) && (0 <= i + 1 < ts.len() && ts[i + 1].pos == "VX"@)))
}

/// The token [`p12`] puts at `i`.
pub open spec fn p12_t(ts: Seq<TokenView>, i: int) -> TokenView {
    TokenView { pos: "EC"@, ..ts[i] }
}

/// 지/NNB before 않/VX is the connective ending 지/EC.
pub open spec fn p12(ts: Seq<TokenView>) -> Seq<TokenView> {
    map_where(ts, |ts: Seq<TokenView>, i: int| p12_c(ts, i), |ts: Seq<TokenView>, i: int| p12_t(ts, i))
}

/// Whether [`p12`] changes the token at `i`.
fn p12_c_exec(tokens: &Vec<SejongToken>, i: usize) -> (r: bool)
    requires
        i < tokens@.len(),
    ensures
        r == p12_c(tokens_view(tokens@), i as int),
{
    assert(tokens_view(tokens@).len() == tokens@.len());
    let c130 = surf_is(&tokens[i], "지");
    let c131 = pos_is(&tokens[i], "NNB");
    let c132 = (tokens.len() - i > 1) && surf_is(&tokens[i + 1], "않");
    let c133 = (tokens.len() - i > 1) && pos_is(&tokens[i + 1], "VX");
    ((c130 && c131) && (c132 && c133))
}

/// The token [`p12`] puts at `i`.
fn p12_t_exec(tokens: &Vec<SejongToken>, i: usize) -> (t: SejongToken)
    requires
        i < tokens@.len(),
        p12_c(tokens_view(tokens@), i as int),
    ensures
        t@ == p12_t(tokens_view(tokens@), i as int),
{
    assert(tokens_view(tokens@).len() == tokens@.len());
    let s135 = owned("EC");
    let mut t134 = tokens[i].duplicate();
    t134.pos = s135;
    t134
}

/// 지/NNB before 않/VX is the connective ending 지/EC.
pub fn apply_p12(tokens: &mut Vec<SejongToken>)
    ensures
        tokens_view(final(tokens)@) == p12(tokens_view(old(tokens)@)),
{
    let ghost orig = tokens_view(tokens@);
    let mut out: Vec<SejongToken> = Vec::new();
    let mut k: usize = 0;
    while k < tokens.len()
        invariant
            k <= tokens@.len(),
            orig == tokens_view(tokens@),
            tokens_view(out@) == p12(orig).take(k as int),
        decreases tokens@.len() - k,
    {
        let t = if p12_c_exec(tokens, k) { p12_t_exec(tokens, k) } else { tokens[k].duplicate() };
        push_token(&mut out, t);
        k += 1;
        assert(tokens_view(out@) =~= p12(orig).take(k as int));
    }
    assert(p12(orig).take(k as int) =~= p12(orig));
    *tokens = out;
}

/// Where rule 0 of [`p13`] applies.
pub open spec fn p13_c0(ts: Seq<TokenView>, i: int) -> bool {
    ((0 <= i < ts.len() && ts[i].pos == "VV"@) && (0 <= i < ts.len() && seq!["가다"@, "오다"@, "보다"@, "먹다"@, "되다"@, "주다"@, "받다"@, "쓰다"@, "읽다"@, "듣다"@, "말다"@, "살다"@, "죽다"@, "자다"@, "일다"@, "앉다"@, "서다"@, "놓다"@, "두다"@, "치다"@, "잡다"@, "놀다"@, "울다"@].contains(ts[i].surface)) && (0 <= i < ts.len() && is_suffix("다"@, ts[i].surface)))
}

/// One step of [`p13`] at `i`: the list after it and the next position.
pub open spec fn p13_step(ts: Seq<TokenView>, i: int) -> (Seq<TokenView>, int) {
    if p13_c0(ts, i) {
        (splice(ts, i, 1, seq![plain_view(strip_suffix(ts[i].surface, "다"@), "VV"@, ts[i].start_pos, (ts[i].start_pos).saturating_add(strip_suffix(ts[i].surface, "다"@).len() as usize)), plain_view("다"@, "EF"@, (ts[i].start_pos).saturating_add(strip_suffix(ts[i].surface, "다"@).len() as usize), ts[i].end_pos)]), i + 2)
    } else {
        (ts, i + 1)
    }
}

/// [`p13_step`] as a function value.
pub open spec fn p13_f() -> spec_fn(Seq<TokenView>, int) -> (Seq<TokenView>, int) {
    |ts: Seq<TokenView>, i: int| p13_step(ts, i)
}

/// The dictionary form of a common verb is split into stem and 다/EF (가다/VV → 가/VV 다/EF).
pub open spec fn p13(ts: Seq<TokenView>) -> Seq<TokenView> {
    scan(ts, 0, p13_f())
}

/// Whether rule 0 of [`p13`] applies at `i`.
fn p13_c0_exec(tokens: &Vec<SejongToken>, i: usize) -> (r: bool)
    requires
        i < tokens@.len(),
    ensures
        r == p13_c0(tokens_view(tokens@), i as int),
{
    assert(tokens_view(tokens@).len() == tokens@.len());
    let c136 = pos_is(&tokens[i], "VV");
    let l138: [&str; 23] = ["가다", "오다", "보다", "먹다", "되다", "주다", "받다", "쓰다", "읽다", "듣다", "말다", "살다", "죽다", "자다", "일다", "앉다", "서다", "놓다", "두다", "치다", "잡다", "놀다", "울다"];
    assert(crate::tag_map::strs_view(l138@) =~= seq!["가다"@, "오다"@, "보다"@, "먹다"@, "되다"@, "주다"@, "받다"@, "쓰다"@, "읽다"@, "듣다"@, "말다"@, "살다"@, "죽다"@, "자다"@, "일다"@, "앉다"@, "서다"@, "놓다"@, "두다"@, "치다"@, "잡다"@, "놀다"@, "울다"@]);
    let c137 = in_list(&l138, tokens[i].surface.as_str());
    let c139 = surf_ends(&tokens[i], "다");
    (c136 && c137 && c139)
}

/// One step of [`p13`] at `i`; returns the next position.
fn p13_step_exec(tokens: &mut Vec<SejongToken>, i: usize) -> (next: usize)
    requires
        i < old(tokens)@.len(),
    ensures
        (tokens_view(final(tokens)@), next as int) == p13_step(tokens_view(old(tokens)@), i as int),
        final(tokens)@.len() - next < old(tokens)@.len() - i,
        next <= final(tokens)@.len() + 1,
{
    let len0 = tokens.len();
    assert(tokens_view(tokens@).len() == tokens@.len());
    if p13_c0_exec(tokens, i) {
        let s142 = tokens[i].surface.clone();
        let s141 = strip_suffix_exec(s142.as_str(), "다");
        let s143 = owned("VV");
        let n144 = tokens[i].start_pos;
        let n146 = tokens[i].start_pos;
        let s148 = tokens[i].surface.clone();
        let s147 = strip_suffix_exec(s148.as_str(), "다");
        let n145 = n146.saturating_add(s147.unicode_len());
        let t140 = SejongToken::new(s141.as_str(), s143.as_str(), n144, n145);
        let s150 = owned("다");
        let s151 = owned("EF");
        let n153 = tokens[i].start_pos;
        let s155 = tokens[i].surface.clone();
        let s154 = strip_suffix_exec(s155.as_str(), "다");
        let n152 = n153.saturating_add(s154.unicode_len());
        let n156 = tokens[i].end_pos;
        let t149 = SejongToken::new(s150.as_str(), s151.as_str(), n152, n156);
        let mut nv157: Vec<SejongToken> = Vec::new();
        push_token(&mut nv157, t140);
        push_token(&mut nv157, t149);
        splice_tokens(tokens, i, 1, nv157);
        let _len1 = tokens.len();
        return i + 2;
    }
    i + 1
}

/// The dictionary form of a common verb is split into stem and 다/EF (가다/VV → 가/VV 다/EF).
pub fn apply_p13(tokens: &mut Vec<SejongToken>)
    ensures
        tokens_view(final(tokens)@) == p13(tokens_view(old(tokens)@)),
{
    let ghost orig = tokens_view(tokens@);
    let mut i: usize = 0;
    while i < tokens.len()
        invariant
            i <= tokens@.len() + 1,
            scan(tokens_view(tokens@), i as int, p13_f()) == scan(orig, 0, p13_f()),
        decreases tokens@.len() + 1 - i,
    {
        let ghost before = tokens_view(tokens@);
        assert(before.len() == tokens@.len());
        i = p13_step_exec(tokens, i);
        assert(tokens_view(tokens@).len() == tokens@.len());
    }
}

/// Where [`p14`] changes a token.
pub open spec fn p14_c(ts: Seq<TokenView>, i: int) -> bool {
    (((0 <= i < ts.len() && ts[i].surface == "하"@) && (0 <= i < ts.len() && ts[i].pos == "XSV"@)) && ((0 <= i + 1 < ts.len() && ts[i + 1].surface == "다"@) && (0 <= i + 1 < ts.len() && ts[i + 1].pos == "EF"@)))
}

/// The token [`p14`] puts at `i`.
pub open spec fn p14_t(ts: Seq<TokenView>, i: int) -> TokenView {
    TokenView { pos: "VV"@, ..ts[i] }
}

/// 하/XSV before 다/EF is the verb 하/VV.
pub open spec fn p14(ts: Seq<TokenView>) -> Seq<TokenView> {
    map_where(ts, |ts: Seq<TokenView>, i: int| p14_c(ts, i), |ts: Seq<TokenView>, i: int| p14_t(ts, i))
}

/// Whether [`p14`] changes the token at `i`.
fn p14_c_exec(tokens: &Vec<SejongToken>, i: usize) -> (r: bool)
    requires
        i < tokens@.len(),
    ensures
        r == p14_c(tokens_view(tokens@), i as int),
{
    assert(tokens_view(tokens@).len() == tokens@.len());
    let c158 = surf_is(&tokens[i], "하");
    let c159 = pos_is(&tokens[i], "XSV");
    let c160 = (tokens.len() - i > 1) && surf_is(&tokens[i + 1], "다");
    let c161 = (tokens.len() - i > 1) && pos_is(&tokens[i + 1], "EF");
    ((c158 && c159) && (c160 && c161))
}

/// The token [`p14`] puts at `i`.
fn p14_t_exec(tokens: &Vec<SejongToken>, i: usize) -> (t: SejongToken)
    requires
        i < tokens@.len(),
        p14_c(tokens_view(tokens@), i as int),
    ensures
        t@ == p14_t(tokens_view(tokens@), i as int),
{
    assert(tokens_view(tokens@).len() == tokens@.len());
    let s163 = owned("VV");
    let mut t162 = tokens[i].duplicate();
    t162.pos = s163;
    t162
}

/// 하/XSV before 다/EF is the verb 하/VV.
pub fn apply_p14(tokens: &mut Vec<SejongToken>)
    ensures
        tokens_view(final(tokens)@) == p14(tokens_view(old(tokens)@)),
{
    let ghost orig = tokens_view(tokens@);
    let mut out: Vec<SejongToken> = Vec::new();
    let mut k: usize = 0;
    while k < tokens.len()
        invariant
            k <= tokens@.len(),
            orig == tokens_view(tokens@),
            tokens_view(out@) == p14(orig).take(k as int),
        decreases tokens@.len() - k,
    {
        let t = if p14_c_exec(tokens, k) { p14_t_exec(tokens, k) } else { tokens[k].duplicate() };
        push_token(&mut out, t);
        k += 1;
        assert(tokens_view(out@) =~= p14(orig).take(k as int));
    }
    assert(p14(orig).take(k as int) =~= p14(orig));
    *tokens = out;
}

/// Where rule 0 of [`p15`] applies.
pub open spec fn p15_c0(ts: Seq<TokenView>, i: int) -> bool {
    ((0 <= i < ts.len() && ts[i].pos == "NNG"@) && (0 <= i < ts.len() && is_suffix("기"@, ts[i].surface)) && (0 <= i < ts.len() && ts[i].surface.len() >= 2) && (0 <= i + 1 < ts.len() && seq!["전"@, "위해"@, "시작"@].contains(ts[i + 1].surface)))
}

/// One step of [`p15`] at `i`: the list after it and the next position.
pub open spec fn p15_step(ts: Seq<TokenView>, i: int) -> (Seq<TokenView>, int) {
    if p15_c0(ts, i) {
        (splice(ts, i, 1, seq![plain_view(strip_suffix(ts[i].surface, "기"@), "VV"@, ts[i].start_pos, (ts[i].start_pos).saturating_add(strip_suffix(ts[i].surface, "기"@).len() as usize)), plain_view("기"@, "ETN"@, (ts[i].start_pos).saturating_add(strip_suffix(ts[i].surface, "기"@).len() as usize), ts[i].end_pos)]), i + 2)
    } else {
        (ts, i + 1)
    }
}

/// [`p15_step`] as a function value.
pub open spec fn p15_f() -> spec_fn(Seq<TokenView>, int) -> (Seq<TokenView>, int) {
    |ts: Seq<TokenView>, i: int| p15_step(ts, i)
}

/// A noun in 기 before 전, 위해 or 시작 is a verb stem with the nominal ending 기/ETN (가기/NNG 전 → 가/VV 기/ETN 전).
pub open spec fn p15(ts: Seq<TokenView>) -> Seq<TokenView> {
    scan(ts, 0, p15_f())
}

/// Whether rule 0 of [`p15`] applies at `i`.
fn p15_c0_exec(tokens: &Vec<SejongToken>, i: usize) -> (r: bool)
    requires
        i < tokens@.len(),
    ensures
        r == p15_c0(tokens_view(tokens@), i as int),
{
    assert(tokens_view(tokens@).len() == tokens@.len());
    let c164 = pos_is(&tokens[i], "NNG");
    let c165 = surf_ends(&tokens[i], "기");
    let c166 = char_count(tokens[i].surface.as_str()) >= 2;
    let l168: [&str; 3] = ["전", "위해", "시작"];
    assert(crate::tag_map::strs_view(l168@) =~= seq!["전"@, "위해"@, "시작"@]);
    let c167 = (tokens.len() - i > 1) && in_list(&l168, tokens[i + 1].surface.as_str());
    (c164 && c165 && c166 && c167)
}

/// One step of [`p15`] at `i`; returns the next position.
fn p15_step_exec(tokens: &mut Vec<SejongToken>, i: usize) -> (next: usize)
    requires
        i < old(tokens)@.len(),
    ensures
        (tokens_view(final(tokens)@), next as int) == p15_step(tokens_view(old(tokens)@), i as int),
        final(tokens)@.len() - next < old(tokens)@.len() - i,
        next <= final(tokens)@.len() + 1,
{
    let len0 = tokens.len();
    assert(tokens_view(tokens@).len() == tokens@.len());
    if p15_c0_exec(tokens, i) {
        let s171 = tokens[i].surface.clone();
        let s170 = strip_suffix_exec(s171.as_str(), "기");
        let s172 = owned("VV");
        let n173 = tokens[i].start_pos;
        let n175 = tokens[i].start_pos;
        let s177 = tokens[i].surface.clone();
        let s176 = strip_suffix_exec(s177.as_str(), "기");
        let n174 = n175.saturating_add(s176.unicode_len());
        let t169 = SejongToken::new(s170.as_str(), s172.as_str(), n173, n174);
        let s179 = owned("기");
        let s180 = owned("ETN");
        let n182 = tokens[i].start_pos;
        let s184 = tokens[i].surface.clone();
        let s183 = strip_suffix_exec(s184.as_str(), "기");
        let n181 = n182.saturating_add(s183.unicode_len());
        let n185 = tokens[i].end_pos;
        let t178 = SejongToken::new(s179.as_str(), s180.as_str(), n181, n185);
        let mut nv186: Vec<SejongToken> = Vec::new();
        push_token(&mut nv186, t169);
        push_token(&mut nv186, t178);
        splice_tokens(tokens, i, 1, nv186);
        let _len1 = tokens.len();
        return i + 2;
    }
    i + 1
}

/// A noun in 기 before 전, 위해 or 시작 is a verb stem with the nominal ending 기/ETN (가기/NNG 전 → 가/VV 기/ETN 전).
pub fn apply_p15(tokens: &mut Vec<SejongToken>)
    ensures
        tokens_view(final(tokens)@) == p15(tokens_view(old(tokens)@)),
{
    let ghost orig = tokens_view(tokens@);
    let mut i: usize = 0;
    while i < tokens.len()
        invariant
            i <= tokens@.len() + 1,
            scan(tokens_view(tokens@), i as int, p15_f()) == scan(orig, 0, p15_f()),
        decreases tokens@.len() + 1 - i,
    {
        let ghost before = tokens_view(tokens@);
        assert(before.len() == tokens@.len());
        i = p15_step_exec(tokens, i);
        assert(tokens_view(tokens@).len() == tokens@.len());
    }
}

/// Where rule 0 of [`p16`] applies.
pub open spec fn p16_c0(ts: Seq<TokenView>, i: int) -> bool {
    (((0 <= i < ts.len() && ts[i].surface == "는"@) && (0 <= i < ts.len() && ts[i].pos == "JX"@)) && ((0 <= i + 1 < ts.len() && ts[i + 1].surface == "들"@) && (0 <= i + 1 < ts.len() && ts[i + 1].pos == "XSN"@)) && ((0 <= i + 2 < ts.len() && ts[i + 2].surface == "이"@) && (0 <= i + 2 < ts.len() && ts[i + 2].pos == "JKS"@)))
}

/// One step of [`p16`] at `i`: the list after it and the next position.
pub open spec fn p16_step(ts: Seq<TokenView>, i: int) -> (Seq<TokenView>, int) {
    if p16_c0(ts, i) {
        (splice(ts, i, 1, seq![]), i + 1)
    } else {
        (ts, i + 1)
    }
}

/// [`p16_step`] as a function value.
pub open spec fn p16_f() -> spec_fn(Seq<TokenView>, int) -> (Seq<TokenView>, int) {
    |ts: Seq<TokenView>, i: int| p16_step(ts, i)
}

/// 는/JX before 들/XSN 이/JKS is dropped.
pub open spec fn p16(ts: Seq<TokenView>) -> Seq<TokenView> {
    scan(ts, 0, p16_f())
}

/// Whether rule 0 of [`p16`] applies at `i`.
fn p16_c0_exec(tokens: &Vec<SejongToken>, i: usize) -> (r: bool)
    requires
        i < tokens@.len(),
    ensures
        r == p16_c0(tokens_view(tokens@), i as int),
{
    assert(tokens_view(tokens@).len() == tokens@.len());
    let c187 = surf_is(&tokens[i], "는");
    let c188 = pos_is(&tokens[i], "JX");
    let c189 = (tokens.len() - i > 1) && surf_is(&tokens[i + 1], "들");
    let c190 = (tokens.len() - i > 1) && pos_is(&tokens[i + 1], "XSN");
    let c191 = (tokens.len() - i > 2) && surf_is(&tokens[i + 2], "이");
    let c192 = (tokens.len() - i > 2) && pos_is(&tokens[i + 2], "JKS");
    ((c187 && c188) && (c189 && c190) && (c191 && c192))
}

/// One step of [`p16`] at `i`; returns the next position.
fn p16_step_exec(tokens: &mut Vec<SejongToken>, i: usize) -> (next: usize)
    requires
        i < old(tokens)@.len(),
    ensures
        (tokens_view(final(tokens)@), next as int) == p16_step(tokens_view(old(tokens)@), i as int),
        final(tokens)@.len() - next < old(tokens)@.len() - i,
        next <= final(tokens)@.len() + 1,
{
    let len0 = tokens.len();
    assert(tokens_view(tokens@).len() == tokens@.len());
    if p16_c0_exec(tokens, i) {
        let mut nv193: Vec<SejongToken> = Vec::new();
        splice_tokens(tokens, i, 1, nv193);
        let _len1 = tokens.len();
        return i + 1;
    }
    i + 1
}

/// 는/JX before 들/XSN 이/JKS is dropped.
pub fn apply_p16(tokens: &mut Vec<SejongToken>)
    ensures
        tokens_view(final(tokens)@) == p16(tokens_view(old(tokens)@)),
{
    let ghost orig = tokens_view(tokens@);
    let mut i: usize = 0;
    while i < tokens.len()
        invariant
            i <= tokens@.len() + 1,
            scan(tokens_view(tokens@), i as int, p16_f()) == scan(orig, 0, p16_f()),
        decreases tokens@.len() + 1 - i,
    {
        let ghost before = tokens_view(tokens@);
        assert(before.len() == tokens@.len());
        i = p16_step_exec(tokens, i);
        assert(tokens_view(tokens@).len() == tokens@.len());
    }
}

/// Where rule 0 of [`p17`] applies.
pub open spec fn p17_c0(ts: Seq<TokenView>, i: int) -> bool {
    ((0 <= i < ts.len() && ts[i].pos == "NNG"@) && (0 <= i < ts.len() && seq!["나의"@, "너의"@, "우리의"@, "저의"@, "그의"@, "그녀의"@].contains(ts[i].surface)) && (0 <= i < ts.len() && is_suffix("의"@, ts[i].surface)))
}

/// One step of [`p17`] at `i`: the list after it and the next position.
pub open spec fn p17_step(ts: Seq<TokenView>, i: int) -> (Seq<TokenView>, int) {
    if p17_c0(ts, i) {
        (splice(ts, i, 1, seq![plain_view(strip_suffix(ts[i].surface, "의"@), "NP"@, ts[i].start_pos, (ts[i].start_pos).saturating_add(strip_suffix(ts[i].surface, "의"@).len() as usize)), plain_view("의"@, "JKG"@, (ts[i].start_pos).saturating_add(strip_suffix(ts[i].surface, "의"@).len() as usize), ts[i].end_pos)]), i + 2)
    } else {
        (ts, i + 1)
    }
}

/// [`p17_step`] as a function value.
pub open spec fn p17_f() -> spec_fn(Seq<TokenView>, int) -> (Seq<TokenView>, int) {
    |ts: Seq<TokenView>, i: int| p17_step(ts, i)
}

/// A possessive pronoun analysed as a noun is split: 나의/NNG → 나/NP 의/JKG.
pub open spec fn p17(ts: Seq<TokenView>) -> Seq<TokenView> {
    scan(ts, 0, p17_f())
}

/// Whether rule 0 of [`p17`] applies at `i`.
fn p17_c0_exec(tokens: &Vec<SejongToken>, i: usize) -> (r: bool)
    requires
        i < tokens@.len(),
    ensures
        r == p17_c0(tokens_view(tokens@), i as int),
{
    assert(tokens_view(tokens@).len() == tokens@.len());
    let c194 = pos_is(&tokens[i], "NNG");
    let l196: [&str; 6] = ["나의", "너의", "우리의", "저의", "그의", "그녀의"];
    assert(crate::tag_map::strs_view(l196@) =~= seq!["나의"@, "너의"@, "우리의"@, "저의"@, "그의"@, "그녀의"@]);
    let c195 = in_list(&l196, tokens[i].surface.as_str());
    let c197 = surf_ends(&tokens[i], "의");
    (c194 && c195 && c197)
}

/// One step of [`p17`] at `i`; returns the next position.
fn p17_step_exec(tokens: &mut Vec<SejongToken>, i: usize) -> (next: usize)
    requires
        i < old(tokens)@.len(),
    ensures
        (tokens_view(final(tokens)@), next as int) == p17_step(tokens_view(old(tokens)@), i as int),
        final(tokens)@.len() - next < old(tokens)@.len() - i,
        next <= final(tokens)@.len() + 1,
{
    let len0 = tokens.len();
    assert(tokens_view(tokens@).len() == tokens@.len());
    if p17_c0_exec(tokens, i) {
        let s200 = tokens[i].surface.clone();
        let s199 = strip_suffix_exec(s200.as_str(), "의");
        let s201 = owned("NP");
        let n202 = tokens[i].start_pos;
        let n204 = tokens[i].start_pos;
        let s206 = tokens[i].surface.clone();
        let s205 = strip_suffix_exec(s206.as_str(), "의");
        let n203 = n204.saturating_add(s205.unicode_len());
        let t198 = SejongToken::new(s199.as_str(), s201.as_str(), n202, n203);
        let s208 = owned("의");
        let s209 = owned("JKG");
        let n211 = tokens[i].start_pos;
        let s213 = tokens[i].surface.clone();
        let s212 = strip_suffix_exec(s213.as_str(), "의");
        let n210 = n211.saturating_add(s212.unicode_len());
        let n214 = tokens[i].end_pos;
        let t207 = SejongToken::new(s208.as_str(), s209.as_str(), n210, n214);
        let mut nv215: Vec<SejongToken> = Vec::new();
        push_token(&mut nv215, t198);
        push_token(&mut nv215, t207);
        splice_tokens(tokens, i, 1, nv215);
        let _len1 = tokens.len();
        return i + 2;
    }
    i + 1
}

/// A possessive pronoun analysed as a noun is split: 나의/NNG → 나/NP 의/JKG.
pub fn apply_p17(tokens: &mut Vec<SejongToken>)
    ensures
        tokens_view(final(tokens)@) == p17(tokens_view(old(tokens)@)),
{
    let ghost orig = tokens_view(tokens@);
    let mut i: usize = 0;
    while i < tokens.len()
        invariant
            i <= tokens@.len() + 1,
            scan(tokens_view(tokens@), i as int, p17_f()) == scan(orig, 0, p17_f()),
        decreases tokens@.len() + 1 - i,
    {
        let ghost before = tokens_view(tokens@);
        assert(before.len() == tokens@.len());
        i = p17_step_exec(tokens, i);
        assert(tokens_view(tokens@).len() == tokens@.len());
    }
}

/// Where rule 0 of [`p18`] applies.
pub open spec fn p18_c0(ts: Seq<TokenView>, i: int) -> bool {
    ((0 <= i - 1 < ts.len() && ts[i - 1].pos == "NP"@) && (0 <= i < ts.len() && ts[i].pos == "NNG"@) && (0 <= i < ts.len() && is_prefix("의"@, ts[i].surface)) && (0 <= i < ts.len() && ts[i].surface.len() >= 2))
}

/// One step of [`p18`] at `i`: the list after it and the next position.
pub open spec fn p18_step(ts: Seq<TokenView>, i: int) -> (Seq<TokenView>, int) {
    if p18_c0(ts, i) {
        (splice(ts, i, 1, seq![plain_view("의"@, "JKG"@, ts[i].start_pos, (ts[i].start_pos).saturating_add(1)), plain_view(strip_prefix(ts[i].surface, "의"@), "NNG"@, (ts[i].start_pos).saturating_add(1), ts[i].end_pos)]), i + 2)
    } else {
        (ts, i + 1)
    }
}

/// [`p18_step`] as a function value.
pub open spec fn p18_f() -> spec_fn(Seq<TokenView>, int) -> (Seq<TokenView>, int) {
    |ts: Seq<TokenView>, i: int| p18_step(ts, i)
}

/// A noun in 의 after a pronoun is split into 의/JKG and the noun (우리/NP 의집/NNG → 의/JKG 집/NNG).
pub open spec fn p18(ts: Seq<TokenView>) -> Seq<TokenView> {
    scan(ts, 0, p18_f())
}

/// Whether rule 0 of [`p18`] applies at `i`.
fn p18_c0_exec(tokens: &Vec<SejongToken>, i: usize) -> (r: bool)
    requires
        i < tokens@.len(),
    ensures
        r == p18_c0(tokens_view(tokens@), i as int),
{
    assert(tokens_view(tokens@).len() == tokens@.len());
    let c216 = (i >= 1) && pos_is(&tokens[i - 1], "NP");
    let c217 = pos_is(&tokens[i], "NNG");
    let c218 = surf_starts(&tokens[i], "의");
    let c219 = char_count(tokens[i].surface.as_str()) >= 2;
    (c216 && c217 && c218 && c219)
}

/// One step of [`p18`] at `i`; returns the next position.
fn p18_step_exec(tokens: &mut Vec<SejongToken>, i: usize) -> (next: usize)
    requires
        i < old(tokens)@.len(),
    ensures
        (tokens_view(final(tokens)@), next as int) == p18_step(tokens_view(old(tokens)@), i as int),
        final(tokens)@.len() - next < old(tokens)@.len() - i,
        next <= final(tokens)@.len() + 1,
{
    let len0 = tokens.len();
    assert(tokens_view(tokens@).len() == tokens@.len());
    if p18_c0_exec(tokens, i) {
        let s221 = owned("의");
        let s222 = owned("JKG");
        let n223 = tokens[i].start_pos;
        let n225 = tokens[i].start_pos;
        let n224 = n225.saturating_add(1);
        let t220 = SejongToken::new(s221.as_str(), s222.as_str(), n223, n224);
        let s228 = tokens[i].surface.clone();
        let s227 = strip_prefix_exec(s228.as_str(), "의");
        let s229 = owned("NNG");
        let n231 = tokens[i].start_pos;
        let n230 = n231.saturating_add(1);
        let n232 = tokens[i].end_pos;
        let t226 = SejongToken::new(s227.as_str(), s229.as_str(), n230, n232);
        let mut nv233: Vec<SejongToken> = Vec::new();
        push_token(&mut nv233, t220);
        push_token(&mut nv233, t226);
        splice_tokens(tokens, i, 1, nv233);
        let _len1 = tokens.len();
        return i + 2;
    }
    i + 1
}

/// A noun in 의 after a pronoun is split into 의/JKG and the noun (우리/NP 의집/NNG → 의/JKG 집/NNG).
pub fn apply_p18(tokens: &mut Vec<SejongToken>)
    ensures
        tokens_view(final(tokens)@) == p18(tokens_view(old(tokens)@)),
{
    let ghost orig = tokens_view(tokens@);
    let mut i: usize = 0;
    while i < tokens.len()
        invariant
            i <= tokens@.len() + 1,
            scan(tokens_view(tokens@), i as int, p18_f()) == scan(orig, 0, p18_f()),
        decreases tokens@.len() + 1 - i,
    {
        let ghost before = tokens_view(tokens@);
        assert(before.len() == tokens@.len());
        i = p18_step_exec(tokens, i);
        assert(tokens_view(tokens@).len() == tokens@.len());
    }
}

/// A match of the honorific merge: a common noun followed by 님의 tagged NNP or NNG.
pub open spec fn p19_m(ts: Seq<TokenView>, k: int) -> bool {
    0 <= k && k + 1 < ts.len() && ts[k].pos == "NNG"@ && ts[k + 1].surface == "님의"@
        && (ts[k + 1].pos == "NNP"@ || ts[k + 1].pos == "NNG"@)
}

/// The end offset the merge at `k` reads from the token after it. The matches
/// are all found first and merged from the last one back, so a merge at `k + 1`
/// has already shortened that token by one.
pub open spec fn p19_e(ts: Seq<TokenView>, k: int) -> usize
    decreases ts.len() - k,
{
    if k < 0 || k + 1 >= ts.len() {
        0
    } else if p19_m(ts, k + 1) {
        p19_e(ts, k + 1).saturating_sub(1)
    } else {
        ts[k + 1].end_pos
    }
}

pub open spec fn p19_c(ts: Seq<TokenView>, j: int) -> bool {
    p19_m(ts, j - 1) || p19_m(ts, j)
}

pub open spec fn p19_t(ts: Seq<TokenView>, j: int) -> TokenView {
    if p19_m(ts, j - 1) {
        plain_view("의"@, "JKG"@, p19_e(ts, j - 1).saturating_sub(1), p19_e(ts, j - 1))
    } else {
        plain_view(ts[j].surface + "님"@, "NNG"@, ts[j].start_pos, p19_e(ts, j).saturating_sub(1))
    }
}

/// A common noun with 님의/NNP|NNG is the noun with 님 and 의/JKG (선생/NNG 님의/NNP →
/// 선생님/NNG 의/JKG). All matches are found first, then merged from the last
/// one back, each merge taking its end from the token after it as it then is.
pub open spec fn p19(ts: Seq<TokenView>) -> Seq<TokenView> {
    map_where(ts, |ts: Seq<TokenView>, j: int| p19_c(ts, j), |ts: Seq<TokenView>, j: int| p19_t(ts, j))
}

fn p19_m_exec(tokens: &Vec<SejongToken>, k: usize) -> (r: bool)
    ensures
        r == p19_m(tokens_view(tokens@), k as int),
{
    assert(tokens_view(tokens@).len() == tokens@.len());
    if k >= tokens.len() || tokens.len() - k < 2 {
        return false;
    }
    pos_is(&tokens[k], "NNG") && surf_is(&tokens[k + 1], "님의")
        && (pos_is(&tokens[k + 1], "NNP") || pos_is(&tokens[k + 1], "NNG"))
}

/// The offsets `p19_e` for every position but the last, computed from the end.
fn p19_ends(tokens: &Vec<SejongToken>) -> (e: Vec<usize>)
    requires
        tokens@.len() >= 1,
    ensures
        e@.len() == tokens@.len(),
        forall|j: int| 0 <= j < tokens@.len() - 1 ==> e@[j] == p19_e(tokens_view(tokens@), j),
{
    let ghost ts = tokens_view(tokens@);
    assert(ts.len() == tokens@.len());
    let n = tokens.len();
    let mut e: Vec<usize> = Vec::new();
    let mut z: usize = 0;
    while z < n
        invariant
            z <= n,
            e@.len() == z,
        decreases n - z,
    {
        e.push(0);
        z += 1;
    }
    let mut k: usize = n - 1;
    while k > 0
        invariant
            n == tokens@.len(),
            ts == tokens_view(tokens@),
            ts.len() == n,
            k < n,
            e@.len() == n,
            forall|j: int| k <= j < n - 1 ==> e@[j] == p19_e(ts, j),
        decreases k,
    {
        k -= 1;
        let m = p19_m_exec(tokens, k + 1);
        assert(m == p19_m(ts, k + 1));
        let v = if m {
            assert(k + 1 < n - 1);
            assert(e@[k + 1] == p19_e(ts, k + 1));
            assert(p19_e(ts, k as int) == p19_e(ts, k + 1).saturating_sub(1));
            e[k + 1].saturating_sub(1)
        } else {
            assert(ts[k + 1] == tokens@[k + 1]@);
            assert(p19_e(ts, k as int) == ts[k + 1].end_pos);
            tokens[k + 1].end_pos
        };
        assert(v == p19_e(ts, k as int));
        let ghost old_e = e@;
        e.set(k, v);
        assert forall|j: int| k <= j < n - 1 implies e@[j] == p19_e(ts, j) by {
            if j > k {
                assert(e@[j] == old_e[j]);
            }
        }
    }
    e
}

/// A common noun with 님의/NNP|NNG is the noun with 님 and 의/JKG (선생/NNG 님의/NNP →
/// 선생님/NNG 의/JKG).
pub fn apply_p19(tokens: &mut Vec<SejongToken>)
    ensures
        tokens_view(final(tokens)@) == p19(tokens_view(old(tokens)@)),
{
    let ghost orig = tokens_view(tokens@);
    assert(orig.len() == tokens@.len());
    if tokens.len() == 0 {
        assert(p19(orig) =~= orig);
        return;
    }
    let e = p19_ends(tokens);
    let mut out: Vec<SejongToken> = Vec::new();
    let mut k: usize = 0;
    while k < tokens.len()
        invariant
            k <= tokens@.len(),
            orig == tokens_view(tokens@),
            orig.len() == tokens@.len(),
            e@.len() == tokens@.len(),
            forall|j: int| 0 <= j < tokens@.len() - 1 ==> e@[j] == p19_e(orig, j),
            tokens_view(out@) == p19(orig).take(k as int),
        decreases tokens@.len() - k,
    {
        let t = if k >= 1 && p19_m_exec(tokens, k - 1) {
            let end = e[k - 1];
            SejongToken::new("의", "JKG", end.saturating_sub(1), end)
        } else if p19_m_exec(tokens, k) {
            let s = concat(tokens[k].surface.as_str(), "님");
            SejongToken::new(s.as_str(), "NNG", tokens[k].start_pos, e[k].saturating_sub(1))
        } else {
            tokens[k].duplicate()
        };
        push_token(&mut out, t);
        k += 1;
        assert(tokens_view(out@) =~= p19(orig).take(k as int));
    }
    assert(p19(orig).take(k as int) =~= p19(orig));
    *tokens = out;
}

/// Where [`p20`] changes a token.
pub open spec fn p20_c(ts: Seq<TokenView>, i: int) -> bool {
    ((0 <= i < ts.len() && ts[i].pos == "MAJ"@) && (0 <= i < ts.len() && seq!["또한"@, "따라서"@, "그러므로"@].contains(ts[i].surface)))
}

/// The token [`p20`] puts at `i`.
pub open spec fn p20_t(ts: Seq<TokenView>, i: int) -> TokenView {
    TokenView { pos: "MAG"@, ..ts[i] }
}

/// 또한, 따라서 and 그러므로 are general adverbs (MAG).
pub open spec fn p20(ts: Seq<TokenView>) -> Seq<TokenView> {
    map_where(ts, |ts: Seq<TokenView>, i: int| p20_c(ts, i), |ts: Seq<TokenView>, i: int| p20_t(ts, i))
}

/// Whether [`p20`] changes the token at `i`.
fn p20_c_exec(tokens: &Vec<SejongToken>, i: usize) -> (r: bool)
    requires
        i < tokens@.len(),
    ensures
        r == p20_c(tokens_view(tokens@), i as int),
{
    assert(tokens_view(tokens@).len() == tokens@.len());
    let c234 = pos_is(&tokens[i], "MAJ");
    let l236: [&str; 3] = ["또한", "따라서", "그러므로"];
    assert(crate::tag_map::strs_view(l236@) =~= seq!["또한"@, "따라서"@, "그러므로"@]);
    let c235 = in_list(&l236, tokens[i].surface.as_str());
    (c234 && c235)
}

/// The token [`p20`] puts at `i`.
fn p20_t_exec(tokens: &Vec<SejongToken>, i: usize) -> (t: SejongToken)
    requires
        i < tokens@.len(),
        p20_c(tokens_view(tokens@), i as int),
    ensures
        t@ == p20_t(tokens_view(tokens@), i as int),
{
    assert(tokens_view(tokens@).len() == tokens@.len());
    let s238 = owned("MAG");
    let mut t237 = tokens[i].duplicate();
    t237.pos = s238;
    t237
}

/// 또한, 따라서 and 그러므로 are general adverbs (MAG).
pub fn apply_p20(tokens: &mut Vec<SejongToken>)
    ensures
        tokens_view(final(tokens)@) == p20(tokens_view(old(tokens)@)),
{
    let ghost orig = tokens_view(tokens@);
    let mut out: Vec<SejongToken> = Vec::new();
    let mut k: usize = 0;
    while k < tokens.len()
        invariant
            k <= tokens@.len(),
            orig == tokens_view(tokens@),
            tokens_view(out@) == p20(orig).take(k as int),
        decreases tokens@.len() - k,
    {
        let t = if p20_c_exec(tokens, k) { p20_t_exec(tokens, k) } else { tokens[k].duplicate() };
        push_token(&mut out, t);
        k += 1;
        assert(tokens_view(out@) =~= p20(orig).take(k as int));
    }
    assert(p20(orig).take(k as int) =~= p20(orig));
    *tokens = out;
}

/// Where [`p21`] changes a token.
pub open spec fn p21_c(ts: Seq<TokenView>, i: int) -> bool {
    ((0 <= i - 1 < ts.len() && seq!["NNG"@, "NNP"@, "NP"@].contains(ts[i - 1].pos)) && ((0 <= i < ts.len() && ts[i].surface == "이"@) && (0 <= i < ts.len() && ts[i].pos == "EP"@)))
}

/// The token [`p21`] puts at `i`.
pub open spec fn p21_t(ts: Seq<TokenView>, i: int) -> TokenView {
    TokenView { pos: "VCP"@, ..ts[i] }
}

/// 이/EP after a noun or pronoun is the copula 이/VCP.
pub open spec fn p21(ts: Seq<TokenView>) -> Seq<TokenView> {
    map_where(ts, |ts: Seq<TokenView>, i: int| p21_c(ts, i), |ts: Seq<TokenView>, i: int| p21_t(ts, i))
}

/// Whether [`p21`] changes the token at `i`.
fn p21_c_exec(tokens: &Vec<SejongToken>, i: usize) -> (r: bool)
    requires
        i < tokens@.len(),
    ensures
        r == p21_c(tokens_view(tokens@), i as int),
{
    assert(tokens_view(tokens@).len() == tokens@.len());
    let l240: [&str; 3] = ["NNG", "NNP", "NP"];
    assert(crate::tag_map::strs_view(l240@) =~= seq!["NNG"@, "NNP"@, "NP"@]);
    let c239 = (i >= 1) && in_list(&l240, tokens[i - 1].pos.as_str());
    let c241 = surf_is(&tokens[i], "이");
    let c242 = pos_is(&tokens[i], "EP");
    (c239 && (c241 && c242))
}

/// The token [`p21`] puts at `i`.
fn p21_t_exec(tokens: &Vec<SejongToken>, i: usize) -> (t: SejongToken)
    requires
        i < tokens@.len(),
        p21_c(tokens_view(tokens@), i as int),
    ensures
        t@ == p21_t(tokens_view(tokens@), i as int),
{
    assert(tokens_view(tokens@).len() == tokens@.len());
    let s244 = owned("VCP");
    let mut t243 = tokens[i].duplicate();
    t243.pos = s244;
    t243
}

/// 이/EP after a noun or pronoun is the copula 이/VCP.
pub fn apply_p21(tokens: &mut Vec<SejongToken>)
    ensures
        tokens_view(final(tokens)@) == p21(tokens_view(old(tokens)@)),
{
    let ghost orig = tokens_view(tokens@);
    let mut out: Vec<SejongToken> = Vec::new();
    let mut k: usize = 0;
    while k < tokens.len()
        invariant
            k <= tokens@.len(),
            orig == tokens_view(tokens@),
            tokens_view(out@) == p21(orig).take(k as int),
        decreases tokens@.len() - k,
    {
        let t = if p21_c_exec(tokens, k) { p21_t_exec(tokens, k) } else { tokens[k].duplicate() };
        push_token(&mut out, t);
        k += 1;
        assert(tokens_view(out@) =~= p21(orig).take(k as int));
    }
    assert(p21(orig).take(k as int) =~= p21(orig));
    *tokens = out;
}

/// Where rule 0 of [`p22`] applies.
pub open spec fn p22_c0(ts: Seq<TokenView>, i: int) -> bool {
    ((0 <= i < ts.len() && ts[i].surface == "열시"@) && (0 <= i < ts.len() && ts[i].pos == "NNG"@))
}

/// Where rule 1 of [`p22`] applies.
pub open spec fn p22_c1(ts: Seq<TokenView>, i: int) -> bool {
    ((0 <= i < ts.len() && ts[i].surface == "세시"@) && (0 <= i < ts.len() && ts[i].pos == "NNG"@))
}

/// Where rule 2 of [`p22`] applies.
pub open spec fn p22_c2(ts: Seq<TokenView>, i: int) -> bool {
    ((0 <= i < ts.len() && ts[i].surface == "한시"@) && (0 <= i < ts.len() && ts[i].pos == "NNG"@))
}

/// Where rule 3 of [`p22`] applies.
pub open spec fn p22_c3(ts: Seq<TokenView>, i: int) -> bool {
    ((0 <= i < ts.len() && ts[i].surface == "두시"@) && (0 <= i < ts.len() && ts[i].pos == "NNG"@))
}

/// Where rule 4 of [`p22`] applies.
pub open spec fn p22_c4(ts: Seq<TokenView>, i: int) -> bool {
    ((0 <= i < ts.len() && ts[i].surface == "네시"@) && (0 <= i < ts.len() && ts[i].pos == "NNG"@))
}

/// Where rule 5 of [`p22`] applies.
pub open spec fn p22_c5(ts: Seq<TokenView>, i: int) -> bool {
    ((0 <= i < ts.len() && ts[i].surface == "다섯시"@) && (0 <= i < ts.len() && ts[i].pos == "NNG"@))
}

/// Where rule 6 of [`p22`] applies.
pub open spec fn p22_c6(ts: Seq<TokenView>, i: int) -> bool {
    ((0 <= i < ts.len() && ts[i].surface == "여섯시"@) && (0 <= i < ts.len() && ts[i].pos == "NNG"@))
}

/// Where rule 7 of [`p22`] applies.
pub open spec fn p22_c7(ts: Seq<TokenView>, i: int) -> bool {
    ((0 <= i < ts.len() && ts[i].surface == "일곱시"@) && (0 <= i < ts.len() && ts[i].pos == "NNG"@))
}

/// Where rule 8 of [`p22`] applies.
pub open spec fn p22_c8(ts: Seq<TokenView>, i: int) -> bool {
    ((0 <= i < ts.len() && ts[i].surface == "여덟시"@) && (0 <= i < ts.len() && ts[i].pos == "NNG"@))
}

/// Where rule 9 of [`p22`] applies.
pub open spec fn p22_c9(ts: Seq<TokenView>, i: int) -> bool {
    ((0 <= i < ts.len() && ts[i].surface == "아홉시"@) && (0 <= i < ts.len() && ts[i].pos == "NNG"@))
}

/// One step of [`p22`] at `i`: the list after it and the next position.
pub open spec fn p22_step(ts: Seq<TokenView>, i: int) -> (Seq<TokenView>, int) {
    if p22_c0(ts, i) {
        (splice(ts, i, 1, seq![plain_view("열"@, "NR"@, ts[i].start_pos, (ts[i].start_pos).saturating_add(1)), plain_view("시"@, "NNB"@, (ts[i].start_pos).saturating_add(1), ts[i].end_pos)]), i + 2)
    } else if p22_c1(ts, i) {
        (splice(ts, i, 1, seq![plain_view("세"@, "NR"@, ts[i].start_pos, (ts[i].start_pos).saturating_add(1)), plain_view("시"@, "NNB"@, (ts[i].start_pos).saturating_add(1), ts[i].end_pos)]), i + 2)
    } else if p22_c2(ts, i) {
        (splice(ts, i, 1, seq![plain_view("한"@, "NR"@, ts[i].start_pos, (ts[i].start_pos).saturating_add(1)), plain_view("시"@, "NNB"@, (ts[i].start_pos).saturating_add(1), ts[i].end_pos)]), i + 2)
    } else if p22_c3(ts, i) {
        (splice(ts, i, 1, seq![plain_view("두"@, "NR"@, ts[i].start_pos, (ts[i].start_pos).saturating_add(1)), plain_view("시"@, "NNB"@, (ts[i].start_pos).saturating_add(1), ts[i].end_pos)]), i + 2)
    } else if p22_c4(ts, i) {
        (splice(ts, i, 1, seq![plain_view("네"@, "NR"@, ts[i].start_pos, (ts[i].start_pos).saturating_add(1)), plain_view("시"@, "NNB"@, (ts[i].start_pos).saturating_add(1), ts[i].end_pos)]), i + 2)
    } else if p22_c5(ts, i) {
        (splice(ts, i, 1, seq![plain_view("다섯"@, "NR"@, ts[i].start_pos, (ts[i].start_pos).saturating_add(2)), plain_view("시"@, "NNB"@, (ts[i].start_pos).saturating_add(2), ts[i].end_pos)]), i + 2)
    } else if p22_c6(ts, i) {
        (splice(ts, i, 1, seq![plain_view("여섯"@, "NR"@, ts[i].start_pos, (ts[i].start_pos).saturating_add(2)), plain_view("시"@, "NNB"@, (ts[i].start_pos).saturating_add(2), ts[i].end_pos)]), i + 2)
    } else if p22_c7(ts, i) {
        (splice(ts, i, 1, seq![plain_view("일곱"@, "NR"@, ts[i].start_pos, (ts[i].start_pos).saturating_add(2)), plain_view("시"@, "NNB"@, (ts[i].start_pos).saturating_add(2), ts[i].end_pos)]), i + 2)
    } else if p22_c8(ts, i) {
        (splice(ts, i, 1, seq![plain_view("여덟"@, "NR"@, ts[i].start_pos, (ts[i].start_pos).saturating_add(2)), plain_view("시"@, "NNB"@, (ts[i].start_pos).saturating_add(2), ts[i].end_pos)]), i + 2)
    } else if p22_c9(ts, i) {
        (splice(ts, i, 1, seq![plain_view("아홉"@, "NR"@, ts[i].start_pos, (ts[i].start_pos).saturating_add(2)), plain_view("시"@, "NNB"@, (ts[i].start_pos).saturating_add(2), ts[i].end_pos)]), i + 2)
    } else {
        (ts, i + 1)
    }
}

/// [`p22_step`] as a function value.
pub open spec fn p22_f() -> spec_fn(Seq<TokenView>, int) -> (Seq<TokenView>, int) {
    |ts: Seq<TokenView>, i: int| p22_step(ts, i)
}

/// An hour analysed as a noun is split into the numeral and 시/NNB (열시/NNG → 열/NR 시/NNB).
pub open spec fn p22(ts: Seq<TokenView>) -> Seq<TokenView> {
    scan(ts, 0, p22_f())
}

/// Whether rule 0 of [`p22`] applies at `i`.
fn p22_c0_exec(tokens: &Vec<SejongToken>, i: usize) -> (r: bool)
    requires
        i < tokens@.len(),
    ensures
        r == p22_c0(tokens_view(tokens@), i as int),
{
    assert(tokens_view(tokens@).len() == tokens@.len());
    let c245 = surf_is(&tokens[i], "열시");
    let c246 = pos_is(&tokens[i], "NNG");
    (c245 && c246)
}

/// Whether rule 1 of [`p22`] applies at `i`.
fn p22_c1_exec(tokens: &Vec<SejongToken>, i: usize) -> (r: bool)
    requires
        i < tokens@.len(),
    ensures
        r == p22_c1(tokens_view(tokens@), i as int),
{
    assert(tokens_view(tokens@).len() == tokens@.len());
    let c247 = surf_is(&tokens[i], "세시");
    let c248 = pos_is(&tokens[i], "NNG");
    (c247 && c248)
}

/// Whether rule 2 of [`p22`] applies at `i`.
fn p22_c2_exec(tokens: &Vec<SejongToken>, i: usize) -> (r: bool)
    requires
        i < tokens@.len(),
    ensures
        r == p22_c2(tokens_view(tokens@), i as int),
{
    assert(tokens_view(tokens@).len() == tokens@.len());
    let c249 = surf_is(&tokens[i], "한시");
    let c250 = pos_is(&tokens[i], "NNG");
    (c249 && c250)
}

/// Whether rule 3 of [`p22`] applies at `i`.
fn p22_c3_exec(tokens: &Vec<SejongToken>, i: usize) -> (r: bool)
    requires
        i < tokens@.len(),
    ensures
        r == p22_c3(tokens_view(tokens@), i as int),
{
    assert(tokens_view(tokens@).len() == tokens@.len());
    let c251 = surf_is(&tokens[i], "두시");
    let c252 = pos_is(&tokens[i], "NNG");
    (c251 && c252)
}

/// Whether rule 4 of [`p22`] applies at `i`.
fn p22_c4_exec(tokens: &Vec<SejongToken>, i: usize) -> (r: bool)
    requires
        i < tokens@.len(),
    ensures
        r == p22_c4(tokens_view(tokens@), i as int),
{
    assert(tokens_view(tokens@).len() == tokens@.len());
    let c253 = surf_is(&tokens[i], "네시");
    let c254 = pos_is(&tokens[i], "NNG");
    (c253 && c254)
}

/// Whether rule 5 of [`p22`] applies at `i`.
fn p22_c5_exec(tokens: &Vec<SejongToken>, i: usize) -> (r: bool)
    requires
        i < tokens@.len(),
    ensures
        r == p22_c5(tokens_view(tokens@), i as int),
{
    assert(tokens_view(tokens@).len() == tokens@.len());
    let c255 = surf_is(&tokens[i], "다섯시");
    let c256 = pos_is(&tokens[i], "NNG");
    (c255 && c256)
}

/// Whether rule 6 of [`p22`] applies at `i`.
fn p22_c6_exec(tokens: &Vec<SejongToken>, i: usize) -> (r: bool)
    requires
        i < tokens@.len(),
    ensures
        r == p22_c6(tokens_view(tokens@), i as int),
{
    assert(tokens_view(tokens@).len() == tokens@.len());
    let c257 = surf_is(&tokens[i], "여섯시");
    let c258 = pos_is(&tokens[i], "NNG");
    (c257 && c258)
}

/// Whether rule 7 of [`p22`] applies at `i`.
fn p22_c7_exec(tokens: &Vec<SejongToken>, i: usize) -> (r: bool)
    requires
        i < tokens@.len(),
    ensures
        r == p22_c7(tokens_view(tokens@), i as int),
{
    assert(tokens_view(tokens@).len() == tokens@.len());
    let c259 = surf_is(&tokens[i], "일곱시");
    let c260 = pos_is(&tokens[i], "NNG");
    (c259 && c260)
}

/// Whether rule 8 of [`p22`] applies at `i`.
fn p22_c8_exec(tokens: &Vec<SejongToken>, i: usize) -> (r: bool)
    requires
        i < tokens@.len(),
    ensures
        r == p22_c8(tokens_view(tokens@), i as int),
{
    assert(tokens_view(tokens@).len() == tokens@.len());
    let c261 = surf_is(&tokens[i], "여덟시");
    let c262 = pos_is(&tokens[i], "NNG");
    (c261 && c262)
}

/// Whether rule 9 of [`p22`] applies at `i`.
fn p22_c9_exec(tokens: &Vec<SejongToken>, i: usize) -> (r: bool)
    requires
        i < tokens@.len(),
    ensures
        r == p22_c9(tokens_view(tokens@), i as int),
{
    assert(tokens_view(tokens@).len() == tokens@.len());
    let c263 = surf_is(&tokens[i], "아홉시");
    let c264 = pos_is(&tokens[i], "NNG");
    (c263 && c264)
}

/// One step of [`p22`] at `i`; returns the next position.
fn p22_step_exec(tokens: &mut Vec<SejongToken>, i: usize) -> (next: usize)
    requires
        i < old(tokens)@.len(),
    ensures
        (tokens_view(final(tokens)@), next as int) == p22_step(tokens_view(old(tokens)@), i as int),
        final(tokens)@.len() - next < old(tokens)@.len() - i,
        next <= final(tokens)@.len() + 1,
{
    let len0 = tokens.len();
    assert(tokens_view(tokens@).len() == tokens@.len());
    if p22_c0_exec(tokens, i) {
        let s266 = owned("열");
        let s267 = owned("NR");
        let n268 = tokens[i].start_pos;
        let n270 = tokens[i].start_pos;
        let n269 = n270.saturating_add(1);
        let t265 = SejongToken::new(s266.as_str(), s267.as_str(), n268, n269);
        let s272 = owned("시");
        let s273 = owned("NNB");
        let n275 = tokens[i].start_pos;
        let n274 = n275.saturating_add(1);
        let n276 = tokens[i].end_pos;
        let t271 = SejongToken::new(s272.as_str(), s273.as_str(), n274, n276);
        let mut nv277: Vec<SejongToken> = Vec::new();
        push_token(&mut nv277, t265);
        push_token(&mut nv277, t271);
        splice_tokens(tokens, i, 1, nv277);
        let _len1 = tokens.len();
        return i + 2;
    }
    if p22_c1_exec(tokens, i) {
        let s279 = owned("세");
        let s280 = owned("NR");
        let n281 = tokens[i].start_pos;
        let n283 = tokens[i].start_pos;
        let n282 = n283.saturating_add(1);
        let t278 = SejongToken::new(s279.as_str(), s280.as_str(), n281, n282);
        let s285 = owned("시");
        let s286 = owned("NNB");
        let n288 = tokens[i].start_pos;
        let n287 = n288.saturating_add(1);
        let n289 = tokens[i].end_pos;
        let t284 = SejongToken::new(s285.as_str(), s286.as_str(), n287, n289);
        let mut nv290: Vec<SejongToken> = Vec::new();
        push_token(&mut nv290, t278);
        push_token(&mut nv290, t284);
        splice_tokens(tokens, i, 1, nv290);
        let _len1 = tokens.len();
        return i + 2;
    }
    if p22_c2_exec(tokens, i) {
        let s292 = owned("한");
        let s293 = owned("NR");
        let n294 = tokens[i].start_pos;
        let n296 = tokens[i].start_pos;
        let n295 = n296.saturating_add(1);
        let t291 = SejongToken::new(s292.as_str(), s293.as_str(), n294, n295);
        let s298 = owned("시");
        let s299 = owned("NNB");
        let n301 = tokens[i].start_pos;
        let n300 = n301.saturating_add(1);
        let n302 = tokens[i].end_pos;
        let t297 = SejongToken::new(s298.as_str(), s299.as_str(), n300, n302);
        let mut nv303: Vec<SejongToken> = Vec::new();
        push_token(&mut nv303, t291);
        push_token(&mut nv303, t297);
        splice_tokens(tokens, i, 1, nv303);
        let _len1 = tokens.len();
        return i + 2;
    }
    if p22_c3_exec(tokens, i) {
        let s305 = owned("두");
        let s306 = owned("NR");
        let n307 = tokens[i].start_pos;
        let n309 = tokens[i].start_pos;
        let n308 = n309.saturating_add(1);
        let t304 = SejongToken::new(s305.as_str(), s306.as_str(), n307, n308);
        let s311 = owned("시");
        let s312 = owned("NNB");
        let n314 = tokens[i].start_pos;
        let n313 = n314.saturating_add(1);
        let n315 = tokens[i].end_pos;
        let t310 = SejongToken::new(s311.as_str(), s312.as_str(), n313, n315);
        let mut nv316: Vec<SejongToken> = Vec::new();
        push_token(&mut nv316, t304);
        push_token(&mut nv316, t310);
        splice_tokens(tokens, i, 1, nv316);
        let _len1 = tokens.len();
        return i + 2;
    }
    if p22_c4_exec(tokens, i) {
        let s318 = owned("네");
        let s319 = owned("NR");
        let n320 = tokens[i].start_pos;
        let n322 = tokens[i].start_pos;
        let n321 = n322.saturating_add(1);
        let t317 = SejongToken::new(s318.as_str(), s319.as_str(), n320, n321);
        let s324 = owned("시");
        let s325 = owned("NNB");
        let n327 = tokens[i].start_pos;
        let n326 = n327.saturating_add(1);
        let n328 = tokens[i].end_pos;
        let t323 = SejongToken::new(s324.as_str(), s325.as_str(), n326, n328);
        let mut nv329: Vec<SejongToken> = Vec::new();
        push_token(&mut nv329, t317);
        push_token(&mut nv329, t323);
        splice_tokens(tokens, i, 1, nv329);
        let _len1 = tokens.len();
        return i + 2;
    }
    if p22_c5_exec(tokens, i) {
        let s331 = owned("다섯");
        let s332 = owned("NR");
        let n333 = tokens[i].start_pos;
        let n335 = tokens[i].start_pos;
        let n334 = n335.saturating_add(2);
        let t330 = SejongToken::new(s331.as_str(), s332.as_str(), n333, n334);
        let s337 = owned("시");
        let s338 = owned("NNB");
        let n340 = tokens[i].start_pos;
        let n339 = n340.saturating_add(2);
        let n341 = tokens[i].end_pos;
        let t336 = SejongToken::new(s337.as_str(), s338.as_str(), n339, n341);
        let mut nv342: Vec<SejongToken> = Vec::new();
        push_token(&mut nv342, t330);
        push_token(&mut nv342, t336);
        splice_tokens(tokens, i, 1, nv342);
        let _len1 = tokens.len();
        return i + 2;
    }
    if p22_c6_exec(tokens, i) {
        let s344 = owned("여섯");
        let s345 = owned("NR");
        let n346 = tokens[i].start_pos;
        let n348 = tokens[i].start_pos;
        let n347 = n348.saturating_add(2);
        let t343 = SejongToken::new(s344.as_str(), s345.as_str(), n346, n347);
        let s350 = owned("시");
        let s351 = owned("NNB");
        let n353 = tokens[i].start_pos;
        let n352 = n353.saturating_add(2);
        let n354 = tokens[i].end_pos;
        let t349 = SejongToken::new(s350.as_str(), s351.as_str(), n352, n354);
        let mut nv355: Vec<SejongToken> = Vec::new();
        push_token(&mut nv355, t343);
        push_token(&mut nv355, t349);
        splice_tokens(tokens, i, 1, nv355);
        let _len1 = tokens.len();
        return i + 2;
    }
    if p22_c7_exec(tokens, i) {
        let s357 = owned("일곱");
        let s358 = owned("NR");
        let n359 = tokens[i].start_pos;
        let n361 = tokens[i].start_pos;
        let n360 = n361.saturating_add(2);
        let t356 = SejongToken::new(s357.as_str(), s358.as_str(), n359, n360);
        let s363 = owned("시");
        let s364 = owned("NNB");
        let n366 = tokens[i].start_pos;
        let n365 = n366.saturating_add(2);
        let n367 = tokens[i].end_pos;
        let t362 = SejongToken::new(s363.as_str(), s364.as_str(), n365, n367);
        let mut nv368: Vec<SejongToken> = Vec::new();
        push_token(&mut nv368, t356);
        push_token(&mut nv368, t362);
        splice_tokens(tokens, i, 1, nv368);
        let _len1 = tokens.len();
        return i + 2;
    }
    if p22_c8_exec(tokens, i) {
        let s370 = owned("여덟");
        let s371 = owned("NR");
        let n372 = tokens[i].start_pos;
        let n374 = tokens[i].start_pos;
        let n373 = n374.saturating_add(2);
        let t369 = SejongToken::new(s370.as_str(), s371.as_str(), n372, n373);
        let s376 = owned("시");
        let s377 = owned("NNB");
        let n379 = tokens[i].start_pos;
        let n378 = n379.saturating_add(2);
        let n380 = tokens[i].end_pos;
        let t375 = SejongToken::new(s376.as_str(), s377.as_str(), n378, n380);
        let mut nv381: Vec<SejongToken> = Vec::new();
        push_token(&mut nv381, t369);
        push_token(&mut nv381, t375);
        splice_tokens(tokens, i, 1, nv381);
        let _len1 = tokens.len();
        return i + 2;
    }
    if p22_c9_exec(tokens, i) {
        let s383 = owned("아홉");
        let s384 = owned("NR");
        let n385 = tokens[i].start_pos;
        let n387 = tokens[i].start_pos;
        let n386 = n387.saturating_add(2);
        let t382 = SejongToken::new(s383.as_str(), s384.as_str(), n385, n386);
        let s389 = owned("시");
        let s390 = owned("NNB");
        let n392 = tokens[i].start_pos;
        let n391 = n392.saturating_add(2);
        let n393 = tokens[i].end_pos;
        let t388 = SejongToken::new(s389.as_str(), s390.as_str(), n391, n393);
        let mut nv394: Vec<SejongToken> = Vec::new();
        push_token(&mut nv394, t382);
        push_token(&mut nv394, t388);
        splice_tokens(tokens, i, 1, nv394);
        let _len1 = tokens.len();
        return i + 2;
    }
    i + 1
}

/// An hour analysed as a noun is split into the numeral and 시/NNB (열시/NNG → 열/NR 시/NNB).
pub fn apply_p22(tokens: &mut Vec<SejongToken>)
    ensures
        tokens_view(final(tokens)@) == p22(tokens_view(old(tokens)@)),
{
    let ghost orig = tokens_view(tokens@);
    let mut i: usize = 0;
    while i < tokens.len()
        invariant
            i <= tokens@.len() + 1,
            scan(tokens_view(tokens@), i as int, p22_f()) == scan(orig, 0, p22_f()),
        decreases tokens@.len() + 1 - i,
    {
        let ghost before = tokens_view(tokens@);
        assert(before.len() == tokens@.len());
        i = p22_step_exec(tokens, i);
        assert(tokens_view(tokens@).len() == tokens@.len());
    }
}

/// Where rule 0 of [`p23`] applies.
pub open spec fn p23_c0(ts: Seq<TokenView>, i: int) -> bool {
    ((0 <= i < ts.len() && ts[i].surface == "그렇다면"@) && (0 <= i < ts.len() && ts[i].pos == "MAJ"@))
}

/// One step of [`p23`] at `i`: the list after it and the next position.
pub open spec fn p23_step(ts: Seq<TokenView>, i: int) -> (Seq<TokenView>, int) {
    if p23_c0(ts, i) {
        (splice(ts, i, 1, seq![plain_view("그렇"@, "VA"@, ts[i].start_pos, (ts[i].start_pos).saturating_add(2)), plain_view("다면"@, "EC"@, (ts[i].start_pos).saturating_add(2), ts[i].end_pos)]), i + 2)
    } else {
        (ts, i + 1)
    }
}

/// [`p23_step`] as a function value.
pub open spec fn p23_f() -> spec_fn(Seq<TokenView>, int) -> (Seq<TokenView>, int) {
    |ts: Seq<TokenView>, i: int| p23_step(ts, i)
}

/// 그렇다면/MAJ is 그렇/VA 다면/EC.
pub open spec fn p23(ts: Seq<TokenView>) -> Seq<TokenView> {
    scan(ts, 0, p23_f())
}

/// Whether rule 0 of [`p23`] applies at `i`.
fn p23_c0_exec(tokens: &Vec<SejongToken>, i: usize) -> (r: bool)
    requires
        i < tokens@.len(),
    ensures
        r == p23_c0(tokens_view(tokens@), i as int),
{
    assert(tokens_view(tokens@).len() == tokens@.len());
    let c395 = surf_is(&tokens[i], "그렇다면");
    let c396 = pos_is(&tokens[i], "MAJ");
    (c395 && c396)
}

/// One step of [`p23`] at `i`; returns the next position.
fn p23_step_exec(tokens: &mut Vec<SejongToken>, i: usize) -> (next: usize)
    requires
        i < old(tokens)@.len(),
    ensures
        (tokens_view(final(tokens)@), next as int) == p23_step(tokens_view(old(tokens)@), i as int),
        final(tokens)@.len() - next < old(tokens)@.len() - i,
        next <= final(tokens)@.len() + 1,
{
    let len0 = tokens.len();
    assert(tokens_view(tokens@).len() == tokens@.len());
    if p23_c0_exec(tokens, i) {
        let s398 = owned("그렇");
        let s399 = owned("VA");
        let n400 = tokens[i].start_pos;
        let n402 = tokens[i].start_pos;
        let n401 = n402.saturating_add(2);
        let t397 = SejongToken::new(s398.as_str(), s399.as_str(), n400, n401);
        let s404 = owned("다면");
        let s405 = owned("EC");
        let n407 = tokens[i].start_pos;
        let n406 = n407.saturating_add(2);
        let n408 = tokens[i].end_pos;
        let t403 = SejongToken::new(s404.as_str(), s405.as_str(), n406, n408);
        let mut nv409: Vec<SejongToken> = Vec::new();
        push_token(&mut nv409, t397);
        push_token(&mut nv409, t403);
        splice_tokens(tokens, i, 1, nv409);
        let _len1 = tokens.len();
        return i + 2;
    }
    i + 1
}

/// 그렇다면/MAJ is 그렇/VA 다면/EC.
pub fn apply_p23(tokens: &mut Vec<SejongToken>)
    ensures
        tokens_view(final(tokens)@) == p23(tokens_view(old(tokens)@)),
{
    let ghost orig = tokens_view(tokens@);
    let mut i: usize = 0;
    while i < tokens.len()
        invariant
            i <= tokens@.len() + 1,
            scan(tokens_view(tokens@), i as int, p23_f()) == scan(orig, 0, p23_f()),
        decreases tokens@.len() + 1 - i,
    {
        let ghost before = tokens_view(tokens@);
        assert(before.len() == tokens@.len());
        i = p23_step_exec(tokens, i);
        assert(tokens_view(tokens@).len() == tokens@.len());
    }
}

/// Particles and endings after nouns and verbs.
pub open spec fn spec_apply_particle_and_ending_corrections(ts: Seq<TokenView>) -> Seq<TokenView> {
    p23(p22(p21(p20(p19(p18(p17(p16(p15(p14(p13(p12(p11(p9(p8(p7(p5(p4b(p4(p3(p2(p1(ts))))))))))))))))))))))
}

/// Particles and endings after nouns and verbs.
pub fn apply_particle_and_ending_corrections(tokens: &mut Vec<SejongToken>)
    ensures
        tokens_view(final(tokens)@) == spec_apply_particle_and_ending_corrections(tokens_view(old(tokens)@)),
{
    apply_p1(tokens);
    apply_p2(tokens);
    apply_p3(tokens);
    apply_p4(tokens);
    apply_p4b(tokens);
    apply_p5(tokens);
    apply_p7(tokens);
    apply_p8(tokens);
    apply_p9(tokens);
    apply_p11(tokens);
    apply_p12(tokens);
    apply_p13(tokens);
    apply_p14(tokens);
    apply_p15(tokens);
    apply_p16(tokens);
    apply_p17(tokens);
    apply_p18(tokens);
    apply_p19(tokens);
    apply_p20(tokens);
    apply_p21(tokens);
    apply_p22(tokens);
    apply_p23(tokens);
}

} // verus!
