//! Tags of single tokens reclassified.

use vstd::prelude::*;
use crate::converter::tokens_view;
use crate::rewrite::{in_list, map_where, pos_is, push_token, surf_is};
use crate::text::owned;
use crate::types::{SejongToken, TokenView};

verus! {

/// Where [`p207`] changes a token.
pub open spec fn p207_c(ts: Seq<TokenView>, i: int) -> bool {
    ((0 <= i < ts.len() && seq!["MAG"@, "VV"@].contains(ts[i].pos)) && (0 <= i < ts.len() && seq!["요즘"@, "진짜"@].contains(ts[i].surface)))
}

/// The token [`p207`] puts at `i`.
pub open spec fn p207_t(ts: Seq<TokenView>, i: int) -> TokenView {
    TokenView { pos: "NNG"@, ..ts[i] }
}

/// 요즘 and 진짜 analysed as adverbs or verbs are nouns.
pub open spec fn p207(ts: Seq<TokenView>) -> Seq<TokenView> {
    map_where(ts, |ts: Seq<TokenView>, i: int| p207_c(ts, i), |ts: Seq<TokenView>, i: int| p207_t(ts, i))
}

/// Whether [`p207`] changes the token at `i`.
fn p207_c_exec(tokens: &Vec<SejongToken>, i: usize) -> (r: bool)
    requires
        i < tokens@.len(),
    ensures
        r == p207_c(tokens_view(tokens@), i as int),
{
    assert(tokens_view(tokens@).len() == tokens@.len());
    let l321: [&str; 2] = ["MAG", "VV"];
    assert(crate::tag_map::strs_view(l321@) =~= seq!["MAG"@, "VV"@]);
    let c320 = in_list(&l321, tokens[i].pos.as_str());
    let l323: [&str; 2] = ["요즘", "진짜"];
    assert(crate::tag_map::strs_view(l323@) =~= seq!["요즘"@, "진짜"@]);
    let c322 = in_list(&l323, tokens[i].surface.as_str());
    (c320 && c322)
}

/// The token [`p207`] puts at `i`.
fn p207_t_exec(tokens: &Vec<SejongToken>, i: usize) -> (t: SejongToken)
    requires
        i < tokens@.len(),
        p207_c(tokens_view(tokens@), i as int),
    ensures
        t@ == p207_t(tokens_view(tokens@), i as int),
{
    assert(tokens_view(tokens@).len() == tokens@.len());
    let s325 = owned("NNG");
    let mut t324 = tokens[i].duplicate();
    t324.pos = s325;
    t324
}

/// 요즘 and 진짜 analysed as adverbs or verbs are nouns.
pub fn apply_p207(tokens: &mut Vec<SejongToken>)
    ensures
        tokens_view(final(tokens)@) == p207(tokens_view(old(tokens)@)),
{
    let ghost orig = tokens_view(tokens@);
    let mut out: Vec<SejongToken> = Vec::new();
    let mut k: usize = 0;
    while k < tokens.len()
        invariant
            k <= tokens@.len(),
            orig == tokens_view(tokens@),
            tokens_view(out@) == p207(orig).take(k as int),
        decreases tokens@.len() - k,
    {
        let t = if p207_c_exec(tokens, k) { p207_t_exec(tokens, k) } else { tokens[k].duplicate() };
        push_token(&mut out, t);
        k += 1;
        assert(tokens_view(out@) =~= p207(orig).take(k as int));
    }
    assert(p207(orig).take(k as int) =~= p207(orig));
    *tokens = out;
}

/// Where [`p208`] changes a token.
pub open spec fn p208_c(ts: Seq<TokenView>, i: int) -> bool {
    ((0 <= i < ts.len() && ts[i].pos == "NNP"@) && (0 <= i < ts.len() && seq!["외교부"@, "국방부"@, "통일부"@, "교육부"@, "행정부"@, "대통령실"@].contains(ts[i].surface)))
}

/// The token [`p208`] puts at `i`.
pub open spec fn p208_t(ts: Seq<TokenView>, i: int) -> TokenView {
    TokenView { pos: "NNG"@, ..ts[i] }
}

/// Names of government bodies are common nouns.
pub open spec fn p208(ts: Seq<TokenView>) -> Seq<TokenView> {
    map_where(ts, |ts: Seq<TokenView>, i: int| p208_c(ts, i), |ts: Seq<TokenView>, i: int| p208_t(ts, i))
}

/// Whether [`p208`] changes the token at `i`.
fn p208_c_exec(tokens: &Vec<SejongToken>, i: usize) -> (r: bool)
    requires
        i < tokens@.len(),
    ensures
        r == p208_c(tokens_view(tokens@), i as int),
{
    assert(tokens_view(tokens@).len() == tokens@.len());
    let c326 = pos_is(&tokens[i], "NNP");
    let l328: [&str; 6] = ["외교부", "국방부", "통일부", "교육부", "행정부", "대통령실"];
    assert(crate::tag_map::strs_view(l328@) =~= seq!["외교부"@, "국방부"@, "통일부"@, "교육부"@, "행정부"@, "대통령실"@]);
    let c327 = in_list(&l328, tokens[i].surface.as_str());
    (c326 && c327)
}

/// The token [`p208`] puts at `i`.
fn p208_t_exec(tokens: &Vec<SejongToken>, i: usize) -> (t: SejongToken)
    requires
        i < tokens@.len(),
        p208_c(tokens_view(tokens@), i as int),
    ensures
        t@ == p208_t(tokens_view(tokens@), i as int),
{
    assert(tokens_view(tokens@).len() == tokens@.len());
    let s330 = owned("NNG");
    let mut t329 = tokens[i].duplicate();
    t329.pos = s330;
    t329
}

/// Names of government bodies are common nouns.
pub fn apply_p208(tokens: &mut Vec<SejongToken>)
    ensures
        tokens_view(final(tokens)@) == p208(tokens_view(old(tokens)@)),
{
    let ghost orig = tokens_view(tokens@);
    let mut out: Vec<SejongToken> = Vec::new();
    let mut k: usize = 0;
    while k < tokens.len()
        invariant
            k <= tokens@.len(),
            orig == tokens_view(tokens@),
            tokens_view(out@) == p208(orig).take(k as int),
        decreases tokens@.len() - k,
    {
        let t = if p208_c_exec(tokens, k) { p208_t_exec(tokens, k) } else { tokens[k].duplicate() };
        push_token(&mut out, t);
        k += 1;
        assert(tokens_view(out@) =~= p208(orig).take(k as int));
    }
    assert(p208(orig).take(k as int) =~= p208(orig));
    *tokens = out;
}

/// Where [`p248`] changes a token.
pub open spec fn p248_c(ts: Seq<TokenView>, i: int) -> bool {
    ((0 <= i < ts.len() && ts[i].pos == "NNP"@) && (0 <= i < ts.len() && seq!["프레임워크"@, "리팩토링"@, "알고리즘"@, "커버리지"@, "아키텍처"@, "머신러닝"@, "컨테이너"@, "인터페이스"@, "데이터베이스"@, "서버"@, "클라이언트"@, "프로토콜"@, "레이어"@, "모듈"@, "컴포넌트"@].contains(ts[i].surface)))
}

/// The token [`p248`] puts at `i`.
pub open spec fn p248_t(ts: Seq<TokenView>, i: int) -> TokenView {
    TokenView { pos: "NNG"@, ..ts[i] }
}

/// Loanwords analysed as proper nouns are common nouns.
pub open spec fn p248(ts: Seq<TokenView>) -> Seq<TokenView> {
    map_where(ts, |ts: Seq<TokenView>, i: int| p248_c(ts, i), |ts: Seq<TokenView>, i: int| p248_t(ts, i))
}

/// Whether [`p248`] changes the token at `i`.
fn p248_c_exec(tokens: &Vec<SejongToken>, i: usize) -> (r: bool)
    requires
        i < tokens@.len(),
    ensures
        r == p248_c(tokens_view(tokens@), i as int),
{
    assert(tokens_view(tokens@).len() == tokens@.len());
    let c331 = pos_is(&tokens[i], "NNP");
    let l333: [&str; 15] = ["프레임워크", "리팩토링", "알고리즘", "커버리지", "아키텍처", "머신러닝", "컨테이너", "인터페이스", "데이터베이스", "서버", "클라이언트", "프로토콜", "레이어", "모듈", "컴포넌트"];
    assert(crate::tag_map::strs_view(l333@) =~= seq!["프레임워크"@, "리팩토링"@, "알고리즘"@, "커버리지"@, "아키텍처"@, "머신러닝"@, "컨테이너"@, "인터페이스"@, "데이터베이스"@, "서버"@, "클라이언트"@, "프로토콜"@, "레이어"@, "모듈"@, "컴포넌트"@]);
    let c332 = in_list(&l333, tokens[i].surface.as_str());
    (c331 && c332)
}

/// The token [`p248`] puts at `i`.
fn p248_t_exec(tokens: &Vec<SejongToken>, i: usize) -> (t: SejongToken)
    requires
        i < tokens@.len(),
        p248_c(tokens_view(tokens@), i as int),
    ensures
        t@ == p248_t(tokens_view(tokens@), i as int),
{
    assert(tokens_view(tokens@).len() == tokens@.len());
    let s335 = owned("NNG");
    let mut t334 = tokens[i].duplicate();
    t334.pos = s335;
    t334
}

/// Loanwords analysed as proper nouns are common nouns.
pub fn apply_p248(tokens: &mut Vec<SejongToken>)
    ensures
        tokens_view(final(tokens)@) == p248(tokens_view(old(tokens)@)),
{
    let ghost orig = tokens_view(tokens@);
    let mut out: Vec<SejongToken> = Vec::new();
    let mut k: usize = 0;
    while k < tokens.len()
        invariant
            k <= tokens@.len(),
            orig == tokens_view(tokens@),
            tokens_view(out@) == p248(orig).take(k as int),
        decreases tokens@.len() - k,
    {
        let t = if p248_c_exec(tokens, k) { p248_t_exec(tokens, k) } else { tokens[k].duplicate() };
        push_token(&mut out, t);
        k += 1;
        assert(tokens_view(out@) =~= p248(orig).take(k as int));
    }
    assert(p248(orig).take(k as int) =~= p248(orig));
    *tokens = out;
}

/// Where [`p252`] changes a token.
pub open spec fn p252_c(ts: Seq<TokenView>, i: int) -> bool {
    ((0 <= i < ts.len() && ts[i].pos == "NNP"@) && (0 <= i < ts.len() && seq!["킹"@].contains(ts[i].surface)))
}

/// The token [`p252`] puts at `i`.
pub open spec fn p252_t(ts: Seq<TokenView>, i: int) -> TokenView {
    TokenView { pos: "NNG"@, ..ts[i] }
}

/// The slang prefix 킹 is a common noun.
pub open spec fn p252(ts: Seq<TokenView>) -> Seq<TokenView> {
    map_where(ts, |ts: Seq<TokenView>, i: int| p252_c(ts, i), |ts: Seq<TokenView>, i: int| p252_t(ts, i))
}

/// Whether [`p252`] changes the token at `i`.
fn p252_c_exec(tokens: &Vec<SejongToken>, i: usize) -> (r: bool)
    requires
        i < tokens@.len(),
    ensures
        r == p252_c(tokens_view(tokens@), i as int),
{
    assert(tokens_view(tokens@).len() == tokens@.len());
    let c336 = pos_is(&tokens[i], "NNP");
    let l338: [&str; 1] = ["킹"];
    assert(crate::tag_map::strs_view(l338@) =~= seq!["킹"@]);
    let c337 = in_list(&l338, tokens[i].surface.as_str());
    (c336 && c337)
}

/// The token [`p252`] puts at `i`.
fn p252_t_exec(tokens: &Vec<SejongToken>, i: usize) -> (t: SejongToken)
    requires
        i < tokens@.len(),
        p252_c(tokens_view(tokens@), i as int),
    ensures
        t@ == p252_t(tokens_view(tokens@), i as int),
{
    assert(tokens_view(tokens@).len() == tokens@.len());
    let s340 = owned("NNG");
    let mut t339 = tokens[i].duplicate();
    t339.pos = s340;
    t339
}

/// The slang prefix 킹 is a common noun.
pub fn apply_p252(tokens: &mut Vec<SejongToken>)
    ensures
        tokens_view(final(tokens)@) == p252(tokens_view(old(tokens)@)),
{
    let ghost orig = tokens_view(tokens@);
    let mut out: Vec<SejongToken> = Vec::new();
    let mut k: usize = 0;
    while k < tokens.len()
        invariant
            k <= tokens@.len(),
            orig == tokens_view(tokens@),
            tokens_view(out@) == p252(orig).take(k as int),
        decreases tokens@.len() - k,
    {
        let t = if p252_c_exec(tokens, k) { p252_t_exec(tokens, k) } else { tokens[k].duplicate() };
        push_token(&mut out, t);
        k += 1;
        assert(tokens_view(out@) =~= p252(orig).take(k as int));
    }
    assert(p252(orig).take(k as int) =~= p252(orig));
    *tokens = out;
}

/// Where [`p253`] changes a token.
pub open spec fn p253_c(ts: Seq<TokenView>, i: int) -> bool {
    ((0 <= i < ts.len() && ts[i].pos == "NNG"@) && (0 <= i < ts.len() && seq!["야옹"@].contains(ts[i].surface)))
}

/// The token [`p253`] puts at `i`.
pub open spec fn p253_t(ts: Seq<TokenView>, i: int) -> TokenView {
    TokenView { pos: "IC"@, ..ts[i] }
}

/// The onomatopoeia 야옹 is an interjection.
pub open spec fn p253(ts: Seq<TokenView>) -> Seq<TokenView> {
    map_where(ts, |ts: Seq<TokenView>, i: int| p253_c(ts, i), |ts: Seq<TokenView>, i: int| p253_t(ts, i))
}

/// Whether [`p253`] changes the token at `i`.
fn p253_c_exec(tokens: &Vec<SejongToken>, i: usize) -> (r: bool)
    requires
        i < tokens@.len(),
    ensures
        r == p253_c(tokens_view(tokens@), i as int),
{
    assert(tokens_view(tokens@).len() == tokens@.len());
    let c341 = pos_is(&tokens[i], "NNG");
    let l343: [&str; 1] = ["야옹"];
    assert(crate::tag_map::strs_view(l343@) =~= seq!["야옹"@]);
    let c342 = in_list(&l343, tokens[i].surface.as_str());
    (c341 && c342)
}

/// The token [`p253`] puts at `i`.
fn p253_t_exec(tokens: &Vec<SejongToken>, i: usize) -> (t: SejongToken)
    requires
        i < tokens@.len(),
        p253_c(tokens_view(tokens@), i as int),
    ensures
        t@ == p253_t(tokens_view(tokens@), i as int),
{
    assert(tokens_view(tokens@).len() == tokens@.len());
    let s345 = owned("IC");
    let mut t344 = tokens[i].duplicate();
    t344.pos = s345;
    t344
}

/// The onomatopoeia 야옹 is an interjection.
pub fn apply_p253(tokens: &mut Vec<SejongToken>)
    ensures
        tokens_view(final(tokens)@) == p253(tokens_view(old(tokens)@)),
{
    let ghost orig = tokens_view(tokens@);
    let mut out: Vec<SejongToken> = Vec::new();
    let mut k: usize = 0;
    while k < tokens.len()
        invariant
            k <= tokens@.len(),
            orig == tokens_view(tokens@),
            tokens_view(out@) == p253(orig).take(k as int),
        decreases tokens@.len() - k,
    {
        let t = if p253_c_exec(tokens, k) { p253_t_exec(tokens, k) } else { tokens[k].duplicate() };
        push_token(&mut out, t);
        k += 1;
        assert(tokens_view(out@) =~= p253(orig).take(k as int));
    }
    assert(p253(orig).take(k as int) =~= p253(orig));
    *tokens = out;
}

/// Where [`p254`] changes a token.
pub open spec fn p254_c(ts: Seq<TokenView>, i: int) -> bool {
    ((0 <= i < ts.len() && ts[i].surface == "ㅓ요"@) && (0 <= i < ts.len() && ts[i].pos == "EF"@))
}

/// The token [`p254`] puts at `i`.
pub open spec fn p254_t(ts: Seq<TokenView>, i: int) -> TokenView {
    TokenView { surface: "어요"@, ..ts[i] }
}

/// The ending ㅓ요/EF is written 어요.
pub open spec fn p254(ts: Seq<TokenView>) -> Seq<TokenView> {
    map_where(ts, |ts: Seq<TokenView>, i: int| p254_c(ts, i), |ts: Seq<TokenView>, i: int| p254_t(ts, i))
}

/// Whether [`p254`] changes the token at `i`.
fn p254_c_exec(tokens: &Vec<SejongToken>, i: usize) -> (r: bool)
    requires
        i < tokens@.len(),
    ensures
        r == p254_c(tokens_view(tokens@), i as int),
{
    assert(tokens_view(tokens@).len() == tokens@.len());
    let c346 = surf_is(&tokens[i], "ㅓ요");
    let c347 = pos_is(&tokens[i], "EF");
    (c346 && c347)
}

/// The token [`p254`] puts at `i`.
fn p254_t_exec(tokens: &Vec<SejongToken>, i: usize) -> (t: SejongToken)
    requires
        i < tokens@.len(),
        p254_c(tokens_view(tokens@), i as int),
    ensures
        t@ == p254_t(tokens_view(tokens@), i as int),
{
    assert(tokens_view(tokens@).len() == tokens@.len());
    let s349 = owned("어요");
    let mut t348 = tokens[i].duplicate();
    t348.surface = s349;
    t348
}

/// The ending ㅓ요/EF is written 어요.
pub fn apply_p254(tokens: &mut Vec<SejongToken>)
    ensures
        tokens_view(final(tokens)@) == p254(tokens_view(old(tokens)@)),
{
    let ghost orig = tokens_view(tokens@);
    let mut out: Vec<SejongToken> = Vec::new();
    let mut k: usize = 0;
    while k < tokens.len()
        invariant
            k <= tokens@.len(),
            orig == tokens_view(tokens@),
            tokens_view(out@) == p254(orig).take(k as int),
        decreases tokens@.len() - k,
    {
        let t = if p254_c_exec(tokens, k) { p254_t_exec(tokens, k) } else { tokens[k].duplicate() };
        push_token(&mut out, t);
        k += 1;
        assert(tokens_view(out@) =~= p254(orig).take(k as int));
    }
    assert(p254(orig).take(k as int) =~= p254(orig));
    *tokens = out;
}

/// Where [`p256`] changes a token.
pub open spec fn p256_c(ts: Seq<TokenView>, i: int) -> bool {
    ((0 <= i < ts.len() && ts[i].pos == "VV"@) && (0 <= i < ts.len() && seq!["졸리"@].contains(ts[i].surface)))
}

/// The token [`p256`] puts at `i`.
pub open spec fn p256_t(ts: Seq<TokenView>, i: int) -> TokenView {
    TokenView { pos: "VA"@, ..ts[i] }
}

/// 졸리 is an adjective.
pub open spec fn p256(ts: Seq<TokenView>) -> Seq<TokenView> {
    map_where(ts, |ts: Seq<TokenView>, i: int| p256_c(ts, i), |ts: Seq<TokenView>, i: int| p256_t(ts, i))
}

/// Whether [`p256`] changes the token at `i`.
fn p256_c_exec(tokens: &Vec<SejongToken>, i: usize) -> (r: bool)
    requires
        i < tokens@.len(),
    ensures
        r == p256_c(tokens_view(tokens@), i as int),
{
    assert(tokens_view(tokens@).len() == tokens@.len());
    let c350 = pos_is(&tokens[i], "VV");
    let l352: [&str; 1] = ["졸리"];
    assert(crate::tag_map::strs_view(l352@) =~= seq!["졸리"@]);
    let c351 = in_list(&l352, tokens[i].surface.as_str());
    (c350 && c351)
}

/// The token [`p256`] puts at `i`.
fn p256_t_exec(tokens: &Vec<SejongToken>, i: usize) -> (t: SejongToken)
    requires
        i < tokens@.len(),
        p256_c(tokens_view(tokens@), i as int),
    ensures
        t@ == p256_t(tokens_view(tokens@), i as int),
{
    assert(tokens_view(tokens@).len() == tokens@.len());
    let s354 = owned("VA");
    let mut t353 = tokens[i].duplicate();
    t353.pos = s354;
    t353
}

/// 졸리 is an adjective.
pub fn apply_p256(tokens: &mut Vec<SejongToken>)
    ensures
        tokens_view(final(tokens)@) == p256(tokens_view(old(tokens)@)),
{
    let ghost orig = tokens_view(tokens@);
    let mut out: Vec<SejongToken> = Vec::new();
    let mut k: usize = 0;
    while k < tokens.len()
        invariant
            k <= tokens@.len(),
            orig == tokens_view(tokens@),
            tokens_view(out@) == p256(orig).take(k as int),
        decreases tokens@.len() - k,
    {
        let t = if p256_c_exec(tokens, k) { p256_t_exec(tokens, k) } else { tokens[k].duplicate() };
        push_token(&mut out, t);
        k += 1;
        assert(tokens_view(out@) =~= p256(orig).take(k as int));
    }
    assert(p256(orig).take(k as int) =~= p256(orig));
    *tokens = out;
}

/// Tags of single tokens reclassified.
pub open spec fn spec_apply_pos_reclassification_corrections(ts: Seq<TokenView>) -> Seq<TokenView> {
    p256(p254(p253(p252(p248(p208(p207(ts)))))))
}

/// Tags of single tokens reclassified.
pub fn apply_pos_reclassification_corrections(tokens: &mut Vec<SejongToken>)
    ensures
        tokens_view(final(tokens)@) == spec_apply_pos_reclassification_corrections(tokens_view(old(tokens)@)),
{
    apply_p207(tokens);
    apply_p208(tokens);
    apply_p248(tokens);
    apply_p252(tokens);
    apply_p253(tokens);
    apply_p254(tokens);
    apply_p256(tokens);
}

} // verus!
