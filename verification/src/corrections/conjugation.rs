//! Corrections of verb and adjective conjugation.

use vstd::prelude::*;
use crate::converter::tokens_view;
use crate::rewrite::{in_list, map_where, pos_is, push_token, scan, splice, splice_tokens, surf_is, surf_starts};
use crate::text::{concat, is_prefix, owned};
use crate::types::{plain_view, SejongToken, TokenView};

verus! {

/// Where [`p174`] changes a token.
pub open spec fn p174_c(ts: Seq<TokenView>, i: int) -> bool {
    (((0 <= i < ts.len() && ts[i].surface == "하"@) && (0 <= i < ts.len() && ts[i].pos == "XSV"@)) && (0 <= i - 1 < ts.len() && seq!["미안"@, "심심"@, "피곤"@, "건강"@, "조용"@, "깨끗"@, "더럽"@, "시끄럽"@, "행복"@, "불행"@, "편안"@, "불편"@, "따뜻"@, "차가움"@, "친절"@, "불친절"@, "정확"@, "부정확"@, "명확"@, "불명확"@, "솔직"@, "불성실"@, "성실"@, "유명"@, "무명"@, "다양"@, "단순"@, "복잡"@, "간단"@, "적합"@, "부적합"@].contains(ts[i - 1].surface)))
}

/// The token [`p174`] puts at `i`.
pub open spec fn p174_t(ts: Seq<TokenView>, i: int) -> TokenView {
    TokenView { pos: "XSA"@, ..ts[i] }
}

/// 하/XSV after an adjectival root is the adjective suffix 하/XSA (미안/NNG 하/XSA).
pub open spec fn p174(ts: Seq<TokenView>) -> Seq<TokenView> {
    map_where(ts, |ts: Seq<TokenView>, i: int| p174_c(ts, i), |ts: Seq<TokenView>, i: int| p174_t(ts, i))
}

/// Whether [`p174`] changes the token at `i`.
fn p174_c_exec(tokens: &Vec<SejongToken>, i: usize) -> (r: bool)
    requires
        i < tokens@.len(),
    ensures
        r == p174_c(tokens_view(tokens@), i as int),
{
    assert(tokens_view(tokens@).len() == tokens@.len());
    let c0 = surf_is(&tokens[i], "하");
    let c1 = pos_is(&tokens[i], "XSV");
    let l3: [&str; 31] = ["미안", "심심", "피곤", "건강", "조용", "깨끗", "더럽", "시끄럽", "행복", "불행", "편안", "불편", "따뜻", "차가움", "친절", "불친절", "정확", "부정확", "명확", "불명확", "솔직", "불성실", "성실", "유명", "무명", "다양", "단순", "복잡", "간단", "적합", "부적합"];
    assert(crate::tag_map::strs_view(l3@) =~= seq!["미안"@, "심심"@, "피곤"@, "건강"@, "조용"@, "깨끗"@, "더럽"@, "시끄럽"@, "행복"@, "불행"@, "편안"@, "불편"@, "따뜻"@, "차가움"@, "친절"@, "불친절"@, "정확"@, "부정확"@, "명확"@, "불명확"@, "솔직"@, "불성실"@, "성실"@, "유명"@, "무명"@, "다양"@, "단순"@, "복잡"@, "간단"@, "적합"@, "부적합"@]);
    let c2 = (i >= 1) && in_list(&l3, tokens[i - 1].surface.as_str());
    ((c0 && c1) && c2)
}

/// The token [`p174`] puts at `i`.
fn p174_t_exec(tokens: &Vec<SejongToken>, i: usize) -> (t: SejongToken)
    requires
        i < tokens@.len(),
        p174_c(tokens_view(tokens@), i as int),
    ensures
        t@ == p174_t(tokens_view(tokens@), i as int),
{
    assert(tokens_view(tokens@).len() == tokens@.len());
    let s5 = owned("XSA");
    let mut t4 = tokens[i].duplicate();
    t4.pos = s5;
    t4
}

/// 하/XSV after an adjectival root is the adjective suffix 하/XSA (미안/NNG 하/XSA).
pub fn apply_p174(tokens: &mut Vec<SejongToken>)
    ensures
        tokens_view(final(tokens)@) == p174(tokens_view(old(tokens)@)),
{
    let ghost orig = tokens_view(tokens@);
    let mut out: Vec<SejongToken> = Vec::new();
    let mut k: usize = 0;
    while k < tokens.len()
        invariant
            k <= tokens@.len(),
            orig == tokens_view(tokens@),
            tokens_view(out@) == p174(orig).take(k as int),
        decreases tokens@.len() - k,
    {
        let t = if p174_c_exec(tokens, k) { p174_t_exec(tokens, k) } else { tokens[k].duplicate() };
        push_token(&mut out, t);
        k += 1;
        assert(tokens_view(out@) =~= p174(orig).take(k as int));
    }
    assert(p174(orig).take(k as int) =~= p174(orig));
    *tokens = out;
}

/// Where rule 0 of [`p226`] applies.
pub open spec fn p226_c0(ts: Seq<TokenView>, i: int) -> bool {
    (((0 <= i < ts.len() && ts[i].surface == "목"@) && (0 <= i < ts.len() && ts[i].pos == "NNG"@)) && (0 <= i + 1 < ts.len() && is_prefix("마르"@, ts[i + 1].surface)) && (0 <= i + 1 < ts.len() && ts[i + 1].pos == "VV"@))
}

/// One step of [`p226`] at `i`: the list after it and the next position.
pub open spec fn p226_step(ts: Seq<TokenView>, i: int) -> (Seq<TokenView>, int) {
    if p226_c0(ts, i) {
        (splice(ts, i, 2, seq![plain_view(("목"@ + ts[i + 1].surface), "VA"@, ts[i].start_pos, ts[i + 1].end_pos)]), i + 1)
    } else {
        (ts, i + 1)
    }
}

/// [`p226_step`] as a function value.
pub open spec fn p226_f() -> spec_fn(Seq<TokenView>, int) -> (Seq<TokenView>, int) {
    |ts: Seq<TokenView>, i: int| p226_step(ts, i)
}

/// 목/NNG before a form of 마르/VV is one adjective (목마르/VA).
pub open spec fn p226(ts: Seq<TokenView>) -> Seq<TokenView> {
    scan(ts, 0, p226_f())
}

/// Whether rule 0 of [`p226`] applies at `i`.
fn p226_c0_exec(tokens: &Vec<SejongToken>, i: usize) -> (r: bool)
    requires
        i < tokens@.len(),
    ensures
        r == p226_c0(tokens_view(tokens@), i as int),
{
    assert(tokens_view(tokens@).len() == tokens@.len());
    let c6 = surf_is(&tokens[i], "목");
    let c7 = pos_is(&tokens[i], "NNG");
    let c8 = (tokens.len() - i > 1) && surf_starts(&tokens[i + 1], "마르");
    let c9 = (tokens.len() - i > 1) && pos_is(&tokens[i + 1], "VV");
    ((c6 && c7) && c8 && c9)
}

/// One step of [`p226`] at `i`; returns the next position.
fn p226_step_exec(tokens: &mut Vec<SejongToken>, i: usize) -> (next: usize)
    requires
        i < old(tokens)@.len(),
    ensures
        (tokens_view(final(tokens)@), next as int) == p226_step(tokens_view(old(tokens)@), i as int),
        final(tokens)@.len() - next < old(tokens)@.len() - i,
        next <= final(tokens)@.len() + 1,
{
    let len0 = tokens.len();
    assert(tokens_view(tokens@).len() == tokens@.len());
    if p226_c0_exec(tokens, i) {
        let s12 = owned("목");
        let s13 = tokens[i + 1].surface.clone();
        let s11 = concat(s12.as_str(), s13.as_str());
        let s14 = owned("VA");
        let n15 = tokens[i].start_pos;
        let n16 = tokens[i + 1].end_pos;
        let t10 = SejongToken::new(s11.as_str(), s14.as_str(), n15, n16);
        let mut nv17: Vec<SejongToken> = Vec::new();
        push_token(&mut nv17, t10);
        splice_tokens(tokens, i, 2, nv17);
        let _len1 = tokens.len();
        return i + 1;
    }
    i + 1
}

/// 목/NNG before a form of 마르/VV is one adjective (목마르/VA).
pub fn apply_p226(tokens: &mut Vec<SejongToken>)
    ensures
        tokens_view(final(tokens)@) == p226(tokens_view(old(tokens)@)),
{
    let ghost orig = tokens_view(tokens@);
    let mut i: usize = 0;
    while i < tokens.len()
        invariant
            i <= tokens@.len() + 1,
            scan(tokens_view(tokens@), i as int, p226_f()) == scan(orig, 0, p226_f()),
        decreases tokens@.len() + 1 - i,
    {
        let ghost before = tokens_view(tokens@);
        assert(before.len() == tokens@.len());
        i = p226_step_exec(tokens, i);
        assert(tokens_view(tokens@).len() == tokens@.len());
    }
}

/// Where rule 0 of [`p215`] applies.
pub open spec fn p215_c0(ts: Seq<TokenView>, i: int) -> bool {
    ((0 <= i < ts.len() && ts[i].pos == "NNG"@) && (0 <= i + 1 < ts.len() && ts[i + 1].surface == "하"@) && ((0 <= i + 1 < ts.len() && ts[i + 1].pos == "XSA"@) || (0 <= i + 1 < ts.len() && ts[i + 1].pos == "XSV"@)) && (0 <= i < ts.len() && seq!["미안"@, "심심"@].contains(ts[i].surface)))
}

/// One step of [`p215`] at `i`: the list after it and the next position.
pub open spec fn p215_step(ts: Seq<TokenView>, i: int) -> (Seq<TokenView>, int) {
    if p215_c0(ts, i) {
        (splice(ts, i, 2, seq![plain_view((ts[i].surface + "하"@), "VA"@, ts[i].start_pos, ts[i + 1].end_pos)]), i + 1)
    } else {
        (ts, i + 1)
    }
}

/// [`p215_step`] as a function value.
pub open spec fn p215_f() -> spec_fn(Seq<TokenView>, int) -> (Seq<TokenView>, int) {
    |ts: Seq<TokenView>, i: int| p215_step(ts, i)
}

/// 미안 or 심심 with 하/XSA or 하/XSV is one adjective (미안하/VA).
pub open spec fn p215(ts: Seq<TokenView>) -> Seq<TokenView> {
    scan(ts, 0, p215_f())
}

/// Whether rule 0 of [`p215`] applies at `i`.
fn p215_c0_exec(tokens: &Vec<SejongToken>, i: usize) -> (r: bool)
    requires
        i < tokens@.len(),
    ensures
        r == p215_c0(tokens_view(tokens@), i as int),
{
    assert(tokens_view(tokens@).len() == tokens@.len());
    let c18 = pos_is(&tokens[i], "NNG");
    let c19 = (tokens.len() - i > 1) && surf_is(&tokens[i + 1], "하");
    let c20 = (tokens.len() - i > 1) && pos_is(&tokens[i + 1], "XSA");
    let c21 = (tokens.len() - i > 1) && pos_is(&tokens[i + 1], "XSV");
    let l23: [&str; 2] = ["미안", "심심"];
    assert(crate::tag_map::strs_view(l23@) =~= seq!["미안"@, "심심"@]);
    let c22 = in_list(&l23, tokens[i].surface.as_str());
    (c18 && c19 && (c20 || c21) && c22)
}

/// One step of [`p215`] at `i`; returns the next position.
fn p215_step_exec(tokens: &mut Vec<SejongToken>, i: usize) -> (next: usize)
    requires
        i < old(tokens)@.len(),
    ensures
        (tokens_view(final(tokens)@), next as int) == p215_step(tokens_view(old(tokens)@), i as int),
        final(tokens)@.len() - next < old(tokens)@.len() - i,
        next <= final(tokens)@.len() + 1,
{
    let len0 = tokens.len();
    assert(tokens_view(tokens@).len() == tokens@.len());
    if p215_c0_exec(tokens, i) {
        let s26 = tokens[i].surface.clone();
        let s27 = owned("하");
        let s25 = concat(s26.as_str(), s27.as_str());
        let s28 = owned("VA");
        let n29 = tokens[i].start_pos;
        let n30 = tokens[i + 1].end_pos;
        let t24 = SejongToken::new(s25.as_str(), s28.as_str(), n29, n30);
        let mut nv31: Vec<SejongToken> = Vec::new();
        push_token(&mut nv31, t24);
        splice_tokens(tokens, i, 2, nv31);
        let _len1 = tokens.len();
        return i + 1;
    }
    i + 1
}

/// 미안 or 심심 with 하/XSA or 하/XSV is one adjective (미안하/VA).
pub fn apply_p215(tokens: &mut Vec<SejongToken>)
    ensures
        tokens_view(final(tokens)@) == p215(tokens_view(old(tokens)@)),
{
    let ghost orig = tokens_view(tokens@);
    let mut i: usize = 0;
    while i < tokens.len()
        invariant
            i <= tokens@.len() + 1,
            scan(tokens_view(tokens@), i as int, p215_f()) == scan(orig, 0, p215_f()),
        decreases tokens@.len() + 1 - i,
    {
        let ghost before = tokens_view(tokens@);
        assert(before.len() == tokens@.len());
        i = p215_step_exec(tokens, i);
        assert(tokens_view(tokens@).len() == tokens@.len());
    }
}

/// Where rule 0 of [`p225`] applies.
pub open spec fn p225_c0(ts: Seq<TokenView>, i: int) -> bool {
    ((0 <= i < ts.len() && ts[i].pos == "NNG"@) && ((0 <= i + 1 < ts.len() && ts[i + 1].surface == "하"@) && (0 <= i + 1 < ts.len() && ts[i + 1].pos == "XSV"@)) && ((0 <= i + 2 < ts.len() && ts[i + 2].surface == "ㅁ"@) && (0 <= i + 2 < ts.len() && ts[i + 2].pos == "ETN"@)) && (0 <= i < ts.len() && seq!["말"@].contains(ts[i].surface)))
}

/// One step of [`p225`] at `i`: the list after it and the next position.
pub open spec fn p225_step(ts: Seq<TokenView>, i: int) -> (Seq<TokenView>, int) {
    if p225_c0(ts, i) {
        (splice(ts, i, 2, seq![plain_view((ts[i].surface + "하"@), "VV"@, ts[i].start_pos, ts[i + 1].end_pos)]), i + 1)
    } else {
        (ts, i + 1)
    }
}

/// [`p225_step`] as a function value.
pub open spec fn p225_f() -> spec_fn(Seq<TokenView>, int) -> (Seq<TokenView>, int) {
    |ts: Seq<TokenView>, i: int| p225_step(ts, i)
}

/// 말/NNG 하/XSV before ㅁ/ETN is one verb (말하/VV ㅁ/ETN).
pub open spec fn p225(ts: Seq<TokenView>) -> Seq<TokenView> {
    scan(ts, 0, p225_f())
}

/// Whether rule 0 of [`p225`] applies at `i`.
fn p225_c0_exec(tokens: &Vec<SejongToken>, i: usize) -> (r: bool)
    requires
        i < tokens@.len(),
    ensures
        r == p225_c0(tokens_view(tokens@), i as int),
{
    assert(tokens_view(tokens@).len() == tokens@.len());
    let c32 = pos_is(&tokens[i], "NNG");
    let c33 = (tokens.len() - i > 1) && surf_is(&tokens[i + 1], "하");
    let c34 = (tokens.len() - i > 1) && pos_is(&tokens[i + 1], "XSV");
    let c35 = (tokens.len() - i > 2) && surf_is(&tokens[i + 2], "ㅁ");
    let c36 = (tokens.len() - i > 2) && pos_is(&tokens[i + 2], "ETN");
    let l38: [&str; 1] = ["말"];
    assert(crate::tag_map::strs_view(l38@) =~= seq!["말"@]);
    let c37 = in_list(&l38, tokens[i].surface.as_str());
    (c32 && (c33 && c34) && (c35 && c36) && c37)
}

/// One step of [`p225`] at `i`; returns the next position.
fn p225_step_exec(tokens: &mut Vec<SejongToken>, i: usize) -> (next: usize)
    requires
        i < old(tokens)@.len(),
    ensures
        (tokens_view(final(tokens)@), next as int) == p225_step(tokens_view(old(tokens)@), i as int),
        final(tokens)@.len() - next < old(tokens)@.len() - i,
        next <= final(tokens)@.len() + 1,
{
    let len0 = tokens.len();
    assert(tokens_view(tokens@).len() == tokens@.len());
    if p225_c0_exec(tokens, i) {
        let s41 = tokens[i].surface.clone();
        let s42 = owned("하");
        let s40 = concat(s41.as_str(), s42.as_str());
        let s43 = owned("VV");
        let n44 = tokens[i].start_pos;
        let n45 = tokens[i + 1].end_pos;
        let t39 = SejongToken::new(s40.as_str(), s43.as_str(), n44, n45);
        let mut nv46: Vec<SejongToken> = Vec::new();
        push_token(&mut nv46, t39);
        splice_tokens(tokens, i, 2, nv46);
        let _len1 = tokens.len();
        return i + 1;
    }
    i + 1
}

/// 말/NNG 하/XSV before ㅁ/ETN is one verb (말하/VV ㅁ/ETN).
pub fn apply_p225(tokens: &mut Vec<SejongToken>)
    ensures
        tokens_view(final(tokens)@) == p225(tokens_view(old(tokens)@)),
{
    let ghost orig = tokens_view(tokens@);
    let mut i: usize = 0;
    while i < tokens.len()
        invariant
            i <= tokens@.len() + 1,
            scan(tokens_view(tokens@), i as int, p225_f()) == scan(orig, 0, p225_f()),
        decreases tokens@.len() + 1 - i,
    {
        let ghost before = tokens_view(tokens@);
        assert(before.len() == tokens@.len());
        i = p225_step_exec(tokens, i);
        assert(tokens_view(tokens@).len() == tokens@.len());
    }
}

/// Where [`p217`] changes a token.
pub open spec fn p217_c(ts: Seq<TokenView>, i: int) -> bool {
    (((0 <= i < ts.len() && ts[i].surface == "으면"@) && (0 <= i < ts.len() && ts[i].pos == "EF"@)) && ((0 <= i - 1 < ts.len() && ts[i - 1].pos == "VA"@) || (0 <= i - 1 < ts.len() && ts[i - 1].pos == "VV"@)))
}

/// The token [`p217`] puts at `i`.
pub open spec fn p217_t(ts: Seq<TokenView>, i: int) -> TokenView {
    TokenView { pos: "EC"@, ..ts[i] }
}

/// 으면/EF after an adjective or a verb is the connective ending 으면/EC.
pub open spec fn p217(ts: Seq<TokenView>) -> Seq<TokenView> {
    map_where(ts, |ts: Seq<TokenView>, i: int| p217_c(ts, i), |ts: Seq<TokenView>, i: int| p217_t(ts, i))
}

/// Whether [`p217`] changes the token at `i`.
fn p217_c_exec(tokens: &Vec<SejongToken>, i: usize) -> (r: bool)
    requires
        i < tokens@.len(),
    ensures
        r == p217_c(tokens_view(tokens@), i as int),
{
    assert(tokens_view(tokens@).len() == tokens@.len());
    let c47 = surf_is(&tokens[i], "으면");
    let c48 = pos_is(&tokens[i], "EF");
    let c49 = (i >= 1) && pos_is(&tokens[i - 1], "VA");
    let c50 = (i >= 1) && pos_is(&tokens[i - 1], "VV");
    ((c47 && c48) && (c49 || c50))
}

/// The token [`p217`] puts at `i`.
fn p217_t_exec(tokens: &Vec<SejongToken>, i: usize) -> (t: SejongToken)
    requires
        i < tokens@.len(),
        p217_c(tokens_view(tokens@), i as int),
    ensures
        t@ == p217_t(tokens_view(tokens@), i as int),
{
    assert(tokens_view(tokens@).len() == tokens@.len());
    let s52 = owned("EC");
    let mut t51 = tokens[i].duplicate();
    t51.pos = s52;
    t51
}

/// 으면/EF after an adjective or a verb is the connective ending 으면/EC.
pub fn apply_p217(tokens: &mut Vec<SejongToken>)
    ensures
        tokens_view(final(tokens)@) == p217(tokens_view(old(tokens)@)),
{
    let ghost orig = tokens_view(tokens@);
    let mut out: Vec<SejongToken> = Vec::new();
    let mut k: usize = 0;
    while k < tokens.len()
        invariant
            k <= tokens@.len(),
            orig == tokens_view(tokens@),
            tokens_view(out@) == p217(orig).take(k as int),
        decreases tokens@.len() - k,
    {
        let t = if p217_c_exec(tokens, k) { p217_t_exec(tokens, k) } else { tokens[k].duplicate() };
        push_token(&mut out, t);
        k += 1;
        assert(tokens_view(out@) =~= p217(orig).take(k as int));
    }
    assert(p217(orig).take(k as int) =~= p217(orig));
    *tokens = out;
}

/// Where [`p218`] changes a token.
pub open spec fn p218_c(ts: Seq<TokenView>, i: int) -> bool {
    (((0 <= i < ts.len() && ts[i].surface == "는데"@) && (0 <= i < ts.len() && ts[i].pos == "EF"@)) && (0 <= i + 1 < ts.len() && true))
}

/// The token [`p218`] puts at `i`.
pub open spec fn p218_t(ts: Seq<TokenView>, i: int) -> TokenView {
    TokenView { pos: "EC"@, ..ts[i] }
}

/// 는데/EF that does not end the sentence is the connective ending 는데/EC.
pub open spec fn p218(ts: Seq<TokenView>) -> Seq<TokenView> {
    map_where(ts, |ts: Seq<TokenView>, i: int| p218_c(ts, i), |ts: Seq<TokenView>, i: int| p218_t(ts, i))
}

/// Whether [`p218`] changes the token at `i`.
fn p218_c_exec(tokens: &Vec<SejongToken>, i: usize) -> (r: bool)
    requires
        i < tokens@.len(),
    ensures
        r == p218_c(tokens_view(tokens@), i as int),
{
    assert(tokens_view(tokens@).len() == tokens@.len());
    let c53 = surf_is(&tokens[i], "는데");
    let c54 = pos_is(&tokens[i], "EF");
    let c55 = (tokens.len() - i > 1) && true;
    ((c53 && c54) && c55)
}

/// The token [`p218`] puts at `i`.
fn p218_t_exec(tokens: &Vec<SejongToken>, i: usize) -> (t: SejongToken)
    requires
        i < tokens@.len(),
        p218_c(tokens_view(tokens@), i as int),
    ensures
        t@ == p218_t(tokens_view(tokens@), i as int),
{
    assert(tokens_view(tokens@).len() == tokens@.len());
    let s57 = owned("EC");
    let mut t56 = tokens[i].duplicate();
    t56.pos = s57;
    t56
}

/// 는데/EF that does not end the sentence is the connective ending 는데/EC.
pub fn apply_p218(tokens: &mut Vec<SejongToken>)
    ensures
        tokens_view(final(tokens)@) == p218(tokens_view(old(tokens)@)),
{
    let ghost orig = tokens_view(tokens@);
    let mut out: Vec<SejongToken> = Vec::new();
    let mut k: usize = 0;
    while k < tokens.len()
        invariant
            k <= tokens@.len(),
            orig == tokens_view(tokens@),
            tokens_view(out@) == p218(orig).take(k as int),
        decreases tokens@.len() - k,
    {
        let t = if p218_c_exec(tokens, k) { p218_t_exec(tokens, k) } else { tokens[k].duplicate() };
        push_token(&mut out, t);
        k += 1;
        assert(tokens_view(out@) =~= p218(orig).take(k as int));
    }
    assert(p218(orig).take(k as int) =~= p218(orig));
    *tokens = out;
}

/// Where [`p219a`] changes a token.
pub open spec fn p219a_c(ts: Seq<TokenView>, i: int) -> bool {
    ((0 <= i < ts.len() && ts[i].surface == "걸"@) && (0 <= i < ts.len() && ts[i].pos == "VV"@))
}

/// The token [`p219a`] puts at `i`.
pub open spec fn p219a_t(ts: Seq<TokenView>, i: int) -> TokenView {
    TokenView { surface: "걷"@, ..ts[i] }
}

/// The stem 걸/VV of a ㄷ-irregular verb is written 걷/VV.
pub open spec fn p219a(ts: Seq<TokenView>) -> Seq<TokenView> {
    map_where(ts, |ts: Seq<TokenView>, i: int| p219a_c(ts, i), |ts: Seq<TokenView>, i: int| p219a_t(ts, i))
}

/// Whether [`p219a`] changes the token at `i`.
fn p219a_c_exec(tokens: &Vec<SejongToken>, i: usize) -> (r: bool)
    requires
        i < tokens@.len(),
    ensures
        r == p219a_c(tokens_view(tokens@), i as int),
{
    assert(tokens_view(tokens@).len() == tokens@.len());
    let c58 = surf_is(&tokens[i], "걸");
    let c59 = pos_is(&tokens[i], "VV");
    (c58 && c59)
}

/// The token [`p219a`] puts at `i`.
fn p219a_t_exec(tokens: &Vec<SejongToken>, i: usize) -> (t: SejongToken)
    requires
        i < tokens@.len(),
        p219a_c(tokens_view(tokens@), i as int),
    ensures
        t@ == p219a_t(tokens_view(tokens@), i as int),
{
    assert(tokens_view(tokens@).len() == tokens@.len());
    let s61 = owned("걷");
    let mut t60 = tokens[i].duplicate();
    t60.surface = s61;
    t60
}

/// The stem 걸/VV of a ㄷ-irregular verb is written 걷/VV.
pub fn apply_p219a(tokens: &mut Vec<SejongToken>)
    ensures
        tokens_view(final(tokens)@) == p219a(tokens_view(old(tokens)@)),
{
    let ghost orig = tokens_view(tokens@);
    let mut out: Vec<SejongToken> = Vec::new();
    let mut k: usize = 0;
    while k < tokens.len()
        invariant
            k <= tokens@.len(),
            orig == tokens_view(tokens@),
            tokens_view(out@) == p219a(orig).take(k as int),
        decreases tokens@.len() - k,
    {
        let t = if p219a_c_exec(tokens, k) { p219a_t_exec(tokens, k) } else { tokens[k].duplicate() };
        push_token(&mut out, t);
        k += 1;
        assert(tokens_view(out@) =~= p219a(orig).take(k as int));
    }
    assert(p219a(orig).take(k as int) =~= p219a(orig));
    *tokens = out;
}

/// Where [`p219b`] changes a token.
pub open spec fn p219b_c(ts: Seq<TokenView>, i: int) -> bool {
    (((0 <= i < ts.len() && ts[i].surface == "들"@) && (0 <= i < ts.len() && ts[i].pos == "VV"@)) && !((0 <= i + 1 < ts.len() && ts[i + 1].surface == "세요"@) || (0 <= i + 1 < ts.len() && is_prefix("시"@, ts[i + 1].surface))))
}

/// The token [`p219b`] puts at `i`.
pub open spec fn p219b_t(ts: Seq<TokenView>, i: int) -> TokenView {
    TokenView { surface: "듣"@, ..ts[i] }
}

/// The stem 들/VV of a ㄷ-irregular verb is written 듣/VV (not before 세요 or an ending in 시, where it is 드시다).
pub open spec fn p219b(ts: Seq<TokenView>) -> Seq<TokenView> {
    map_where(ts, |ts: Seq<TokenView>, i: int| p219b_c(ts, i), |ts: Seq<TokenView>, i: int| p219b_t(ts, i))
}

/// Whether [`p219b`] changes the token at `i`.
fn p219b_c_exec(tokens: &Vec<SejongToken>, i: usize) -> (r: bool)
    requires
        i < tokens@.len(),
    ensures
        r == p219b_c(tokens_view(tokens@), i as int),
{
    assert(tokens_view(tokens@).len() == tokens@.len());
    let c62 = surf_is(&tokens[i], "들");
    let c63 = pos_is(&tokens[i], "VV");
    let c64 = (tokens.len() - i > 1) && surf_is(&tokens[i + 1], "세요");
    let c65 = (tokens.len() - i > 1) && surf_starts(&tokens[i + 1], "시");
    ((c62 && c63) && !(c64 || c65))
}

/// The token [`p219b`] puts at `i`.
fn p219b_t_exec(tokens: &Vec<SejongToken>, i: usize) -> (t: SejongToken)
    requires
        i < tokens@.len(),
        p219b_c(tokens_view(tokens@), i as int),
    ensures
        t@ == p219b_t(tokens_view(tokens@), i as int),
{
    assert(tokens_view(tokens@).len() == tokens@.len());
    let s67 = owned("듣");
    let mut t66 = tokens[i].duplicate();
    t66.surface = s67;
    t66
}

/// The stem 들/VV of a ㄷ-irregular verb is written 듣/VV (not before 세요 or an ending in 시, where it is 드시다).
pub fn apply_p219b(tokens: &mut Vec<SejongToken>)
    ensures
        tokens_view(final(tokens)@) == p219b(tokens_view(old(tokens)@)),
{
    let ghost orig = tokens_view(tokens@);
    let mut out: Vec<SejongToken> = Vec::new();
    let mut k: usize = 0;
    while k < tokens.len()
        invariant
            k <= tokens@.len(),
            orig == tokens_view(tokens@),
            tokens_view(out@) == p219b(orig).take(k as int),
        decreases tokens@.len() - k,
    {
        let t = if p219b_c_exec(tokens, k) { p219b_t_exec(tokens, k) } else { tokens[k].duplicate() };
        push_token(&mut out, t);
        k += 1;
        assert(tokens_view(out@) =~= p219b(orig).take(k as int));
    }
    assert(p219b(orig).take(k as int) =~= p219b(orig));
    *tokens = out;
}

/// Where [`p219c`] changes a token.
pub open spec fn p219c_c(ts: Seq<TokenView>, i: int) -> bool {
    ((0 <= i < ts.len() && ts[i].surface == "물"@) && (0 <= i < ts.len() && ts[i].pos == "VV"@))
}

/// The token [`p219c`] puts at `i`.
pub open spec fn p219c_t(ts: Seq<TokenView>, i: int) -> TokenView {
    TokenView { surface: "묻"@, ..ts[i] }
}

/// The stem 물/VV of a ㄷ-irregular verb is written 묻/VV.
pub open spec fn p219c(ts: Seq<TokenView>) -> Seq<TokenView> {
    map_where(ts, |ts: Seq<TokenView>, i: int| p219c_c(ts, i), |ts: Seq<TokenView>, i: int| p219c_t(ts, i))
}

/// Whether [`p219c`] changes the token at `i`.
fn p219c_c_exec(tokens: &Vec<SejongToken>, i: usize) -> (r: bool)
    requires
        i < tokens@.len(),
    ensures
        r == p219c_c(tokens_view(tokens@), i as int),
{
    assert(tokens_view(tokens@).len() == tokens@.len());
    let c68 = surf_is(&tokens[i], "물");
    let c69 = pos_is(&tokens[i], "VV");
    (c68 && c69)
}

/// The token [`p219c`] puts at `i`.
fn p219c_t_exec(tokens: &Vec<SejongToken>, i: usize) -> (t: SejongToken)
    requires
        i < tokens@.len(),
        p219c_c(tokens_view(tokens@), i as int),
    ensures
        t@ == p219c_t(tokens_view(tokens@), i as int),
{
    assert(tokens_view(tokens@).len() == tokens@.len());
    let s71 = owned("묻");
    let mut t70 = tokens[i].duplicate();
    t70.surface = s71;
    t70
}

/// The stem 물/VV of a ㄷ-irregular verb is written 묻/VV.
pub fn apply_p219c(tokens: &mut Vec<SejongToken>)
    ensures
        tokens_view(final(tokens)@) == p219c(tokens_view(old(tokens)@)),
{
    let ghost orig = tokens_view(tokens@);
    let mut out: Vec<SejongToken> = Vec::new();
    let mut k: usize = 0;
    while k < tokens.len()
        invariant
            k <= tokens@.len(),
            orig == tokens_view(tokens@),
            tokens_view(out@) == p219c(orig).take(k as int),
        decreases tokens@.len() - k,
    {
        let t = if p219c_c_exec(tokens, k) { p219c_t_exec(tokens, k) } else { tokens[k].duplicate() };
        push_token(&mut out, t);
        k += 1;
        assert(tokens_view(out@) =~= p219c(orig).take(k as int));
    }
    assert(p219c(orig).take(k as int) =~= p219c(orig));
    *tokens = out;
}

/// Where [`p219d`] changes a token.
pub open spec fn p219d_c(ts: Seq<TokenView>, i: int) -> bool {
    ((0 <= i < ts.len() && ts[i].surface == "실"@) && (0 <= i < ts.len() && ts[i].pos == "VV"@))
}

/// The token [`p219d`] puts at `i`.
pub open spec fn p219d_t(ts: Seq<TokenView>, i: int) -> TokenView {
    TokenView { surface: "싣"@, ..ts[i] }
}

/// The stem 실/VV of a ㄷ-irregular verb is written 싣/VV.
pub open spec fn p219d(ts: Seq<TokenView>) -> Seq<TokenView> {
    map_where(ts, |ts: Seq<TokenView>, i: int| p219d_c(ts, i), |ts: Seq<TokenView>, i: int| p219d_t(ts, i))
}

/// Whether [`p219d`] changes the token at `i`.
fn p219d_c_exec(tokens: &Vec<SejongToken>, i: usize) -> (r: bool)
    requires
        i < tokens@.len(),
    ensures
        r == p219d_c(tokens_view(tokens@), i as int),
{
    assert(tokens_view(tokens@).len() == tokens@.len());
    let c72 = surf_is(&tokens[i], "실");
    let c73 = pos_is(&tokens[i], "VV");
    (c72 && c73)
}

/// The token [`p219d`] puts at `i`.
fn p219d_t_exec(tokens: &Vec<SejongToken>, i: usize) -> (t: SejongToken)
    requires
        i < tokens@.len(),
        p219d_c(tokens_view(tokens@), i as int),
    ensures
        t@ == p219d_t(tokens_view(tokens@), i as int),
{
    assert(tokens_view(tokens@).len() == tokens@.len());
    let s75 = owned("싣");
    let mut t74 = tokens[i].duplicate();
    t74.surface = s75;
    t74
}

/// The stem 실/VV of a ㄷ-irregular verb is written 싣/VV.
pub fn apply_p219d(tokens: &mut Vec<SejongToken>)
    ensures
        tokens_view(final(tokens)@) == p219d(tokens_view(old(tokens)@)),
{
    let ghost orig = tokens_view(tokens@);
    let mut out: Vec<SejongToken> = Vec::new();
    let mut k: usize = 0;
    while k < tokens.len()
        invariant
            k <= tokens@.len(),
            orig == tokens_view(tokens@),
            tokens_view(out@) == p219d(orig).take(k as int),
        decreases tokens@.len() - k,
    {
        let t = if p219d_c_exec(tokens, k) { p219d_t_exec(tokens, k) } else { tokens[k].duplicate() };
        push_token(&mut out, t);
        k += 1;
        assert(tokens_view(out@) =~= p219d(orig).take(k as int));
    }
    assert(p219d(orig).take(k as int) =~= p219d(orig));
    *tokens = out;
}

/// Where [`p219e`] changes a token.
pub open spec fn p219e_c(ts: Seq<TokenView>, i: int) -> bool {
    ((0 <= i < ts.len() && ts[i].surface == "깨달"@) && (0 <= i < ts.len() && ts[i].pos == "VV"@))
}

/// The token [`p219e`] puts at `i`.
pub open spec fn p219e_t(ts: Seq<TokenView>, i: int) -> TokenView {
    TokenView { surface: "깨닫"@, ..ts[i] }
}

/// The stem 깨달/VV of a ㄷ-irregular verb is written 깨닫/VV.
pub open spec fn p219e(ts: Seq<TokenView>) -> Seq<TokenView> {
    map_where(ts, |ts: Seq<TokenView>, i: int| p219e_c(ts, i), |ts: Seq<TokenView>, i: int| p219e_t(ts, i))
}

/// Whether [`p219e`] changes the token at `i`.
fn p219e_c_exec(tokens: &Vec<SejongToken>, i: usize) -> (r: bool)
    requires
        i < tokens@.len(),
    ensures
        r == p219e_c(tokens_view(tokens@), i as int),
{
    assert(tokens_view(tokens@).len() == tokens@.len());
    let c76 = surf_is(&tokens[i], "깨달");
    let c77 = pos_is(&tokens[i], "VV");
    (c76 && c77)
}

/// The token [`p219e`] puts at `i`.
fn p219e_t_exec(tokens: &Vec<SejongToken>, i: usize) -> (t: SejongToken)
    requires
        i < tokens@.len(),
        p219e_c(tokens_view(tokens@), i as int),
    ensures
        t@ == p219e_t(tokens_view(tokens@), i as int),
{
    assert(tokens_view(tokens@).len() == tokens@.len());
    let s79 = owned("깨닫");
    let mut t78 = tokens[i].duplicate();
    t78.surface = s79;
    t78
}

/// The stem 깨달/VV of a ㄷ-irregular verb is written 깨닫/VV.
pub fn apply_p219e(tokens: &mut Vec<SejongToken>)
    ensures
        tokens_view(final(tokens)@) == p219e(tokens_view(old(tokens)@)),
{
    let ghost orig = tokens_view(tokens@);
    let mut out: Vec<SejongToken> = Vec::new();
    let mut k: usize = 0;
    while k < tokens.len()
        invariant
            k <= tokens@.len(),
            orig == tokens_view(tokens@),
            tokens_view(out@) == p219e(orig).take(k as int),
        decreases tokens@.len() - k,
    {
        let t = if p219e_c_exec(tokens, k) { p219e_t_exec(tokens, k) } else { tokens[k].duplicate() };
        push_token(&mut out, t);
        k += 1;
        assert(tokens_view(out@) =~= p219e(orig).take(k as int));
    }
    assert(p219e(orig).take(k as int) =~= p219e(orig));
    *tokens = out;
}

/// Corrections of verb and adjective conjugation.
pub open spec fn spec_apply_conjugation_corrections(ts: Seq<TokenView>) -> Seq<TokenView> {
    p219e(p219d(p219c(p219b(p219a(p218(p217(p225(p215(p226(p174(ts)))))))))))
}

/// Corrections of verb and adjective conjugation.
pub fn apply_conjugation_corrections(tokens: &mut Vec<SejongToken>)
    ensures
        tokens_view(final(tokens)@) == spec_apply_conjugation_corrections(tokens_view(old(tokens)@)),
{
    apply_p174(tokens);
    apply_p226(tokens);
    apply_p215(tokens);
    apply_p225(tokens);
    apply_p217(tokens);
    apply_p218(tokens);
    apply_p219a(tokens);
    apply_p219b(tokens);
    apply_p219c(tokens);
    apply_p219d(tokens);
    apply_p219e(tokens);
}

} // verus!
