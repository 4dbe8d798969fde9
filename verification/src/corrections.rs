//! Context-based corrections of converted tokens.

pub mod compound_noun;
pub mod pos_reclassification;
pub mod tag_normalization;
pub mod conjugation;
pub mod post_conjugation;
pub mod compound_and_irregular;
pub mod suffix_and_dependency;
pub mod particle_and_ending;
pub mod verb_splitting;
pub mod verb_and_morpheme;
pub mod xsv_and_ec_ef;
pub mod xsv_morpheme_split;
pub mod sentence_final;
pub mod sentence_final_endings;
use vstd::prelude::*;
use vstd::utf8::encode_utf8;
use crate::converter::tokens_view;
use crate::merges::{strip_suffix, strip_suffix_exec};
use crate::rewrite::{in_list, map_where, pos_is, push_token, scan, set_token, splice, splice_tokens, surf_ends, surf_is};
use crate::text::{concat, is_suffix, owned};
use crate::types::{plain_view, split_view, SejongToken, TokenView};

verus! {

/// Where [`p185`] changes a token.
pub open spec fn p185_c(ts: Seq<TokenView>, i: int) -> bool {
    ((i == 0) && ((0 <= i < ts.len() && ts[i].surface == "하"@) && (0 <= i < ts.len() && ts[i].pos == "XSV"@)))
}

/// The token [`p185`] puts at `i`.
pub open spec fn p185_t(ts: Seq<TokenView>, i: int) -> TokenView {
    TokenView { pos: "VV"@, ..ts[i] }
}

/// A leading 하/XSV is the verb 하/VV.
pub open spec fn p185(ts: Seq<TokenView>) -> Seq<TokenView> {
    map_where(ts, |ts: Seq<TokenView>, i: int| p185_c(ts, i), |ts: Seq<TokenView>, i: int| p185_t(ts, i))
}

/// Whether [`p185`] changes the token at `i`.
fn p185_c_exec(tokens: &Vec<SejongToken>, i: usize) -> (r: bool)
    requires
        i < tokens@.len(),
    ensures
        r == p185_c(tokens_view(tokens@), i as int),
{
    assert(tokens_view(tokens@).len() == tokens@.len());
    let c0 = i == 0;
    let c1 = surf_is(&tokens[i], "하");
    let c2 = pos_is(&tokens[i], "XSV");
    (c0 && (c1 && c2))
}

/// The token [`p185`] puts at `i`.
fn p185_t_exec(tokens: &Vec<SejongToken>, i: usize) -> (t: SejongToken)
    requires
        i < tokens@.len(),
        p185_c(tokens_view(tokens@), i as int),
    ensures
        t@ == p185_t(tokens_view(tokens@), i as int),
{
    assert(tokens_view(tokens@).len() == tokens@.len());
    let s4 = owned("VV");
    let mut t3 = tokens[i].duplicate();
    t3.pos = s4;
    t3
}

/// A leading 하/XSV is the verb 하/VV.
pub fn apply_p185(tokens: &mut Vec<SejongToken>)
    ensures
        tokens_view(final(tokens)@) == p185(tokens_view(old(tokens)@)),
{
    let ghost orig = tokens_view(tokens@);
    let mut out: Vec<SejongToken> = Vec::new();
    let mut k: usize = 0;
    while k < tokens.len()
        invariant
            k <= tokens@.len(),
            orig == tokens_view(tokens@),
            tokens_view(out@) == p185(orig).take(k as int),
        decreases tokens@.len() - k,
    {
        let t = if p185_c_exec(tokens, k) { p185_t_exec(tokens, k) } else { tokens[k].duplicate() };
        push_token(&mut out, t);
        k += 1;
        assert(tokens_view(out@) =~= p185(orig).take(k as int));
    }
    assert(p185(orig).take(k as int) =~= p185(orig));
    *tokens = out;
}

/// Where rule 0 of [`p187`] applies.
pub open spec fn p187_c0(ts: Seq<TokenView>, i: int) -> bool {
    ((0 <= i < ts.len() && ts[i].surface == "서울특별시"@) && (0 <= i < ts.len() && ts[i].pos == "NNP"@))
}

/// One step of [`p187`] at `i`: the list after it and the next position.
pub open spec fn p187_step(ts: Seq<TokenView>, i: int) -> (Seq<TokenView>, int) {
    if p187_c0(ts, i) {
        (splice(ts, i, 1, seq![split_view("서울"@, "NNP"@, ts[i].start_pos, (ts[i].start_pos).saturating_add(encode_utf8("서울"@).len() as usize), ts[i].surface, ts[i].pos), split_view("특별시"@, "NNG"@, (ts[i].start_pos).saturating_add(encode_utf8("서울"@).len() as usize), ts[i].end_pos, ts[i].surface, ts[i].pos)]), i + 2)
    } else {
        (ts, i + 1)
    }
}

/// [`p187_step`] as a function value.
pub open spec fn p187_f() -> spec_fn(Seq<TokenView>, int) -> (Seq<TokenView>, int) {
    |ts: Seq<TokenView>, i: int| p187_step(ts, i)
}

/// 서울특별시/NNP is split into 서울/NNP 특별시/NNG.
pub open spec fn p187(ts: Seq<TokenView>) -> Seq<TokenView> {
    scan(ts, 0, p187_f())
}

/// Whether rule 0 of [`p187`] applies at `i`.
fn p187_c0_exec(tokens: &Vec<SejongToken>, i: usize) -> (r: bool)
    requires
        i < tokens@.len(),
    ensures
        r == p187_c0(tokens_view(tokens@), i as int),
{
    assert(tokens_view(tokens@).len() == tokens@.len());
    let c5 = surf_is(&tokens[i], "서울특별시");
    let c6 = pos_is(&tokens[i], "NNP");
    (c5 && c6)
}

/// One step of [`p187`] at `i`; returns the next position.
fn p187_step_exec(tokens: &mut Vec<SejongToken>, i: usize) -> (next: usize)
    requires
        i < old(tokens)@.len(),
    ensures
        (tokens_view(final(tokens)@), next as int) == p187_step(tokens_view(old(tokens)@), i as int),
        final(tokens)@.len() - next < old(tokens)@.len() - i,
        next <= final(tokens)@.len() + 1,
{
    let len0 = tokens.len();
    assert(tokens_view(tokens@).len() == tokens@.len());
    if p187_c0_exec(tokens, i) {
        let s8 = owned("서울");
        let s9 = owned("NNP");
        let n10 = tokens[i].start_pos;
        let n12 = tokens[i].start_pos;
        let s13 = owned("서울");
        let n11 = n12.saturating_add(s13.as_str().len());
        let s14 = tokens[i].surface.clone();
        let s15 = tokens[i].pos.clone();
        let t7 = SejongToken::from_split(s8.as_str(), s9.as_str(), n10, n11, s14.as_str(), s15.as_str());
        let s17 = owned("특별시");
        let s18 = owned("NNG");
        let n20 = tokens[i].start_pos;
        let s21 = owned("서울");
        let n19 = n20.saturating_add(s21.as_str().len());
        let n22 = tokens[i].end_pos;
        let s23 = tokens[i].surface.clone();
        let s24 = tokens[i].pos.clone();
        let t16 = SejongToken::from_split(s17.as_str(), s18.as_str(), n19, n22, s23.as_str(), s24.as_str());
        let mut nv25: Vec<SejongToken> = Vec::new();
        push_token(&mut nv25, t7);
        push_token(&mut nv25, t16);
        splice_tokens(tokens, i, 1, nv25);
        let _len1 = tokens.len();
        return i + 2;
    }
    i + 1
}

/// 서울특별시/NNP is split into 서울/NNP 특별시/NNG.
pub fn apply_p187(tokens: &mut Vec<SejongToken>)
    ensures
        tokens_view(final(tokens)@) == p187(tokens_view(old(tokens)@)),
{
    let ghost orig = tokens_view(tokens@);
    let mut i: usize = 0;
    while i < tokens.len()
        invariant
            i <= tokens@.len() + 1,
            scan(tokens_view(tokens@), i as int, p187_f()) == scan(orig, 0, p187_f()),
        decreases tokens@.len() + 1 - i,
    {
        let ghost before = tokens_view(tokens@);
        assert(before.len() == tokens@.len());
        i = p187_step_exec(tokens, i);
        assert(tokens_view(tokens@).len() == tokens@.len());
    }
}

/// Where [`p188`] changes a token.
pub open spec fn p188_c(ts: Seq<TokenView>, i: int) -> bool {
    ((0 <= i < ts.len() && ts[i].surface == "그래"@) && (0 <= i < ts.len() && ts[i].pos == "VV"@))
}

/// The token [`p188`] puts at `i`.
pub open spec fn p188_t(ts: Seq<TokenView>, i: int) -> TokenView {
    TokenView { surface: "그러"@, ..ts[i] }
}

/// 그래/VV is written 그러/VV.
pub open spec fn p188(ts: Seq<TokenView>) -> Seq<TokenView> {
    map_where(ts, |ts: Seq<TokenView>, i: int| p188_c(ts, i), |ts: Seq<TokenView>, i: int| p188_t(ts, i))
}

/// Whether [`p188`] changes the token at `i`.
fn p188_c_exec(tokens: &Vec<SejongToken>, i: usize) -> (r: bool)
    requires
        i < tokens@.len(),
    ensures
        r == p188_c(tokens_view(tokens@), i as int),
{
    assert(tokens_view(tokens@).len() == tokens@.len());
    let c26 = surf_is(&tokens[i], "그래");
    let c27 = pos_is(&tokens[i], "VV");
    (c26 && c27)
}

/// The token [`p188`] puts at `i`.
fn p188_t_exec(tokens: &Vec<SejongToken>, i: usize) -> (t: SejongToken)
    requires
        i < tokens@.len(),
        p188_c(tokens_view(tokens@), i as int),
    ensures
        t@ == p188_t(tokens_view(tokens@), i as int),
{
    assert(tokens_view(tokens@).len() == tokens@.len());
    let s29 = owned("그러");
    let mut t28 = tokens[i].duplicate();
    t28.surface = s29;
    t28
}

/// 그래/VV is written 그러/VV.
pub fn apply_p188(tokens: &mut Vec<SejongToken>)
    ensures
        tokens_view(final(tokens)@) == p188(tokens_view(old(tokens)@)),
{
    let ghost orig = tokens_view(tokens@);
    let mut out: Vec<SejongToken> = Vec::new();
    let mut k: usize = 0;
    while k < tokens.len()
        invariant
            k <= tokens@.len(),
            orig == tokens_view(tokens@),
            tokens_view(out@) == p188(orig).take(k as int),
        decreases tokens@.len() - k,
    {
        let t = if p188_c_exec(tokens, k) { p188_t_exec(tokens, k) } else { tokens[k].duplicate() };
        push_token(&mut out, t);
        k += 1;
        assert(tokens_view(out@) =~= p188(orig).take(k as int));
    }
    assert(p188(orig).take(k as int) =~= p188(orig));
    *tokens = out;
}

/// Where [`p193`] changes a token.
pub open spec fn p193_c(ts: Seq<TokenView>, i: int) -> bool {
    ((0 <= i < ts.len() && ts[i].pos == "ETN"@) && (0 <= i < ts.len() && ts[i].surface == "\u{1106}"@))
}

/// The token [`p193`] puts at `i`.
pub open spec fn p193_t(ts: Seq<TokenView>, i: int) -> TokenView {
    TokenView { surface: "ㅁ"@, ..ts[i] }
}

/// The ETN ending written with the initial ᄆ (U+1106) is written ㅁ.
pub open spec fn p193(ts: Seq<TokenView>) -> Seq<TokenView> {
    map_where(ts, |ts: Seq<TokenView>, i: int| p193_c(ts, i), |ts: Seq<TokenView>, i: int| p193_t(ts, i))
}

/// Whether [`p193`] changes the token at `i`.
fn p193_c_exec(tokens: &Vec<SejongToken>, i: usize) -> (r: bool)
    requires
        i < tokens@.len(),
    ensures
        r == p193_c(tokens_view(tokens@), i as int),
{
    assert(tokens_view(tokens@).len() == tokens@.len());
    let c30 = pos_is(&tokens[i], "ETN");
    let c31 = surf_is(&tokens[i], "\u{1106}");
    (c30 && c31)
}

/// The token [`p193`] puts at `i`.
fn p193_t_exec(tokens: &Vec<SejongToken>, i: usize) -> (t: SejongToken)
    requires
        i < tokens@.len(),
        p193_c(tokens_view(tokens@), i as int),
    ensures
        t@ == p193_t(tokens_view(tokens@), i as int),
{
    assert(tokens_view(tokens@).len() == tokens@.len());
    let s33 = owned("ㅁ");
    let mut t32 = tokens[i].duplicate();
    t32.surface = s33;
    t32
}

/// The ETN ending written with the initial ᄆ (U+1106) is written ㅁ.
pub fn apply_p193(tokens: &mut Vec<SejongToken>)
    ensures
        tokens_view(final(tokens)@) == p193(tokens_view(old(tokens)@)),
{
    let ghost orig = tokens_view(tokens@);
    let mut out: Vec<SejongToken> = Vec::new();
    let mut k: usize = 0;
    while k < tokens.len()
        invariant
            k <= tokens@.len(),
            orig == tokens_view(tokens@),
            tokens_view(out@) == p193(orig).take(k as int),
        decreases tokens@.len() - k,
    {
        let t = if p193_c_exec(tokens, k) { p193_t_exec(tokens, k) } else { tokens[k].duplicate() };
        push_token(&mut out, t);
        k += 1;
        assert(tokens_view(out@) =~= p193(orig).take(k as int));
    }
    assert(p193(orig).take(k as int) =~= p193(orig));
    *tokens = out;
}

/// Where rule 0 of [`p194`] applies.
pub open spec fn p194_c0(ts: Seq<TokenView>, i: int) -> bool {
    (((0 <= i < ts.len() && ts[i].surface == "따라"@) && (0 <= i < ts.len() && ts[i].pos == "NNB"@)) && ((0 <= i + 1 < ts.len() && ts[i + 1].surface == "서"@) && (0 <= i + 1 < ts.len() && ts[i + 1].pos == "VV"@)) && ((0 <= i + 2 < ts.len() && ts[i + 2].surface == "어"@) && (0 <= i + 2 < ts.len() && ts[i + 2].pos == "EC"@)))
}

/// One step of [`p194`] at `i`: the list after it and the next position.
pub open spec fn p194_step(ts: Seq<TokenView>, i: int) -> (Seq<TokenView>, int) {
    if p194_c0(ts, i) {
        (splice(ts, i, 3, seq![TokenView { surface: "따라서"@, pos: "MAG"@, end_pos: ts[i + 2].end_pos, ..ts[i] }]), i + 1)
    } else {
        (ts, i + 1)
    }
}

/// [`p194_step`] as a function value.
pub open spec fn p194_f() -> spec_fn(Seq<TokenView>, int) -> (Seq<TokenView>, int) {
    |ts: Seq<TokenView>, i: int| p194_step(ts, i)
}

/// 따라/NNB 서/VV 어/EC is merged into 따라서/MAG.
pub open spec fn p194(ts: Seq<TokenView>) -> Seq<TokenView> {
    scan(ts, 0, p194_f())
}

/// Whether rule 0 of [`p194`] applies at `i`.
fn p194_c0_exec(tokens: &Vec<SejongToken>, i: usize) -> (r: bool)
    requires
        i < tokens@.len(),
    ensures
        r == p194_c0(tokens_view(tokens@), i as int),
{
    assert(tokens_view(tokens@).len() == tokens@.len());
    let c34 = surf_is(&tokens[i], "따라");
    let c35 = pos_is(&tokens[i], "NNB");
    let c36 = (tokens.len() - i > 1) && surf_is(&tokens[i + 1], "서");
    let c37 = (tokens.len() - i > 1) && pos_is(&tokens[i + 1], "VV");
    let c38 = (tokens.len() - i > 2) && surf_is(&tokens[i + 2], "어");
    let c39 = (tokens.len() - i > 2) && pos_is(&tokens[i + 2], "EC");
    ((c34 && c35) && (c36 && c37) && (c38 && c39))
}

/// One step of [`p194`] at `i`; returns the next position.
fn p194_step_exec(tokens: &mut Vec<SejongToken>, i: usize) -> (next: usize)
    requires
        i < old(tokens)@.len(),
    ensures
        (tokens_view(final(tokens)@), next as int) == p194_step(tokens_view(old(tokens)@), i as int),
        final(tokens)@.len() - next < old(tokens)@.len() - i,
        next <= final(tokens)@.len() + 1,
{
    let len0 = tokens.len();
    assert(tokens_view(tokens@).len() == tokens@.len());
    if p194_c0_exec(tokens, i) {
        let s41 = owned("따라서");
        let s42 = owned("MAG");
        let n43 = tokens[i + 2].end_pos;
        let mut t40 = tokens[i].duplicate();
        t40.surface = s41;
        t40.pos = s42;
        t40.end_pos = n43;
        let mut nv44: Vec<SejongToken> = Vec::new();
        push_token(&mut nv44, t40);
        splice_tokens(tokens, i, 3, nv44);
        let _len1 = tokens.len();
        return i + 1;
    }
    i + 1
}

/// 따라/NNB 서/VV 어/EC is merged into 따라서/MAG.
pub fn apply_p194(tokens: &mut Vec<SejongToken>)
    ensures
        tokens_view(final(tokens)@) == p194(tokens_view(old(tokens)@)),
{
    let ghost orig = tokens_view(tokens@);
    let mut i: usize = 0;
    while i < tokens.len()
        invariant
            i <= tokens@.len() + 1,
            scan(tokens_view(tokens@), i as int, p194_f()) == scan(orig, 0, p194_f()),
        decreases tokens@.len() + 1 - i,
    {
        let ghost before = tokens_view(tokens@);
        assert(before.len() == tokens@.len());
        i = p194_step_exec(tokens, i);
        assert(tokens_view(tokens@).len() == tokens@.len());
    }
}

/// Where rule 0 of [`p191`] applies.
pub open spec fn p191_c0(ts: Seq<TokenView>, i: int) -> bool {
    (((0 <= i < ts.len() && ts[i].surface == "아"@) && (0 <= i < ts.len() && ts[i].pos == "IC"@)) && (0 <= i - 1 < ts.len() && ts[i - 1].pos == "NNG"@))
}

/// One step of [`p191`] at `i`: the list after it and the next position.
pub open spec fn p191_step(ts: Seq<TokenView>, i: int) -> (Seq<TokenView>, int) {
    if p191_c0(ts, i) {
        (ts.update(i, TokenView { pos: "JX"@, ..ts[i] }), i + 1)
    } else {
        (ts, i + 1)
    }
}

/// [`p191_step`] as a function value.
pub open spec fn p191_f() -> spec_fn(Seq<TokenView>, int) -> (Seq<TokenView>, int) {
    |ts: Seq<TokenView>, i: int| p191_step(ts, i)
}

/// 아/IC after a common noun is the particle 아/JX.
pub open spec fn p191(ts: Seq<TokenView>) -> Seq<TokenView> {
    scan(ts, 0, p191_f())
}

/// Whether rule 0 of [`p191`] applies at `i`.
fn p191_c0_exec(tokens: &Vec<SejongToken>, i: usize) -> (r: bool)
    requires
        i < tokens@.len(),
    ensures
        r == p191_c0(tokens_view(tokens@), i as int),
{
    assert(tokens_view(tokens@).len() == tokens@.len());
    let c45 = surf_is(&tokens[i], "아");
    let c46 = pos_is(&tokens[i], "IC");
    let c47 = (i >= 1) && pos_is(&tokens[i - 1], "NNG");
    ((c45 && c46) && c47)
}

/// One step of [`p191`] at `i`; returns the next position.
fn p191_step_exec(tokens: &mut Vec<SejongToken>, i: usize) -> (next: usize)
    requires
        i < old(tokens)@.len(),
    ensures
        (tokens_view(final(tokens)@), next as int) == p191_step(tokens_view(old(tokens)@), i as int),
        final(tokens)@.len() - next < old(tokens)@.len() - i,
        next <= final(tokens)@.len() + 1,
{
    let len0 = tokens.len();
    assert(tokens_view(tokens@).len() == tokens@.len());
    if p191_c0_exec(tokens, i) {
        let s49 = owned("JX");
        let mut t48 = tokens[i].duplicate();
        t48.pos = s49;
        set_token(tokens, i, t48);
        let _len1 = tokens.len();
        return i + 1;
    }
    i + 1
}

/// 아/IC after a common noun is the particle 아/JX.
pub fn apply_p191(tokens: &mut Vec<SejongToken>)
    ensures
        tokens_view(final(tokens)@) == p191(tokens_view(old(tokens)@)),
{
    let ghost orig = tokens_view(tokens@);
    let mut i: usize = 0;
    while i < tokens.len()
        invariant
            i <= tokens@.len() + 1,
            scan(tokens_view(tokens@), i as int, p191_f()) == scan(orig, 0, p191_f()),
        decreases tokens@.len() + 1 - i,
    {
        let ghost before = tokens_view(tokens@);
        assert(before.len() == tokens@.len());
        i = p191_step_exec(tokens, i);
        assert(tokens_view(tokens@).len() == tokens@.len());
    }
}

/// Where rule 0 of [`p247`] applies.
pub open spec fn p247_c0(ts: Seq<TokenView>, i: int) -> bool {
    (((0 <= i < ts.len() && ts[i].surface == "하"@) && (0 <= i < ts.len() && ts[i].pos == "XSV"@)) && ((0 <= i + 1 < ts.len() && ts[i + 1].surface == "여"@) && (0 <= i + 1 < ts.len() && ts[i + 1].pos == "XSN"@)))
}

/// One step of [`p247`] at `i`: the list after it and the next position.
pub open spec fn p247_step(ts: Seq<TokenView>, i: int) -> (Seq<TokenView>, int) {
    if p247_c0(ts, i) {
        (ts.update(i + 1, TokenView { surface: "어"@, pos: "EC"@, ..ts[i + 1] }), i + 1)
    } else {
        (ts, i + 1)
    }
}

/// [`p247_step`] as a function value.
pub open spec fn p247_f() -> spec_fn(Seq<TokenView>, int) -> (Seq<TokenView>, int) {
    |ts: Seq<TokenView>, i: int| p247_step(ts, i)
}

/// 여/XSN after 하/XSV is the ending 어/EC.
pub open spec fn p247(ts: Seq<TokenView>) -> Seq<TokenView> {
    scan(ts, 0, p247_f())
}

/// Whether rule 0 of [`p247`] applies at `i`.
fn p247_c0_exec(tokens: &Vec<SejongToken>, i: usize) -> (r: bool)
    requires
        i < tokens@.len(),
    ensures
        r == p247_c0(tokens_view(tokens@), i as int),
{
    assert(tokens_view(tokens@).len() == tokens@.len());
    let c50 = surf_is(&tokens[i], "하");
    let c51 = pos_is(&tokens[i], "XSV");
    let c52 = (tokens.len() - i > 1) && surf_is(&tokens[i + 1], "여");
    let c53 = (tokens.len() - i > 1) && pos_is(&tokens[i + 1], "XSN");
    ((c50 && c51) && (c52 && c53))
}

/// One step of [`p247`] at `i`; returns the next position.
fn p247_step_exec(tokens: &mut Vec<SejongToken>, i: usize) -> (next: usize)
    requires
        i < old(tokens)@.len(),
    ensures
        (tokens_view(final(tokens)@), next as int) == p247_step(tokens_view(old(tokens)@), i as int),
        final(tokens)@.len() - next < old(tokens)@.len() - i,
        next <= final(tokens)@.len() + 1,
{
    let len0 = tokens.len();
    assert(tokens_view(tokens@).len() == tokens@.len());
    if p247_c0_exec(tokens, i) {
        let s55 = owned("어");
        let s56 = owned("EC");
        let mut t54 = tokens[i + 1].duplicate();
        t54.surface = s55;
        t54.pos = s56;
        set_token(tokens, i + 1, t54);
        let _len1 = tokens.len();
        return i + 1;
    }
    i + 1
}

/// 여/XSN after 하/XSV is the ending 어/EC.
pub fn apply_p247(tokens: &mut Vec<SejongToken>)
    ensures
        tokens_view(final(tokens)@) == p247(tokens_view(old(tokens)@)),
{
    let ghost orig = tokens_view(tokens@);
    let mut i: usize = 0;
    while i < tokens.len()
        invariant
            i <= tokens@.len() + 1,
            scan(tokens_view(tokens@), i as int, p247_f()) == scan(orig, 0, p247_f()),
        decreases tokens@.len() + 1 - i,
    {
        let ghost before = tokens_view(tokens@);
        assert(before.len() == tokens@.len());
        i = p247_step_exec(tokens, i);
        assert(tokens_view(tokens@).len() == tokens@.len());
    }
}

/// Where rule 0 of [`p257`] applies.
pub open spec fn p257_c0(ts: Seq<TokenView>, i: int) -> bool {
    ((0 <= i < ts.len() && ts[i].pos == "VA"@) && ((0 <= i + 1 < ts.len() && ts[i + 1].surface == "ㅁ"@) && (0 <= i + 1 < ts.len() && ts[i + 1].pos == "ETN"@)) && (0 <= i + 2 < ts.len() && ts[i + 2].pos == "NNG"@) && (0 <= i < ts.len() && is_suffix("쁘"@, ts[i].surface)))
}

/// Where rule 1 of [`p257`] applies.
pub open spec fn p257_c1(ts: Seq<TokenView>, i: int) -> bool {
    ((0 <= i < ts.len() && ts[i].pos == "VA"@) && ((0 <= i + 1 < ts.len() && ts[i + 1].surface == "ㅁ"@) && (0 <= i + 1 < ts.len() && ts[i + 1].pos == "ETN"@)) && (0 <= i + 2 < ts.len() && ts[i + 2].pos == "NNG"@))
}

/// One step of [`p257`] at `i`: the list after it and the next position.
pub open spec fn p257_step(ts: Seq<TokenView>, i: int) -> (Seq<TokenView>, int) {
    if p257_c0(ts, i) {
        (splice(ts, i, 2, seq![plain_view("나쁨"@, "NNG"@, ts[i].start_pos, ts[i + 1].end_pos)]), i + 0)
    } else if p257_c1(ts, i) {
        (splice(ts, i, 2, seq![plain_view((ts[i].surface + "ㅁ"@), "NNG"@, ts[i].start_pos, ts[i + 1].end_pos)]), i + 0)
    } else {
        (ts, i + 1)
    }
}

/// [`p257_step`] as a function value.
pub open spec fn p257_f() -> spec_fn(Seq<TokenView>, int) -> (Seq<TokenView>, int) {
    |ts: Seq<TokenView>, i: int| p257_step(ts, i)
}

/// An adjective with the nominal ending ㅁ before a noun becomes one noun (나쁘/VA ㅁ/ETN 수준/NNG → 나쁨/NNG 수준/NNG).
pub open spec fn p257(ts: Seq<TokenView>) -> Seq<TokenView> {
    scan(ts, 0, p257_f())
}

/// Whether rule 0 of [`p257`] applies at `i`.
fn p257_c0_exec(tokens: &Vec<SejongToken>, i: usize) -> (r: bool)
    requires
        i < tokens@.len(),
    ensures
        r == p257_c0(tokens_view(tokens@), i as int),
{
    assert(tokens_view(tokens@).len() == tokens@.len());
    let c57 = pos_is(&tokens[i], "VA");
    let c58 = (tokens.len() - i > 1) && surf_is(&tokens[i + 1], "ㅁ");
    let c59 = (tokens.len() - i > 1) && pos_is(&tokens[i + 1], "ETN");
    let c60 = (tokens.len() - i > 2) && pos_is(&tokens[i + 2], "NNG");
    let c61 = surf_ends(&tokens[i], "쁘");
    (c57 && (c58 && c59) && c60 && c61)
}

/// Whether rule 1 of [`p257`] applies at `i`.
fn p257_c1_exec(tokens: &Vec<SejongToken>, i: usize) -> (r: bool)
    requires
        i < tokens@.len(),
    ensures
        r == p257_c1(tokens_view(tokens@), i as int),
{
    assert(tokens_view(tokens@).len() == tokens@.len());
    let c62 = pos_is(&tokens[i], "VA");
    let c63 = (tokens.len() - i > 1) && surf_is(&tokens[i + 1], "ㅁ");
    let c64 = (tokens.len() - i > 1) && pos_is(&tokens[i + 1], "ETN");
    let c65 = (tokens.len() - i > 2) && pos_is(&tokens[i + 2], "NNG");
    (c62 && (c63 && c64) && c65)
}

/// One step of [`p257`] at `i`; returns the next position.
fn p257_step_exec(tokens: &mut Vec<SejongToken>, i: usize) -> (next: usize)
    requires
        i < old(tokens)@.len(),
    ensures
        (tokens_view(final(tokens)@), next as int) == p257_step(tokens_view(old(tokens)@), i as int),
        final(tokens)@.len() - next < old(tokens)@.len() - i,
        next <= final(tokens)@.len() + 1,
{
    let len0 = tokens.len();
    assert(tokens_view(tokens@).len() == tokens@.len());
    if p257_c0_exec(tokens, i) {
        let s67 = owned("나쁨");
        let s68 = owned("NNG");
        let n69 = tokens[i].start_pos;
        let n70 = tokens[i + 1].end_pos;
        let t66 = SejongToken::new(s67.as_str(), s68.as_str(), n69, n70);
        let mut nv71: Vec<SejongToken> = Vec::new();
        push_token(&mut nv71, t66);
        splice_tokens(tokens, i, 2, nv71);
        let _len1 = tokens.len();
        return i + 0;
    }
    if p257_c1_exec(tokens, i) {
        let s74 = tokens[i].surface.clone();
        let s75 = owned("ㅁ");
        let s73 = concat(s74.as_str(), s75.as_str());
        let s76 = owned("NNG");
        let n77 = tokens[i].start_pos;
        let n78 = tokens[i + 1].end_pos;
        let t72 = SejongToken::new(s73.as_str(), s76.as_str(), n77, n78);
        let mut nv79: Vec<SejongToken> = Vec::new();
        push_token(&mut nv79, t72);
        splice_tokens(tokens, i, 2, nv79);
        let _len1 = tokens.len();
        return i + 0;
    }
    i + 1
}

/// An adjective with the nominal ending ㅁ before a noun becomes one noun (나쁘/VA ㅁ/ETN 수준/NNG → 나쁨/NNG 수준/NNG).
pub fn apply_p257(tokens: &mut Vec<SejongToken>)
    ensures
        tokens_view(final(tokens)@) == p257(tokens_view(old(tokens)@)),
{
    let ghost orig = tokens_view(tokens@);
    let mut i: usize = 0;
    while i < tokens.len()
        invariant
            i <= tokens@.len() + 1,
            scan(tokens_view(tokens@), i as int, p257_f()) == scan(orig, 0, p257_f()),
        decreases tokens@.len() + 1 - i,
    {
        let ghost before = tokens_view(tokens@);
        assert(before.len() == tokens@.len());
        i = p257_step_exec(tokens, i);
        assert(tokens_view(tokens@).len() == tokens@.len());
    }
}

/// Where rule 0 of [`p249`] applies.
pub open spec fn p249_c0(ts: Seq<TokenView>, i: int) -> bool {
    (((0 <= i < ts.len() && ts[i].surface == "어디"@) && (0 <= i < ts.len() && ts[i].pos == "NP"@)) && ((0 <= i + 1 < ts.len() && ts[i + 1].surface == "서"@) && (0 <= i + 1 < ts.len() && ts[i + 1].pos == "JKB"@)))
}

/// One step of [`p249`] at `i`: the list after it and the next position.
pub open spec fn p249_step(ts: Seq<TokenView>, i: int) -> (Seq<TokenView>, int) {
    if p249_c0(ts, i) {
        (ts.update(i + 1, TokenView { surface: "에서"@, ..ts[i + 1] }), i + 1)
    } else {
        (ts, i + 1)
    }
}

/// [`p249_step`] as a function value.
pub open spec fn p249_f() -> spec_fn(Seq<TokenView>, int) -> (Seq<TokenView>, int) {
    |ts: Seq<TokenView>, i: int| p249_step(ts, i)
}

/// 서/JKB after 어디/NP is written 에서.
pub open spec fn p249(ts: Seq<TokenView>) -> Seq<TokenView> {
    scan(ts, 0, p249_f())
}

/// Whether rule 0 of [`p249`] applies at `i`.
fn p249_c0_exec(tokens: &Vec<SejongToken>, i: usize) -> (r: bool)
    requires
        i < tokens@.len(),
    ensures
        r == p249_c0(tokens_view(tokens@), i as int),
{
    assert(tokens_view(tokens@).len() == tokens@.len());
    let c80 = surf_is(&tokens[i], "어디");
    let c81 = pos_is(&tokens[i], "NP");
    let c82 = (tokens.len() - i > 1) && surf_is(&tokens[i + 1], "서");
    let c83 = (tokens.len() - i > 1) && pos_is(&tokens[i + 1], "JKB");
    ((c80 && c81) && (c82 && c83))
}

/// One step of [`p249`] at `i`; returns the next position.
fn p249_step_exec(tokens: &mut Vec<SejongToken>, i: usize) -> (next: usize)
    requires
        i < old(tokens)@.len(),
    ensures
        (tokens_view(final(tokens)@), next as int) == p249_step(tokens_view(old(tokens)@), i as int),
        final(tokens)@.len() - next < old(tokens)@.len() - i,
        next <= final(tokens)@.len() + 1,
{
    let len0 = tokens.len();
    assert(tokens_view(tokens@).len() == tokens@.len());
    if p249_c0_exec(tokens, i) {
        let s85 = owned("에서");
        let mut t84 = tokens[i + 1].duplicate();
        t84.surface = s85;
        set_token(tokens, i + 1, t84);
        let _len1 = tokens.len();
        return i + 1;
    }
    i + 1
}

/// 서/JKB after 어디/NP is written 에서.
pub fn apply_p249(tokens: &mut Vec<SejongToken>)
    ensures
        tokens_view(final(tokens)@) == p249(tokens_view(old(tokens)@)),
{
    let ghost orig = tokens_view(tokens@);
    let mut i: usize = 0;
    while i < tokens.len()
        invariant
            i <= tokens@.len() + 1,
            scan(tokens_view(tokens@), i as int, p249_f()) == scan(orig, 0, p249_f()),
        decreases tokens@.len() + 1 - i,
    {
        let ghost before = tokens_view(tokens@);
        assert(before.len() == tokens@.len());
        i = p249_step_exec(tokens, i);
        assert(tokens_view(tokens@).len() == tokens@.len());
    }
}

/// The token at `k` after [`p249`]: 서/JKB right after 어디/NP becomes
/// 에서/JKB; every other token is kept.
spec fn p249_expected(ts: Seq<TokenView>, k: int) -> TokenView {
    if 0 < k && ts[k - 1].surface == "어디"@ && ts[k - 1].pos == "NP"@ && ts[k].surface == "서"@
        && ts[k].pos == "JKB"@ {
        TokenView { surface: "에서"@, ..ts[k] }
    } else {
        ts[k]
    }
}

proof fn lemma_p249_scan(ts0: Seq<TokenView>, t: Seq<TokenView>, i: int)
    requires
        0 <= i,
        t.len() == ts0.len(),
        forall|k: int| 0 <= k < t.len() ==> #[trigger] t[k] == if k <= i { p249_expected(ts0, k) } else { ts0[k] },
    ensures
        scan(t, i, p249_f()) == Seq::new(ts0.len(), |k: int| p249_expected(ts0, k)),
    decreases t.len() - i,
{
    reveal_strlit("어디");
    reveal_strlit("에서");
    reveal_strlit("서");
    assert("어디"@[0] != "에서"@[0]);
    if i >= t.len() {
        assert(t =~= Seq::new(ts0.len(), |k: int| p249_expected(ts0, k)));
    } else {
        let (t2, j) = p249_step(t, i);
        assert(t[i].surface == "어디"@ <==> ts0[i].surface == "어디"@);
        assert forall|k: int| 0 <= k < t2.len() implies #[trigger] t2[k] == if k <= j { p249_expected(ts0, k) } else { ts0[k] } by {
            if k == i + 1 {
                assert(t[k] == ts0[k]);
            } else {
                assert(t2[k] == t[k]);
            }
        }
        lemma_p249_scan(ts0, t2, j);
    }
}

/// [`p249`] writes each 서/JKB that directly follows 어디/NP as 에서/JKB
/// (어디/NP 서/JKB → 어디/NP 에서/JKB) and keeps every other token.
pub proof fn lemma_p249_writes_eoseo(ts: Seq<TokenView>)
    ensures
        p249(ts).len() == ts.len(),
        forall|k: int| 0 < k < ts.len() && ts[k - 1].surface == "어디"@ && ts[k - 1].pos == "NP"@
            && ts[k].surface == "서"@ && ts[k].pos == "JKB"@
            ==> #[trigger] p249(ts)[k] == (TokenView { surface: "에서"@, ..ts[k] }),
        forall|k: int| 0 <= k < ts.len() && !(0 < k && ts[k - 1].surface == "어디"@ && ts[k - 1].pos == "NP"@
            && ts[k].surface == "서"@ && ts[k].pos == "JKB"@)
            ==> #[trigger] p249(ts)[k] == ts[k],
        forall|k: int| 0 < k < ts.len() ==> !(p249(ts)[k - 1].surface == "어디"@ && p249(ts)[k - 1].pos == "NP"@
            && #[trigger] p249(ts)[k].surface == "서"@ && p249(ts)[k].pos == "JKB"@),
{
    reveal_strlit("어디");
    reveal_strlit("에서");
    reveal_strlit("서");
    assert("어디"@[0] != "에서"@[0]);
    lemma_p249_scan(ts, ts, 0);
    let r = p249(ts);
    assert forall|k: int| 0 < k < ts.len() implies !(r[k - 1].surface == "어디"@ && r[k - 1].pos == "NP"@
        && #[trigger] r[k].surface == "서"@ && r[k].pos == "JKB"@) by {
        assert(r[k] == p249_expected(ts, k));
        assert(r[k - 1] == p249_expected(ts, k - 1));
    }
}

/// Where rule 0 of [`p250`] applies.
pub open spec fn p250_c0(ts: Seq<TokenView>, i: int) -> bool {
    ((0 <= i < ts.len() && ts[i].pos == "EP"@) && ((0 <= i + 1 < ts.len() && ts[i + 1].surface == "늘"@) && (0 <= i + 1 < ts.len() && ts[i + 1].pos == "VV"@)) && ((0 <= i + 2 < ts.len() && ts[i + 2].surface == "ㄴ데"@) && (0 <= i + 2 < ts.len() && ts[i + 2].pos == "EC"@)))
}

/// One step of [`p250`] at `i`: the list after it and the next position.
pub open spec fn p250_step(ts: Seq<TokenView>, i: int) -> (Seq<TokenView>, int) {
    if p250_c0(ts, i) {
        (splice(ts, i + 1, 2, seq![plain_view("는데"@, "EC"@, ts[i + 1].start_pos, ts[i + 2].end_pos)]), i + 2)
    } else {
        (ts, i + 1)
    }
}

/// [`p250_step`] as a function value.
pub open spec fn p250_f() -> spec_fn(Seq<TokenView>, int) -> (Seq<TokenView>, int) {
    |ts: Seq<TokenView>, i: int| p250_step(ts, i)
}

/// 늘/VV ㄴ데/EC after a pre-final ending is the ending 는데/EC.
pub open spec fn p250(ts: Seq<TokenView>) -> Seq<TokenView> {
    scan(ts, 0, p250_f())
}

/// Whether rule 0 of [`p250`] applies at `i`.
fn p250_c0_exec(tokens: &Vec<SejongToken>, i: usize) -> (r: bool)
    requires
        i < tokens@.len(),
    ensures
        r == p250_c0(tokens_view(tokens@), i as int),
{
    assert(tokens_view(tokens@).len() == tokens@.len());
    let c86 = pos_is(&tokens[i], "EP");
    let c87 = (tokens.len() - i > 1) && surf_is(&tokens[i + 1], "늘");
    let c88 = (tokens.len() - i > 1) && pos_is(&tokens[i + 1], "VV");
    let c89 = (tokens.len() - i > 2) && surf_is(&tokens[i + 2], "ㄴ데");
    let c90 = (tokens.len() - i > 2) && pos_is(&tokens[i + 2], "EC");
    (c86 && (c87 && c88) && (c89 && c90))
}

/// One step of [`p250`] at `i`; returns the next position.
fn p250_step_exec(tokens: &mut Vec<SejongToken>, i: usize) -> (next: usize)
    requires
        i < old(tokens)@.len(),
    ensures
        (tokens_view(final(tokens)@), next as int) == p250_step(tokens_view(old(tokens)@), i as int),
        final(tokens)@.len() - next < old(tokens)@.len() - i,
        next <= final(tokens)@.len() + 1,
{
    let len0 = tokens.len();
    assert(tokens_view(tokens@).len() == tokens@.len());
    if p250_c0_exec(tokens, i) {
        let s92 = owned("는데");
        let s93 = owned("EC");
        let n94 = tokens[i + 1].start_pos;
        let n95 = tokens[i + 2].end_pos;
        let t91 = SejongToken::new(s92.as_str(), s93.as_str(), n94, n95);
        let mut nv96: Vec<SejongToken> = Vec::new();
        push_token(&mut nv96, t91);
        splice_tokens(tokens, i + 1, 2, nv96);
        let _len1 = tokens.len();
        return i + 2;
    }
    i + 1
}

/// 늘/VV ㄴ데/EC after a pre-final ending is the ending 는데/EC.
pub fn apply_p250(tokens: &mut Vec<SejongToken>)
    ensures
        tokens_view(final(tokens)@) == p250(tokens_view(old(tokens)@)),
{
    let ghost orig = tokens_view(tokens@);
    let mut i: usize = 0;
    while i < tokens.len()
        invariant
            i <= tokens@.len() + 1,
            scan(tokens_view(tokens@), i as int, p250_f()) == scan(orig, 0, p250_f()),
        decreases tokens@.len() + 1 - i,
    {
        let ghost before = tokens_view(tokens@);
        assert(before.len() == tokens@.len());
        i = p250_step_exec(tokens, i);
        assert(tokens_view(tokens@).len() == tokens@.len());
    }
}

/// Where rule 0 of [`p251`] applies.
pub open spec fn p251_c0(ts: Seq<TokenView>, i: int) -> bool {
    (((0 <= i < ts.len() && ts[i].surface == "그"@) && (0 <= i < ts.len() && ts[i].pos == "NP"@)) && ((0 <= i + 1 < ts.len() && ts[i + 1].surface == "동안"@) && (0 <= i + 1 < ts.len() && ts[i + 1].pos == "NNG"@)))
}

/// One step of [`p251`] at `i`: the list after it and the next position.
pub open spec fn p251_step(ts: Seq<TokenView>, i: int) -> (Seq<TokenView>, int) {
    if p251_c0(ts, i) {
        (splice(ts, i, 2, seq![plain_view("그동안"@, "NNG"@, ts[i].start_pos, ts[i + 1].end_pos)]), i + 0)
    } else {
        (ts, i + 1)
    }
}

/// [`p251_step`] as a function value.
pub open spec fn p251_f() -> spec_fn(Seq<TokenView>, int) -> (Seq<TokenView>, int) {
    |ts: Seq<TokenView>, i: int| p251_step(ts, i)
}

/// 그/NP 동안/NNG is merged into 그동안/NNG.
pub open spec fn p251(ts: Seq<TokenView>) -> Seq<TokenView> {
    scan(ts, 0, p251_f())
}

/// Whether rule 0 of [`p251`] applies at `i`.
fn p251_c0_exec(tokens: &Vec<SejongToken>, i: usize) -> (r: bool)
    requires
        i < tokens@.len(),
    ensures
        r == p251_c0(tokens_view(tokens@), i as int),
{
    assert(tokens_view(tokens@).len() == tokens@.len());
    let c97 = surf_is(&tokens[i], "그");
    let c98 = pos_is(&tokens[i], "NP");
    let c99 = (tokens.len() - i > 1) && surf_is(&tokens[i + 1], "동안");
    let c100 = (tokens.len() - i > 1) && pos_is(&tokens[i + 1], "NNG");
    ((c97 && c98) && (c99 && c100))
}

/// One step of [`p251`] at `i`; returns the next position.
fn p251_step_exec(tokens: &mut Vec<SejongToken>, i: usize) -> (next: usize)
    requires
        i < old(tokens)@.len(),
    ensures
        (tokens_view(final(tokens)@), next as int) == p251_step(tokens_view(old(tokens)@), i as int),
        final(tokens)@.len() - next < old(tokens)@.len() - i,
        next <= final(tokens)@.len() + 1,
{
    let len0 = tokens.len();
    assert(tokens_view(tokens@).len() == tokens@.len());
    if p251_c0_exec(tokens, i) {
        let s102 = owned("그동안");
        let s103 = owned("NNG");
        let n104 = tokens[i].start_pos;
        let n105 = tokens[i + 1].end_pos;
        let t101 = SejongToken::new(s102.as_str(), s103.as_str(), n104, n105);
        let mut nv106: Vec<SejongToken> = Vec::new();
        push_token(&mut nv106, t101);
        splice_tokens(tokens, i, 2, nv106);
        let _len1 = tokens.len();
        return i + 0;
    }
    i + 1
}

/// 그/NP 동안/NNG is merged into 그동안/NNG.
pub fn apply_p251(tokens: &mut Vec<SejongToken>)
    ensures
        tokens_view(final(tokens)@) == p251(tokens_view(old(tokens)@)),
{
    let ghost orig = tokens_view(tokens@);
    let mut i: usize = 0;
    while i < tokens.len()
        invariant
            i <= tokens@.len() + 1,
            scan(tokens_view(tokens@), i as int, p251_f()) == scan(orig, 0, p251_f()),
        decreases tokens@.len() + 1 - i,
    {
        let ghost before = tokens_view(tokens@);
        assert(before.len() == tokens@.len());
        i = p251_step_exec(tokens, i);
        assert(tokens_view(tokens@).len() == tokens@.len());
    }
}

/// Where rule 0 of [`p210`] applies.
pub open spec fn p210_c0(ts: Seq<TokenView>, i: int) -> bool {
    ((0 <= i < ts.len() && ts[i].pos == "MAJ"@) && (0 <= i < ts.len() && (is_suffix("지만"@, ts[i].surface) && strip_suffix(ts[i].surface, "지만"@).len() > 0)) && !((0 <= i - 1 < ts.len() && ts[i - 1].pos == "MAJ"@) || (0 <= i - 1 < ts.len() && seq!["그러나"@, "그래서"@, "따라서"@, "그리고"@, "또한"@, "그런데"@, "또는"@, "혹은"@].contains(ts[i - 1].surface))) && !((0 <= i + 1 < ts.len() && ts[i + 1].pos == "MAJ"@) || (0 <= i + 1 < ts.len() && seq!["그러나"@, "그래서"@, "따라서"@, "그리고"@, "또한"@, "그런데"@, "또는"@, "혹은"@].contains(ts[i + 1].surface))))
}

/// One step of [`p210`] at `i`: the list after it and the next position.
pub open spec fn p210_step(ts: Seq<TokenView>, i: int) -> (Seq<TokenView>, int) {
    if p210_c0(ts, i) {
        (splice(ts, i, 1, seq![plain_view(strip_suffix(ts[i].surface, "지만"@), "VV"@, ts[i].start_pos, (ts[i].start_pos).saturating_add(encode_utf8(strip_suffix(ts[i].surface, "지만"@)).len() as usize)), plain_view("지만"@, "EC"@, (ts[i].start_pos).saturating_add(encode_utf8(strip_suffix(ts[i].surface, "지만"@)).len() as usize), ts[i].end_pos)]), i + 2)
    } else {
        (ts, i + 1)
    }
}

/// [`p210_step`] as a function value.
pub open spec fn p210_f() -> spec_fn(Seq<TokenView>, int) -> (Seq<TokenView>, int) {
    |ts: Seq<TokenView>, i: int| p210_step(ts, i)
}

/// A conjunctive adverb ending in 지만 with no conjunctive adverb beside it is a verb stem with the ending 지만/EC (하지만 가지만 → 하/VV 지만/EC 가/VV 지만/EC).
pub open spec fn p210(ts: Seq<TokenView>) -> Seq<TokenView> {
    scan(ts, 0, p210_f())
}

/// Whether rule 0 of [`p210`] applies at `i`.
fn p210_c0_exec(tokens: &Vec<SejongToken>, i: usize) -> (r: bool)
    requires
        i < tokens@.len(),
    ensures
        r == p210_c0(tokens_view(tokens@), i as int),
{
    assert(tokens_view(tokens@).len() == tokens@.len());
    let c107 = pos_is(&tokens[i], "MAJ");
    let c108 = (surf_ends(&tokens[i], "지만") && strip_suffix_exec(tokens[i].surface.as_str(), "지만").unicode_len() > 0);
    let c109 = (i >= 1) && pos_is(&tokens[i - 1], "MAJ");
    let l111: [&str; 8] = ["그러나", "그래서", "따라서", "그리고", "또한", "그런데", "또는", "혹은"];
    assert(crate::tag_map::strs_view(l111@) =~= seq!["그러나"@, "그래서"@, "따라서"@, "그리고"@, "또한"@, "그런데"@, "또는"@, "혹은"@]);
    let c110 = (i >= 1) && in_list(&l111, tokens[i - 1].surface.as_str());
    let c112 = (tokens.len() - i > 1) && pos_is(&tokens[i + 1], "MAJ");
    let l114: [&str; 8] = ["그러나", "그래서", "따라서", "그리고", "또한", "그런데", "또는", "혹은"];
    assert(crate::tag_map::strs_view(l114@) =~= seq!["그러나"@, "그래서"@, "따라서"@, "그리고"@, "또한"@, "그런데"@, "또는"@, "혹은"@]);
    let c113 = (tokens.len() - i > 1) && in_list(&l114, tokens[i + 1].surface.as_str());
    (c107 && c108 && !(c109 || c110) && !(c112 || c113))
}

/// One step of [`p210`] at `i`; returns the next position.
fn p210_step_exec(tokens: &mut Vec<SejongToken>, i: usize) -> (next: usize)
    requires
        i < old(tokens)@.len(),
    ensures
        (tokens_view(final(tokens)@), next as int) == p210_step(tokens_view(old(tokens)@), i as int),
        final(tokens)@.len() - next < old(tokens)@.len() - i,
        next <= final(tokens)@.len() + 1,
{
    let len0 = tokens.len();
    assert(tokens_view(tokens@).len() == tokens@.len());
    if p210_c0_exec(tokens, i) {
        let s117 = tokens[i].surface.clone();
        let s116 = strip_suffix_exec(s117.as_str(), "지만");
        let s118 = owned("VV");
        let n119 = tokens[i].start_pos;
        let n121 = tokens[i].start_pos;
        let s123 = tokens[i].surface.clone();
        let s122 = strip_suffix_exec(s123.as_str(), "지만");
        let n120 = n121.saturating_add(s122.as_str().len());
        let t115 = SejongToken::new(s116.as_str(), s118.as_str(), n119, n120);
        let s125 = owned("지만");
        let s126 = owned("EC");
        let n128 = tokens[i].start_pos;
        let s130 = tokens[i].surface.clone();
        let s129 = strip_suffix_exec(s130.as_str(), "지만");
        let n127 = n128.saturating_add(s129.as_str().len());
        let n131 = tokens[i].end_pos;
        let t124 = SejongToken::new(s125.as_str(), s126.as_str(), n127, n131);
        let mut nv132: Vec<SejongToken> = Vec::new();
        push_token(&mut nv132, t115);
        push_token(&mut nv132, t124);
        splice_tokens(tokens, i, 1, nv132);
        let _len1 = tokens.len();
        return i + 2;
    }
    i + 1
}

/// A conjunctive adverb ending in 지만 with no conjunctive adverb beside it is a verb stem with the ending 지만/EC (하지만 가지만 → 하/VV 지만/EC 가/VV 지만/EC).
pub fn apply_p210(tokens: &mut Vec<SejongToken>)
    ensures
        tokens_view(final(tokens)@) == p210(tokens_view(old(tokens)@)),
{
    let ghost orig = tokens_view(tokens@);
    let mut i: usize = 0;
    while i < tokens.len()
        invariant
            i <= tokens@.len() + 1,
            scan(tokens_view(tokens@), i as int, p210_f()) == scan(orig, 0, p210_f()),
        decreases tokens@.len() + 1 - i,
    {
        let ghost before = tokens_view(tokens@);
        assert(before.len() == tokens@.len());
        i = p210_step_exec(tokens, i);
        assert(tokens_view(tokens@).len() == tokens@.len());
    }
}

/// Where rule 0 of [`p211`] applies.
pub open spec fn p211_c0(ts: Seq<TokenView>, i: int) -> bool {
    ((0 <= i < ts.len() && ts[i].pos == "NNG"@) && ((0 <= i + 1 < ts.len() && ts[i + 1].surface == "만"@) && (0 <= i + 1 < ts.len() && ts[i + 1].pos == "JX"@)) && (0 <= i < ts.len() && (is_suffix("지"@, ts[i].surface) && seq!["가"@, "보"@, "하"@, "오"@, "서"@, "먹"@, "읽"@].contains(strip_suffix(ts[i].surface, "지"@)))))
}

/// One step of [`p211`] at `i`: the list after it and the next position.
pub open spec fn p211_step(ts: Seq<TokenView>, i: int) -> (Seq<TokenView>, int) {
    if p211_c0(ts, i) {
        (splice(ts, i, 2, seq![plain_view(strip_suffix(ts[i].surface, "지"@), "VV"@, ts[i].start_pos, (ts[i].start_pos).saturating_add(encode_utf8(strip_suffix(ts[i].surface, "지"@)).len() as usize)), plain_view("지만"@, "EC"@, (ts[i].start_pos).saturating_add(encode_utf8(strip_suffix(ts[i].surface, "지"@)).len() as usize), ts[i + 1].end_pos)]), i + 2)
    } else {
        (ts, i + 1)
    }
}

/// [`p211_step`] as a function value.
pub open spec fn p211_f() -> spec_fn(Seq<TokenView>, int) -> (Seq<TokenView>, int) {
    |ts: Seq<TokenView>, i: int| p211_step(ts, i)
}

/// A noun made of a verb stem and 지 before 만/JX is the stem with the ending 지만/EC (가지/NNG 만/JX → 가/VV 지만/EC).
pub open spec fn p211(ts: Seq<TokenView>) -> Seq<TokenView> {
    scan(ts, 0, p211_f())
}

/// Whether rule 0 of [`p211`] applies at `i`.
fn p211_c0_exec(tokens: &Vec<SejongToken>, i: usize) -> (r: bool)
    requires
        i < tokens@.len(),
    ensures
        r == p211_c0(tokens_view(tokens@), i as int),
{
    assert(tokens_view(tokens@).len() == tokens@.len());
    let c133 = pos_is(&tokens[i], "NNG");
    let c134 = (tokens.len() - i > 1) && surf_is(&tokens[i + 1], "만");
    let c135 = (tokens.len() - i > 1) && pos_is(&tokens[i + 1], "JX");
    let l137: [&str; 7] = ["가", "보", "하", "오", "서", "먹", "읽"];
    assert(crate::tag_map::strs_view(l137@) =~= seq!["가"@, "보"@, "하"@, "오"@, "서"@, "먹"@, "읽"@]);
    let c136 = (surf_ends(&tokens[i], "지") && in_list(&l137, strip_suffix_exec(tokens[i].surface.as_str(), "지").as_str()));
    (c133 && (c134 && c135) && c136)
}

/// One step of [`p211`] at `i`; returns the next position.
fn p211_step_exec(tokens: &mut Vec<SejongToken>, i: usize) -> (next: usize)
    requires
        i < old(tokens)@.len(),
    ensures
        (tokens_view(final(tokens)@), next as int) == p211_step(tokens_view(old(tokens)@), i as int),
        final(tokens)@.len() - next < old(tokens)@.len() - i,
        next <= final(tokens)@.len() + 1,
{
    let len0 = tokens.len();
    assert(tokens_view(tokens@).len() == tokens@.len());
    if p211_c0_exec(tokens, i) {
        let s140 = tokens[i].surface.clone();
        let s139 = strip_suffix_exec(s140.as_str(), "지");
        let s141 = owned("VV");
        let n142 = tokens[i].start_pos;
        let n144 = tokens[i].start_pos;
        let s146 = tokens[i].surface.clone();
        let s145 = strip_suffix_exec(s146.as_str(), "지");
        let n143 = n144.saturating_add(s145.as_str().len());
        let t138 = SejongToken::new(s139.as_str(), s141.as_str(), n142, n143);
        let s148 = owned("지만");
        let s149 = owned("EC");
        let n151 = tokens[i].start_pos;
        let s153 = tokens[i].surface.clone();
        let s152 = strip_suffix_exec(s153.as_str(), "지");
        let n150 = n151.saturating_add(s152.as_str().len());
        let n154 = tokens[i + 1].end_pos;
        let t147 = SejongToken::new(s148.as_str(), s149.as_str(), n150, n154);
        let mut nv155: Vec<SejongToken> = Vec::new();
        push_token(&mut nv155, t138);
        push_token(&mut nv155, t147);
        splice_tokens(tokens, i, 2, nv155);
        let _len1 = tokens.len();
        return i + 2;
    }
    i + 1
}

/// A noun made of a verb stem and 지 before 만/JX is the stem with the ending 지만/EC (가지/NNG 만/JX → 가/VV 지만/EC).
pub fn apply_p211(tokens: &mut Vec<SejongToken>)
    ensures
        tokens_view(final(tokens)@) == p211(tokens_view(old(tokens)@)),
{
    let ghost orig = tokens_view(tokens@);
    let mut i: usize = 0;
    while i < tokens.len()
        invariant
            i <= tokens@.len() + 1,
            scan(tokens_view(tokens@), i as int, p211_f()) == scan(orig, 0, p211_f()),
        decreases tokens@.len() + 1 - i,
    {
        let ghost before = tokens_view(tokens@);
        assert(before.len() == tokens@.len());
        i = p211_step_exec(tokens, i);
        assert(tokens_view(tokens@).len() == tokens@.len());
    }
}

/// Context-based corrections of converted tokens, pass after pass.
pub open spec fn spec_apply_context_corrections(ts: Seq<TokenView>) -> Seq<TokenView> {
    sentence_final::spec_apply_sentence_final_corrections(post_conjugation::spec_apply_post_conjugation_corrections(conjugation::spec_apply_conjugation_corrections(suffix_and_dependency::spec_apply_suffix_and_dependency_corrections(compound_and_irregular::spec_apply_compound_and_irregular_corrections(verb_and_morpheme::spec_apply_verb_and_morpheme_corrections(particle_and_ending::spec_apply_particle_and_ending_corrections(p211(p210(tag_normalization::spec_apply_tag_normalization_corrections(p251(p250(p249(p257(pos_reclassification::spec_apply_pos_reclassification_corrections(compound_noun::spec_apply_compound_noun_corrections(p247(p191(p194(p193(p188(p187(p185(ts)))))))))))))))))))))))
}

/// Context-based corrections of converted tokens, pass after pass.
pub fn apply_context_corrections(tokens: &mut Vec<SejongToken>)
    ensures
        tokens_view(final(tokens)@) == spec_apply_context_corrections(tokens_view(old(tokens)@)),
{
    apply_p185(tokens);
    apply_p187(tokens);
    apply_p188(tokens);
    apply_p193(tokens);
    apply_p194(tokens);
    apply_p191(tokens);
    apply_p247(tokens);
    compound_noun::apply_compound_noun_corrections(tokens);
    pos_reclassification::apply_pos_reclassification_corrections(tokens);
    apply_p257(tokens);
    apply_p249(tokens);
    apply_p250(tokens);
    apply_p251(tokens);
    tag_normalization::apply_tag_normalization_corrections(tokens);
    apply_p210(tokens);
    apply_p211(tokens);
    particle_and_ending::apply_particle_and_ending_corrections(tokens);
    verb_and_morpheme::apply_verb_and_morpheme_corrections(tokens);
    compound_and_irregular::apply_compound_and_irregular_corrections(tokens);
    suffix_and_dependency::apply_suffix_and_dependency_corrections(tokens);
    conjugation::apply_conjugation_corrections(tokens);
    post_conjugation::apply_post_conjugation_corrections(tokens);
    sentence_final::apply_sentence_final_corrections(tokens);
}

} // verus!
