//! Verb suffixes, connective and final endings, auxiliary verbs.

use vstd::prelude::*;
use vstd::utf8::encode_utf8;
use crate::converter::tokens_view;
use crate::rewrite::{in_list, lemma_scan_none_bad, lemma_splice_none_bad, lemma_update_none_bad, map_where, none_bad, pos_is, push_token, scan, set_token, splice, splice_tokens, surf_is};
use crate::text::{concat, owned};
use crate::types::{plain_view, SejongToken, TokenView};

verus! {

/// Where [`p89`] changes a token.
pub open spec fn p89_c(ts: Seq<TokenView>, i: int) -> bool {
    ((0 <= i < ts.len() && seq!["어요"@, "아요"@].contains(ts[i].surface)) && (0 <= i < ts.len() && ts[i].pos == "EC"@) && !(0 <= i + 1 < ts.len() && true))
}

/// The token [`p89`] puts at `i`.
pub open spec fn p89_t(ts: Seq<TokenView>, i: int) -> TokenView {
    TokenView { pos: "EF"@, ..ts[i] }
}

/// 어요/EC or 아요/EC at the end of the sentence is a final ending (EF).
pub open spec fn p89(ts: Seq<TokenView>) -> Seq<TokenView> {
    map_where(ts, |ts: Seq<TokenView>, i: int| p89_c(ts, i), |ts: Seq<TokenView>, i: int| p89_t(ts, i))
}

/// Whether [`p89`] changes the token at `i`.
fn p89_c_exec(tokens: &Vec<SejongToken>, i: usize) -> (r: bool)
    requires
        i < tokens@.len(),
    ensures
        r == p89_c(tokens_view(tokens@), i as int),
{
    assert(tokens_view(tokens@).len() == tokens@.len());
    let l1: [&str; 2] = ["어요", "아요"];
    assert(crate::tag_map::strs_view(l1@) =~= seq!["어요"@, "아요"@]);
    let c0 = in_list(&l1, tokens[i].surface.as_str());
    let c2 = pos_is(&tokens[i], "EC");
    let c3 = (tokens.len() - i > 1) && true;
    (c0 && c2 && !c3)
}

/// The token [`p89`] puts at `i`.
fn p89_t_exec(tokens: &Vec<SejongToken>, i: usize) -> (t: SejongToken)
    requires
        i < tokens@.len(),
        p89_c(tokens_view(tokens@), i as int),
    ensures
        t@ == p89_t(tokens_view(tokens@), i as int),
{
    assert(tokens_view(tokens@).len() == tokens@.len());
    let s5 = owned("EF");
    let mut t4 = tokens[i].duplicate();
    t4.pos = s5;
    t4
}

/// 어요/EC or 아요/EC at the end of the sentence is a final ending (EF).
pub fn apply_p89(tokens: &mut Vec<SejongToken>)
    ensures
        tokens_view(final(tokens)@) == p89(tokens_view(old(tokens)@)),
{
    let ghost orig = tokens_view(tokens@);
    let mut out: Vec<SejongToken> = Vec::new();
    let mut k: usize = 0;
    while k < tokens.len()
        invariant
            k <= tokens@.len(),
            orig == tokens_view(tokens@),
            tokens_view(out@) == p89(orig).take(k as int),
        decreases tokens@.len() - k,
    {
        let t = if p89_c_exec(tokens, k) { p89_t_exec(tokens, k) } else { tokens[k].duplicate() };
        push_token(&mut out, t);
        k += 1;
        assert(tokens_view(out@) =~= p89(orig).take(k as int));
    }
    assert(p89(orig).take(k as int) =~= p89(orig));
    *tokens = out;
}

/// Where [`p91`] changes a token.
pub open spec fn p91_c(ts: Seq<TokenView>, i: int) -> bool {
    ((0 <= i < ts.len() && seq!["는다"@, "ㄴ다"@, "ᆫ다"@].contains(ts[i].surface)) && (0 <= i < ts.len() && ts[i].pos == "EC"@))
}

/// The token [`p91`] puts at `i`.
pub open spec fn p91_t(ts: Seq<TokenView>, i: int) -> TokenView {
    TokenView { pos: "EF"@, ..ts[i] }
}

/// 는다, ㄴ다 and ᆫ다 tagged EC are final endings (EF).
pub open spec fn p91(ts: Seq<TokenView>) -> Seq<TokenView> {
    map_where(ts, |ts: Seq<TokenView>, i: int| p91_c(ts, i), |ts: Seq<TokenView>, i: int| p91_t(ts, i))
}

/// Whether [`p91`] changes the token at `i`.
fn p91_c_exec(tokens: &Vec<SejongToken>, i: usize) -> (r: bool)
    requires
        i < tokens@.len(),
    ensures
        r == p91_c(tokens_view(tokens@), i as int),
{
    assert(tokens_view(tokens@).len() == tokens@.len());
    let l7: [&str; 3] = ["는다", "ㄴ다", "ᆫ다"];
    assert(crate::tag_map::strs_view(l7@) =~= seq!["는다"@, "ㄴ다"@, "ᆫ다"@]);
    let c6 = in_list(&l7, tokens[i].surface.as_str());
    let c8 = pos_is(&tokens[i], "EC");
    (c6 && c8)
}

/// The token [`p91`] puts at `i`.
fn p91_t_exec(tokens: &Vec<SejongToken>, i: usize) -> (t: SejongToken)
    requires
        i < tokens@.len(),
        p91_c(tokens_view(tokens@), i as int),
    ensures
        t@ == p91_t(tokens_view(tokens@), i as int),
{
    assert(tokens_view(tokens@).len() == tokens@.len());
    let s10 = owned("EF");
    let mut t9 = tokens[i].duplicate();
    t9.pos = s10;
    t9
}

/// 는다, ㄴ다 and ᆫ다 tagged EC are final endings (EF).
pub fn apply_p91(tokens: &mut Vec<SejongToken>)
    ensures
        tokens_view(final(tokens)@) == p91(tokens_view(old(tokens)@)),
{
    let ghost orig = tokens_view(tokens@);
    let mut out: Vec<SejongToken> = Vec::new();
    let mut k: usize = 0;
    while k < tokens.len()
        invariant
            k <= tokens@.len(),
            orig == tokens_view(tokens@),
            tokens_view(out@) == p91(orig).take(k as int),
        decreases tokens@.len() - k,
    {
        let t = if p91_c_exec(tokens, k) { p91_t_exec(tokens, k) } else { tokens[k].duplicate() };
        push_token(&mut out, t);
        k += 1;
        assert(tokens_view(out@) =~= p91(orig).take(k as int));
    }
    assert(p91(orig).take(k as int) =~= p91(orig));
    *tokens = out;
}

/// Where [`p92`] changes a token.
pub open spec fn p92_c(ts: Seq<TokenView>, i: int) -> bool {
    (((0 <= i < ts.len() && ts[i].surface == "하"@) && (0 <= i < ts.len() && ts[i].pos == "VV"@)) && (0 <= i - 1 < ts.len() && ts[i - 1].pos == "NNG"@) && (0 <= i + 1 < ts.len() && seq!["어요"@, "아요"@].contains(ts[i + 1].surface)) && (0 <= i + 1 < ts.len() && ts[i + 1].pos == "EF"@))
}

/// The token [`p92`] puts at `i`.
pub open spec fn p92_t(ts: Seq<TokenView>, i: int) -> TokenView {
    TokenView { pos: "XSV"@, ..ts[i] }
}

/// 하/VV between a common noun and 어요/EF or 아요/EF is the suffix 하/XSV.
pub open spec fn p92(ts: Seq<TokenView>) -> Seq<TokenView> {
    map_where(ts, |ts: Seq<TokenView>, i: int| p92_c(ts, i), |ts: Seq<TokenView>, i: int| p92_t(ts, i))
}

/// Whether [`p92`] changes the token at `i`.
fn p92_c_exec(tokens: &Vec<SejongToken>, i: usize) -> (r: bool)
    requires
        i < tokens@.len(),
    ensures
        r == p92_c(tokens_view(tokens@), i as int),
{
    assert(tokens_view(tokens@).len() == tokens@.len());
    let c11 = surf_is(&tokens[i], "하");
    let c12 = pos_is(&tokens[i], "VV");
    let c13 = (i >= 1) && pos_is(&tokens[i - 1], "NNG");
    let l15: [&str; 2] = ["어요", "아요"];
    assert(crate::tag_map::strs_view(l15@) =~= seq!["어요"@, "아요"@]);
    let c14 = (tokens.len() - i > 1) && in_list(&l15, tokens[i + 1].surface.as_str());
    let c16 = (tokens.len() - i > 1) && pos_is(&tokens[i + 1], "EF");
    ((c11 && c12) && c13 && c14 && c16)
}

/// The token [`p92`] puts at `i`.
fn p92_t_exec(tokens: &Vec<SejongToken>, i: usize) -> (t: SejongToken)
    requires
        i < tokens@.len(),
        p92_c(tokens_view(tokens@), i as int),
    ensures
        t@ == p92_t(tokens_view(tokens@), i as int),
{
    assert(tokens_view(tokens@).len() == tokens@.len());
    let s18 = owned("XSV");
    let mut t17 = tokens[i].duplicate();
    t17.pos = s18;
    t17
}

/// 하/VV between a common noun and 어요/EF or 아요/EF is the suffix 하/XSV.
pub fn apply_p92(tokens: &mut Vec<SejongToken>)
    ensures
        tokens_view(final(tokens)@) == p92(tokens_view(old(tokens)@)),
{
    let ghost orig = tokens_view(tokens@);
    let mut out: Vec<SejongToken> = Vec::new();
    let mut k: usize = 0;
    while k < tokens.len()
        invariant
            k <= tokens@.len(),
            orig == tokens_view(tokens@),
            tokens_view(out@) == p92(orig).take(k as int),
        decreases tokens@.len() - k,
    {
        let t = if p92_c_exec(tokens, k) { p92_t_exec(tokens, k) } else { tokens[k].duplicate() };
        push_token(&mut out, t);
        k += 1;
        assert(tokens_view(out@) =~= p92(orig).take(k as int));
    }
    assert(p92(orig).take(k as int) =~= p92(orig));
    *tokens = out;
}

/// Where [`p93`] changes a token.
pub open spec fn p93_c(ts: Seq<TokenView>, i: int) -> bool {
    (((0 <= i < ts.len() && ts[i].surface == "하"@) && (0 <= i < ts.len() && ts[i].pos == "VV"@)) && (0 <= i - 1 < ts.len() && ts[i - 1].pos == "NNG"@) && (0 <= i + 1 < ts.len() && ts[i + 1].pos == "EC"@) && (0 <= i + 2 < ts.len() && ts[i + 2].pos == "VX"@))
}

/// The token [`p93`] puts at `i`.
pub open spec fn p93_t(ts: Seq<TokenView>, i: int) -> TokenView {
    TokenView { pos: "XSV"@, ..ts[i] }
}

/// 하/VV between a common noun and a connective ending followed by an auxiliary is the suffix 하/XSV.
pub open spec fn p93(ts: Seq<TokenView>) -> Seq<TokenView> {
    map_where(ts, |ts: Seq<TokenView>, i: int| p93_c(ts, i), |ts: Seq<TokenView>, i: int| p93_t(ts, i))
}

/// Whether [`p93`] changes the token at `i`.
fn p93_c_exec(tokens: &Vec<SejongToken>, i: usize) -> (r: bool)
    requires
        i < tokens@.len(),
    ensures
        r == p93_c(tokens_view(tokens@), i as int),
{
    assert(tokens_view(tokens@).len() == tokens@.len());
    let c19 = surf_is(&tokens[i], "하");
    let c20 = pos_is(&tokens[i], "VV");
    let c21 = (i >= 1) && pos_is(&tokens[i - 1], "NNG");
    let c22 = (tokens.len() - i > 1) && pos_is(&tokens[i + 1], "EC");
    let c23 = (tokens.len() - i > 2) && pos_is(&tokens[i + 2], "VX");
    ((c19 && c20) && c21 && c22 && c23)
}

/// The token [`p93`] puts at `i`.
fn p93_t_exec(tokens: &Vec<SejongToken>, i: usize) -> (t: SejongToken)
    requires
        i < tokens@.len(),
        p93_c(tokens_view(tokens@), i as int),
    ensures
        t@ == p93_t(tokens_view(tokens@), i as int),
{
    assert(tokens_view(tokens@).len() == tokens@.len());
    let s25 = owned("XSV");
    let mut t24 = tokens[i].duplicate();
    t24.pos = s25;
    t24
}

/// 하/VV between a common noun and a connective ending followed by an auxiliary is the suffix 하/XSV.
pub fn apply_p93(tokens: &mut Vec<SejongToken>)
    ensures
        tokens_view(final(tokens)@) == p93(tokens_view(old(tokens)@)),
{
    let ghost orig = tokens_view(tokens@);
    let mut out: Vec<SejongToken> = Vec::new();
    let mut k: usize = 0;
    while k < tokens.len()
        invariant
            k <= tokens@.len(),
            orig == tokens_view(tokens@),
            tokens_view(out@) == p93(orig).take(k as int),
        decreases tokens@.len() - k,
    {
        let t = if p93_c_exec(tokens, k) { p93_t_exec(tokens, k) } else { tokens[k].duplicate() };
        push_token(&mut out, t);
        k += 1;
        assert(tokens_view(out@) =~= p93(orig).take(k as int));
    }
    assert(p93(orig).take(k as int) =~= p93(orig));
    *tokens = out;
}

/// Where rule 0 of [`p94`] applies.
pub open spec fn p94_c0(ts: Seq<TokenView>, i: int) -> bool {
    (((0 <= i < ts.len() && ts[i].surface == "이"@) && (0 <= i < ts.len() && ts[i].pos == "NP"@)) && ((0 <= i + 1 < ts.len() && ts[i + 1].surface == "이"@) && (0 <= i + 1 < ts.len() && ts[i + 1].pos == "VCP"@)) && (0 <= i - 1 < ts.len() && ts[i - 1].pos == "NNG"@))
}

/// One step of [`p94`] at `i`: the list after it and the next position.
pub open spec fn p94_step(ts: Seq<TokenView>, i: int) -> (Seq<TokenView>, int) {
    if p94_c0(ts, i) {
        (splice(ts, i, 1, seq![]), i + 1)
    } else {
        (ts, i + 1)
    }
}

/// [`p94_step`] as a function value.
pub open spec fn p94_f() -> spec_fn(Seq<TokenView>, int) -> (Seq<TokenView>, int) {
    |ts: Seq<TokenView>, i: int| p94_step(ts, i)
}

/// 이/NP between a common noun and 이/VCP is dropped.
pub open spec fn p94(ts: Seq<TokenView>) -> Seq<TokenView> {
    scan(ts, 0, p94_f())
}

/// Whether rule 0 of [`p94`] applies at `i`.
fn p94_c0_exec(tokens: &Vec<SejongToken>, i: usize) -> (r: bool)
    requires
        i < tokens@.len(),
    ensures
        r == p94_c0(tokens_view(tokens@), i as int),
{
    assert(tokens_view(tokens@).len() == tokens@.len());
    let c26 = surf_is(&tokens[i], "이");
    let c27 = pos_is(&tokens[i], "NP");
    let c28 = (tokens.len() - i > 1) && surf_is(&tokens[i + 1], "이");
    let c29 = (tokens.len() - i > 1) && pos_is(&tokens[i + 1], "VCP");
    let c30 = (i >= 1) && pos_is(&tokens[i - 1], "NNG");
    ((c26 && c27) && (c28 && c29) && c30)
}

/// One step of [`p94`] at `i`; returns the next position.
fn p94_step_exec(tokens: &mut Vec<SejongToken>, i: usize) -> (next: usize)
    requires
        i < old(tokens)@.len(),
    ensures
        (tokens_view(final(tokens)@), next as int) == p94_step(tokens_view(old(tokens)@), i as int),
        final(tokens)@.len() - next < old(tokens)@.len() - i,
        next <= final(tokens)@.len() + 1,
{
    let len0 = tokens.len();
    assert(tokens_view(tokens@).len() == tokens@.len());
    if p94_c0_exec(tokens, i) {
        let mut nv31: Vec<SejongToken> = Vec::new();
        splice_tokens(tokens, i, 1, nv31);
        let _len1 = tokens.len();
        return i + 1;
    }
    i + 1
}

/// 이/NP between a common noun and 이/VCP is dropped.
pub fn apply_p94(tokens: &mut Vec<SejongToken>)
    ensures
        tokens_view(final(tokens)@) == p94(tokens_view(old(tokens)@)),
{
    let ghost orig = tokens_view(tokens@);
    let mut i: usize = 0;
    while i < tokens.len()
        invariant
            i <= tokens@.len() + 1,
            scan(tokens_view(tokens@), i as int, p94_f()) == scan(orig, 0, p94_f()),
        decreases tokens@.len() + 1 - i,
    {
        let ghost before = tokens_view(tokens@);
        assert(before.len() == tokens@.len());
        i = p94_step_exec(tokens, i);
        assert(tokens_view(tokens@).len() == tokens@.len());
    }
}

/// Where [`p95`] changes a token.
pub open spec fn p95_c(ts: Seq<TokenView>, i: int) -> bool {
    (((0 <= i < ts.len() && ts[i].surface == "하"@) && (0 <= i < ts.len() && ts[i].pos == "VV"@)) && (0 <= i - 1 < ts.len() && ts[i - 1].pos == "NNG"@) && (0 <= i + 1 < ts.len() && ts[i + 1].pos == "EC"@) && (!(0 <= i + 1 < ts.len() && seq!["아야"@, "어야"@, "야"@].contains(ts[i + 1].surface)) || ((0 <= i + 2 < ts.len() && ts[i + 2].surface == "하"@) && (0 <= i + 2 < ts.len() && ts[i + 2].pos == "VV"@))))
}

/// The token [`p95`] puts at `i`.
pub open spec fn p95_t(ts: Seq<TokenView>, i: int) -> TokenView {
    TokenView { pos: "XSV"@, ..ts[i] }
}

/// 하/VV between a common noun and a connective ending is the suffix 하/XSV, except before 아야, 어야 or 야 unless 하/VV follows.
pub open spec fn p95(ts: Seq<TokenView>) -> Seq<TokenView> {
    map_where(ts, |ts: Seq<TokenView>, i: int| p95_c(ts, i), |ts: Seq<TokenView>, i: int| p95_t(ts, i))
}

/// Whether [`p95`] changes the token at `i`.
fn p95_c_exec(tokens: &Vec<SejongToken>, i: usize) -> (r: bool)
    requires
        i < tokens@.len(),
    ensures
        r == p95_c(tokens_view(tokens@), i as int),
{
    assert(tokens_view(tokens@).len() == tokens@.len());
    let c32 = surf_is(&tokens[i], "하");
    let c33 = pos_is(&tokens[i], "VV");
    let c34 = (i >= 1) && pos_is(&tokens[i - 1], "NNG");
    let c35 = (tokens.len() - i > 1) && pos_is(&tokens[i + 1], "EC");
    let l37: [&str; 3] = ["아야", "어야", "야"];
    assert(crate::tag_map::strs_view(l37@) =~= seq!["아야"@, "어야"@, "야"@]);
    let c36 = (tokens.len() - i > 1) && in_list(&l37, tokens[i + 1].surface.as_str());
    let c38 = (tokens.len() - i > 2) && surf_is(&tokens[i + 2], "하");
    let c39 = (tokens.len() - i > 2) && pos_is(&tokens[i + 2], "VV");
    ((c32 && c33) && c34 && c35 && (!c36 || (c38 && c39)))
}

/// The token [`p95`] puts at `i`.
fn p95_t_exec(tokens: &Vec<SejongToken>, i: usize) -> (t: SejongToken)
    requires
        i < tokens@.len(),
        p95_c(tokens_view(tokens@), i as int),
    ensures
        t@ == p95_t(tokens_view(tokens@), i as int),
{
    assert(tokens_view(tokens@).len() == tokens@.len());
    let s41 = owned("XSV");
    let mut t40 = tokens[i].duplicate();
    t40.pos = s41;
    t40
}

/// 하/VV between a common noun and a connective ending is the suffix 하/XSV, except before 아야, 어야 or 야 unless 하/VV follows.
pub fn apply_p95(tokens: &mut Vec<SejongToken>)
    ensures
        tokens_view(final(tokens)@) == p95(tokens_view(old(tokens)@)),
{
    let ghost orig = tokens_view(tokens@);
    let mut out: Vec<SejongToken> = Vec::new();
    let mut k: usize = 0;
    while k < tokens.len()
        invariant
            k <= tokens@.len(),
            orig == tokens_view(tokens@),
            tokens_view(out@) == p95(orig).take(k as int),
        decreases tokens@.len() - k,
    {
        let t = if p95_c_exec(tokens, k) { p95_t_exec(tokens, k) } else { tokens[k].duplicate() };
        push_token(&mut out, t);
        k += 1;
        assert(tokens_view(out@) =~= p95(orig).take(k as int));
    }
    assert(p95(orig).take(k as int) =~= p95(orig));
    *tokens = out;
}

/// Where [`p96`] changes a token.
pub open spec fn p96_c(ts: Seq<TokenView>, i: int) -> bool {
    (((0 <= i < ts.len() && ts[i].surface == "되"@) && (0 <= i < ts.len() && ts[i].pos == "VV"@)) && (0 <= i - 1 < ts.len() && ts[i - 1].pos == "NNG"@) && (0 <= i + 1 < ts.len() && ts[i + 1].pos == "EC"@))
}

/// The token [`p96`] puts at `i`.
pub open spec fn p96_t(ts: Seq<TokenView>, i: int) -> TokenView {
    TokenView { pos: "XSV"@, ..ts[i] }
}

/// 되/VV between a common noun and a connective ending is the suffix 되/XSV.
pub open spec fn p96(ts: Seq<TokenView>) -> Seq<TokenView> {
    map_where(ts, |ts: Seq<TokenView>, i: int| p96_c(ts, i), |ts: Seq<TokenView>, i: int| p96_t(ts, i))
}

/// Whether [`p96`] changes the token at `i`.
fn p96_c_exec(tokens: &Vec<SejongToken>, i: usize) -> (r: bool)
    requires
        i < tokens@.len(),
    ensures
        r == p96_c(tokens_view(tokens@), i as int),
{
    assert(tokens_view(tokens@).len() == tokens@.len());
    let c42 = surf_is(&tokens[i], "되");
    let c43 = pos_is(&tokens[i], "VV");
    let c44 = (i >= 1) && pos_is(&tokens[i - 1], "NNG");
    let c45 = (tokens.len() - i > 1) && pos_is(&tokens[i + 1], "EC");
    ((c42 && c43) && c44 && c45)
}

/// The token [`p96`] puts at `i`.
fn p96_t_exec(tokens: &Vec<SejongToken>, i: usize) -> (t: SejongToken)
    requires
        i < tokens@.len(),
        p96_c(tokens_view(tokens@), i as int),
    ensures
        t@ == p96_t(tokens_view(tokens@), i as int),
{
    assert(tokens_view(tokens@).len() == tokens@.len());
    let s47 = owned("XSV");
    let mut t46 = tokens[i].duplicate();
    t46.pos = s47;
    t46
}

/// 되/VV between a common noun and a connective ending is the suffix 되/XSV.
pub fn apply_p96(tokens: &mut Vec<SejongToken>)
    ensures
        tokens_view(final(tokens)@) == p96(tokens_view(old(tokens)@)),
{
    let ghost orig = tokens_view(tokens@);
    let mut out: Vec<SejongToken> = Vec::new();
    let mut k: usize = 0;
    while k < tokens.len()
        invariant
            k <= tokens@.len(),
            orig == tokens_view(tokens@),
            tokens_view(out@) == p96(orig).take(k as int),
        decreases tokens@.len() - k,
    {
        let t = if p96_c_exec(tokens, k) { p96_t_exec(tokens, k) } else { tokens[k].duplicate() };
        push_token(&mut out, t);
        k += 1;
        assert(tokens_view(out@) =~= p96(orig).take(k as int));
    }
    assert(p96(orig).take(k as int) =~= p96(orig));
    *tokens = out;
}

/// Where [`p97`] changes a token.
pub open spec fn p97_c(ts: Seq<TokenView>, i: int) -> bool {
    (((0 <= i < ts.len() && ts[i].surface == "하"@) && (0 <= i < ts.len() && ts[i].pos == "VV"@)) && (0 <= i - 1 < ts.len() && ts[i - 1].pos == "NNG"@) && (0 <= i + 1 < ts.len() && ts[i + 1].pos == "EP"@))
}

/// The token [`p97`] puts at `i`.
pub open spec fn p97_t(ts: Seq<TokenView>, i: int) -> TokenView {
    TokenView { pos: "XSV"@, ..ts[i] }
}

/// 하/VV between a common noun and a pre-final ending is the suffix 하/XSV.
pub open spec fn p97(ts: Seq<TokenView>) -> Seq<TokenView> {
    map_where(ts, |ts: Seq<TokenView>, i: int| p97_c(ts, i), |ts: Seq<TokenView>, i: int| p97_t(ts, i))
}

/// Whether [`p97`] changes the token at `i`.
fn p97_c_exec(tokens: &Vec<SejongToken>, i: usize) -> (r: bool)
    requires
        i < tokens@.len(),
    ensures
        r == p97_c(tokens_view(tokens@), i as int),
{
    assert(tokens_view(tokens@).len() == tokens@.len());
    let c48 = surf_is(&tokens[i], "하");
    let c49 = pos_is(&tokens[i], "VV");
    let c50 = (i >= 1) && pos_is(&tokens[i - 1], "NNG");
    let c51 = (tokens.len() - i > 1) && pos_is(&tokens[i + 1], "EP");
    ((c48 && c49) && c50 && c51)
}

/// The token [`p97`] puts at `i`.
fn p97_t_exec(tokens: &Vec<SejongToken>, i: usize) -> (t: SejongToken)
    requires
        i < tokens@.len(),
        p97_c(tokens_view(tokens@), i as int),
    ensures
        t@ == p97_t(tokens_view(tokens@), i as int),
{
    assert(tokens_view(tokens@).len() == tokens@.len());
    let s53 = owned("XSV");
    let mut t52 = tokens[i].duplicate();
    t52.pos = s53;
    t52
}

/// 하/VV between a common noun and a pre-final ending is the suffix 하/XSV.
pub fn apply_p97(tokens: &mut Vec<SejongToken>)
    ensures
        tokens_view(final(tokens)@) == p97(tokens_view(old(tokens)@)),
{
    let ghost orig = tokens_view(tokens@);
    let mut out: Vec<SejongToken> = Vec::new();
    let mut k: usize = 0;
    while k < tokens.len()
        invariant
            k <= tokens@.len(),
            orig == tokens_view(tokens@),
            tokens_view(out@) == p97(orig).take(k as int),
        decreases tokens@.len() - k,
    {
        let t = if p97_c_exec(tokens, k) { p97_t_exec(tokens, k) } else { tokens[k].duplicate() };
        push_token(&mut out, t);
        k += 1;
        assert(tokens_view(out@) =~= p97(orig).take(k as int));
    }
    assert(p97(orig).take(k as int) =~= p97(orig));
    *tokens = out;
}

/// Where [`p98`] changes a token.
pub open spec fn p98_c(ts: Seq<TokenView>, i: int) -> bool {
    ((0 <= i < ts.len() && seq!["어요"@, "아요"@].contains(ts[i].surface)) && (0 <= i < ts.len() && ts[i].pos == "EC"@) && !(0 <= i + 1 < ts.len() && true) && (0 <= i - 1 < ts.len() && seq!["XSV"@, "VV"@, "VA"@].contains(ts[i - 1].pos)))
}

/// The token [`p98`] puts at `i`.
pub open spec fn p98_t(ts: Seq<TokenView>, i: int) -> TokenView {
    TokenView { pos: "EF"@, ..ts[i] }
}

/// A final 어요/EC or 아요/EC after a verb suffix, a verb or an adjective is a final ending (EF).
pub open spec fn p98(ts: Seq<TokenView>) -> Seq<TokenView> {
    map_where(ts, |ts: Seq<TokenView>, i: int| p98_c(ts, i), |ts: Seq<TokenView>, i: int| p98_t(ts, i))
}

/// Whether [`p98`] changes the token at `i`.
fn p98_c_exec(tokens: &Vec<SejongToken>, i: usize) -> (r: bool)
    requires
        i < tokens@.len(),
    ensures
        r == p98_c(tokens_view(tokens@), i as int),
{
    assert(tokens_view(tokens@).len() == tokens@.len());
    let l55: [&str; 2] = ["어요", "아요"];
    assert(crate::tag_map::strs_view(l55@) =~= seq!["어요"@, "아요"@]);
    let c54 = in_list(&l55, tokens[i].surface.as_str());
    let c56 = pos_is(&tokens[i], "EC");
    let c57 = (tokens.len() - i > 1) && true;
    let l59: [&str; 3] = ["XSV", "VV", "VA"];
    assert(crate::tag_map::strs_view(l59@) =~= seq!["XSV"@, "VV"@, "VA"@]);
    let c58 = (i >= 1) && in_list(&l59, tokens[i - 1].pos.as_str());
    (c54 && c56 && !c57 && c58)
}

/// The token [`p98`] puts at `i`.
fn p98_t_exec(tokens: &Vec<SejongToken>, i: usize) -> (t: SejongToken)
    requires
        i < tokens@.len(),
        p98_c(tokens_view(tokens@), i as int),
    ensures
        t@ == p98_t(tokens_view(tokens@), i as int),
{
    assert(tokens_view(tokens@).len() == tokens@.len());
    let s61 = owned("EF");
    let mut t60 = tokens[i].duplicate();
    t60.pos = s61;
    t60
}

/// A final 어요/EC or 아요/EC after a verb suffix, a verb or an adjective is a final ending (EF).
pub fn apply_p98(tokens: &mut Vec<SejongToken>)
    ensures
        tokens_view(final(tokens)@) == p98(tokens_view(old(tokens)@)),
{
    let ghost orig = tokens_view(tokens@);
    let mut out: Vec<SejongToken> = Vec::new();
    let mut k: usize = 0;
    while k < tokens.len()
        invariant
            k <= tokens@.len(),
            orig == tokens_view(tokens@),
            tokens_view(out@) == p98(orig).take(k as int),
        decreases tokens@.len() - k,
    {
        let t = if p98_c_exec(tokens, k) { p98_t_exec(tokens, k) } else { tokens[k].duplicate() };
        push_token(&mut out, t);
        k += 1;
        assert(tokens_view(out@) =~= p98(orig).take(k as int));
    }
    assert(p98(orig).take(k as int) =~= p98(orig));
    *tokens = out;
}

/// Where [`p100`] changes a token.
pub open spec fn p100_c(ts: Seq<TokenView>, i: int) -> bool {
    ((0 <= i < ts.len() && seq!["ㄴ다"@, "는다"@].contains(ts[i].surface)) && (0 <= i < ts.len() && ts[i].pos == "EC"@) && !(0 <= i + 1 < ts.len() && true) && ((0 <= i - 1 < ts.len() && ts[i - 1].surface == "하"@) && (0 <= i - 1 < ts.len() && ts[i - 1].pos == "VV"@)))
}

/// The token [`p100`] puts at `i`.
pub open spec fn p100_t(ts: Seq<TokenView>, i: int) -> TokenView {
    TokenView { pos: "EF"@, ..ts[i] }
}

/// A final ㄴ다/EC or 는다/EC after 하/VV is a final ending (EF).
pub open spec fn p100(ts: Seq<TokenView>) -> Seq<TokenView> {
    map_where(ts, |ts: Seq<TokenView>, i: int| p100_c(ts, i), |ts: Seq<TokenView>, i: int| p100_t(ts, i))
}

/// Whether [`p100`] changes the token at `i`.
fn p100_c_exec(tokens: &Vec<SejongToken>, i: usize) -> (r: bool)
    requires
        i < tokens@.len(),
    ensures
        r == p100_c(tokens_view(tokens@), i as int),
{
    assert(tokens_view(tokens@).len() == tokens@.len());
    let l63: [&str; 2] = ["ㄴ다", "는다"];
    assert(crate::tag_map::strs_view(l63@) =~= seq!["ㄴ다"@, "는다"@]);
    let c62 = in_list(&l63, tokens[i].surface.as_str());
    let c64 = pos_is(&tokens[i], "EC");
    let c65 = (tokens.len() - i > 1) && true;
    let c66 = (i >= 1) && surf_is(&tokens[i - 1], "하");
    let c67 = (i >= 1) && pos_is(&tokens[i - 1], "VV");
    (c62 && c64 && !c65 && (c66 && c67))
}

/// The token [`p100`] puts at `i`.
fn p100_t_exec(tokens: &Vec<SejongToken>, i: usize) -> (t: SejongToken)
    requires
        i < tokens@.len(),
        p100_c(tokens_view(tokens@), i as int),
    ensures
        t@ == p100_t(tokens_view(tokens@), i as int),
{
    assert(tokens_view(tokens@).len() == tokens@.len());
    let s69 = owned("EF");
    let mut t68 = tokens[i].duplicate();
    t68.pos = s69;
    t68
}

/// A final ㄴ다/EC or 는다/EC after 하/VV is a final ending (EF).
pub fn apply_p100(tokens: &mut Vec<SejongToken>)
    ensures
        tokens_view(final(tokens)@) == p100(tokens_view(old(tokens)@)),
{
    let ghost orig = tokens_view(tokens@);
    let mut out: Vec<SejongToken> = Vec::new();
    let mut k: usize = 0;
    while k < tokens.len()
        invariant
            k <= tokens@.len(),
            orig == tokens_view(tokens@),
            tokens_view(out@) == p100(orig).take(k as int),
        decreases tokens@.len() - k,
    {
        let t = if p100_c_exec(tokens, k) { p100_t_exec(tokens, k) } else { tokens[k].duplicate() };
        push_token(&mut out, t);
        k += 1;
        assert(tokens_view(out@) =~= p100(orig).take(k as int));
    }
    assert(p100(orig).take(k as int) =~= p100(orig));
    *tokens = out;
}

/// Where rule 0 of [`p102`] applies.
pub open spec fn p102_c0(ts: Seq<TokenView>, i: int) -> bool {
    (((0 <= i < ts.len() && ts[i].surface == "하"@) && (0 <= i < ts.len() && ts[i].pos == "VV"@)) && (0 <= i - 1 < ts.len() && ts[i - 1].pos == "NNG"@) && ((0 <= i + 1 < ts.len() && ts[i + 1].surface == "고"@) && (0 <= i + 1 < ts.len() && ts[i + 1].pos == "EC"@)) && ((0 <= i + 2 < ts.len() && ts[i + 2].surface == "있"@) && (0 <= i + 2 < ts.len() && ts[i + 2].pos == "VV"@)))
}

/// One step of [`p102`] at `i`: the list after it and the next position.
pub open spec fn p102_step(ts: Seq<TokenView>, i: int) -> (Seq<TokenView>, int) {
    if p102_c0(ts, i) {
        (ts.update(i, TokenView { pos: "XSV"@, ..ts[i] }).update(i + 2, TokenView { pos: "VX"@, ..ts[i + 2] }), i + 1)
    } else {
        (ts, i + 1)
    }
}

/// [`p102_step`] as a function value.
pub open spec fn p102_f() -> spec_fn(Seq<TokenView>, int) -> (Seq<TokenView>, int) {
    |ts: Seq<TokenView>, i: int| p102_step(ts, i)
}

/// 하/VV 고/EC 있/VV after a common noun is 하/XSV 고/EC 있/VX.
pub open spec fn p102(ts: Seq<TokenView>) -> Seq<TokenView> {
    scan(ts, 0, p102_f())
}

/// Whether rule 0 of [`p102`] applies at `i`.
fn p102_c0_exec(tokens: &Vec<SejongToken>, i: usize) -> (r: bool)
    requires
        i < tokens@.len(),
    ensures
        r == p102_c0(tokens_view(tokens@), i as int),
{
    assert(tokens_view(tokens@).len() == tokens@.len());
    let c70 = surf_is(&tokens[i], "하");
    let c71 = pos_is(&tokens[i], "VV");
    let c72 = (i >= 1) && pos_is(&tokens[i - 1], "NNG");
    let c73 = (tokens.len() - i > 1) && surf_is(&tokens[i + 1], "고");
    let c74 = (tokens.len() - i > 1) && pos_is(&tokens[i + 1], "EC");
    let c75 = (tokens.len() - i > 2) && surf_is(&tokens[i + 2], "있");
    let c76 = (tokens.len() - i > 2) && pos_is(&tokens[i + 2], "VV");
    ((c70 && c71) && c72 && (c73 && c74) && (c75 && c76))
}

/// One step of [`p102`] at `i`; returns the next position.
fn p102_step_exec(tokens: &mut Vec<SejongToken>, i: usize) -> (next: usize)
    requires
        i < old(tokens)@.len(),
    ensures
        (tokens_view(final(tokens)@), next as int) == p102_step(tokens_view(old(tokens)@), i as int),
        final(tokens)@.len() - next < old(tokens)@.len() - i,
        next <= final(tokens)@.len() + 1,
{
    let len0 = tokens.len();
    assert(tokens_view(tokens@).len() == tokens@.len());
    if p102_c0_exec(tokens, i) {
        let s78 = owned("XSV");
        let mut t77 = tokens[i].duplicate();
        t77.pos = s78;
        let s80 = owned("VX");
        let mut t79 = tokens[i + 2].duplicate();
        t79.pos = s80;
        set_token(tokens, i, t77);
        set_token(tokens, i + 2, t79);
        let _len1 = tokens.len();
        return i + 1;
    }
    i + 1
}

/// 하/VV 고/EC 있/VV after a common noun is 하/XSV 고/EC 있/VX.
pub fn apply_p102(tokens: &mut Vec<SejongToken>)
    ensures
        tokens_view(final(tokens)@) == p102(tokens_view(old(tokens)@)),
{
    let ghost orig = tokens_view(tokens@);
    let mut i: usize = 0;
    while i < tokens.len()
        invariant
            i <= tokens@.len() + 1,
            scan(tokens_view(tokens@), i as int, p102_f()) == scan(orig, 0, p102_f()),
        decreases tokens@.len() + 1 - i,
    {
        let ghost before = tokens_view(tokens@);
        assert(before.len() == tokens@.len());
        i = p102_step_exec(tokens, i);
        assert(tokens_view(tokens@).len() == tokens@.len());
    }
}

/// Where rule 0 of [`p103`] applies.
pub open spec fn p103_c0(ts: Seq<TokenView>, i: int) -> bool {
    (((0 <= i < ts.len() && ts[i].surface == "되"@) && (0 <= i < ts.len() && ts[i].pos == "VV"@)) && (0 <= i - 1 < ts.len() && ts[i - 1].pos == "NNG"@) && ((0 <= i + 1 < ts.len() && ts[i + 1].surface == "고"@) && (0 <= i + 1 < ts.len() && ts[i + 1].pos == "EC"@)) && ((0 <= i + 2 < ts.len() && ts[i + 2].surface == "있"@) && (0 <= i + 2 < ts.len() && ts[i + 2].pos == "VV"@)))
}

/// One step of [`p103`] at `i`: the list after it and the next position.
pub open spec fn p103_step(ts: Seq<TokenView>, i: int) -> (Seq<TokenView>, int) {
    if p103_c0(ts, i) {
        (ts.update(i, TokenView { pos: "XSV"@, ..ts[i] }).update(i + 2, TokenView { pos: "VX"@, ..ts[i + 2] }), i + 1)
    } else {
        (ts, i + 1)
    }
}

/// [`p103_step`] as a function value.
pub open spec fn p103_f() -> spec_fn(Seq<TokenView>, int) -> (Seq<TokenView>, int) {
    |ts: Seq<TokenView>, i: int| p103_step(ts, i)
}

/// 되/VV 고/EC 있/VV after a common noun is 되/XSV 고/EC 있/VX.
pub open spec fn p103(ts: Seq<TokenView>) -> Seq<TokenView> {
    scan(ts, 0, p103_f())
}

/// Whether rule 0 of [`p103`] applies at `i`.
fn p103_c0_exec(tokens: &Vec<SejongToken>, i: usize) -> (r: bool)
    requires
        i < tokens@.len(),
    ensures
        r == p103_c0(tokens_view(tokens@), i as int),
{
    assert(tokens_view(tokens@).len() == tokens@.len());
    let c81 = surf_is(&tokens[i], "되");
    let c82 = pos_is(&tokens[i], "VV");
    let c83 = (i >= 1) && pos_is(&tokens[i - 1], "NNG");
    let c84 = (tokens.len() - i > 1) && surf_is(&tokens[i + 1], "고");
    let c85 = (tokens.len() - i > 1) && pos_is(&tokens[i + 1], "EC");
    let c86 = (tokens.len() - i > 2) && surf_is(&tokens[i + 2], "있");
    let c87 = (tokens.len() - i > 2) && pos_is(&tokens[i + 2], "VV");
    ((c81 && c82) && c83 && (c84 && c85) && (c86 && c87))
}

/// One step of [`p103`] at `i`; returns the next position.
fn p103_step_exec(tokens: &mut Vec<SejongToken>, i: usize) -> (next: usize)
    requires
        i < old(tokens)@.len(),
    ensures
        (tokens_view(final(tokens)@), next as int) == p103_step(tokens_view(old(tokens)@), i as int),
        final(tokens)@.len() - next < old(tokens)@.len() - i,
        next <= final(tokens)@.len() + 1,
{
    let len0 = tokens.len();
    assert(tokens_view(tokens@).len() == tokens@.len());
    if p103_c0_exec(tokens, i) {
        let s89 = owned("XSV");
        let mut t88 = tokens[i].duplicate();
        t88.pos = s89;
        let s91 = owned("VX");
        let mut t90 = tokens[i + 2].duplicate();
        t90.pos = s91;
        set_token(tokens, i, t88);
        set_token(tokens, i + 2, t90);
        let _len1 = tokens.len();
        return i + 1;
    }
    i + 1
}

/// 되/VV 고/EC 있/VV after a common noun is 되/XSV 고/EC 있/VX.
pub fn apply_p103(tokens: &mut Vec<SejongToken>)
    ensures
        tokens_view(final(tokens)@) == p103(tokens_view(old(tokens)@)),
{
    let ghost orig = tokens_view(tokens@);
    let mut i: usize = 0;
    while i < tokens.len()
        invariant
            i <= tokens@.len() + 1,
            scan(tokens_view(tokens@), i as int, p103_f()) == scan(orig, 0, p103_f()),
        decreases tokens@.len() + 1 - i,
    {
        let ghost before = tokens_view(tokens@);
        assert(before.len() == tokens@.len());
        i = p103_step_exec(tokens, i);
        assert(tokens_view(tokens@).len() == tokens@.len());
    }
}

/// Where rule 0 of [`p104`] applies.
pub open spec fn p104_c0(ts: Seq<TokenView>, i: int) -> bool {
    ((0 <= i < ts.len() && seq!["VV"@, "VA"@, "XSV"@].contains(ts[i].pos)) && (0 <= i + 1 < ts.len() && seq!["EC"@, "EF"@].contains(ts[i + 1].pos)) && (0 <= i + 1 < ts.len() && seq!["어"@, "아"@, "여"@].contains(ts[i + 1].surface)) && (0 <= i + 2 < ts.len() && ts[i + 2].pos == "VV"@) && (0 <= i + 2 < ts.len() && seq!["주"@, "보"@, "버리"@, "내"@, "두"@, "놓"@, "오"@, "가"@, "드리"@, "달"@, "빠지"@, "치우"@, "대"@].contains(ts[i + 2].surface)))
}

/// One step of [`p104`] at `i`: the list after it and the next position.
pub open spec fn p104_step(ts: Seq<TokenView>, i: int) -> (Seq<TokenView>, int) {
    if p104_c0(ts, i) {
        (ts.update(i + 1, TokenView { pos: "EC"@, ..ts[i + 1] }).update(i + 2, TokenView { pos: "VX"@, ..ts[i + 2] }), i + 1)
    } else {
        (ts, i + 1)
    }
}

/// [`p104_step`] as a function value.
pub open spec fn p104_f() -> spec_fn(Seq<TokenView>, int) -> (Seq<TokenView>, int) {
    |ts: Seq<TokenView>, i: int| p104_step(ts, i)
}

/// 어, 아 or 여 between a verb, adjective or verb suffix and an auxiliary verb is the connective ending (EC) and the auxiliary is VX.
pub open spec fn p104(ts: Seq<TokenView>) -> Seq<TokenView> {
    scan(ts, 0, p104_f())
}

/// Whether rule 0 of [`p104`] applies at `i`.
fn p104_c0_exec(tokens: &Vec<SejongToken>, i: usize) -> (r: bool)
    requires
        i < tokens@.len(),
    ensures
        r == p104_c0(tokens_view(tokens@), i as int),
{
    assert(tokens_view(tokens@).len() == tokens@.len());
    let l93: [&str; 3] = ["VV", "VA", "XSV"];
    assert(crate::tag_map::strs_view(l93@) =~= seq!["VV"@, "VA"@, "XSV"@]);
    let c92 = in_list(&l93, tokens[i].pos.as_str());
    let l95: [&str; 2] = ["EC", "EF"];
    assert(crate::tag_map::strs_view(l95@) =~= seq!["EC"@, "EF"@]);
    let c94 = (tokens.len() - i > 1) && in_list(&l95, tokens[i + 1].pos.as_str());
    let l97: [&str; 3] = ["어", "아", "여"];
    assert(crate::tag_map::strs_view(l97@) =~= seq!["어"@, "아"@, "여"@]);
    let c96 = (tokens.len() - i > 1) && in_list(&l97, tokens[i + 1].surface.as_str());
    let c98 = (tokens.len() - i > 2) && pos_is(&tokens[i + 2], "VV");
    let l100: [&str; 13] = ["주", "보", "버리", "내", "두", "놓", "오", "가", "드리", "달", "빠지", "치우", "대"];
    assert(crate::tag_map::strs_view(l100@) =~= seq!["주"@, "보"@, "버리"@, "내"@, "두"@, "놓"@, "오"@, "가"@, "드리"@, "달"@, "빠지"@, "치우"@, "대"@]);
    let c99 = (tokens.len() - i > 2) && in_list(&l100, tokens[i + 2].surface.as_str());
    (c92 && c94 && c96 && c98 && c99)
}

/// One step of [`p104`] at `i`; returns the next position.
fn p104_step_exec(tokens: &mut Vec<SejongToken>, i: usize) -> (next: usize)
    requires
        i < old(tokens)@.len(),
    ensures
        (tokens_view(final(tokens)@), next as int) == p104_step(tokens_view(old(tokens)@), i as int),
        final(tokens)@.len() - next < old(tokens)@.len() - i,
        next <= final(tokens)@.len() + 1,
{
    let len0 = tokens.len();
    assert(tokens_view(tokens@).len() == tokens@.len());
    if p104_c0_exec(tokens, i) {
        let s102 = owned("EC");
        let mut t101 = tokens[i + 1].duplicate();
        t101.pos = s102;
        let s104 = owned("VX");
        let mut t103 = tokens[i + 2].duplicate();
        t103.pos = s104;
        set_token(tokens, i + 1, t101);
        set_token(tokens, i + 2, t103);
        let _len1 = tokens.len();
        return i + 1;
    }
    i + 1
}

/// 어, 아 or 여 between a verb, adjective or verb suffix and an auxiliary verb is the connective ending (EC) and the auxiliary is VX.
pub fn apply_p104(tokens: &mut Vec<SejongToken>)
    ensures
        tokens_view(final(tokens)@) == p104(tokens_view(old(tokens)@)),
{
    let ghost orig = tokens_view(tokens@);
    let mut i: usize = 0;
    while i < tokens.len()
        invariant
            i <= tokens@.len() + 1,
            scan(tokens_view(tokens@), i as int, p104_f()) == scan(orig, 0, p104_f()),
        decreases tokens@.len() + 1 - i,
    {
        let ghost before = tokens_view(tokens@);
        assert(before.len() == tokens@.len());
        i = p104_step_exec(tokens, i);
        assert(tokens_view(tokens@).len() == tokens@.len());
    }
}

/// Where [`p105`] changes a token.
pub open spec fn p105_c(ts: Seq<TokenView>, i: int) -> bool {
    (((0 <= i - 1 < ts.len() && ts[i - 1].surface == "고"@) && (0 <= i - 1 < ts.len() && ts[i - 1].pos == "EC"@)) && ((0 <= i < ts.len() && ts[i].surface == "있"@) && (0 <= i < ts.len() && ts[i].pos == "VV"@)))
}

/// The token [`p105`] puts at `i`.
pub open spec fn p105_t(ts: Seq<TokenView>, i: int) -> TokenView {
    TokenView { pos: "VX"@, ..ts[i] }
}

/// 있/VV after 고/EC is the auxiliary 있/VX.
pub open spec fn p105(ts: Seq<TokenView>) -> Seq<TokenView> {
    map_where(ts, |ts: Seq<TokenView>, i: int| p105_c(ts, i), |ts: Seq<TokenView>, i: int| p105_t(ts, i))
}

/// Whether [`p105`] changes the token at `i`.
fn p105_c_exec(tokens: &Vec<SejongToken>, i: usize) -> (r: bool)
    requires
        i < tokens@.len(),
    ensures
        r == p105_c(tokens_view(tokens@), i as int),
{
    assert(tokens_view(tokens@).len() == tokens@.len());
    let c105 = (i >= 1) && surf_is(&tokens[i - 1], "고");
    let c106 = (i >= 1) && pos_is(&tokens[i - 1], "EC");
    let c107 = surf_is(&tokens[i], "있");
    let c108 = pos_is(&tokens[i], "VV");
    ((c105 && c106) && (c107 && c108))
}

/// The token [`p105`] puts at `i`.
fn p105_t_exec(tokens: &Vec<SejongToken>, i: usize) -> (t: SejongToken)
    requires
        i < tokens@.len(),
        p105_c(tokens_view(tokens@), i as int),
    ensures
        t@ == p105_t(tokens_view(tokens@), i as int),
{
    assert(tokens_view(tokens@).len() == tokens@.len());
    let s110 = owned("VX");
    let mut t109 = tokens[i].duplicate();
    t109.pos = s110;
    t109
}

/// 있/VV after 고/EC is the auxiliary 있/VX.
pub fn apply_p105(tokens: &mut Vec<SejongToken>)
    ensures
        tokens_view(final(tokens)@) == p105(tokens_view(old(tokens)@)),
{
    let ghost orig = tokens_view(tokens@);
    let mut out: Vec<SejongToken> = Vec::new();
    let mut k: usize = 0;
    while k < tokens.len()
        invariant
            k <= tokens@.len(),
            orig == tokens_view(tokens@),
            tokens_view(out@) == p105(orig).take(k as int),
        decreases tokens@.len() - k,
    {
        let t = if p105_c_exec(tokens, k) { p105_t_exec(tokens, k) } else { tokens[k].duplicate() };
        push_token(&mut out, t);
        k += 1;
        assert(tokens_view(out@) =~= p105(orig).take(k as int));
    }
    assert(p105(orig).take(k as int) =~= p105(orig));
    *tokens = out;
}

/// Where [`p106`] changes a token.
pub open spec fn p106_c(ts: Seq<TokenView>, i: int) -> bool {
    (((0 <= i - 1 < ts.len() && ts[i - 1].surface == "지"@) && (0 <= i - 1 < ts.len() && ts[i - 1].pos == "EC"@)) && ((0 <= i < ts.len() && ts[i].surface == "않"@) && (0 <= i < ts.len() && ts[i].pos == "VV"@)))
}

/// The token [`p106`] puts at `i`.
pub open spec fn p106_t(ts: Seq<TokenView>, i: int) -> TokenView {
    TokenView { pos: "VX"@, ..ts[i] }
}

/// 않/VV after 지/EC is the auxiliary 않/VX.
pub open spec fn p106(ts: Seq<TokenView>) -> Seq<TokenView> {
    map_where(ts, |ts: Seq<TokenView>, i: int| p106_c(ts, i), |ts: Seq<TokenView>, i: int| p106_t(ts, i))
}

/// Whether [`p106`] changes the token at `i`.
fn p106_c_exec(tokens: &Vec<SejongToken>, i: usize) -> (r: bool)
    requires
        i < tokens@.len(),
    ensures
        r == p106_c(tokens_view(tokens@), i as int),
{
    assert(tokens_view(tokens@).len() == tokens@.len());
    let c111 = (i >= 1) && surf_is(&tokens[i - 1], "지");
    let c112 = (i >= 1) && pos_is(&tokens[i - 1], "EC");
    let c113 = surf_is(&tokens[i], "않");
    let c114 = pos_is(&tokens[i], "VV");
    ((c111 && c112) && (c113 && c114))
}

/// The token [`p106`] puts at `i`.
fn p106_t_exec(tokens: &Vec<SejongToken>, i: usize) -> (t: SejongToken)
    requires
        i < tokens@.len(),
        p106_c(tokens_view(tokens@), i as int),
    ensures
        t@ == p106_t(tokens_view(tokens@), i as int),
{
    assert(tokens_view(tokens@).len() == tokens@.len());
    let s116 = owned("VX");
    let mut t115 = tokens[i].duplicate();
    t115.pos = s116;
    t115
}

/// 않/VV after 지/EC is the auxiliary 않/VX.
pub fn apply_p106(tokens: &mut Vec<SejongToken>)
    ensures
        tokens_view(final(tokens)@) == p106(tokens_view(old(tokens)@)),
{
    let ghost orig = tokens_view(tokens@);
    let mut out: Vec<SejongToken> = Vec::new();
    let mut k: usize = 0;
    while k < tokens.len()
        invariant
            k <= tokens@.len(),
            orig == tokens_view(tokens@),
            tokens_view(out@) == p106(orig).take(k as int),
        decreases tokens@.len() - k,
    {
        let t = if p106_c_exec(tokens, k) { p106_t_exec(tokens, k) } else { tokens[k].duplicate() };
        push_token(&mut out, t);
        k += 1;
        assert(tokens_view(out@) =~= p106(orig).take(k as int));
    }
    assert(p106(orig).take(k as int) =~= p106(orig));
    *tokens = out;
}

/// Where [`p107`] changes a token.
pub open spec fn p107_c(ts: Seq<TokenView>, i: int) -> bool {
    (((0 <= i - 1 < ts.len() && ts[i - 1].surface == "고"@) && (0 <= i - 1 < ts.len() && ts[i - 1].pos == "EC"@)) && (0 <= i < ts.len() && ts[i].surface == "싶"@) && (0 <= i < ts.len() && seq!["VV"@, "VA"@].contains(ts[i].pos)))
}

/// The token [`p107`] puts at `i`.
pub open spec fn p107_t(ts: Seq<TokenView>, i: int) -> TokenView {
    TokenView { pos: "VX"@, ..ts[i] }
}

/// 싶/VV|VA after 고/EC is the auxiliary 싶/VX.
pub open spec fn p107(ts: Seq<TokenView>) -> Seq<TokenView> {
    map_where(ts, |ts: Seq<TokenView>, i: int| p107_c(ts, i), |ts: Seq<TokenView>, i: int| p107_t(ts, i))
}

/// Whether [`p107`] changes the token at `i`.
fn p107_c_exec(tokens: &Vec<SejongToken>, i: usize) -> (r: bool)
    requires
        i < tokens@.len(),
    ensures
        r == p107_c(tokens_view(tokens@), i as int),
{
    assert(tokens_view(tokens@).len() == tokens@.len());
    let c117 = (i >= 1) && surf_is(&tokens[i - 1], "고");
    let c118 = (i >= 1) && pos_is(&tokens[i - 1], "EC");
    let c119 = surf_is(&tokens[i], "싶");
    let l121: [&str; 2] = ["VV", "VA"];
    assert(crate::tag_map::strs_view(l121@) =~= seq!["VV"@, "VA"@]);
    let c120 = in_list(&l121, tokens[i].pos.as_str());
    ((c117 && c118) && c119 && c120)
}

/// The token [`p107`] puts at `i`.
fn p107_t_exec(tokens: &Vec<SejongToken>, i: usize) -> (t: SejongToken)
    requires
        i < tokens@.len(),
        p107_c(tokens_view(tokens@), i as int),
    ensures
        t@ == p107_t(tokens_view(tokens@), i as int),
{
    assert(tokens_view(tokens@).len() == tokens@.len());
    let s123 = owned("VX");
    let mut t122 = tokens[i].duplicate();
    t122.pos = s123;
    t122
}

/// 싶/VV|VA after 고/EC is the auxiliary 싶/VX.
pub fn apply_p107(tokens: &mut Vec<SejongToken>)
    ensures
        tokens_view(final(tokens)@) == p107(tokens_view(old(tokens)@)),
{
    let ghost orig = tokens_view(tokens@);
    let mut out: Vec<SejongToken> = Vec::new();
    let mut k: usize = 0;
    while k < tokens.len()
        invariant
            k <= tokens@.len(),
            orig == tokens_view(tokens@),
            tokens_view(out@) == p107(orig).take(k as int),
        decreases tokens@.len() - k,
    {
        let t = if p107_c_exec(tokens, k) { p107_t_exec(tokens, k) } else { tokens[k].duplicate() };
        push_token(&mut out, t);
        k += 1;
        assert(tokens_view(out@) =~= p107(orig).take(k as int));
    }
    assert(p107(orig).take(k as int) =~= p107(orig));
    *tokens = out;
}

/// Where rule 0 of [`p108`] applies.
pub open spec fn p108_c0(ts: Seq<TokenView>, i: int) -> bool {
    ((0 <= i < ts.len() && seq!["자"@, "다"@, "라"@, "냐"@, "냐고"@].contains(ts[i].surface)) && (0 <= i < ts.len() && ts[i].pos == "EF"@) && ((0 <= i + 1 < ts.len() && ts[i + 1].surface == "고"@) && (0 <= i + 1 < ts.len() && ts[i + 1].pos == "EC"@)))
}

/// One step of [`p108`] at `i`: the list after it and the next position.
pub open spec fn p108_step(ts: Seq<TokenView>, i: int) -> (Seq<TokenView>, int) {
    if p108_c0(ts, i) {
        (splice(ts, i, 2, seq![plain_view((ts[i].surface + ts[i + 1].surface), "EC"@, ts[i].start_pos, ts[i + 1].end_pos)]), i + 1)
    } else {
        (ts, i + 1)
    }
}

/// [`p108_step`] as a function value.
pub open spec fn p108_f() -> spec_fn(Seq<TokenView>, int) -> (Seq<TokenView>, int) {
    |ts: Seq<TokenView>, i: int| p108_step(ts, i)
}

/// 자, 다, 라, 냐, 냐고 tagged EF before 고/EC join it as a quotative connective ending (자고/EC).
pub open spec fn p108(ts: Seq<TokenView>) -> Seq<TokenView> {
    scan(ts, 0, p108_f())
}

/// Whether rule 0 of [`p108`] applies at `i`.
fn p108_c0_exec(tokens: &Vec<SejongToken>, i: usize) -> (r: bool)
    requires
        i < tokens@.len(),
    ensures
        r == p108_c0(tokens_view(tokens@), i as int),
{
    assert(tokens_view(tokens@).len() == tokens@.len());
    let l125: [&str; 5] = ["자", "다", "라", "냐", "냐고"];
    assert(crate::tag_map::strs_view(l125@) =~= seq!["자"@, "다"@, "라"@, "냐"@, "냐고"@]);
    let c124 = in_list(&l125, tokens[i].surface.as_str());
    let c126 = pos_is(&tokens[i], "EF");
    let c127 = (tokens.len() - i > 1) && surf_is(&tokens[i + 1], "고");
    let c128 = (tokens.len() - i > 1) && pos_is(&tokens[i + 1], "EC");
    (c124 && c126 && (c127 && c128))
}

/// One step of [`p108`] at `i`; returns the next position.
fn p108_step_exec(tokens: &mut Vec<SejongToken>, i: usize) -> (next: usize)
    requires
        i < old(tokens)@.len(),
    ensures
        (tokens_view(final(tokens)@), next as int) == p108_step(tokens_view(old(tokens)@), i as int),
        final(tokens)@.len() - next < old(tokens)@.len() - i,
        next <= final(tokens)@.len() + 1,
{
    let len0 = tokens.len();
    assert(tokens_view(tokens@).len() == tokens@.len());
    if p108_c0_exec(tokens, i) {
        let s131 = tokens[i].surface.clone();
        let s132 = tokens[i + 1].surface.clone();
        let s130 = concat(s131.as_str(), s132.as_str());
        let s133 = owned("EC");
        let n134 = tokens[i].start_pos;
        let n135 = tokens[i + 1].end_pos;
        let t129 = SejongToken::new(s130.as_str(), s133.as_str(), n134, n135);
        let mut nv136: Vec<SejongToken> = Vec::new();
        push_token(&mut nv136, t129);
        splice_tokens(tokens, i, 2, nv136);
        let _len1 = tokens.len();
        return i + 1;
    }
    i + 1
}

/// 자, 다, 라, 냐, 냐고 tagged EF before 고/EC join it as a quotative connective ending (자고/EC).
pub fn apply_p108(tokens: &mut Vec<SejongToken>)
    ensures
        tokens_view(final(tokens)@) == p108(tokens_view(old(tokens)@)),
{
    let ghost orig = tokens_view(tokens@);
    let mut i: usize = 0;
    while i < tokens.len()
        invariant
            i <= tokens@.len() + 1,
            scan(tokens_view(tokens@), i as int, p108_f()) == scan(orig, 0, p108_f()),
        decreases tokens@.len() + 1 - i,
    {
        let ghost before = tokens_view(tokens@);
        assert(before.len() == tokens@.len());
        i = p108_step_exec(tokens, i);
        assert(tokens_view(tokens@).len() == tokens@.len());
    }
}

/// Where [`p109`] changes a token.
pub open spec fn p109_c(ts: Seq<TokenView>, i: int) -> bool {
    ((((0 <= i < ts.len() && ts[i].surface == "ㄹ까"@) && (0 <= i < ts.len() && ts[i].pos == "EF"@)) && (0 <= i + 1 < ts.len() && ts[i + 1].surface == "하"@)) || (((0 <= i < ts.len() && ts[i].surface == "ㄹ지"@) && (0 <= i < ts.len() && ts[i].pos == "EF"@)) && (0 <= i + 1 < ts.len() && true)))
}

/// The token [`p109`] puts at `i`.
pub open spec fn p109_t(ts: Seq<TokenView>, i: int) -> TokenView {
    TokenView { pos: "EC"@, ..ts[i] }
}

/// ㄹ까/EF before 하, and ㄹ지/EF inside the sentence, are connective endings (EC).
pub open spec fn p109(ts: Seq<TokenView>) -> Seq<TokenView> {
    map_where(ts, |ts: Seq<TokenView>, i: int| p109_c(ts, i), |ts: Seq<TokenView>, i: int| p109_t(ts, i))
}

/// Whether [`p109`] changes the token at `i`.
fn p109_c_exec(tokens: &Vec<SejongToken>, i: usize) -> (r: bool)
    requires
        i < tokens@.len(),
    ensures
        r == p109_c(tokens_view(tokens@), i as int),
{
    assert(tokens_view(tokens@).len() == tokens@.len());
    let c137 = surf_is(&tokens[i], "ㄹ까");
    let c138 = pos_is(&tokens[i], "EF");
    let c139 = (tokens.len() - i > 1) && surf_is(&tokens[i + 1], "하");
    let c140 = surf_is(&tokens[i], "ㄹ지");
    let c141 = pos_is(&tokens[i], "EF");
    let c142 = (tokens.len() - i > 1) && true;
    (((c137 && c138) && c139) || ((c140 && c141) && c142))
}

/// The token [`p109`] puts at `i`.
fn p109_t_exec(tokens: &Vec<SejongToken>, i: usize) -> (t: SejongToken)
    requires
        i < tokens@.len(),
        p109_c(tokens_view(tokens@), i as int),
    ensures
        t@ == p109_t(tokens_view(tokens@), i as int),
{
    assert(tokens_view(tokens@).len() == tokens@.len());
    let s144 = owned("EC");
    let mut t143 = tokens[i].duplicate();
    t143.pos = s144;
    t143
}

/// ㄹ까/EF before 하, and ㄹ지/EF inside the sentence, are connective endings (EC).
pub fn apply_p109(tokens: &mut Vec<SejongToken>)
    ensures
        tokens_view(final(tokens)@) == p109(tokens_view(old(tokens)@)),
{
    let ghost orig = tokens_view(tokens@);
    let mut out: Vec<SejongToken> = Vec::new();
    let mut k: usize = 0;
    while k < tokens.len()
        invariant
            k <= tokens@.len(),
            orig == tokens_view(tokens@),
            tokens_view(out@) == p109(orig).take(k as int),
        decreases tokens@.len() - k,
    {
        let t = if p109_c_exec(tokens, k) { p109_t_exec(tokens, k) } else { tokens[k].duplicate() };
        push_token(&mut out, t);
        k += 1;
        assert(tokens_view(out@) =~= p109(orig).take(k as int));
    }
    assert(p109(orig).take(k as int) =~= p109(orig));
    *tokens = out;
}

/// Where [`p110`] changes a token.
pub open spec fn p110_c(ts: Seq<TokenView>, i: int) -> bool {
    ((0 <= i - 1 < ts.len() && seq!["VV"@, "VA"@, "VX"@].contains(ts[i - 1].pos)) && ((0 <= i < ts.len() && ts[i].surface == "게"@) && (0 <= i < ts.len() && ts[i].pos == "NNB"@)))
}

/// The token [`p110`] puts at `i`.
pub open spec fn p110_t(ts: Seq<TokenView>, i: int) -> TokenView {
    TokenView { pos: "EC"@, ..ts[i] }
}

/// 게/NNB after a verb, adjective or auxiliary is the connective ending 게/EC.
pub open spec fn p110(ts: Seq<TokenView>) -> Seq<TokenView> {
    map_where(ts, |ts: Seq<TokenView>, i: int| p110_c(ts, i), |ts: Seq<TokenView>, i: int| p110_t(ts, i))
}

/// Whether [`p110`] changes the token at `i`.
fn p110_c_exec(tokens: &Vec<SejongToken>, i: usize) -> (r: bool)
    requires
        i < tokens@.len(),
    ensures
        r == p110_c(tokens_view(tokens@), i as int),
{
    assert(tokens_view(tokens@).len() == tokens@.len());
    let l146: [&str; 3] = ["VV", "VA", "VX"];
    assert(crate::tag_map::strs_view(l146@) =~= seq!["VV"@, "VA"@, "VX"@]);
    let c145 = (i >= 1) && in_list(&l146, tokens[i - 1].pos.as_str());
    let c147 = surf_is(&tokens[i], "게");
    let c148 = pos_is(&tokens[i], "NNB");
    (c145 && (c147 && c148))
}

/// The token [`p110`] puts at `i`.
fn p110_t_exec(tokens: &Vec<SejongToken>, i: usize) -> (t: SejongToken)
    requires
        i < tokens@.len(),
        p110_c(tokens_view(tokens@), i as int),
    ensures
        t@ == p110_t(tokens_view(tokens@), i as int),
{
    assert(tokens_view(tokens@).len() == tokens@.len());
    let s150 = owned("EC");
    let mut t149 = tokens[i].duplicate();
    t149.pos = s150;
    t149
}

/// 게/NNB after a verb, adjective or auxiliary is the connective ending 게/EC.
pub fn apply_p110(tokens: &mut Vec<SejongToken>)
    ensures
        tokens_view(final(tokens)@) == p110(tokens_view(old(tokens)@)),
{
    let ghost orig = tokens_view(tokens@);
    let mut out: Vec<SejongToken> = Vec::new();
    let mut k: usize = 0;
    while k < tokens.len()
        invariant
            k <= tokens@.len(),
            orig == tokens_view(tokens@),
            tokens_view(out@) == p110(orig).take(k as int),
        decreases tokens@.len() - k,
    {
        let t = if p110_c_exec(tokens, k) { p110_t_exec(tokens, k) } else { tokens[k].duplicate() };
        push_token(&mut out, t);
        k += 1;
        assert(tokens_view(out@) =~= p110(orig).take(k as int));
    }
    assert(p110(orig).take(k as int) =~= p110(orig));
    *tokens = out;
}

/// Where rule 0 of [`p111`] applies.
pub open spec fn p111_c0(ts: Seq<TokenView>, i: int) -> bool {
    (((0 <= i < ts.len() && ts[i].pos == "NNG"@) && (0 <= i < ts.len() && seq!["가고"@, "오고"@, "보고"@, "하고"@, "되고"@, "먹고"@, "읽고"@, "쓰고"@, "주고"@, "사고"@, "자고"@, "나고"@, "서고"@, "살고"@, "알고"@, "듣고"@, "걷고"@, "만나고"@, "기다리고"@].contains(ts[i].surface)) && ((0 <= i + 1 < ts.len() && seq!["있"@, "싶"@, "없"@].contains(ts[i + 1].surface)) || (0 <= i + 1 < ts.len() && seq!["VX"@, "VA"@, "VV"@, "NNP"@].contains(ts[i + 1].pos)))) && ((0 <= i + 1 < ts.len() && ts[i + 1].surface == "있"@) && (0 <= i + 1 < ts.len() && ts[i + 1].pos == "VA"@)))
}

/// Where rule 1 of [`p111`] applies.
pub open spec fn p111_c1(ts: Seq<TokenView>, i: int) -> bool {
    ((0 <= i < ts.len() && ts[i].pos == "NNG"@) && (0 <= i < ts.len() && seq!["가고"@, "오고"@, "보고"@, "하고"@, "되고"@, "먹고"@, "읽고"@, "쓰고"@, "주고"@, "사고"@, "자고"@, "나고"@, "서고"@, "살고"@, "알고"@, "듣고"@, "걷고"@, "만나고"@, "기다리고"@].contains(ts[i].surface)) && ((0 <= i + 1 < ts.len() && seq!["있"@, "싶"@, "없"@].contains(ts[i + 1].surface)) || (0 <= i + 1 < ts.len() && seq!["VX"@, "VA"@, "VV"@, "NNP"@].contains(ts[i + 1].pos))))
}

/// One step of [`p111`] at `i`: the list after it and the next position.
pub open spec fn p111_step(ts: Seq<TokenView>, i: int) -> (Seq<TokenView>, int) {
    if p111_c0(ts, i) {
        (splice(ts, i, 2, seq![plain_view((if (0 <= i < ts.len() && ts[i].surface == "가고"@) { "가"@ } else { (if (0 <= i < ts.len() && ts[i].surface == "오고"@) { "오"@ } else { (if (0 <= i < ts.len() && ts[i].surface == "보고"@) { "보"@ } else { (if (0 <= i < ts.len() && ts[i].surface == "하고"@) { "하"@ } else { (if (0 <= i < ts.len() && ts[i].surface == "되고"@) { "되"@ } else { (if (0 <= i < ts.len() && ts[i].surface == "먹고"@) { "먹"@ } else { (if (0 <= i < ts.len() && ts[i].surface == "읽고"@) { "읽"@ } else { (if (0 <= i < ts.len() && ts[i].surface == "쓰고"@) { "쓰"@ } else { (if (0 <= i < ts.len() && ts[i].surface == "주고"@) { "주"@ } else { (if (0 <= i < ts.len() && ts[i].surface == "사고"@) { "사"@ } else { (if (0 <= i < ts.len() && ts[i].surface == "자고"@) { "자"@ } else { (if (0 <= i < ts.len() && ts[i].surface == "나고"@) { "나"@ } else { (if (0 <= i < ts.len() && ts[i].surface == "서고"@) { "서"@ } else { (if (0 <= i < ts.len() && ts[i].surface == "살고"@) { "살"@ } else { (if (0 <= i < ts.len() && ts[i].surface == "알고"@) { "알"@ } else { (if (0 <= i < ts.len() && ts[i].surface == "듣고"@) { "듣"@ } else { (if (0 <= i < ts.len() && ts[i].surface == "걷고"@) { "걷"@ } else { (if (0 <= i < ts.len() && ts[i].surface == "만나고"@) { "만나"@ } else { "기다리"@ }) }) }) }) }) }) }) }) }) }) }) }) }) }) }) }) }) }), "VV"@, ts[i].start_pos, (ts[i].start_pos).saturating_add(encode_utf8((if (0 <= i < ts.len() && ts[i].surface == "가고"@) { "가"@ } else { (if (0 <= i < ts.len() && ts[i].surface == "오고"@) { "오"@ } else { (if (0 <= i < ts.len() && ts[i].surface == "보고"@) { "보"@ } else { (if (0 <= i < ts.len() && ts[i].surface == "하고"@) { "하"@ } else { (if (0 <= i < ts.len() && ts[i].surface == "되고"@) { "되"@ } else { (if (0 <= i < ts.len() && ts[i].surface == "먹고"@) { "먹"@ } else { (if (0 <= i < ts.len() && ts[i].surface == "읽고"@) { "읽"@ } else { (if (0 <= i < ts.len() && ts[i].surface == "쓰고"@) { "쓰"@ } else { (if (0 <= i < ts.len() && ts[i].surface == "주고"@) { "주"@ } else { (if (0 <= i < ts.len() && ts[i].surface == "사고"@) { "사"@ } else { (if (0 <= i < ts.len() && ts[i].surface == "자고"@) { "자"@ } else { (if (0 <= i < ts.len() && ts[i].surface == "나고"@) { "나"@ } else { (if (0 <= i < ts.len() && ts[i].surface == "서고"@) { "서"@ } else { (if (0 <= i < ts.len() && ts[i].surface == "살고"@) { "살"@ } else { (if (0 <= i < ts.len() && ts[i].surface == "알고"@) { "알"@ } else { (if (0 <= i < ts.len() && ts[i].surface == "듣고"@) { "듣"@ } else { (if (0 <= i < ts.len() && ts[i].surface == "걷고"@) { "걷"@ } else { (if (0 <= i < ts.len() && ts[i].surface == "만나고"@) { "만나"@ } else { "기다리"@ }) }) }) }) }) }) }) }) }) }) }) }) }) }) }) }) }) })).len() as usize)), plain_view("고"@, "EC"@, (ts[i].start_pos).saturating_add(encode_utf8((if (0 <= i < ts.len() && ts[i].surface == "가고"@) { "가"@ } else { (if (0 <= i < ts.len() && ts[i].surface == "오고"@) { "오"@ } else { (if (0 <= i < ts.len() && ts[i].surface == "보고"@) { "보"@ } else { (if (0 <= i < ts.len() && ts[i].surface == "하고"@) { "하"@ } else { (if (0 <= i < ts.len() && ts[i].surface == "되고"@) { "되"@ } else { (if (0 <= i < ts.len() && ts[i].surface == "먹고"@) { "먹"@ } else { (if (0 <= i < ts.len() && ts[i].surface == "읽고"@) { "읽"@ } else { (if (0 <= i < ts.len() && ts[i].surface == "쓰고"@) { "쓰"@ } else { (if (0 <= i < ts.len() && ts[i].surface == "주고"@) { "주"@ } else { (if (0 <= i < ts.len() && ts[i].surface == "사고"@) { "사"@ } else { (if (0 <= i < ts.len() && ts[i].surface == "자고"@) { "자"@ } else { (if (0 <= i < ts.len() && ts[i].surface == "나고"@) { "나"@ } else { (if (0 <= i < ts.len() && ts[i].surface == "서고"@) { "서"@ } else { (if (0 <= i < ts.len() && ts[i].surface == "살고"@) { "살"@ } else { (if (0 <= i < ts.len() && ts[i].surface == "알고"@) { "알"@ } else { (if (0 <= i < ts.len() && ts[i].surface == "듣고"@) { "듣"@ } else { (if (0 <= i < ts.len() && ts[i].surface == "걷고"@) { "걷"@ } else { (if (0 <= i < ts.len() && ts[i].surface == "만나고"@) { "만나"@ } else { "기다리"@ }) }) }) }) }) }) }) }) }) }) }) }) }) }) }) }) }) })).len() as usize), ts[i].end_pos), TokenView { pos: "VX"@, ..ts[i + 1] }]), i + 3)
    } else if p111_c1(ts, i) {
        (splice(ts, i, 1, seq![plain_view((if (0 <= i < ts.len() && ts[i].surface == "가고"@) { "가"@ } else { (if (0 <= i < ts.len() && ts[i].surface == "오고"@) { "오"@ } else { (if (0 <= i < ts.len() && ts[i].surface == "보고"@) { "보"@ } else { (if (0 <= i < ts.len() && ts[i].surface == "하고"@) { "하"@ } else { (if (0 <= i < ts.len() && ts[i].surface == "되고"@) { "되"@ } else { (if (0 <= i < ts.len() && ts[i].surface == "먹고"@) { "먹"@ } else { (if (0 <= i < ts.len() && ts[i].surface == "읽고"@) { "읽"@ } else { (if (0 <= i < ts.len() && ts[i].surface == "쓰고"@) { "쓰"@ } else { (if (0 <= i < ts.len() && ts[i].surface == "주고"@) { "주"@ } else { (if (0 <= i < ts.len() && ts[i].surface == "사고"@) { "사"@ } else { (if (0 <= i < ts.len() && ts[i].surface == "자고"@) { "자"@ } else { (if (0 <= i < ts.len() && ts[i].surface == "나고"@) { "나"@ } else { (if (0 <= i < ts.len() && ts[i].surface == "서고"@) { "서"@ } else { (if (0 <= i < ts.len() && ts[i].surface == "살고"@) { "살"@ } else { (if (0 <= i < ts.len() && ts[i].surface == "알고"@) { "알"@ } else { (if (0 <= i < ts.len() && ts[i].surface == "듣고"@) { "듣"@ } else { (if (0 <= i < ts.len() && ts[i].surface == "걷고"@) { "걷"@ } else { (if (0 <= i < ts.len() && ts[i].surface == "만나고"@) { "만나"@ } else { "기다리"@ }) }) }) }) }) }) }) }) }) }) }) }) }) }) }) }) }) }), "VV"@, ts[i].start_pos, (ts[i].start_pos).saturating_add(encode_utf8((if (0 <= i < ts.len() && ts[i].surface == "가고"@) { "가"@ } else { (if (0 <= i < ts.len() && ts[i].surface == "오고"@) { "오"@ } else { (if (0 <= i < ts.len() && ts[i].surface == "보고"@) { "보"@ } else { (if (0 <= i < ts.len() && ts[i].surface == "하고"@) { "하"@ } else { (if (0 <= i < ts.len() && ts[i].surface == "되고"@) { "되"@ } else { (if (0 <= i < ts.len() && ts[i].surface == "먹고"@) { "먹"@ } else { (if (0 <= i < ts.len() && ts[i].surface == "읽고"@) { "읽"@ } else { (if (0 <= i < ts.len() && ts[i].surface == "쓰고"@) { "쓰"@ } else { (if (0 <= i < ts.len() && ts[i].surface == "주고"@) { "주"@ } else { (if (0 <= i < ts.len() && ts[i].surface == "사고"@) { "사"@ } else { (if (0 <= i < ts.len() && ts[i].surface == "자고"@) { "자"@ } else { (if (0 <= i < ts.len() && ts[i].surface == "나고"@) { "나"@ } else { (if (0 <= i < ts.len() && ts[i].surface == "서고"@) { "서"@ } else { (if (0 <= i < ts.len() && ts[i].surface == "살고"@) { "살"@ } else { (if (0 <= i < ts.len() && ts[i].surface == "알고"@) { "알"@ } else { (if (0 <= i < ts.len() && ts[i].surface == "듣고"@) { "듣"@ } else { (if (0 <= i < ts.len() && ts[i].surface == "걷고"@) { "걷"@ } else { (if (0 <= i < ts.len() && ts[i].surface == "만나고"@) { "만나"@ } else { "기다리"@ }) }) }) }) }) }) }) }) }) }) }) }) }) }) }) }) }) })).len() as usize)), plain_view("고"@, "EC"@, (ts[i].start_pos).saturating_add(encode_utf8((if (0 <= i < ts.len() && ts[i].surface == "가고"@) { "가"@ } else { (if (0 <= i < ts.len() && ts[i].surface == "오고"@) { "오"@ } else { (if (0 <= i < ts.len() && ts[i].surface == "보고"@) { "보"@ } else { (if (0 <= i < ts.len() && ts[i].surface == "하고"@) { "하"@ } else { (if (0 <= i < ts.len() && ts[i].surface == "되고"@) { "되"@ } else { (if (0 <= i < ts.len() && ts[i].surface == "먹고"@) { "먹"@ } else { (if (0 <= i < ts.len() && ts[i].surface == "읽고"@) { "읽"@ } else { (if (0 <= i < ts.len() && ts[i].surface == "쓰고"@) { "쓰"@ } else { (if (0 <= i < ts.len() && ts[i].surface == "주고"@) { "주"@ } else { (if (0 <= i < ts.len() && ts[i].surface == "사고"@) { "사"@ } else { (if (0 <= i < ts.len() && ts[i].surface == "자고"@) { "자"@ } else { (if (0 <= i < ts.len() && ts[i].surface == "나고"@) { "나"@ } else { (if (0 <= i < ts.len() && ts[i].surface == "서고"@) { "서"@ } else { (if (0 <= i < ts.len() && ts[i].surface == "살고"@) { "살"@ } else { (if (0 <= i < ts.len() && ts[i].surface == "알고"@) { "알"@ } else { (if (0 <= i < ts.len() && ts[i].surface == "듣고"@) { "듣"@ } else { (if (0 <= i < ts.len() && ts[i].surface == "걷고"@) { "걷"@ } else { (if (0 <= i < ts.len() && ts[i].surface == "만나고"@) { "만나"@ } else { "기다리"@ }) }) }) }) }) }) }) }) }) }) }) }) }) }) }) }) }) })).len() as usize), ts[i].end_pos)]), i + 2)
    } else {
        (ts, i + 1)
    }
}

/// [`p111_step`] as a function value.
pub open spec fn p111_f() -> spec_fn(Seq<TokenView>, int) -> (Seq<TokenView>, int) {
    |ts: Seq<TokenView>, i: int| p111_step(ts, i)
}

/// A verb in 고 analysed as a noun before an auxiliary or a verb is split into the stem and 고/EC (가고/NNG 있 → 가/VV 고/EC 있/VX).
pub open spec fn p111(ts: Seq<TokenView>) -> Seq<TokenView> {
    scan(ts, 0, p111_f())
}

/// Whether rule 0 of [`p111`] applies at `i`.
fn p111_c0_exec(tokens: &Vec<SejongToken>, i: usize) -> (r: bool)
    requires
        i < tokens@.len(),
    ensures
        r == p111_c0(tokens_view(tokens@), i as int),
{
    assert(tokens_view(tokens@).len() == tokens@.len());
    let c151 = pos_is(&tokens[i], "NNG");
    let l153: [&str; 19] = ["가고", "오고", "보고", "하고", "되고", "먹고", "읽고", "쓰고", "주고", "사고", "자고", "나고", "서고", "살고", "알고", "듣고", "걷고", "만나고", "기다리고"];
    assert(crate::tag_map::strs_view(l153@) =~= seq!["가고"@, "오고"@, "보고"@, "하고"@, "되고"@, "먹고"@, "읽고"@, "쓰고"@, "주고"@, "사고"@, "자고"@, "나고"@, "서고"@, "살고"@, "알고"@, "듣고"@, "걷고"@, "만나고"@, "기다리고"@]);
    let c152 = in_list(&l153, tokens[i].surface.as_str());
    let l155: [&str; 3] = ["있", "싶", "없"];
    assert(crate::tag_map::strs_view(l155@) =~= seq!["있"@, "싶"@, "없"@]);
    let c154 = (tokens.len() - i > 1) && in_list(&l155, tokens[i + 1].surface.as_str());
    let l157: [&str; 4] = ["VX", "VA", "VV", "NNP"];
    assert(crate::tag_map::strs_view(l157@) =~= seq!["VX"@, "VA"@, "VV"@, "NNP"@]);
    let c156 = (tokens.len() - i > 1) && in_list(&l157, tokens[i + 1].pos.as_str());
    let c158 = (tokens.len() - i > 1) && surf_is(&tokens[i + 1], "있");
    let c159 = (tokens.len() - i > 1) && pos_is(&tokens[i + 1], "VA");
    ((c151 && c152 && (c154 || c156)) && (c158 && c159))
}

/// Whether rule 1 of [`p111`] applies at `i`.
fn p111_c1_exec(tokens: &Vec<SejongToken>, i: usize) -> (r: bool)
    requires
        i < tokens@.len(),
    ensures
        r == p111_c1(tokens_view(tokens@), i as int),
{
    assert(tokens_view(tokens@).len() == tokens@.len());
    let c160 = pos_is(&tokens[i], "NNG");
    let l162: [&str; 19] = ["가고", "오고", "보고", "하고", "되고", "먹고", "읽고", "쓰고", "주고", "사고", "자고", "나고", "서고", "살고", "알고", "듣고", "걷고", "만나고", "기다리고"];
    assert(crate::tag_map::strs_view(l162@) =~= seq!["가고"@, "오고"@, "보고"@, "하고"@, "되고"@, "먹고"@, "읽고"@, "쓰고"@, "주고"@, "사고"@, "자고"@, "나고"@, "서고"@, "살고"@, "알고"@, "듣고"@, "걷고"@, "만나고"@, "기다리고"@]);
    let c161 = in_list(&l162, tokens[i].surface.as_str());
    let l164: [&str; 3] = ["있", "싶", "없"];
    assert(crate::tag_map::strs_view(l164@) =~= seq!["있"@, "싶"@, "없"@]);
    let c163 = (tokens.len() - i > 1) && in_list(&l164, tokens[i + 1].surface.as_str());
    let l166: [&str; 4] = ["VX", "VA", "VV", "NNP"];
    assert(crate::tag_map::strs_view(l166@) =~= seq!["VX"@, "VA"@, "VV"@, "NNP"@]);
    let c165 = (tokens.len() - i > 1) && in_list(&l166, tokens[i + 1].pos.as_str());
    (c160 && c161 && (c163 || c165))
}

/// One step of [`p111`] at `i`; returns the next position.
fn p111_step_exec(tokens: &mut Vec<SejongToken>, i: usize) -> (next: usize)
    requires
        i < old(tokens)@.len(),
    ensures
        (tokens_view(final(tokens)@), next as int) == p111_step(tokens_view(old(tokens)@), i as int),
        final(tokens)@.len() - next < old(tokens)@.len() - i,
        next <= final(tokens)@.len() + 1,
{
    let len0 = tokens.len();
    assert(tokens_view(tokens@).len() == tokens@.len());
    if p111_c0_exec(tokens, i) {
        let c168 = surf_is(&tokens[i], "가고");
        let c169 = surf_is(&tokens[i], "오고");
        let c170 = surf_is(&tokens[i], "보고");
        let c171 = surf_is(&tokens[i], "하고");
        let c172 = surf_is(&tokens[i], "되고");
        let c173 = surf_is(&tokens[i], "먹고");
        let c174 = surf_is(&tokens[i], "읽고");
        let c175 = surf_is(&tokens[i], "쓰고");
        let c176 = surf_is(&tokens[i], "주고");
        let c177 = surf_is(&tokens[i], "사고");
        let c178 = surf_is(&tokens[i], "자고");
        let c179 = surf_is(&tokens[i], "나고");
        let c180 = surf_is(&tokens[i], "서고");
        let c181 = surf_is(&tokens[i], "살고");
        let c182 = surf_is(&tokens[i], "알고");
        let c183 = surf_is(&tokens[i], "듣고");
        let c184 = surf_is(&tokens[i], "걷고");
        let c185 = surf_is(&tokens[i], "만나고");
        let s186 = if c168 { let s187 = owned("가"); s187 } else if c169 { let s188 = owned("오"); s188 } else if c170 { let s189 = owned("보"); s189 } else if c171 { let s190 = owned("하"); s190 } else if c172 { let s191 = owned("되"); s191 } else if c173 { let s192 = owned("먹"); s192 } else if c174 { let s193 = owned("읽"); s193 } else if c175 { let s194 = owned("쓰"); s194 } else if c176 { let s195 = owned("주"); s195 } else if c177 { let s196 = owned("사"); s196 } else if c178 { let s197 = owned("자"); s197 } else if c179 { let s198 = owned("나"); s198 } else if c180 { let s199 = owned("서"); s199 } else if c181 { let s200 = owned("살"); s200 } else if c182 { let s201 = owned("알"); s201 } else if c183 { let s202 = owned("듣"); s202 } else if c184 { let s203 = owned("걷"); s203 } else if c185 { let s204 = owned("만나"); s204 } else { let s205 = owned("기다리"); s205 };
        let s206 = owned("VV");
        let n207 = tokens[i].start_pos;
        let n209 = tokens[i].start_pos;
        let c210 = surf_is(&tokens[i], "가고");
        let c211 = surf_is(&tokens[i], "오고");
        let c212 = surf_is(&tokens[i], "보고");
        let c213 = surf_is(&tokens[i], "하고");
        let c214 = surf_is(&tokens[i], "되고");
        let c215 = surf_is(&tokens[i], "먹고");
        let c216 = surf_is(&tokens[i], "읽고");
        let c217 = surf_is(&tokens[i], "쓰고");
        let c218 = surf_is(&tokens[i], "주고");
        let c219 = surf_is(&tokens[i], "사고");
        let c220 = surf_is(&tokens[i], "자고");
        let c221 = surf_is(&tokens[i], "나고");
        let c222 = surf_is(&tokens[i], "서고");
        let c223 = surf_is(&tokens[i], "살고");
        let c224 = surf_is(&tokens[i], "알고");
        let c225 = surf_is(&tokens[i], "듣고");
        let c226 = surf_is(&tokens[i], "걷고");
        let c227 = surf_is(&tokens[i], "만나고");
        let s228 = if c210 { let s229 = owned("가"); s229 } else if c211 { let s230 = owned("오"); s230 } else if c212 { let s231 = owned("보"); s231 } else if c213 { let s232 = owned("하"); s232 } else if c214 { let s233 = owned("되"); s233 } else if c215 { let s234 = owned("먹"); s234 } else if c216 { let s235 = owned("읽"); s235 } else if c217 { let s236 = owned("쓰"); s236 } else if c218 { let s237 = owned("주"); s237 } else if c219 { let s238 = owned("사"); s238 } else if c220 { let s239 = owned("자"); s239 } else if c221 { let s240 = owned("나"); s240 } else if c222 { let s241 = owned("서"); s241 } else if c223 { let s242 = owned("살"); s242 } else if c224 { let s243 = owned("알"); s243 } else if c225 { let s244 = owned("듣"); s244 } else if c226 { let s245 = owned("걷"); s245 } else if c227 { let s246 = owned("만나"); s246 } else { let s247 = owned("기다리"); s247 };
        let n208 = n209.saturating_add(s228.as_str().len());
        let t167 = SejongToken::new(s186.as_str(), s206.as_str(), n207, n208);
        let s249 = owned("고");
        let s250 = owned("EC");
        let n252 = tokens[i].start_pos;
        let c253 = surf_is(&tokens[i], "가고");
        let c254 = surf_is(&tokens[i], "오고");
        let c255 = surf_is(&tokens[i], "보고");
        let c256 = surf_is(&tokens[i], "하고");
        let c257 = surf_is(&tokens[i], "되고");
        let c258 = surf_is(&tokens[i], "먹고");
        let c259 = surf_is(&tokens[i], "읽고");
        let c260 = surf_is(&tokens[i], "쓰고");
        let c261 = surf_is(&tokens[i], "주고");
        let c262 = surf_is(&tokens[i], "사고");
        let c263 = surf_is(&tokens[i], "자고");
        let c264 = surf_is(&tokens[i], "나고");
        let c265 = surf_is(&tokens[i], "서고");
        let c266 = surf_is(&tokens[i], "살고");
        let c267 = surf_is(&tokens[i], "알고");
        let c268 = surf_is(&tokens[i], "듣고");
        let c269 = surf_is(&tokens[i], "걷고");
        let c270 = surf_is(&tokens[i], "만나고");
        let s271 = if c253 { let s272 = owned("가"); s272 } else if c254 { let s273 = owned("오"); s273 } else if c255 { let s274 = owned("보"); s274 } else if c256 { let s275 = owned("하"); s275 } else if c257 { let s276 = owned("되"); s276 } else if c258 { let s277 = owned("먹"); s277 } else if c259 { let s278 = owned("읽"); s278 } else if c260 { let s279 = owned("쓰"); s279 } else if c261 { let s280 = owned("주"); s280 } else if c262 { let s281 = owned("사"); s281 } else if c263 { let s282 = owned("자"); s282 } else if c264 { let s283 = owned("나"); s283 } else if c265 { let s284 = owned("서"); s284 } else if c266 { let s285 = owned("살"); s285 } else if c267 { let s286 = owned("알"); s286 } else if c268 { let s287 = owned("듣"); s287 } else if c269 { let s288 = owned("걷"); s288 } else if c270 { let s289 = owned("만나"); s289 } else { let s290 = owned("기다리"); s290 };
        let n251 = n252.saturating_add(s271.as_str().len());
        let n291 = tokens[i].end_pos;
        let t248 = SejongToken::new(s249.as_str(), s250.as_str(), n251, n291);
        let s293 = owned("VX");
        let mut t292 = tokens[i + 1].duplicate();
        t292.pos = s293;
        let mut nv294: Vec<SejongToken> = Vec::new();
        push_token(&mut nv294, t167);
        push_token(&mut nv294, t248);
        push_token(&mut nv294, t292);
        splice_tokens(tokens, i, 2, nv294);
        let _len1 = tokens.len();
        return i + 3;
    }
    if p111_c1_exec(tokens, i) {
        let c296 = surf_is(&tokens[i], "가고");
        let c297 = surf_is(&tokens[i], "오고");
        let c298 = surf_is(&tokens[i], "보고");
        let c299 = surf_is(&tokens[i], "하고");
        let c300 = surf_is(&tokens[i], "되고");
        let c301 = surf_is(&tokens[i], "먹고");
        let c302 = surf_is(&tokens[i], "읽고");
        let c303 = surf_is(&tokens[i], "쓰고");
        let c304 = surf_is(&tokens[i], "주고");
        let c305 = surf_is(&tokens[i], "사고");
        let c306 = surf_is(&tokens[i], "자고");
        let c307 = surf_is(&tokens[i], "나고");
        let c308 = surf_is(&tokens[i], "서고");
        let c309 = surf_is(&tokens[i], "살고");
        let c310 = surf_is(&tokens[i], "알고");
        let c311 = surf_is(&tokens[i], "듣고");
        let c312 = surf_is(&tokens[i], "걷고");
        let c313 = surf_is(&tokens[i], "만나고");
        let s314 = if c296 { let s315 = owned("가"); s315 } else if c297 { let s316 = owned("오"); s316 } else if c298 { let s317 = owned("보"); s317 } else if c299 { let s318 = owned("하"); s318 } else if c300 { let s319 = owned("되"); s319 } else if c301 { let s320 = owned("먹"); s320 } else if c302 { let s321 = owned("읽"); s321 } else if c303 { let s322 = owned("쓰"); s322 } else if c304 { let s323 = owned("주"); s323 } else if c305 { let s324 = owned("사"); s324 } else if c306 { let s325 = owned("자"); s325 } else if c307 { let s326 = owned("나"); s326 } else if c308 { let s327 = owned("서"); s327 } else if c309 { let s328 = owned("살"); s328 } else if c310 { let s329 = owned("알"); s329 } else if c311 { let s330 = owned("듣"); s330 } else if c312 { let s331 = owned("걷"); s331 } else if c313 { let s332 = owned("만나"); s332 } else { let s333 = owned("기다리"); s333 };
        let s334 = owned("VV");
        let n335 = tokens[i].start_pos;
        let n337 = tokens[i].start_pos;
        let c338 = surf_is(&tokens[i], "가고");
        let c339 = surf_is(&tokens[i], "오고");
        let c340 = surf_is(&tokens[i], "보고");
        let c341 = surf_is(&tokens[i], "하고");
        let c342 = surf_is(&tokens[i], "되고");
        let c343 = surf_is(&tokens[i], "먹고");
        let c344 = surf_is(&tokens[i], "읽고");
        let c345 = surf_is(&tokens[i], "쓰고");
        let c346 = surf_is(&tokens[i], "주고");
        let c347 = surf_is(&tokens[i], "사고");
        let c348 = surf_is(&tokens[i], "자고");
        let c349 = surf_is(&tokens[i], "나고");
        let c350 = surf_is(&tokens[i], "서고");
        let c351 = surf_is(&tokens[i], "살고");
        let c352 = surf_is(&tokens[i], "알고");
        let c353 = surf_is(&tokens[i], "듣고");
        let c354 = surf_is(&tokens[i], "걷고");
        let c355 = surf_is(&tokens[i], "만나고");
        let s356 = if c338 { let s357 = owned("가"); s357 } else if c339 { let s358 = owned("오"); s358 } else if c340 { let s359 = owned("보"); s359 } else if c341 { let s360 = owned("하"); s360 } else if c342 { let s361 = owned("되"); s361 } else if c343 { let s362 = owned("먹"); s362 } else if c344 { let s363 = owned("읽"); s363 } else if c345 { let s364 = owned("쓰"); s364 } else if c346 { let s365 = owned("주"); s365 } else if c347 { let s366 = owned("사"); s366 } else if c348 { let s367 = owned("자"); s367 } else if c349 { let s368 = owned("나"); s368 } else if c350 { let s369 = owned("서"); s369 } else if c351 { let s370 = owned("살"); s370 } else if c352 { let s371 = owned("알"); s371 } else if c353 { let s372 = owned("듣"); s372 } else if c354 { let s373 = owned("걷"); s373 } else if c355 { let s374 = owned("만나"); s374 } else { let s375 = owned("기다리"); s375 };
        let n336 = n337.saturating_add(s356.as_str().len());
        let t295 = SejongToken::new(s314.as_str(), s334.as_str(), n335, n336);
        let s377 = owned("고");
        let s378 = owned("EC");
        let n380 = tokens[i].start_pos;
        let c381 = surf_is(&tokens[i], "가고");
        let c382 = surf_is(&tokens[i], "오고");
        let c383 = surf_is(&tokens[i], "보고");
        let c384 = surf_is(&tokens[i], "하고");
        let c385 = surf_is(&tokens[i], "되고");
        let c386 = surf_is(&tokens[i], "먹고");
        let c387 = surf_is(&tokens[i], "읽고");
        let c388 = surf_is(&tokens[i], "쓰고");
        let c389 = surf_is(&tokens[i], "주고");
        let c390 = surf_is(&tokens[i], "사고");
        let c391 = surf_is(&tokens[i], "자고");
        let c392 = surf_is(&tokens[i], "나고");
        let c393 = surf_is(&tokens[i], "서고");
        let c394 = surf_is(&tokens[i], "살고");
        let c395 = surf_is(&tokens[i], "알고");
        let c396 = surf_is(&tokens[i], "듣고");
        let c397 = surf_is(&tokens[i], "걷고");
        let c398 = surf_is(&tokens[i], "만나고");
        let s399 = if c381 { let s400 = owned("가"); s400 } else if c382 { let s401 = owned("오"); s401 } else if c383 { let s402 = owned("보"); s402 } else if c384 { let s403 = owned("하"); s403 } else if c385 { let s404 = owned("되"); s404 } else if c386 { let s405 = owned("먹"); s405 } else if c387 { let s406 = owned("읽"); s406 } else if c388 { let s407 = owned("쓰"); s407 } else if c389 { let s408 = owned("주"); s408 } else if c390 { let s409 = owned("사"); s409 } else if c391 { let s410 = owned("자"); s410 } else if c392 { let s411 = owned("나"); s411 } else if c393 { let s412 = owned("서"); s412 } else if c394 { let s413 = owned("살"); s413 } else if c395 { let s414 = owned("알"); s414 } else if c396 { let s415 = owned("듣"); s415 } else if c397 { let s416 = owned("걷"); s416 } else if c398 { let s417 = owned("만나"); s417 } else { let s418 = owned("기다리"); s418 };
        let n379 = n380.saturating_add(s399.as_str().len());
        let n419 = tokens[i].end_pos;
        let t376 = SejongToken::new(s377.as_str(), s378.as_str(), n379, n419);
        let mut nv420: Vec<SejongToken> = Vec::new();
        push_token(&mut nv420, t295);
        push_token(&mut nv420, t376);
        splice_tokens(tokens, i, 1, nv420);
        let _len1 = tokens.len();
        return i + 2;
    }
    i + 1
}

/// A verb in 고 analysed as a noun before an auxiliary or a verb is split into the stem and 고/EC (가고/NNG 있 → 가/VV 고/EC 있/VX).
pub fn apply_p111(tokens: &mut Vec<SejongToken>)
    ensures
        tokens_view(final(tokens)@) == p111(tokens_view(old(tokens)@)),
{
    let ghost orig = tokens_view(tokens@);
    let mut i: usize = 0;
    while i < tokens.len()
        invariant
            i <= tokens@.len() + 1,
            scan(tokens_view(tokens@), i as int, p111_f()) == scan(orig, 0, p111_f()),
        decreases tokens@.len() + 1 - i,
    {
        let ghost before = tokens_view(tokens@);
        assert(before.len() == tokens@.len());
        i = p111_step_exec(tokens, i);
        assert(tokens_view(tokens@).len() == tokens@.len());
    }
}

/// Where rule 0 of [`p112`] applies.
pub open spec fn p112_c0(ts: Seq<TokenView>, i: int) -> bool {
    ((0 <= i < ts.len() && ts[i].surface == "싶어요"@) && (0 <= i < ts.len() && ts[i].pos == "NNP"@))
}

/// One step of [`p112`] at `i`: the list after it and the next position.
pub open spec fn p112_step(ts: Seq<TokenView>, i: int) -> (Seq<TokenView>, int) {
    if p112_c0(ts, i) {
        (splice(ts, i, 1, seq![plain_view("싶"@, "VX"@, ts[i].start_pos, (ts[i].start_pos).saturating_add(encode_utf8("싶"@).len() as usize)), plain_view("어요"@, "EF"@, (ts[i].start_pos).saturating_add(encode_utf8("싶"@).len() as usize), ts[i].end_pos)]), i + 2)
    } else {
        (ts, i + 1)
    }
}

/// [`p112_step`] as a function value.
pub open spec fn p112_f() -> spec_fn(Seq<TokenView>, int) -> (Seq<TokenView>, int) {
    |ts: Seq<TokenView>, i: int| p112_step(ts, i)
}

/// 싶어요/NNP is 싶/VX 어요/EF.
pub open spec fn p112(ts: Seq<TokenView>) -> Seq<TokenView> {
    scan(ts, 0, p112_f())
}

/// Whether rule 0 of [`p112`] applies at `i`.
fn p112_c0_exec(tokens: &Vec<SejongToken>, i: usize) -> (r: bool)
    requires
        i < tokens@.len(),
    ensures
        r == p112_c0(tokens_view(tokens@), i as int),
{
    assert(tokens_view(tokens@).len() == tokens@.len());
    let c421 = surf_is(&tokens[i], "싶어요");
    let c422 = pos_is(&tokens[i], "NNP");
    (c421 && c422)
}

/// One step of [`p112`] at `i`; returns the next position.
fn p112_step_exec(tokens: &mut Vec<SejongToken>, i: usize) -> (next: usize)
    requires
        i < old(tokens)@.len(),
    ensures
        (tokens_view(final(tokens)@), next as int) == p112_step(tokens_view(old(tokens)@), i as int),
        final(tokens)@.len() - next < old(tokens)@.len() - i,
        next <= final(tokens)@.len() + 1,
{
    let len0 = tokens.len();
    assert(tokens_view(tokens@).len() == tokens@.len());
    if p112_c0_exec(tokens, i) {
        let s424 = owned("싶");
        let s425 = owned("VX");
        let n426 = tokens[i].start_pos;
        let n428 = tokens[i].start_pos;
        let s429 = owned("싶");
        let n427 = n428.saturating_add(s429.as_str().len());
        let t423 = SejongToken::new(s424.as_str(), s425.as_str(), n426, n427);
        let s431 = owned("어요");
        let s432 = owned("EF");
        let n434 = tokens[i].start_pos;
        let s435 = owned("싶");
        let n433 = n434.saturating_add(s435.as_str().len());
        let n436 = tokens[i].end_pos;
        let t430 = SejongToken::new(s431.as_str(), s432.as_str(), n433, n436);
        let mut nv437: Vec<SejongToken> = Vec::new();
        push_token(&mut nv437, t423);
        push_token(&mut nv437, t430);
        splice_tokens(tokens, i, 1, nv437);
        let _len1 = tokens.len();
        return i + 2;
    }
    i + 1
}

/// 싶어요/NNP is 싶/VX 어요/EF.
pub fn apply_p112(tokens: &mut Vec<SejongToken>)
    ensures
        tokens_view(final(tokens)@) == p112(tokens_view(old(tokens)@)),
{
    let ghost orig = tokens_view(tokens@);
    let mut i: usize = 0;
    while i < tokens.len()
        invariant
            i <= tokens@.len() + 1,
            scan(tokens_view(tokens@), i as int, p112_f()) == scan(orig, 0, p112_f()),
        decreases tokens@.len() + 1 - i,
    {
        let ghost before = tokens_view(tokens@);
        assert(before.len() == tokens@.len());
        i = p112_step_exec(tokens, i);
        assert(tokens_view(tokens@).len() == tokens@.len());
    }
}

/// Verb suffixes, connective and final endings, auxiliary verbs.
pub open spec fn spec_apply_xsv_and_ec_ef_corrections(ts: Seq<TokenView>) -> Seq<TokenView> {
    p112(p111(p110(p109(p108(p107(p106(p105(p104(p103(p102(p100(p98(p97(p96(p95(p94(p93(p92(p91(p89(ts)))))))))))))))))))))
}

/// Verb suffixes, connective and final endings, auxiliary verbs.
pub fn apply_xsv_and_ec_ef_corrections(tokens: &mut Vec<SejongToken>)
    ensures
        tokens_view(final(tokens)@) == spec_apply_xsv_and_ec_ef_corrections(tokens_view(old(tokens)@)),
{
    apply_p89(tokens);
    apply_p91(tokens);
    apply_p92(tokens);
    apply_p93(tokens);
    apply_p94(tokens);
    apply_p95(tokens);
    apply_p96(tokens);
    apply_p97(tokens);
    apply_p98(tokens);
    apply_p100(tokens);
    apply_p102(tokens);
    apply_p103(tokens);
    apply_p104(tokens);
    apply_p105(tokens);
    apply_p106(tokens);
    apply_p107(tokens);
    apply_p108(tokens);
    apply_p109(tokens);
    apply_p110(tokens);
    apply_p111(tokens);
    apply_p112(tokens);
}

/// After [`p91`] no 는다, ㄴ다 or ᆫ다 is tagged EC.
pub proof fn p91_clears(ts: Seq<TokenView>)
    ensures
        none_bad(p91(ts), crate::corrections::sentence_final::nda_ec()),
{
    assert forall|j: int| 0 <= j < p91(ts).len() implies
        !crate::corrections::sentence_final::nda_ec()(#[trigger] p91(ts)[j]) by {
        reveal_strlit("는다");
        reveal_strlit("ㄴ다");
        reveal_strlit("ᆫ다");
        reveal_strlit("EC");
        reveal_strlit("EF");
        let t = ts[j];
        assert(p91(ts)[j] == (if p91_c(ts, j) { p91_t(ts, j) } else { t }));
        if !p91_c(ts, j) && crate::corrections::sentence_final::is_nda_ec(t) {
            if t.surface[0] == '는' {
                assert(t.surface =~= "는다"@);
            } else if t.surface[0] == 'ㄴ' {
                assert(t.surface =~= "ㄴ다"@);
            } else {
                assert(t.surface =~= "ᆫ다"@);
            }
            assert(t.pos =~= "EC"@);
        }
    }
}

/// [`p92`] leaves a list with no 는다, ㄴ다 or ᆫ다 tagged EC without one.
pub proof fn p92_keeps(ts: Seq<TokenView>)
    requires
        none_bad(ts, crate::corrections::sentence_final::nda_ec()),
    ensures
        none_bad(p92(ts), crate::corrections::sentence_final::nda_ec()),
{
    assert forall|j: int| 0 <= j < p92(ts).len() implies !crate::corrections::sentence_final::nda_ec()(#[trigger] p92(ts)[j]) by {
        reveal_strlit("EC");
        reveal_strlit("EF");
        reveal_strlit("NNG");
        reveal_strlit("VV");
        reveal_strlit("XSV");
        reveal_strlit("ᆫ다");
        reveal_strlit("ㄴ다");
        reveal_strlit("는다");
        reveal_strlit("아요");
        reveal_strlit("어요");
        reveal_strlit("하");
        assert(p92(ts)[j] == (if p92_c(ts, j) { p92_t(ts, j) } else { ts[j] }));
        if p92_c(ts, j) {
            assert(!crate::corrections::sentence_final::is_nda_ec(p92_t(ts, j)));
        } else {
            assert(!crate::corrections::sentence_final::nda_ec()(ts[j]));
        }
    }
}

/// [`p93`] leaves a list with no 는다, ㄴ다 or ᆫ다 tagged EC without one.
pub proof fn p93_keeps(ts: Seq<TokenView>)
    requires
        none_bad(ts, crate::corrections::sentence_final::nda_ec()),
    ensures
        none_bad(p93(ts), crate::corrections::sentence_final::nda_ec()),
{
    assert forall|j: int| 0 <= j < p93(ts).len() implies !crate::corrections::sentence_final::nda_ec()(#[trigger] p93(ts)[j]) by {
        reveal_strlit("EC");
        reveal_strlit("NNG");
        reveal_strlit("VV");
        reveal_strlit("VX");
        reveal_strlit("XSV");
        reveal_strlit("ᆫ다");
        reveal_strlit("ㄴ다");
        reveal_strlit("는다");
        reveal_strlit("하");
        assert(p93(ts)[j] == (if p93_c(ts, j) { p93_t(ts, j) } else { ts[j] }));
        if p93_c(ts, j) {
            assert(!crate::corrections::sentence_final::is_nda_ec(p93_t(ts, j)));
        } else {
            assert(!crate::corrections::sentence_final::nda_ec()(ts[j]));
        }
    }
}

/// [`p94`] leaves a list with no 는다, ㄴ다 or ᆫ다 tagged EC without one.
pub proof fn p94_keeps(ts0: Seq<TokenView>)
    requires
        none_bad(ts0, crate::corrections::sentence_final::nda_ec()),
    ensures
        none_bad(p94(ts0), crate::corrections::sentence_final::nda_ec()),
{
    assert forall|ts: Seq<TokenView>, i: int| 0 <= i < ts.len() && none_bad(ts, crate::corrections::sentence_final::nda_ec()) implies
        none_bad((#[trigger] p94_f()(ts, i)).0, crate::corrections::sentence_final::nda_ec()) by {
        reveal_strlit("EC");
        reveal_strlit("NNG");
        reveal_strlit("NP");
        reveal_strlit("VCP");
        reveal_strlit("ᆫ다");
        reveal_strlit("ㄴ다");
        reveal_strlit("는다");
        reveal_strlit("이");
        assert(p94_f()(ts, i) == p94_step(ts, i));
        if p94_c0(ts, i) {
                let nw0 = seq![];
                assert(nw0.len() == 0);
                let s0 = splice(ts, i, 1, nw0);
                lemma_splice_none_bad(ts, i, 1, nw0, crate::corrections::sentence_final::nda_ec());
            }
    }
    lemma_scan_none_bad(ts0, 0, p94_f(), crate::corrections::sentence_final::nda_ec());
}

/// [`p95`] leaves a list with no 는다, ㄴ다 or ᆫ다 tagged EC without one.
pub proof fn p95_keeps(ts: Seq<TokenView>)
    requires
        none_bad(ts, crate::corrections::sentence_final::nda_ec()),
    ensures
        none_bad(p95(ts), crate::corrections::sentence_final::nda_ec()),
{
    assert forall|j: int| 0 <= j < p95(ts).len() implies !crate::corrections::sentence_final::nda_ec()(#[trigger] p95(ts)[j]) by {
        reveal_strlit("EC");
        reveal_strlit("NNG");
        reveal_strlit("VV");
        reveal_strlit("XSV");
        reveal_strlit("ᆫ다");
        reveal_strlit("ㄴ다");
        reveal_strlit("는다");
        reveal_strlit("아야");
        reveal_strlit("야");
        reveal_strlit("어야");
        reveal_strlit("하");
        assert(p95(ts)[j] == (if p95_c(ts, j) { p95_t(ts, j) } else { ts[j] }));
        if p95_c(ts, j) {
            assert(!crate::corrections::sentence_final::is_nda_ec(p95_t(ts, j)));
        } else {
            assert(!crate::corrections::sentence_final::nda_ec()(ts[j]));
        }
    }
}

/// [`p96`] leaves a list with no 는다, ㄴ다 or ᆫ다 tagged EC without one.
pub proof fn p96_keeps(ts: Seq<TokenView>)
    requires
        none_bad(ts, crate::corrections::sentence_final::nda_ec()),
    ensures
        none_bad(p96(ts), crate::corrections::sentence_final::nda_ec()),
{
    assert forall|j: int| 0 <= j < p96(ts).len() implies !crate::corrections::sentence_final::nda_ec()(#[trigger] p96(ts)[j]) by {
        reveal_strlit("EC");
        reveal_strlit("NNG");
        reveal_strlit("VV");
        reveal_strlit("XSV");
        reveal_strlit("ᆫ다");
        reveal_strlit("ㄴ다");
        reveal_strlit("는다");
        reveal_strlit("되");
        assert(p96(ts)[j] == (if p96_c(ts, j) { p96_t(ts, j) } else { ts[j] }));
        if p96_c(ts, j) {
            assert(!crate::corrections::sentence_final::is_nda_ec(p96_t(ts, j)));
        } else {
            assert(!crate::corrections::sentence_final::nda_ec()(ts[j]));
        }
    }
}

/// [`p97`] leaves a list with no 는다, ㄴ다 or ᆫ다 tagged EC without one.
pub proof fn p97_keeps(ts: Seq<TokenView>)
    requires
        none_bad(ts, crate::corrections::sentence_final::nda_ec()),
    ensures
        none_bad(p97(ts), crate::corrections::sentence_final::nda_ec()),
{
    assert forall|j: int| 0 <= j < p97(ts).len() implies !crate::corrections::sentence_final::nda_ec()(#[trigger] p97(ts)[j]) by {
        reveal_strlit("EC");
        reveal_strlit("EP");
        reveal_strlit("NNG");
        reveal_strlit("VV");
        reveal_strlit("XSV");
        reveal_strlit("ᆫ다");
        reveal_strlit("ㄴ다");
        reveal_strlit("는다");
        reveal_strlit("하");
        assert(p97(ts)[j] == (if p97_c(ts, j) { p97_t(ts, j) } else { ts[j] }));
        if p97_c(ts, j) {
            assert(!crate::corrections::sentence_final::is_nda_ec(p97_t(ts, j)));
        } else {
            assert(!crate::corrections::sentence_final::nda_ec()(ts[j]));
        }
    }
}

/// [`p98`] leaves a list with no 는다, ㄴ다 or ᆫ다 tagged EC without one.
pub proof fn p98_keeps(ts: Seq<TokenView>)
    requires
        none_bad(ts, crate::corrections::sentence_final::nda_ec()),
    ensures
        none_bad(p98(ts), crate::corrections::sentence_final::nda_ec()),
{
    assert forall|j: int| 0 <= j < p98(ts).len() implies !crate::corrections::sentence_final::nda_ec()(#[trigger] p98(ts)[j]) by {
        reveal_strlit("EC");
        reveal_strlit("EF");
        reveal_strlit("VA");
        reveal_strlit("VV");
        reveal_strlit("XSV");
        reveal_strlit("ᆫ다");
        reveal_strlit("ㄴ다");
        reveal_strlit("는다");
        reveal_strlit("아요");
        reveal_strlit("어요");
        assert(p98(ts)[j] == (if p98_c(ts, j) { p98_t(ts, j) } else { ts[j] }));
        if p98_c(ts, j) {
            assert(!crate::corrections::sentence_final::is_nda_ec(p98_t(ts, j)));
        } else {
            assert(!crate::corrections::sentence_final::nda_ec()(ts[j]));
        }
    }
}

/// [`p100`] leaves a list with no 는다, ㄴ다 or ᆫ다 tagged EC without one.
pub proof fn p100_keeps(ts: Seq<TokenView>)
    requires
        none_bad(ts, crate::corrections::sentence_final::nda_ec()),
    ensures
        none_bad(p100(ts), crate::corrections::sentence_final::nda_ec()),
{
    assert forall|j: int| 0 <= j < p100(ts).len() implies !crate::corrections::sentence_final::nda_ec()(#[trigger] p100(ts)[j]) by {
        reveal_strlit("EC");
        reveal_strlit("EF");
        reveal_strlit("VV");
        reveal_strlit("ᆫ다");
        reveal_strlit("ㄴ다");
        reveal_strlit("는다");
        reveal_strlit("하");
        assert(p100(ts)[j] == (if p100_c(ts, j) { p100_t(ts, j) } else { ts[j] }));
        if p100_c(ts, j) {
            assert(!crate::corrections::sentence_final::is_nda_ec(p100_t(ts, j)));
        } else {
            assert(!crate::corrections::sentence_final::nda_ec()(ts[j]));
        }
    }
}

/// [`p102`] leaves a list with no 는다, ㄴ다 or ᆫ다 tagged EC without one.
pub proof fn p102_keeps(ts0: Seq<TokenView>)
    requires
        none_bad(ts0, crate::corrections::sentence_final::nda_ec()),
    ensures
        none_bad(p102(ts0), crate::corrections::sentence_final::nda_ec()),
{
    assert forall|ts: Seq<TokenView>, i: int| 0 <= i < ts.len() && none_bad(ts, crate::corrections::sentence_final::nda_ec()) implies
        none_bad((#[trigger] p102_f()(ts, i)).0, crate::corrections::sentence_final::nda_ec()) by {
        reveal_strlit("EC");
        reveal_strlit("NNG");
        reveal_strlit("VV");
        reveal_strlit("VX");
        reveal_strlit("XSV");
        reveal_strlit("ᆫ다");
        reveal_strlit("ㄴ다");
        reveal_strlit("고");
        reveal_strlit("는다");
        reveal_strlit("있");
        reveal_strlit("하");
        assert(p102_f()(ts, i) == p102_step(ts, i));
        if p102_c0(ts, i) {
                assert(!crate::corrections::sentence_final::is_nda_ec(TokenView { pos: "XSV"@, ..ts[i] }));
                let s0 = ts.update(i, TokenView { pos: "XSV"@, ..ts[i] });
                lemma_update_none_bad(ts, i, TokenView { pos: "XSV"@, ..ts[i] }, crate::corrections::sentence_final::nda_ec());
                assert(!crate::corrections::sentence_final::is_nda_ec(TokenView { pos: "VX"@, ..ts[i + 2] }));
                let s1 = s0.update(i + 2, TokenView { pos: "VX"@, ..ts[i + 2] });
                lemma_update_none_bad(s0, i + 2, TokenView { pos: "VX"@, ..ts[i + 2] }, crate::corrections::sentence_final::nda_ec());
            }
    }
    lemma_scan_none_bad(ts0, 0, p102_f(), crate::corrections::sentence_final::nda_ec());
}

/// [`p103`] leaves a list with no 는다, ㄴ다 or ᆫ다 tagged EC without one.
pub proof fn p103_keeps(ts0: Seq<TokenView>)
    requires
        none_bad(ts0, crate::corrections::sentence_final::nda_ec()),
    ensures
        none_bad(p103(ts0), crate::corrections::sentence_final::nda_ec()),
{
    assert forall|ts: Seq<TokenView>, i: int| 0 <= i < ts.len() && none_bad(ts, crate::corrections::sentence_final::nda_ec()) implies
        none_bad((#[trigger] p103_f()(ts, i)).0, crate::corrections::sentence_final::nda_ec()) by {
        reveal_strlit("EC");
        reveal_strlit("NNG");
        reveal_strlit("VV");
        reveal_strlit("VX");
        reveal_strlit("XSV");
        reveal_strlit("ᆫ다");
        reveal_strlit("ㄴ다");
        reveal_strlit("고");
        reveal_strlit("는다");
        reveal_strlit("되");
        reveal_strlit("있");
        assert(p103_f()(ts, i) == p103_step(ts, i));
        if p103_c0(ts, i) {
                assert(!crate::corrections::sentence_final::is_nda_ec(TokenView { pos: "XSV"@, ..ts[i] }));
                let s0 = ts.update(i, TokenView { pos: "XSV"@, ..ts[i] });
                lemma_update_none_bad(ts, i, TokenView { pos: "XSV"@, ..ts[i] }, crate::corrections::sentence_final::nda_ec());
                assert(!crate::corrections::sentence_final::is_nda_ec(TokenView { pos: "VX"@, ..ts[i + 2] }));
                let s1 = s0.update(i + 2, TokenView { pos: "VX"@, ..ts[i + 2] });
                lemma_update_none_bad(s0, i + 2, TokenView { pos: "VX"@, ..ts[i + 2] }, crate::corrections::sentence_final::nda_ec());
            }
    }
    lemma_scan_none_bad(ts0, 0, p103_f(), crate::corrections::sentence_final::nda_ec());
}

/// [`p104`] leaves a list with no 는다, ㄴ다 or ᆫ다 tagged EC without one.
pub proof fn p104_keeps(ts0: Seq<TokenView>)
    requires
        none_bad(ts0, crate::corrections::sentence_final::nda_ec()),
    ensures
        none_bad(p104(ts0), crate::corrections::sentence_final::nda_ec()),
{
    assert forall|ts: Seq<TokenView>, i: int| 0 <= i < ts.len() && none_bad(ts, crate::corrections::sentence_final::nda_ec()) implies
        none_bad((#[trigger] p104_f()(ts, i)).0, crate::corrections::sentence_final::nda_ec()) by {
        reveal_strlit("EC");
        reveal_strlit("EF");
        reveal_strlit("VA");
        reveal_strlit("VV");
        reveal_strlit("VX");
        reveal_strlit("XSV");
        reveal_strlit("ᆫ다");
        reveal_strlit("ㄴ다");
        reveal_strlit("가");
        reveal_strlit("내");
        reveal_strlit("놓");
        reveal_strlit("는다");
        reveal_strlit("달");
        reveal_strlit("대");
        reveal_strlit("두");
        reveal_strlit("드리");
        reveal_strlit("버리");
        reveal_strlit("보");
        reveal_strlit("빠지");
        reveal_strlit("아");
        reveal_strlit("어");
        reveal_strlit("여");
        reveal_strlit("오");
        reveal_strlit("주");
        reveal_strlit("치우");
        assert(p104_f()(ts, i) == p104_step(ts, i));
        if p104_c0(ts, i) {
                assert(!crate::corrections::sentence_final::is_nda_ec(TokenView { pos: "EC"@, ..ts[i + 1] }));
                let s0 = ts.update(i + 1, TokenView { pos: "EC"@, ..ts[i + 1] });
                lemma_update_none_bad(ts, i + 1, TokenView { pos: "EC"@, ..ts[i + 1] }, crate::corrections::sentence_final::nda_ec());
                assert(!crate::corrections::sentence_final::is_nda_ec(TokenView { pos: "VX"@, ..ts[i + 2] }));
                let s1 = s0.update(i + 2, TokenView { pos: "VX"@, ..ts[i + 2] });
                lemma_update_none_bad(s0, i + 2, TokenView { pos: "VX"@, ..ts[i + 2] }, crate::corrections::sentence_final::nda_ec());
            }
    }
    lemma_scan_none_bad(ts0, 0, p104_f(), crate::corrections::sentence_final::nda_ec());
}

/// [`p105`] leaves a list with no 는다, ㄴ다 or ᆫ다 tagged EC without one.
pub proof fn p105_keeps(ts: Seq<TokenView>)
    requires
        none_bad(ts, crate::corrections::sentence_final::nda_ec()),
    ensures
        none_bad(p105(ts), crate::corrections::sentence_final::nda_ec()),
{
    assert forall|j: int| 0 <= j < p105(ts).len() implies !crate::corrections::sentence_final::nda_ec()(#[trigger] p105(ts)[j]) by {
        reveal_strlit("EC");
        reveal_strlit("VV");
        reveal_strlit("VX");
        reveal_strlit("ᆫ다");
        reveal_strlit("ㄴ다");
        reveal_strlit("고");
        reveal_strlit("는다");
        reveal_strlit("있");
        assert(p105(ts)[j] == (if p105_c(ts, j) { p105_t(ts, j) } else { ts[j] }));
        if p105_c(ts, j) {
            assert(!crate::corrections::sentence_final::is_nda_ec(p105_t(ts, j)));
        } else {
            assert(!crate::corrections::sentence_final::nda_ec()(ts[j]));
        }
    }
}

/// [`p106`] leaves a list with no 는다, ㄴ다 or ᆫ다 tagged EC without one.
pub proof fn p106_keeps(ts: Seq<TokenView>)
    requires
        none_bad(ts, crate::corrections::sentence_final::nda_ec()),
    ensures
        none_bad(p106(ts), crate::corrections::sentence_final::nda_ec()),
{
    assert forall|j: int| 0 <= j < p106(ts).len() implies !crate::corrections::sentence_final::nda_ec()(#[trigger] p106(ts)[j]) by {
        reveal_strlit("EC");
        reveal_strlit("VV");
        reveal_strlit("VX");
        reveal_strlit("ᆫ다");
        reveal_strlit("ㄴ다");
        reveal_strlit("는다");
        reveal_strlit("않");
        reveal_strlit("지");
        assert(p106(ts)[j] == (if p106_c(ts, j) { p106_t(ts, j) } else { ts[j] }));
        if p106_c(ts, j) {
            assert(!crate::corrections::sentence_final::is_nda_ec(p106_t(ts, j)));
        } else {
            assert(!crate::corrections::sentence_final::nda_ec()(ts[j]));
        }
    }
}

/// [`p107`] leaves a list with no 는다, ㄴ다 or ᆫ다 tagged EC without one.
pub proof fn p107_keeps(ts: Seq<TokenView>)
    requires
        none_bad(ts, crate::corrections::sentence_final::nda_ec()),
    ensures
        none_bad(p107(ts), crate::corrections::sentence_final::nda_ec()),
{
    assert forall|j: int| 0 <= j < p107(ts).len() implies !crate::corrections::sentence_final::nda_ec()(#[trigger] p107(ts)[j]) by {
        reveal_strlit("EC");
        reveal_strlit("VA");
        reveal_strlit("VV");
        reveal_strlit("VX");
        reveal_strlit("ᆫ다");
        reveal_strlit("ㄴ다");
        reveal_strlit("고");
        reveal_strlit("는다");
        reveal_strlit("싶");
        assert(p107(ts)[j] == (if p107_c(ts, j) { p107_t(ts, j) } else { ts[j] }));
        if p107_c(ts, j) {
            assert(!crate::corrections::sentence_final::is_nda_ec(p107_t(ts, j)));
        } else {
            assert(!crate::corrections::sentence_final::nda_ec()(ts[j]));
        }
    }
}

/// [`p108`] leaves a list with no 는다, ㄴ다 or ᆫ다 tagged EC without one.
pub proof fn p108_keeps(ts0: Seq<TokenView>)
    requires
        none_bad(ts0, crate::corrections::sentence_final::nda_ec()),
    ensures
        none_bad(p108(ts0), crate::corrections::sentence_final::nda_ec()),
{
    assert forall|ts: Seq<TokenView>, i: int| 0 <= i < ts.len() && none_bad(ts, crate::corrections::sentence_final::nda_ec()) implies
        none_bad((#[trigger] p108_f()(ts, i)).0, crate::corrections::sentence_final::nda_ec()) by {
        reveal_strlit("EC");
        reveal_strlit("EF");
        reveal_strlit("ᆫ다");
        reveal_strlit("ㄴ다");
        reveal_strlit("고");
        reveal_strlit("냐");
        reveal_strlit("냐고");
        reveal_strlit("는다");
        reveal_strlit("다");
        reveal_strlit("라");
        reveal_strlit("자");
        assert(p108_f()(ts, i) == p108_step(ts, i));
        if p108_c0(ts, i) {
                let nw0 = seq![plain_view((ts[i].surface + ts[i + 1].surface), "EC"@, ts[i].start_pos, ts[i + 1].end_pos)];
                assert forall|k: int| 0 <= k < nw0.len() implies !crate::corrections::sentence_final::nda_ec()(#[trigger] nw0[k]) by { if k == 0 { assert(nw0[0] == plain_view((ts[i].surface + ts[i + 1].surface), "EC"@, ts[i].start_pos, ts[i + 1].end_pos)); assert(!crate::corrections::sentence_final::is_nda_ec(plain_view((ts[i].surface + ts[i + 1].surface), "EC"@, ts[i].start_pos, ts[i + 1].end_pos))); } }
                let s0 = splice(ts, i, 2, nw0);
                lemma_splice_none_bad(ts, i, 2, nw0, crate::corrections::sentence_final::nda_ec());
            }
    }
    lemma_scan_none_bad(ts0, 0, p108_f(), crate::corrections::sentence_final::nda_ec());
}

/// [`p109`] leaves a list with no 는다, ㄴ다 or ᆫ다 tagged EC without one.
pub proof fn p109_keeps(ts: Seq<TokenView>)
    requires
        none_bad(ts, crate::corrections::sentence_final::nda_ec()),
    ensures
        none_bad(p109(ts), crate::corrections::sentence_final::nda_ec()),
{
    assert forall|j: int| 0 <= j < p109(ts).len() implies !crate::corrections::sentence_final::nda_ec()(#[trigger] p109(ts)[j]) by {
        reveal_strlit("EC");
        reveal_strlit("EF");
        reveal_strlit("ᆫ다");
        reveal_strlit("ㄴ다");
        reveal_strlit("ㄹ까");
        reveal_strlit("ㄹ지");
        reveal_strlit("는다");
        reveal_strlit("하");
        assert(p109(ts)[j] == (if p109_c(ts, j) { p109_t(ts, j) } else { ts[j] }));
        if p109_c(ts, j) {
            assert(!crate::corrections::sentence_final::is_nda_ec(p109_t(ts, j)));
        } else {
            assert(!crate::corrections::sentence_final::nda_ec()(ts[j]));
        }
    }
}

/// [`p110`] leaves a list with no 는다, ㄴ다 or ᆫ다 tagged EC without one.
pub proof fn p110_keeps(ts: Seq<TokenView>)
    requires
        none_bad(ts, crate::corrections::sentence_final::nda_ec()),
    ensures
        none_bad(p110(ts), crate::corrections::sentence_final::nda_ec()),
{
    assert forall|j: int| 0 <= j < p110(ts).len() implies !crate::corrections::sentence_final::nda_ec()(#[trigger] p110(ts)[j]) by {
        reveal_strlit("EC");
        reveal_strlit("NNB");
        reveal_strlit("VA");
        reveal_strlit("VV");
        reveal_strlit("VX");
        reveal_strlit("ᆫ다");
        reveal_strlit("ㄴ다");
        reveal_strlit("게");
        reveal_strlit("는다");
        assert(p110(ts)[j] == (if p110_c(ts, j) { p110_t(ts, j) } else { ts[j] }));
        if p110_c(ts, j) {
            assert(!crate::corrections::sentence_final::is_nda_ec(p110_t(ts, j)));
        } else {
            assert(!crate::corrections::sentence_final::nda_ec()(ts[j]));
        }
    }
}

/// [`p111`] leaves a list with no 는다, ㄴ다 or ᆫ다 tagged EC without one.
pub proof fn p111_keeps(ts0: Seq<TokenView>)
    requires
        none_bad(ts0, crate::corrections::sentence_final::nda_ec()),
    ensures
        none_bad(p111(ts0), crate::corrections::sentence_final::nda_ec()),
{
    assert forall|ts: Seq<TokenView>, i: int| 0 <= i < ts.len() && none_bad(ts, crate::corrections::sentence_final::nda_ec()) implies
        none_bad((#[trigger] p111_f()(ts, i)).0, crate::corrections::sentence_final::nda_ec()) by {
        reveal_strlit("EC");
        reveal_strlit("NNG");
        reveal_strlit("NNP");
        reveal_strlit("VA");
        reveal_strlit("VV");
        reveal_strlit("VX");
        reveal_strlit("ᆫ다");
        reveal_strlit("ㄴ다");
        reveal_strlit("가");
        reveal_strlit("가고");
        reveal_strlit("걷");
        reveal_strlit("걷고");
        reveal_strlit("고");
        reveal_strlit("기다리");
        reveal_strlit("기다리고");
        reveal_strlit("나");
        reveal_strlit("나고");
        reveal_strlit("는다");
        reveal_strlit("되");
        reveal_strlit("되고");
        reveal_strlit("듣");
        reveal_strlit("듣고");
        reveal_strlit("만나");
        reveal_strlit("만나고");
        reveal_strlit("먹");
        reveal_strlit("먹고");
        reveal_strlit("보");
        reveal_strlit("보고");
        reveal_strlit("사");
        reveal_strlit("사고");
        reveal_strlit("살");
        reveal_strlit("살고");
        reveal_strlit("서");
        reveal_strlit("서고");
        reveal_strlit("싶");
        reveal_strlit("쓰");
        reveal_strlit("쓰고");
        reveal_strlit("알");
        reveal_strlit("알고");
        reveal_strlit("없");
        reveal_strlit("오");
        reveal_strlit("오고");
        reveal_strlit("읽");
        reveal_strlit("읽고");
        reveal_strlit("있");
        reveal_strlit("자");
        reveal_strlit("자고");
        reveal_strlit("주");
        reveal_strlit("주고");
        reveal_strlit("하");
        reveal_strlit("하고");
        assert(p111_f()(ts, i) == p111_step(ts, i));
        if p111_c0(ts, i) {
                let nw0 = seq![plain_view((if (0 <= i < ts.len() && ts[i].surface == "가고"@) { "가"@ } else { (if (0 <= i < ts.len() && ts[i].surface == "오고"@) { "오"@ } else { (if (0 <= i < ts.len() && ts[i].surface == "보고"@) { "보"@ } else { (if (0 <= i < ts.len() && ts[i].surface == "하고"@) { "하"@ } else { (if (0 <= i < ts.len() && ts[i].surface == "되고"@) { "되"@ } else { (if (0 <= i < ts.len() && ts[i].surface == "먹고"@) { "먹"@ } else { (if (0 <= i < ts.len() && ts[i].surface == "읽고"@) { "읽"@ } else { (if (0 <= i < ts.len() && ts[i].surface == "쓰고"@) { "쓰"@ } else { (if (0 <= i < ts.len() && ts[i].surface == "주고"@) { "주"@ } else { (if (0 <= i < ts.len() && ts[i].surface == "사고"@) { "사"@ } else { (if (0 <= i < ts.len() && ts[i].surface == "자고"@) { "자"@ } else { (if (0 <= i < ts.len() && ts[i].surface == "나고"@) { "나"@ } else { (if (0 <= i < ts.len() && ts[i].surface == "서고"@) { "서"@ } else { (if (0 <= i < ts.len() && ts[i].surface == "살고"@) { "살"@ } else { (if (0 <= i < ts.len() && ts[i].surface == "알고"@) { "알"@ } else { (if (0 <= i < ts.len() && ts[i].surface == "듣고"@) { "듣"@ } else { (if (0 <= i < ts.len() && ts[i].surface == "걷고"@) { "걷"@ } else { (if (0 <= i < ts.len() && ts[i].surface == "만나고"@) { "만나"@ } else { "기다리"@ }) }) }) }) }) }) }) }) }) }) }) }) }) }) }) }) }) }), "VV"@, ts[i].start_pos, (ts[i].start_pos).saturating_add(encode_utf8((if (0 <= i < ts.len() && ts[i].surface == "가고"@) { "가"@ } else { (if (0 <= i < ts.len() && ts[i].surface == "오고"@) { "오"@ } else { (if (0 <= i < ts.len() && ts[i].surface == "보고"@) { "보"@ } else { (if (0 <= i < ts.len() && ts[i].surface == "하고"@) { "하"@ } else { (if (0 <= i < ts.len() && ts[i].surface == "되고"@) { "되"@ } else { (if (0 <= i < ts.len() && ts[i].surface == "먹고"@) { "먹"@ } else { (if (0 <= i < ts.len() && ts[i].surface == "읽고"@) { "읽"@ } else { (if (0 <= i < ts.len() && ts[i].surface == "쓰고"@) { "쓰"@ } else { (if (0 <= i < ts.len() && ts[i].surface == "주고"@) { "주"@ } else { (if (0 <= i < ts.len() && ts[i].surface == "사고"@) { "사"@ } else { (if (0 <= i < ts.len() && ts[i].surface == "자고"@) { "자"@ } else { (if (0 <= i < ts.len() && ts[i].surface == "나고"@) { "나"@ } else { (if (0 <= i < ts.len() && ts[i].surface == "서고"@) { "서"@ } else { (if (0 <= i < ts.len() && ts[i].surface == "살고"@) { "살"@ } else { (if (0 <= i < ts.len() && ts[i].surface == "알고"@) { "알"@ } else { (if (0 <= i < ts.len() && ts[i].surface == "듣고"@) { "듣"@ } else { (if (0 <= i < ts.len() && ts[i].surface == "걷고"@) { "걷"@ } else { (if (0 <= i < ts.len() && ts[i].surface == "만나고"@) { "만나"@ } else { "기다리"@ }) }) }) }) }) }) }) }) }) }) }) }) }) }) }) }) }) })).len() as usize)), plain_view("고"@, "EC"@, (ts[i].start_pos).saturating_add(encode_utf8((if (0 <= i < ts.len() && ts[i].surface == "가고"@) { "가"@ } else { (if (0 <= i < ts.len() && ts[i].surface == "오고"@) { "오"@ } else { (if (0 <= i < ts.len() && ts[i].surface == "보고"@) { "보"@ } else { (if (0 <= i < ts.len() && ts[i].surface == "하고"@) { "하"@ } else { (if (0 <= i < ts.len() && ts[i].surface == "되고"@) { "되"@ } else { (if (0 <= i < ts.len() && ts[i].surface == "먹고"@) { "먹"@ } else { (if (0 <= i < ts.len() && ts[i].surface == "읽고"@) { "읽"@ } else { (if (0 <= i < ts.len() && ts[i].surface == "쓰고"@) { "쓰"@ } else { (if (0 <= i < ts.len() && ts[i].surface == "주고"@) { "주"@ } else { (if (0 <= i < ts.len() && ts[i].surface == "사고"@) { "사"@ } else { (if (0 <= i < ts.len() && ts[i].surface == "자고"@) { "자"@ } else { (if (0 <= i < ts.len() && ts[i].surface == "나고"@) { "나"@ } else { (if (0 <= i < ts.len() && ts[i].surface == "서고"@) { "서"@ } else { (if (0 <= i < ts.len() && ts[i].surface == "살고"@) { "살"@ } else { (if (0 <= i < ts.len() && ts[i].surface == "알고"@) { "알"@ } else { (if (0 <= i < ts.len() && ts[i].surface == "듣고"@) { "듣"@ } else { (if (0 <= i < ts.len() && ts[i].surface == "걷고"@) { "걷"@ } else { (if (0 <= i < ts.len() && ts[i].surface == "만나고"@) { "만나"@ } else { "기다리"@ }) }) }) }) }) }) }) }) }) }) }) }) }) }) }) }) }) })).len() as usize), ts[i].end_pos), TokenView { pos: "VX"@, ..ts[i + 1] }];
                assert forall|k: int| 0 <= k < nw0.len() implies !crate::corrections::sentence_final::nda_ec()(#[trigger] nw0[k]) by { if k == 0 { assert(nw0[0] == plain_view((if (0 <= i < ts.len() && ts[i].surface == "가고"@) { "가"@ } else { (if (0 <= i < ts.len() && ts[i].surface == "오고"@) { "오"@ } else { (if (0 <= i < ts.len() && ts[i].surface == "보고"@) { "보"@ } else { (if (0 <= i < ts.len() && ts[i].surface == "하고"@) { "하"@ } else { (if (0 <= i < ts.len() && ts[i].surface == "되고"@) { "되"@ } else { (if (0 <= i < ts.len() && ts[i].surface == "먹고"@) { "먹"@ } else { (if (0 <= i < ts.len() && ts[i].surface == "읽고"@) { "읽"@ } else { (if (0 <= i < ts.len() && ts[i].surface == "쓰고"@) { "쓰"@ } else { (if (0 <= i < ts.len() && ts[i].surface == "주고"@) { "주"@ } else { (if (0 <= i < ts.len() && ts[i].surface == "사고"@) { "사"@ } else { (if (0 <= i < ts.len() && ts[i].surface == "자고"@) { "자"@ } else { (if (0 <= i < ts.len() && ts[i].surface == "나고"@) { "나"@ } else { (if (0 <= i < ts.len() && ts[i].surface == "서고"@) { "서"@ } else { (if (0 <= i < ts.len() && ts[i].surface == "살고"@) { "살"@ } else { (if (0 <= i < ts.len() && ts[i].surface == "알고"@) { "알"@ } else { (if (0 <= i < ts.len() && ts[i].surface == "듣고"@) { "듣"@ } else { (if (0 <= i < ts.len() && ts[i].surface == "걷고"@) { "걷"@ } else { (if (0 <= i < ts.len() && ts[i].surface == "만나고"@) { "만나"@ } else { "기다리"@ }) }) }) }) }) }) }) }) }) }) }) }) }) }) }) }) }) }), "VV"@, ts[i].start_pos, (ts[i].start_pos).saturating_add(encode_utf8((if (0 <= i < ts.len() && ts[i].surface == "가고"@) { "가"@ } else { (if (0 <= i < ts.len() && ts[i].surface == "오고"@) { "오"@ } else { (if (0 <= i < ts.len() && ts[i].surface == "보고"@) { "보"@ } else { (if (0 <= i < ts.len() && ts[i].surface == "하고"@) { "하"@ } else { (if (0 <= i < ts.len() && ts[i].surface == "되고"@) { "되"@ } else { (if (0 <= i < ts.len() && ts[i].surface == "먹고"@) { "먹"@ } else { (if (0 <= i < ts.len() && ts[i].surface == "읽고"@) { "읽"@ } else { (if (0 <= i < ts.len() && ts[i].surface == "쓰고"@) { "쓰"@ } else { (if (0 <= i < ts.len() && ts[i].surface == "주고"@) { "주"@ } else { (if (0 <= i < ts.len() && ts[i].surface == "사고"@) { "사"@ } else { (if (0 <= i < ts.len() && ts[i].surface == "자고"@) { "자"@ } else { (if (0 <= i < ts.len() && ts[i].surface == "나고"@) { "나"@ } else { (if (0 <= i < ts.len() && ts[i].surface == "서고"@) { "서"@ } else { (if (0 <= i < ts.len() && ts[i].surface == "살고"@) { "살"@ } else { (if (0 <= i < ts.len() && ts[i].surface == "알고"@) { "알"@ } else { (if (0 <= i < ts.len() && ts[i].surface == "듣고"@) { "듣"@ } else { (if (0 <= i < ts.len() && ts[i].surface == "걷고"@) { "걷"@ } else { (if (0 <= i < ts.len() && ts[i].surface == "만나고"@) { "만나"@ } else { "기다리"@ }) }) }) }) }) }) }) }) }) }) }) }) }) }) }) }) }) })).len() as usize))); assert(!crate::corrections::sentence_final::is_nda_ec(plain_view((if (0 <= i < ts.len() && ts[i].surface == "가고"@) { "가"@ } else { (if (0 <= i < ts.len() && ts[i].surface == "오고"@) { "오"@ } else { (if (0 <= i < ts.len() && ts[i].surface == "보고"@) { "보"@ } else { (if (0 <= i < ts.len() && ts[i].surface == "하고"@) { "하"@ } else { (if (0 <= i < ts.len() && ts[i].surface == "되고"@) { "되"@ } else { (if (0 <= i < ts.len() && ts[i].surface == "먹고"@) { "먹"@ } else { (if (0 <= i < ts.len() && ts[i].surface == "읽고"@) { "읽"@ } else { (if (0 <= i < ts.len() && ts[i].surface == "쓰고"@) { "쓰"@ } else { (if (0 <= i < ts.len() && ts[i].surface == "주고"@) { "주"@ } else { (if (0 <= i < ts.len() && ts[i].surface == "사고"@) { "사"@ } else { (if (0 <= i < ts.len() && ts[i].surface == "자고"@) { "자"@ } else { (if (0 <= i < ts.len() && ts[i].surface == "나고"@) { "나"@ } else { (if (0 <= i < ts.len() && ts[i].surface == "서고"@) { "서"@ } else { (if (0 <= i < ts.len() && ts[i].surface == "살고"@) { "살"@ } else { (if (0 <= i < ts.len() && ts[i].surface == "알고"@) { "알"@ } else { (if (0 <= i < ts.len() && ts[i].surface == "듣고"@) { "듣"@ } else { (if (0 <= i < ts.len() && ts[i].surface == "걷고"@) { "걷"@ } else { (if (0 <= i < ts.len() && ts[i].surface == "만나고"@) { "만나"@ } else { "기다리"@ }) }) }) }) }) }) }) }) }) }) }) }) }) }) }) }) }) }), "VV"@, ts[i].start_pos, (ts[i].start_pos).saturating_add(encode_utf8((if (0 <= i < ts.len() && ts[i].surface == "가고"@) { "가"@ } else { (if (0 <= i < ts.len() && ts[i].surface == "오고"@) { "오"@ } else { (if (0 <= i < ts.len() && ts[i].surface == "보고"@) { "보"@ } else { (if (0 <= i < ts.len() && ts[i].surface == "하고"@) { "하"@ } else { (if (0 <= i < ts.len() && ts[i].surface == "되고"@) { "되"@ } else { (if (0 <= i < ts.len() && ts[i].surface == "먹고"@) { "먹"@ } else { (if (0 <= i < ts.len() && ts[i].surface == "읽고"@) { "읽"@ } else { (if (0 <= i < ts.len() && ts[i].surface == "쓰고"@) { "쓰"@ } else { (if (0 <= i < ts.len() && ts[i].surface == "주고"@) { "주"@ } else { (if (0 <= i < ts.len() && ts[i].surface == "사고"@) { "사"@ } else { (if (0 <= i < ts.len() && ts[i].surface == "자고"@) { "자"@ } else { (if (0 <= i < ts.len() && ts[i].surface == "나고"@) { "나"@ } else { (if (0 <= i < ts.len() && ts[i].surface == "서고"@) { "서"@ } else { (if (0 <= i < ts.len() && ts[i].surface == "살고"@) { "살"@ } else { (if (0 <= i < ts.len() && ts[i].surface == "알고"@) { "알"@ } else { (if (0 <= i < ts.len() && ts[i].surface == "듣고"@) { "듣"@ } else { (if (0 <= i < ts.len() && ts[i].surface == "걷고"@) { "걷"@ } else { (if (0 <= i < ts.len() && ts[i].surface == "만나고"@) { "만나"@ } else { "기다리"@ }) }) }) }) }) }) }) }) }) }) }) }) }) }) }) }) }) })).len() as usize)))); } else if k == 1 { assert(nw0[1] == plain_view("고"@, "EC"@, (ts[i].start_pos).saturating_add(encode_utf8((if (0 <= i < ts.len() && ts[i].surface == "가고"@) { "가"@ } else { (if (0 <= i < ts.len() && ts[i].surface == "오고"@) { "오"@ } else { (if (0 <= i < ts.len() && ts[i].surface == "보고"@) { "보"@ } else { (if (0 <= i < ts.len() && ts[i].surface == "하고"@) { "하"@ } else { (if (0 <= i < ts.len() && ts[i].surface == "되고"@) { "되"@ } else { (if (0 <= i < ts.len() && ts[i].surface == "먹고"@) { "먹"@ } else { (if (0 <= i < ts.len() && ts[i].surface == "읽고"@) { "읽"@ } else { (if (0 <= i < ts.len() && ts[i].surface == "쓰고"@) { "쓰"@ } else { (if (0 <= i < ts.len() && ts[i].surface == "주고"@) { "주"@ } else { (if (0 <= i < ts.len() && ts[i].surface == "사고"@) { "사"@ } else { (if (0 <= i < ts.len() && ts[i].surface == "자고"@) { "자"@ } else { (if (0 <= i < ts.len() && ts[i].surface == "나고"@) { "나"@ } else { (if (0 <= i < ts.len() && ts[i].surface == "서고"@) { "서"@ } else { (if (0 <= i < ts.len() && ts[i].surface == "살고"@) { "살"@ } else { (if (0 <= i < ts.len() && ts[i].surface == "알고"@) { "알"@ } else { (if (0 <= i < ts.len() && ts[i].surface == "듣고"@) { "듣"@ } else { (if (0 <= i < ts.len() && ts[i].surface == "걷고"@) { "걷"@ } else { (if (0 <= i < ts.len() && ts[i].surface == "만나고"@) { "만나"@ } else { "기다리"@ }) }) }) }) }) }) }) }) }) }) }) }) }) }) }) }) }) })).len() as usize), ts[i].end_pos)); assert(!crate::corrections::sentence_final::is_nda_ec(plain_view("고"@, "EC"@, (ts[i].start_pos).saturating_add(encode_utf8((if (0 <= i < ts.len() && ts[i].surface == "가고"@) { "가"@ } else { (if (0 <= i < ts.len() && ts[i].surface == "오고"@) { "오"@ } else { (if (0 <= i < ts.len() && ts[i].surface == "보고"@) { "보"@ } else { (if (0 <= i < ts.len() && ts[i].surface == "하고"@) { "하"@ } else { (if (0 <= i < ts.len() && ts[i].surface == "되고"@) { "되"@ } else { (if (0 <= i < ts.len() && ts[i].surface == "먹고"@) { "먹"@ } else { (if (0 <= i < ts.len() && ts[i].surface == "읽고"@) { "읽"@ } else { (if (0 <= i < ts.len() && ts[i].surface == "쓰고"@) { "쓰"@ } else { (if (0 <= i < ts.len() && ts[i].surface == "주고"@) { "주"@ } else { (if (0 <= i < ts.len() && ts[i].surface == "사고"@) { "사"@ } else { (if (0 <= i < ts.len() && ts[i].surface == "자고"@) { "자"@ } else { (if (0 <= i < ts.len() && ts[i].surface == "나고"@) { "나"@ } else { (if (0 <= i < ts.len() && ts[i].surface == "서고"@) { "서"@ } else { (if (0 <= i < ts.len() && ts[i].surface == "살고"@) { "살"@ } else { (if (0 <= i < ts.len() && ts[i].surface == "알고"@) { "알"@ } else { (if (0 <= i < ts.len() && ts[i].surface == "듣고"@) { "듣"@ } else { (if (0 <= i < ts.len() && ts[i].surface == "걷고"@) { "걷"@ } else { (if (0 <= i < ts.len() && ts[i].surface == "만나고"@) { "만나"@ } else { "기다리"@ }) }) }) }) }) }) }) }) }) }) }) }) }) }) }) }) }) })).len() as usize), ts[i].end_pos))); } else if k == 2 { assert(nw0[2] == TokenView { pos: "VX"@, ..ts[i + 1] }); assert(!crate::corrections::sentence_final::is_nda_ec(TokenView { pos: "VX"@, ..ts[i + 1] })); } }
                let s0 = splice(ts, i, 2, nw0);
                lemma_splice_none_bad(ts, i, 2, nw0, crate::corrections::sentence_final::nda_ec());
            } else if p111_c1(ts, i) {
                let nw0 = seq![plain_view((if (0 <= i < ts.len() && ts[i].surface == "가고"@) { "가"@ } else { (if (0 <= i < ts.len() && ts[i].surface == "오고"@) { "오"@ } else { (if (0 <= i < ts.len() && ts[i].surface == "보고"@) { "보"@ } else { (if (0 <= i < ts.len() && ts[i].surface == "하고"@) { "하"@ } else { (if (0 <= i < ts.len() && ts[i].surface == "되고"@) { "되"@ } else { (if (0 <= i < ts.len() && ts[i].surface == "먹고"@) { "먹"@ } else { (if (0 <= i < ts.len() && ts[i].surface == "읽고"@) { "읽"@ } else { (if (0 <= i < ts.len() && ts[i].surface == "쓰고"@) { "쓰"@ } else { (if (0 <= i < ts.len() && ts[i].surface == "주고"@) { "주"@ } else { (if (0 <= i < ts.len() && ts[i].surface == "사고"@) { "사"@ } else { (if (0 <= i < ts.len() && ts[i].surface == "자고"@) { "자"@ } else { (if (0 <= i < ts.len() && ts[i].surface == "나고"@) { "나"@ } else { (if (0 <= i < ts.len() && ts[i].surface == "서고"@) { "서"@ } else { (if (0 <= i < ts.len() && ts[i].surface == "살고"@) { "살"@ } else { (if (0 <= i < ts.len() && ts[i].surface == "알고"@) { "알"@ } else { (if (0 <= i < ts.len() && ts[i].surface == "듣고"@) { "듣"@ } else { (if (0 <= i < ts.len() && ts[i].surface == "걷고"@) { "걷"@ } else { (if (0 <= i < ts.len() && ts[i].surface == "만나고"@) { "만나"@ } else { "기다리"@ }) }) }) }) }) }) }) }) }) }) }) }) }) }) }) }) }) }), "VV"@, ts[i].start_pos, (ts[i].start_pos).saturating_add(encode_utf8((if (0 <= i < ts.len() && ts[i].surface == "가고"@) { "가"@ } else { (if (0 <= i < ts.len() && ts[i].surface == "오고"@) { "오"@ } else { (if (0 <= i < ts.len() && ts[i].surface == "보고"@) { "보"@ } else { (if (0 <= i < ts.len() && ts[i].surface == "하고"@) { "하"@ } else { (if (0 <= i < ts.len() && ts[i].surface == "되고"@) { "되"@ } else { (if (0 <= i < ts.len() && ts[i].surface == "먹고"@) { "먹"@ } else { (if (0 <= i < ts.len() && ts[i].surface == "읽고"@) { "읽"@ } else { (if (0 <= i < ts.len() && ts[i].surface == "쓰고"@) { "쓰"@ } else { (if (0 <= i < ts.len() && ts[i].surface == "주고"@) { "주"@ } else { (if (0 <= i < ts.len() && ts[i].surface == "사고"@) { "사"@ } else { (if (0 <= i < ts.len() && ts[i].surface == "자고"@) { "자"@ } else { (if (0 <= i < ts.len() && ts[i].surface == "나고"@) { "나"@ } else { (if (0 <= i < ts.len() && ts[i].surface == "서고"@) { "서"@ } else { (if (0 <= i < ts.len() && ts[i].surface == "살고"@) { "살"@ } else { (if (0 <= i < ts.len() && ts[i].surface == "알고"@) { "알"@ } else { (if (0 <= i < ts.len() && ts[i].surface == "듣고"@) { "듣"@ } else { (if (0 <= i < ts.len() && ts[i].surface == "걷고"@) { "걷"@ } else { (if (0 <= i < ts.len() && ts[i].surface == "만나고"@) { "만나"@ } else { "기다리"@ }) }) }) }) }) }) }) }) }) }) }) }) }) }) }) }) }) })).len() as usize)), plain_view("고"@, "EC"@, (ts[i].start_pos).saturating_add(encode_utf8((if (0 <= i < ts.len() && ts[i].surface == "가고"@) { "가"@ } else { (if (0 <= i < ts.len() && ts[i].surface == "오고"@) { "오"@ } else { (if (0 <= i < ts.len() && ts[i].surface == "보고"@) { "보"@ } else { (if (0 <= i < ts.len() && ts[i].surface == "하고"@) { "하"@ } else { (if (0 <= i < ts.len() && ts[i].surface == "되고"@) { "되"@ } else { (if (0 <= i < ts.len() && ts[i].surface == "먹고"@) { "먹"@ } else { (if (0 <= i < ts.len() && ts[i].surface == "읽고"@) { "읽"@ } else { (if (0 <= i < ts.len() && ts[i].surface == "쓰고"@) { "쓰"@ } else { (if (0 <= i < ts.len() && ts[i].surface == "주고"@) { "주"@ } else { (if (0 <= i < ts.len() && ts[i].surface == "사고"@) { "사"@ } else { (if (0 <= i < ts.len() && ts[i].surface == "자고"@) { "자"@ } else { (if (0 <= i < ts.len() && ts[i].surface == "나고"@) { "나"@ } else { (if (0 <= i < ts.len() && ts[i].surface == "서고"@) { "서"@ } else { (if (0 <= i < ts.len() && ts[i].surface == "살고"@) { "살"@ } else { (if (0 <= i < ts.len() && ts[i].surface == "알고"@) { "알"@ } else { (if (0 <= i < ts.len() && ts[i].surface == "듣고"@) { "듣"@ } else { (if (0 <= i < ts.len() && ts[i].surface == "걷고"@) { "걷"@ } else { (if (0 <= i < ts.len() && ts[i].surface == "만나고"@) { "만나"@ } else { "기다리"@ }) }) }) }) }) }) }) }) }) }) }) }) }) }) }) }) }) })).len() as usize), ts[i].end_pos)];
                assert forall|k: int| 0 <= k < nw0.len() implies !crate::corrections::sentence_final::nda_ec()(#[trigger] nw0[k]) by { if k == 0 { assert(nw0[0] == plain_view((if (0 <= i < ts.len() && ts[i].surface == "가고"@) { "가"@ } else { (if (0 <= i < ts.len() && ts[i].surface == "오고"@) { "오"@ } else { (if (0 <= i < ts.len() && ts[i].surface == "보고"@) { "보"@ } else { (if (0 <= i < ts.len() && ts[i].surface == "하고"@) { "하"@ } else { (if (0 <= i < ts.len() && ts[i].surface == "되고"@) { "되"@ } else { (if (0 <= i < ts.len() && ts[i].surface == "먹고"@) { "먹"@ } else { (if (0 <= i < ts.len() && ts[i].surface == "읽고"@) { "읽"@ } else { (if (0 <= i < ts.len() && ts[i].surface == "쓰고"@) { "쓰"@ } else { (if (0 <= i < ts.len() && ts[i].surface == "주고"@) { "주"@ } else { (if (0 <= i < ts.len() && ts[i].surface == "사고"@) { "사"@ } else { (if (0 <= i < ts.len() && ts[i].surface == "자고"@) { "자"@ } else { (if (0 <= i < ts.len() && ts[i].surface == "나고"@) { "나"@ } else { (if (0 <= i < ts.len() && ts[i].surface == "서고"@) { "서"@ } else { (if (0 <= i < ts.len() && ts[i].surface == "살고"@) { "살"@ } else { (if (0 <= i < ts.len() && ts[i].surface == "알고"@) { "알"@ } else { (if (0 <= i < ts.len() && ts[i].surface == "듣고"@) { "듣"@ } else { (if (0 <= i < ts.len() && ts[i].surface == "걷고"@) { "걷"@ } else { (if (0 <= i < ts.len() && ts[i].surface == "만나고"@) { "만나"@ } else { "기다리"@ }) }) }) }) }) }) }) }) }) }) }) }) }) }) }) }) }) }), "VV"@, ts[i].start_pos, (ts[i].start_pos).saturating_add(encode_utf8((if (0 <= i < ts.len() && ts[i].surface == "가고"@) { "가"@ } else { (if (0 <= i < ts.len() && ts[i].surface == "오고"@) { "오"@ } else { (if (0 <= i < ts.len() && ts[i].surface == "보고"@) { "보"@ } else { (if (0 <= i < ts.len() && ts[i].surface == "하고"@) { "하"@ } else { (if (0 <= i < ts.len() && ts[i].surface == "되고"@) { "되"@ } else { (if (0 <= i < ts.len() && ts[i].surface == "먹고"@) { "먹"@ } else { (if (0 <= i < ts.len() && ts[i].surface == "읽고"@) { "읽"@ } else { (if (0 <= i < ts.len() && ts[i].surface == "쓰고"@) { "쓰"@ } else { (if (0 <= i < ts.len() && ts[i].surface == "주고"@) { "주"@ } else { (if (0 <= i < ts.len() && ts[i].surface == "사고"@) { "사"@ } else { (if (0 <= i < ts.len() && ts[i].surface == "자고"@) { "자"@ } else { (if (0 <= i < ts.len() && ts[i].surface == "나고"@) { "나"@ } else { (if (0 <= i < ts.len() && ts[i].surface == "서고"@) { "서"@ } else { (if (0 <= i < ts.len() && ts[i].surface == "살고"@) { "살"@ } else { (if (0 <= i < ts.len() && ts[i].surface == "알고"@) { "알"@ } else { (if (0 <= i < ts.len() && ts[i].surface == "듣고"@) { "듣"@ } else { (if (0 <= i < ts.len() && ts[i].surface == "걷고"@) { "걷"@ } else { (if (0 <= i < ts.len() && ts[i].surface == "만나고"@) { "만나"@ } else { "기다리"@ }) }) }) }) }) }) }) }) }) }) }) }) }) }) }) }) }) })).len() as usize))); assert(!crate::corrections::sentence_final::is_nda_ec(plain_view((if (0 <= i < ts.len() && ts[i].surface == "가고"@) { "가"@ } else { (if (0 <= i < ts.len() && ts[i].surface == "오고"@) { "오"@ } else { (if (0 <= i < ts.len() && ts[i].surface == "보고"@) { "보"@ } else { (if (0 <= i < ts.len() && ts[i].surface == "하고"@) { "하"@ } else { (if (0 <= i < ts.len() && ts[i].surface == "되고"@) { "되"@ } else { (if (0 <= i < ts.len() && ts[i].surface == "먹고"@) { "먹"@ } else { (if (0 <= i < ts.len() && ts[i].surface == "읽고"@) { "읽"@ } else { (if (0 <= i < ts.len() && ts[i].surface == "쓰고"@) { "쓰"@ } else { (if (0 <= i < ts.len() && ts[i].surface == "주고"@) { "주"@ } else { (if (0 <= i < ts.len() && ts[i].surface == "사고"@) { "사"@ } else { (if (0 <= i < ts.len() && ts[i].surface == "자고"@) { "자"@ } else { (if (0 <= i < ts.len() && ts[i].surface == "나고"@) { "나"@ } else { (if (0 <= i < ts.len() && ts[i].surface == "서고"@) { "서"@ } else { (if (0 <= i < ts.len() && ts[i].surface == "살고"@) { "살"@ } else { (if (0 <= i < ts.len() && ts[i].surface == "알고"@) { "알"@ } else { (if (0 <= i < ts.len() && ts[i].surface == "듣고"@) { "듣"@ } else { (if (0 <= i < ts.len() && ts[i].surface == "걷고"@) { "걷"@ } else { (if (0 <= i < ts.len() && ts[i].surface == "만나고"@) { "만나"@ } else { "기다리"@ }) }) }) }) }) }) }) }) }) }) }) }) }) }) }) }) }) }), "VV"@, ts[i].start_pos, (ts[i].start_pos).saturating_add(encode_utf8((if (0 <= i < ts.len() && ts[i].surface == "가고"@) { "가"@ } else { (if (0 <= i < ts.len() && ts[i].surface == "오고"@) { "오"@ } else { (if (0 <= i < ts.len() && ts[i].surface == "보고"@) { "보"@ } else { (if (0 <= i < ts.len() && ts[i].surface == "하고"@) { "하"@ } else { (if (0 <= i < ts.len() && ts[i].surface == "되고"@) { "되"@ } else { (if (0 <= i < ts.len() && ts[i].surface == "먹고"@) { "먹"@ } else { (if (0 <= i < ts.len() && ts[i].surface == "읽고"@) { "읽"@ } else { (if (0 <= i < ts.len() && ts[i].surface == "쓰고"@) { "쓰"@ } else { (if (0 <= i < ts.len() && ts[i].surface == "주고"@) { "주"@ } else { (if (0 <= i < ts.len() && ts[i].surface == "사고"@) { "사"@ } else { (if (0 <= i < ts.len() && ts[i].surface == "자고"@) { "자"@ } else { (if (0 <= i < ts.len() && ts[i].surface == "나고"@) { "나"@ } else { (if (0 <= i < ts.len() && ts[i].surface == "서고"@) { "서"@ } else { (if (0 <= i < ts.len() && ts[i].surface == "살고"@) { "살"@ } else { (if (0 <= i < ts.len() && ts[i].surface == "알고"@) { "알"@ } else { (if (0 <= i < ts.len() && ts[i].surface == "듣고"@) { "듣"@ } else { (if (0 <= i < ts.len() && ts[i].surface == "걷고"@) { "걷"@ } else { (if (0 <= i < ts.len() && ts[i].surface == "만나고"@) { "만나"@ } else { "기다리"@ }) }) }) }) }) }) }) }) }) }) }) }) }) }) }) }) }) })).len() as usize)))); } else if k == 1 { assert(nw0[1] == plain_view("고"@, "EC"@, (ts[i].start_pos).saturating_add(encode_utf8((if (0 <= i < ts.len() && ts[i].surface == "가고"@) { "가"@ } else { (if (0 <= i < ts.len() && ts[i].surface == "오고"@) { "오"@ } else { (if (0 <= i < ts.len() && ts[i].surface == "보고"@) { "보"@ } else { (if (0 <= i < ts.len() && ts[i].surface == "하고"@) { "하"@ } else { (if (0 <= i < ts.len() && ts[i].surface == "되고"@) { "되"@ } else { (if (0 <= i < ts.len() && ts[i].surface == "먹고"@) { "먹"@ } else { (if (0 <= i < ts.len() && ts[i].surface == "읽고"@) { "읽"@ } else { (if (0 <= i < ts.len() && ts[i].surface == "쓰고"@) { "쓰"@ } else { (if (0 <= i < ts.len() && ts[i].surface == "주고"@) { "주"@ } else { (if (0 <= i < ts.len() && ts[i].surface == "사고"@) { "사"@ } else { (if (0 <= i < ts.len() && ts[i].surface == "자고"@) { "자"@ } else { (if (0 <= i < ts.len() && ts[i].surface == "나고"@) { "나"@ } else { (if (0 <= i < ts.len() && ts[i].surface == "서고"@) { "서"@ } else { (if (0 <= i < ts.len() && ts[i].surface == "살고"@) { "살"@ } else { (if (0 <= i < ts.len() && ts[i].surface == "알고"@) { "알"@ } else { (if (0 <= i < ts.len() && ts[i].surface == "듣고"@) { "듣"@ } else { (if (0 <= i < ts.len() && ts[i].surface == "걷고"@) { "걷"@ } else { (if (0 <= i < ts.len() && ts[i].surface == "만나고"@) { "만나"@ } else { "기다리"@ }) }) }) }) }) }) }) }) }) }) }) }) }) }) }) }) }) })).len() as usize), ts[i].end_pos)); assert(!crate::corrections::sentence_final::is_nda_ec(plain_view("고"@, "EC"@, (ts[i].start_pos).saturating_add(encode_utf8((if (0 <= i < ts.len() && ts[i].surface == "가고"@) { "가"@ } else { (if (0 <= i < ts.len() && ts[i].surface == "오고"@) { "오"@ } else { (if (0 <= i < ts.len() && ts[i].surface == "보고"@) { "보"@ } else { (if (0 <= i < ts.len() && ts[i].surface == "하고"@) { "하"@ } else { (if (0 <= i < ts.len() && ts[i].surface == "되고"@) { "되"@ } else { (if (0 <= i < ts.len() && ts[i].surface == "먹고"@) { "먹"@ } else { (if (0 <= i < ts.len() && ts[i].surface == "읽고"@) { "읽"@ } else { (if (0 <= i < ts.len() && ts[i].surface == "쓰고"@) { "쓰"@ } else { (if (0 <= i < ts.len() && ts[i].surface == "주고"@) { "주"@ } else { (if (0 <= i < ts.len() && ts[i].surface == "사고"@) { "사"@ } else { (if (0 <= i < ts.len() && ts[i].surface == "자고"@) { "자"@ } else { (if (0 <= i < ts.len() && ts[i].surface == "나고"@) { "나"@ } else { (if (0 <= i < ts.len() && ts[i].surface == "서고"@) { "서"@ } else { (if (0 <= i < ts.len() && ts[i].surface == "살고"@) { "살"@ } else { (if (0 <= i < ts.len() && ts[i].surface == "알고"@) { "알"@ } else { (if (0 <= i < ts.len() && ts[i].surface == "듣고"@) { "듣"@ } else { (if (0 <= i < ts.len() && ts[i].surface == "걷고"@) { "걷"@ } else { (if (0 <= i < ts.len() && ts[i].surface == "만나고"@) { "만나"@ } else { "기다리"@ }) }) }) }) }) }) }) }) }) }) }) }) }) }) }) }) }) })).len() as usize), ts[i].end_pos))); } }
                let s0 = splice(ts, i, 1, nw0);
                lemma_splice_none_bad(ts, i, 1, nw0, crate::corrections::sentence_final::nda_ec());
            }
    }
    lemma_scan_none_bad(ts0, 0, p111_f(), crate::corrections::sentence_final::nda_ec());
}

/// [`p112`] leaves a list with no 는다, ㄴ다 or ᆫ다 tagged EC without one.
pub proof fn p112_keeps(ts0: Seq<TokenView>)
    requires
        none_bad(ts0, crate::corrections::sentence_final::nda_ec()),
    ensures
        none_bad(p112(ts0), crate::corrections::sentence_final::nda_ec()),
{
    assert forall|ts: Seq<TokenView>, i: int| 0 <= i < ts.len() && none_bad(ts, crate::corrections::sentence_final::nda_ec()) implies
        none_bad((#[trigger] p112_f()(ts, i)).0, crate::corrections::sentence_final::nda_ec()) by {
        reveal_strlit("EC");
        reveal_strlit("EF");
        reveal_strlit("NNP");
        reveal_strlit("VX");
        reveal_strlit("ᆫ다");
        reveal_strlit("ㄴ다");
        reveal_strlit("는다");
        reveal_strlit("싶");
        reveal_strlit("싶어요");
        reveal_strlit("어요");
        assert(p112_f()(ts, i) == p112_step(ts, i));
        if p112_c0(ts, i) {
                let nw0 = seq![plain_view("싶"@, "VX"@, ts[i].start_pos, (ts[i].start_pos).saturating_add(encode_utf8("싶"@).len() as usize)), plain_view("어요"@, "EF"@, (ts[i].start_pos).saturating_add(encode_utf8("싶"@).len() as usize), ts[i].end_pos)];
                assert forall|k: int| 0 <= k < nw0.len() implies !crate::corrections::sentence_final::nda_ec()(#[trigger] nw0[k]) by { if k == 0 { assert(nw0[0] == plain_view("싶"@, "VX"@, ts[i].start_pos, (ts[i].start_pos).saturating_add(encode_utf8("싶"@).len() as usize))); assert(!crate::corrections::sentence_final::is_nda_ec(plain_view("싶"@, "VX"@, ts[i].start_pos, (ts[i].start_pos).saturating_add(encode_utf8("싶"@).len() as usize)))); } else if k == 1 { assert(nw0[1] == plain_view("어요"@, "EF"@, (ts[i].start_pos).saturating_add(encode_utf8("싶"@).len() as usize), ts[i].end_pos)); assert(!crate::corrections::sentence_final::is_nda_ec(plain_view("어요"@, "EF"@, (ts[i].start_pos).saturating_add(encode_utf8("싶"@).len() as usize), ts[i].end_pos))); } }
                let s0 = splice(ts, i, 1, nw0);
                lemma_splice_none_bad(ts, i, 1, nw0, crate::corrections::sentence_final::nda_ec());
            }
    }
    lemma_scan_none_bad(ts0, 0, p112_f(), crate::corrections::sentence_final::nda_ec());
}

/// After these corrections no 는다, ㄴ다 or ᆫ다 is tagged EC.
pub proof fn lemma_xsv_and_ec_ef_clears(ts: Seq<TokenView>)
    ensures
        none_bad(spec_apply_xsv_and_ec_ef_corrections(ts), crate::corrections::sentence_final::nda_ec()),
{
    let t0 = p89(ts);
    p91_clears(t0);
    let t1 = p91(t0);
    p92_keeps(t1);
    let t2 = p92(t1);
    p93_keeps(t2);
    let t3 = p93(t2);
    p94_keeps(t3);
    let t4 = p94(t3);
    p95_keeps(t4);
    let t5 = p95(t4);
    p96_keeps(t5);
    let t6 = p96(t5);
    p97_keeps(t6);
    let t7 = p97(t6);
    p98_keeps(t7);
    let t8 = p98(t7);
    p100_keeps(t8);
    let t9 = p100(t8);
    p102_keeps(t9);
    let t10 = p102(t9);
    p103_keeps(t10);
    let t11 = p103(t10);
    p104_keeps(t11);
    let t12 = p104(t11);
    p105_keeps(t12);
    let t13 = p105(t12);
    p106_keeps(t13);
    let t14 = p106(t13);
    p107_keeps(t14);
    let t15 = p107(t14);
    p108_keeps(t15);
    let t16 = p108(t15);
    p109_keeps(t16);
    let t17 = p109(t16);
    p110_keeps(t17);
    let t18 = p110(t17);
    p111_keeps(t18);
    let t19 = p111(t18);
    p112_keeps(t19);
    let t20 = p112(t19);
}

} // verus!
