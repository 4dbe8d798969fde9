//! Suffixes, bound nouns, derived words and purpose endings.

use vstd::prelude::*;
use crate::converter::tokens_view;
use crate::merges::{strip_suffix, strip_suffix_exec};
use crate::rewrite::{in_list, map_where, pos_is, pos_starts, push_token, scan, set_token, splice, splice_tokens, surf_ends, surf_is};
use crate::text::{char_count, concat, is_prefix, is_suffix, owned};
use crate::types::{plain_view, SejongToken, TokenView};

verus! {

/// Where rule 0 of [`p167`] applies.
pub open spec fn p167_c0(ts: Seq<TokenView>, i: int) -> bool {
    ((0 <= i < ts.len() && ts[i].pos == "NNG"@) && ((0 <= i + 1 < ts.len() && ts[i + 1].surface == "적"@) && (0 <= i + 1 < ts.len() && ts[i + 1].pos == "XSN"@)))
}

/// One step of [`p167`] at `i`: the list after it and the next position.
pub open spec fn p167_step(ts: Seq<TokenView>, i: int) -> (Seq<TokenView>, int) {
    if p167_c0(ts, i) {
        (splice(ts, i, 2, seq![plain_view((ts[i].surface + "적"@), "NNG"@, ts[i].start_pos, ts[i + 1].end_pos)]), i + 1)
    } else {
        (ts, i + 1)
    }
}

/// [`p167_step`] as a function value.
pub open spec fn p167_f() -> spec_fn(Seq<TokenView>, int) -> (Seq<TokenView>, int) {
    |ts: Seq<TokenView>, i: int| p167_step(ts, i)
}

/// A common noun and the suffix 적/XSN are one noun (성공/NNG 적/XSN → 성공적/NNG).
pub open spec fn p167(ts: Seq<TokenView>) -> Seq<TokenView> {
    scan(ts, 0, p167_f())
}

/// Whether rule 0 of [`p167`] applies at `i`.
fn p167_c0_exec(tokens: &Vec<SejongToken>, i: usize) -> (r: bool)
    requires
        i < tokens@.len(),
    ensures
        r == p167_c0(tokens_view(tokens@), i as int),
{
    assert(tokens_view(tokens@).len() == tokens@.len());
    let c0 = pos_is(&tokens[i], "NNG");
    let c1 = (tokens.len() - i > 1) && surf_is(&tokens[i + 1], "적");
    let c2 = (tokens.len() - i > 1) && pos_is(&tokens[i + 1], "XSN");
    (c0 && (c1 && c2))
}

/// One step of [`p167`] at `i`; returns the next position.
fn p167_step_exec(tokens: &mut Vec<SejongToken>, i: usize) -> (next: usize)
    requires
        i < old(tokens)@.len(),
    ensures
        (tokens_view(final(tokens)@), next as int) == p167_step(tokens_view(old(tokens)@), i as int),
        final(tokens)@.len() - next < old(tokens)@.len() - i,
        next <= final(tokens)@.len() + 1,
{
    let len0 = tokens.len();
    assert(tokens_view(tokens@).len() == tokens@.len());
    if p167_c0_exec(tokens, i) {
        let s5 = tokens[i].surface.clone();
        let s6 = owned("적");
        let s4 = concat(s5.as_str(), s6.as_str());
        let s7 = owned("NNG");
        let n8 = tokens[i].start_pos;
        let n9 = tokens[i + 1].end_pos;
        let t3 = SejongToken::new(s4.as_str(), s7.as_str(), n8, n9);
        let mut nv10: Vec<SejongToken> = Vec::new();
        push_token(&mut nv10, t3);
        splice_tokens(tokens, i, 2, nv10);
        let _len1 = tokens.len();
        return i + 1;
    }
    i + 1
}

/// A common noun and the suffix 적/XSN are one noun (성공/NNG 적/XSN → 성공적/NNG).
pub fn apply_p167(tokens: &mut Vec<SejongToken>)
    ensures
        tokens_view(final(tokens)@) == p167(tokens_view(old(tokens)@)),
{
    let ghost orig = tokens_view(tokens@);
    let mut i: usize = 0;
    while i < tokens.len()
        invariant
            i <= tokens@.len() + 1,
            scan(tokens_view(tokens@), i as int, p167_f()) == scan(orig, 0, p167_f()),
        decreases tokens@.len() + 1 - i,
    {
        let ghost before = tokens_view(tokens@);
        assert(before.len() == tokens@.len());
        i = p167_step_exec(tokens, i);
        assert(tokens_view(tokens@).len() == tokens@.len());
    }
}

/// Where [`p168`] changes a token.
pub open spec fn p168_c(ts: Seq<TokenView>, i: int) -> bool {
    (((0 <= i < ts.len() && ts[i].surface == "의"@) && (0 <= i < ts.len() && ts[i].pos == "JKB"@)) && (0 <= i - 1 < ts.len() && seq!["NNG"@, "NNP"@, "NP"@, "XSN"@].contains(ts[i - 1].pos)))
}

/// The token [`p168`] puts at `i`.
pub open spec fn p168_t(ts: Seq<TokenView>, i: int) -> TokenView {
    TokenView { pos: "JKG"@, ..ts[i] }
}

/// 의/JKB after a noun or a noun suffix is the genitive particle 의/JKG.
pub open spec fn p168(ts: Seq<TokenView>) -> Seq<TokenView> {
    map_where(ts, |ts: Seq<TokenView>, i: int| p168_c(ts, i), |ts: Seq<TokenView>, i: int| p168_t(ts, i))
}

/// Whether [`p168`] changes the token at `i`.
fn p168_c_exec(tokens: &Vec<SejongToken>, i: usize) -> (r: bool)
    requires
        i < tokens@.len(),
    ensures
        r == p168_c(tokens_view(tokens@), i as int),
{
    assert(tokens_view(tokens@).len() == tokens@.len());
    let c11 = surf_is(&tokens[i], "의");
    let c12 = pos_is(&tokens[i], "JKB");
    let l14: [&str; 4] = ["NNG", "NNP", "NP", "XSN"];
    assert(crate::tag_map::strs_view(l14@) =~= seq!["NNG"@, "NNP"@, "NP"@, "XSN"@]);
    let c13 = (i >= 1) && in_list(&l14, tokens[i - 1].pos.as_str());
    ((c11 && c12) && c13)
}

/// The token [`p168`] puts at `i`.
fn p168_t_exec(tokens: &Vec<SejongToken>, i: usize) -> (t: SejongToken)
    requires
        i < tokens@.len(),
        p168_c(tokens_view(tokens@), i as int),
    ensures
        t@ == p168_t(tokens_view(tokens@), i as int),
{
    assert(tokens_view(tokens@).len() == tokens@.len());
    let s16 = owned("JKG");
    let mut t15 = tokens[i].duplicate();
    t15.pos = s16;
    t15
}

/// 의/JKB after a noun or a noun suffix is the genitive particle 의/JKG.
pub fn apply_p168(tokens: &mut Vec<SejongToken>)
    ensures
        tokens_view(final(tokens)@) == p168(tokens_view(old(tokens)@)),
{
    let ghost orig = tokens_view(tokens@);
    let mut out: Vec<SejongToken> = Vec::new();
    let mut k: usize = 0;
    while k < tokens.len()
        invariant
            k <= tokens@.len(),
            orig == tokens_view(tokens@),
            tokens_view(out@) == p168(orig).take(k as int),
        decreases tokens@.len() - k,
    {
        let t = if p168_c_exec(tokens, k) { p168_t_exec(tokens, k) } else { tokens[k].duplicate() };
        push_token(&mut out, t);
        k += 1;
        assert(tokens_view(out@) =~= p168(orig).take(k as int));
    }
    assert(p168(orig).take(k as int) =~= p168(orig));
    *tokens = out;
}

/// Where rule 0 of [`p68`] applies.
pub open spec fn p68_c0(ts: Seq<TokenView>, i: int) -> bool {
    ((0 <= i < ts.len() && ts[i].surface == "시었"@) && (0 <= i < ts.len() && ts[i].pos == "EP"@))
}

/// One step of [`p68`] at `i`: the list after it and the next position.
pub open spec fn p68_step(ts: Seq<TokenView>, i: int) -> (Seq<TokenView>, int) {
    if p68_c0(ts, i) {
        (splice(ts, i, 1, seq![plain_view("시"@, "EP"@, ts[i].start_pos, (ts[i].start_pos).saturating_add(1)), plain_view("었"@, "EP"@, (ts[i].start_pos).saturating_add(1), ts[i].end_pos)]), i + 2)
    } else {
        (ts, i + 1)
    }
}

/// [`p68_step`] as a function value.
pub open spec fn p68_f() -> spec_fn(Seq<TokenView>, int) -> (Seq<TokenView>, int) {
    |ts: Seq<TokenView>, i: int| p68_step(ts, i)
}

/// 시었/EP is split into 시/EP 었/EP.
pub open spec fn p68(ts: Seq<TokenView>) -> Seq<TokenView> {
    scan(ts, 0, p68_f())
}

/// Whether rule 0 of [`p68`] applies at `i`.
fn p68_c0_exec(tokens: &Vec<SejongToken>, i: usize) -> (r: bool)
    requires
        i < tokens@.len(),
    ensures
        r == p68_c0(tokens_view(tokens@), i as int),
{
    assert(tokens_view(tokens@).len() == tokens@.len());
    let c17 = surf_is(&tokens[i], "시었");
    let c18 = pos_is(&tokens[i], "EP");
    (c17 && c18)
}

/// One step of [`p68`] at `i`; returns the next position.
fn p68_step_exec(tokens: &mut Vec<SejongToken>, i: usize) -> (next: usize)
    requires
        i < old(tokens)@.len(),
    ensures
        (tokens_view(final(tokens)@), next as int) == p68_step(tokens_view(old(tokens)@), i as int),
        final(tokens)@.len() - next < old(tokens)@.len() - i,
        next <= final(tokens)@.len() + 1,
{
    let len0 = tokens.len();
    assert(tokens_view(tokens@).len() == tokens@.len());
    if p68_c0_exec(tokens, i) {
        let s20 = owned("시");
        let s21 = owned("EP");
        let n22 = tokens[i].start_pos;
        let n24 = tokens[i].start_pos;
        let n23 = n24.saturating_add(1);
        let t19 = SejongToken::new(s20.as_str(), s21.as_str(), n22, n23);
        let s26 = owned("었");
        let s27 = owned("EP");
        let n29 = tokens[i].start_pos;
        let n28 = n29.saturating_add(1);
        let n30 = tokens[i].end_pos;
        let t25 = SejongToken::new(s26.as_str(), s27.as_str(), n28, n30);
        let mut nv31: Vec<SejongToken> = Vec::new();
        push_token(&mut nv31, t19);
        push_token(&mut nv31, t25);
        splice_tokens(tokens, i, 1, nv31);
        let _len1 = tokens.len();
        return i + 2;
    }
    i + 1
}

/// 시었/EP is split into 시/EP 었/EP.
pub fn apply_p68(tokens: &mut Vec<SejongToken>)
    ensures
        tokens_view(final(tokens)@) == p68(tokens_view(old(tokens)@)),
{
    let ghost orig = tokens_view(tokens@);
    let mut i: usize = 0;
    while i < tokens.len()
        invariant
            i <= tokens@.len() + 1,
            scan(tokens_view(tokens@), i as int, p68_f()) == scan(orig, 0, p68_f()),
        decreases tokens@.len() + 1 - i,
    {
        let ghost before = tokens_view(tokens@);
        assert(before.len() == tokens@.len());
        i = p68_step_exec(tokens, i);
        assert(tokens_view(tokens@).len() == tokens@.len());
    }
}

/// Where rule 0 of [`p69`] applies.
pub open spec fn p69_c0(ts: Seq<TokenView>, i: int) -> bool {
    ((0 <= i < ts.len() && ts[i].surface == "겠습니다"@) && (0 <= i < ts.len() && ts[i].pos == "EP+EF"@))
}

/// One step of [`p69`] at `i`: the list after it and the next position.
pub open spec fn p69_step(ts: Seq<TokenView>, i: int) -> (Seq<TokenView>, int) {
    if p69_c0(ts, i) {
        (splice(ts, i, 1, seq![plain_view("겠"@, "EP"@, ts[i].start_pos, (ts[i].start_pos).saturating_add(1)), plain_view("습니다"@, "EF"@, (ts[i].start_pos).saturating_add(1), ts[i].end_pos)]), i + 2)
    } else {
        (ts, i + 1)
    }
}

/// [`p69_step`] as a function value.
pub open spec fn p69_f() -> spec_fn(Seq<TokenView>, int) -> (Seq<TokenView>, int) {
    |ts: Seq<TokenView>, i: int| p69_step(ts, i)
}

/// 겠습니다/EP+EF is split into 겠/EP 습니다/EF.
pub open spec fn p69(ts: Seq<TokenView>) -> Seq<TokenView> {
    scan(ts, 0, p69_f())
}

/// Whether rule 0 of [`p69`] applies at `i`.
fn p69_c0_exec(tokens: &Vec<SejongToken>, i: usize) -> (r: bool)
    requires
        i < tokens@.len(),
    ensures
        r == p69_c0(tokens_view(tokens@), i as int),
{
    assert(tokens_view(tokens@).len() == tokens@.len());
    let c32 = surf_is(&tokens[i], "겠습니다");
    let c33 = pos_is(&tokens[i], "EP+EF");
    (c32 && c33)
}

/// One step of [`p69`] at `i`; returns the next position.
fn p69_step_exec(tokens: &mut Vec<SejongToken>, i: usize) -> (next: usize)
    requires
        i < old(tokens)@.len(),
    ensures
        (tokens_view(final(tokens)@), next as int) == p69_step(tokens_view(old(tokens)@), i as int),
        final(tokens)@.len() - next < old(tokens)@.len() - i,
        next <= final(tokens)@.len() + 1,
{
    let len0 = tokens.len();
    assert(tokens_view(tokens@).len() == tokens@.len());
    if p69_c0_exec(tokens, i) {
        let s35 = owned("겠");
        let s36 = owned("EP");
        let n37 = tokens[i].start_pos;
        let n39 = tokens[i].start_pos;
        let n38 = n39.saturating_add(1);
        let t34 = SejongToken::new(s35.as_str(), s36.as_str(), n37, n38);
        let s41 = owned("습니다");
        let s42 = owned("EF");
        let n44 = tokens[i].start_pos;
        let n43 = n44.saturating_add(1);
        let n45 = tokens[i].end_pos;
        let t40 = SejongToken::new(s41.as_str(), s42.as_str(), n43, n45);
        let mut nv46: Vec<SejongToken> = Vec::new();
        push_token(&mut nv46, t34);
        push_token(&mut nv46, t40);
        splice_tokens(tokens, i, 1, nv46);
        let _len1 = tokens.len();
        return i + 2;
    }
    i + 1
}

/// 겠습니다/EP+EF is split into 겠/EP 습니다/EF.
pub fn apply_p69(tokens: &mut Vec<SejongToken>)
    ensures
        tokens_view(final(tokens)@) == p69(tokens_view(old(tokens)@)),
{
    let ghost orig = tokens_view(tokens@);
    let mut i: usize = 0;
    while i < tokens.len()
        invariant
            i <= tokens@.len() + 1,
            scan(tokens_view(tokens@), i as int, p69_f()) == scan(orig, 0, p69_f()),
        decreases tokens@.len() + 1 - i,
    {
        let ghost before = tokens_view(tokens@);
        assert(before.len() == tokens@.len());
        i = p69_step_exec(tokens, i);
        assert(tokens_view(tokens@).len() == tokens@.len());
    }
}

/// Where rule 0 of [`p70`] applies.
pub open spec fn p70_c0(ts: Seq<TokenView>, i: int) -> bool {
    ((0 <= i - 1 < ts.len() && ts[i - 1].pos == "EC"@) && ((0 <= i < ts.len() && ts[i].surface == "하"@) && (0 <= i < ts.len() && ts[i].pos == "XSV"@)) && ((0 <= i + 1 < ts.len() && ts[i + 1].surface == "ㅂ니다"@) && (0 <= i + 1 < ts.len() && ts[i + 1].pos == "EF"@)))
}

/// One step of [`p70`] at `i`: the list after it and the next position.
pub open spec fn p70_step(ts: Seq<TokenView>, i: int) -> (Seq<TokenView>, int) {
    if p70_c0(ts, i) {
        (splice(ts, i, 2, seq![plain_view("합니다"@, "EF"@, ts[i].start_pos, ts[i + 1].end_pos)]), i + 1)
    } else {
        (ts, i + 1)
    }
}

/// [`p70_step`] as a function value.
pub open spec fn p70_f() -> spec_fn(Seq<TokenView>, int) -> (Seq<TokenView>, int) {
    |ts: Seq<TokenView>, i: int| p70_step(ts, i)
}

/// 하/XSV ㅂ니다/EF after a connective ending is the final ending 합니다/EF.
pub open spec fn p70(ts: Seq<TokenView>) -> Seq<TokenView> {
    scan(ts, 0, p70_f())
}

/// Whether rule 0 of [`p70`] applies at `i`.
fn p70_c0_exec(tokens: &Vec<SejongToken>, i: usize) -> (r: bool)
    requires
        i < tokens@.len(),
    ensures
        r == p70_c0(tokens_view(tokens@), i as int),
{
    assert(tokens_view(tokens@).len() == tokens@.len());
    let c47 = (i >= 1) && pos_is(&tokens[i - 1], "EC");
    let c48 = surf_is(&tokens[i], "하");
    let c49 = pos_is(&tokens[i], "XSV");
    let c50 = (tokens.len() - i > 1) && surf_is(&tokens[i + 1], "ㅂ니다");
    let c51 = (tokens.len() - i > 1) && pos_is(&tokens[i + 1], "EF");
    (c47 && (c48 && c49) && (c50 && c51))
}

/// One step of [`p70`] at `i`; returns the next position.
fn p70_step_exec(tokens: &mut Vec<SejongToken>, i: usize) -> (next: usize)
    requires
        i < old(tokens)@.len(),
    ensures
        (tokens_view(final(tokens)@), next as int) == p70_step(tokens_view(old(tokens)@), i as int),
        final(tokens)@.len() - next < old(tokens)@.len() - i,
        next <= final(tokens)@.len() + 1,
{
    let len0 = tokens.len();
    assert(tokens_view(tokens@).len() == tokens@.len());
    if p70_c0_exec(tokens, i) {
        let s53 = owned("합니다");
        let s54 = owned("EF");
        let n55 = tokens[i].start_pos;
        let n56 = tokens[i + 1].end_pos;
        let t52 = SejongToken::new(s53.as_str(), s54.as_str(), n55, n56);
        let mut nv57: Vec<SejongToken> = Vec::new();
        push_token(&mut nv57, t52);
        splice_tokens(tokens, i, 2, nv57);
        let _len1 = tokens.len();
        return i + 1;
    }
    i + 1
}

/// 하/XSV ㅂ니다/EF after a connective ending is the final ending 합니다/EF.
pub fn apply_p70(tokens: &mut Vec<SejongToken>)
    ensures
        tokens_view(final(tokens)@) == p70(tokens_view(old(tokens)@)),
{
    let ghost orig = tokens_view(tokens@);
    let mut i: usize = 0;
    while i < tokens.len()
        invariant
            i <= tokens@.len() + 1,
            scan(tokens_view(tokens@), i as int, p70_f()) == scan(orig, 0, p70_f()),
        decreases tokens@.len() + 1 - i,
    {
        let ghost before = tokens_view(tokens@);
        assert(before.len() == tokens@.len());
        i = p70_step_exec(tokens, i);
        assert(tokens_view(tokens@).len() == tokens@.len());
    }
}

/// Where [`p71`] changes a token.
pub open spec fn p71_c(ts: Seq<TokenView>, i: int) -> bool {
    (((0 <= i < ts.len() && ts[i].surface == "중"@) && (0 <= i < ts.len() && ts[i].pos == "NNG"@)) && (0 <= i - 1 < ts.len() && seq!["NNG"@, "NNP"@].contains(ts[i - 1].pos)) && (0 <= i + 1 < ts.len() && seq!["VCP"@, "JX"@, "JKS"@, "EF"@].contains(ts[i + 1].pos)))
}

/// The token [`p71`] puts at `i`.
pub open spec fn p71_t(ts: Seq<TokenView>, i: int) -> TokenView {
    TokenView { pos: "NNB"@, ..ts[i] }
}

/// 중/NNG between a noun and 이/VCP or a particle or a final ending is the bound noun 중/NNB.
pub open spec fn p71(ts: Seq<TokenView>) -> Seq<TokenView> {
    map_where(ts, |ts: Seq<TokenView>, i: int| p71_c(ts, i), |ts: Seq<TokenView>, i: int| p71_t(ts, i))
}

/// Whether [`p71`] changes the token at `i`.
fn p71_c_exec(tokens: &Vec<SejongToken>, i: usize) -> (r: bool)
    requires
        i < tokens@.len(),
    ensures
        r == p71_c(tokens_view(tokens@), i as int),
{
    assert(tokens_view(tokens@).len() == tokens@.len());
    let c58 = surf_is(&tokens[i], "중");
    let c59 = pos_is(&tokens[i], "NNG");
    let l61: [&str; 2] = ["NNG", "NNP"];
    assert(crate::tag_map::strs_view(l61@) =~= seq!["NNG"@, "NNP"@]);
    let c60 = (i >= 1) && in_list(&l61, tokens[i - 1].pos.as_str());
    let l63: [&str; 4] = ["VCP", "JX", "JKS", "EF"];
    assert(crate::tag_map::strs_view(l63@) =~= seq!["VCP"@, "JX"@, "JKS"@, "EF"@]);
    let c62 = (tokens.len() - i > 1) && in_list(&l63, tokens[i + 1].pos.as_str());
    ((c58 && c59) && c60 && c62)
}

/// The token [`p71`] puts at `i`.
fn p71_t_exec(tokens: &Vec<SejongToken>, i: usize) -> (t: SejongToken)
    requires
        i < tokens@.len(),
        p71_c(tokens_view(tokens@), i as int),
    ensures
        t@ == p71_t(tokens_view(tokens@), i as int),
{
    assert(tokens_view(tokens@).len() == tokens@.len());
    let s65 = owned("NNB");
    let mut t64 = tokens[i].duplicate();
    t64.pos = s65;
    t64
}

/// 중/NNG between a noun and 이/VCP or a particle or a final ending is the bound noun 중/NNB.
pub fn apply_p71(tokens: &mut Vec<SejongToken>)
    ensures
        tokens_view(final(tokens)@) == p71(tokens_view(old(tokens)@)),
{
    let ghost orig = tokens_view(tokens@);
    let mut out: Vec<SejongToken> = Vec::new();
    let mut k: usize = 0;
    while k < tokens.len()
        invariant
            k <= tokens@.len(),
            orig == tokens_view(tokens@),
            tokens_view(out@) == p71(orig).take(k as int),
        decreases tokens@.len() - k,
    {
        let t = if p71_c_exec(tokens, k) { p71_t_exec(tokens, k) } else { tokens[k].duplicate() };
        push_token(&mut out, t);
        k += 1;
        assert(tokens_view(out@) =~= p71(orig).take(k as int));
    }
    assert(p71(orig).take(k as int) =~= p71(orig));
    *tokens = out;
}

/// Where [`p72`] changes a token.
pub open spec fn p72_c(ts: Seq<TokenView>, i: int) -> bool {
    ((0 <= i < ts.len() && ts[i].surface == "지"@) && (0 <= i < ts.len() && seq!["VX"@, "EC"@].contains(ts[i].pos)) && (0 <= i - 1 < ts.len() && ts[i - 1].pos == "ETM"@))
}

/// The token [`p72`] puts at `i`.
pub open spec fn p72_t(ts: Seq<TokenView>, i: int) -> TokenView {
    TokenView { pos: "NNB"@, ..ts[i] }
}

/// 지/VX|EC after an adnominal ending is the bound noun 지/NNB (만난 지).
pub open spec fn p72(ts: Seq<TokenView>) -> Seq<TokenView> {
    map_where(ts, |ts: Seq<TokenView>, i: int| p72_c(ts, i), |ts: Seq<TokenView>, i: int| p72_t(ts, i))
}

/// Whether [`p72`] changes the token at `i`.
fn p72_c_exec(tokens: &Vec<SejongToken>, i: usize) -> (r: bool)
    requires
        i < tokens@.len(),
    ensures
        r == p72_c(tokens_view(tokens@), i as int),
{
    assert(tokens_view(tokens@).len() == tokens@.len());
    let c66 = surf_is(&tokens[i], "지");
    let l68: [&str; 2] = ["VX", "EC"];
    assert(crate::tag_map::strs_view(l68@) =~= seq!["VX"@, "EC"@]);
    let c67 = in_list(&l68, tokens[i].pos.as_str());
    let c69 = (i >= 1) && pos_is(&tokens[i - 1], "ETM");
    (c66 && c67 && c69)
}

/// The token [`p72`] puts at `i`.
fn p72_t_exec(tokens: &Vec<SejongToken>, i: usize) -> (t: SejongToken)
    requires
        i < tokens@.len(),
        p72_c(tokens_view(tokens@), i as int),
    ensures
        t@ == p72_t(tokens_view(tokens@), i as int),
{
    assert(tokens_view(tokens@).len() == tokens@.len());
    let s71 = owned("NNB");
    let mut t70 = tokens[i].duplicate();
    t70.pos = s71;
    t70
}

/// 지/VX|EC after an adnominal ending is the bound noun 지/NNB (만난 지).
pub fn apply_p72(tokens: &mut Vec<SejongToken>)
    ensures
        tokens_view(final(tokens)@) == p72(tokens_view(old(tokens)@)),
{
    let ghost orig = tokens_view(tokens@);
    let mut out: Vec<SejongToken> = Vec::new();
    let mut k: usize = 0;
    while k < tokens.len()
        invariant
            k <= tokens@.len(),
            orig == tokens_view(tokens@),
            tokens_view(out@) == p72(orig).take(k as int),
        decreases tokens@.len() - k,
    {
        let t = if p72_c_exec(tokens, k) { p72_t_exec(tokens, k) } else { tokens[k].duplicate() };
        push_token(&mut out, t);
        k += 1;
        assert(tokens_view(out@) =~= p72(orig).take(k as int));
    }
    assert(p72(orig).take(k as int) =~= p72(orig));
    *tokens = out;
}

/// Where [`p80`] changes a token.
pub open spec fn p80_c(ts: Seq<TokenView>, i: int) -> bool {
    ((0 <= i < ts.len() && seq!["분"@, "시"@, "원"@, "년"@, "월"@, "일"@, "개"@, "명"@, "번"@].contains(ts[i].surface)) && (0 <= i < ts.len() && seq!["XSN"@, "NNG"@].contains(ts[i].pos)) && (0 <= i - 1 < ts.len() && ts[i - 1].pos == "NR"@))
}

/// The token [`p80`] puts at `i`.
pub open spec fn p80_t(ts: Seq<TokenView>, i: int) -> TokenView {
    TokenView { pos: "NNB"@, ..ts[i] }
}

/// A unit noun after a numeral is a bound noun (삼십/NR 분/NNB).
pub open spec fn p80(ts: Seq<TokenView>) -> Seq<TokenView> {
    map_where(ts, |ts: Seq<TokenView>, i: int| p80_c(ts, i), |ts: Seq<TokenView>, i: int| p80_t(ts, i))
}

/// Whether [`p80`] changes the token at `i`.
fn p80_c_exec(tokens: &Vec<SejongToken>, i: usize) -> (r: bool)
    requires
        i < tokens@.len(),
    ensures
        r == p80_c(tokens_view(tokens@), i as int),
{
    assert(tokens_view(tokens@).len() == tokens@.len());
    let l73: [&str; 9] = ["분", "시", "원", "년", "월", "일", "개", "명", "번"];
    assert(crate::tag_map::strs_view(l73@) =~= seq!["분"@, "시"@, "원"@, "년"@, "월"@, "일"@, "개"@, "명"@, "번"@]);
    let c72 = in_list(&l73, tokens[i].surface.as_str());
    let l75: [&str; 2] = ["XSN", "NNG"];
    assert(crate::tag_map::strs_view(l75@) =~= seq!["XSN"@, "NNG"@]);
    let c74 = in_list(&l75, tokens[i].pos.as_str());
    let c76 = (i >= 1) && pos_is(&tokens[i - 1], "NR");
    (c72 && c74 && c76)
}

/// The token [`p80`] puts at `i`.
fn p80_t_exec(tokens: &Vec<SejongToken>, i: usize) -> (t: SejongToken)
    requires
        i < tokens@.len(),
        p80_c(tokens_view(tokens@), i as int),
    ensures
        t@ == p80_t(tokens_view(tokens@), i as int),
{
    assert(tokens_view(tokens@).len() == tokens@.len());
    let s78 = owned("NNB");
    let mut t77 = tokens[i].duplicate();
    t77.pos = s78;
    t77
}

/// A unit noun after a numeral is a bound noun (삼십/NR 분/NNB).
pub fn apply_p80(tokens: &mut Vec<SejongToken>)
    ensures
        tokens_view(final(tokens)@) == p80(tokens_view(old(tokens)@)),
{
    let ghost orig = tokens_view(tokens@);
    let mut out: Vec<SejongToken> = Vec::new();
    let mut k: usize = 0;
    while k < tokens.len()
        invariant
            k <= tokens@.len(),
            orig == tokens_view(tokens@),
            tokens_view(out@) == p80(orig).take(k as int),
        decreases tokens@.len() - k,
    {
        let t = if p80_c_exec(tokens, k) { p80_t_exec(tokens, k) } else { tokens[k].duplicate() };
        push_token(&mut out, t);
        k += 1;
        assert(tokens_view(out@) =~= p80(orig).take(k as int));
    }
    assert(p80(orig).take(k as int) =~= p80(orig));
    *tokens = out;
}

/// Where [`p73`] changes a token.
pub open spec fn p73_c(ts: Seq<TokenView>, i: int) -> bool {
    (((0 <= i < ts.len() && ts[i].surface == "것"@) && (0 <= i < ts.len() && ts[i].pos == "NP"@)) && ((0 <= i + 1 < ts.len() && seq!["VCP"@, "JKS"@, "JX"@, "JKO"@, "NNB"@].contains(ts[i + 1].pos)) || (0 <= i - 1 < ts.len() && ts[i - 1].pos == "ETM"@) || !(0 <= i + 1 < ts.len() && true)))
}

/// The token [`p73`] puts at `i`.
pub open spec fn p73_t(ts: Seq<TokenView>, i: int) -> TokenView {
    TokenView { pos: "NNB"@, ..ts[i] }
}

/// 것/NP before 이/VCP or a particle or a bound noun, after an adnominal ending, or at the end, is the bound noun 것/NNB.
pub open spec fn p73(ts: Seq<TokenView>) -> Seq<TokenView> {
    map_where(ts, |ts: Seq<TokenView>, i: int| p73_c(ts, i), |ts: Seq<TokenView>, i: int| p73_t(ts, i))
}

/// Whether [`p73`] changes the token at `i`.
fn p73_c_exec(tokens: &Vec<SejongToken>, i: usize) -> (r: bool)
    requires
        i < tokens@.len(),
    ensures
        r == p73_c(tokens_view(tokens@), i as int),
{
    assert(tokens_view(tokens@).len() == tokens@.len());
    let c79 = surf_is(&tokens[i], "것");
    let c80 = pos_is(&tokens[i], "NP");
    let l82: [&str; 5] = ["VCP", "JKS", "JX", "JKO", "NNB"];
    assert(crate::tag_map::strs_view(l82@) =~= seq!["VCP"@, "JKS"@, "JX"@, "JKO"@, "NNB"@]);
    let c81 = (tokens.len() - i > 1) && in_list(&l82, tokens[i + 1].pos.as_str());
    let c83 = (i >= 1) && pos_is(&tokens[i - 1], "ETM");
    let c84 = (tokens.len() - i > 1) && true;
    ((c79 && c80) && (c81 || c83 || !c84))
}

/// The token [`p73`] puts at `i`.
fn p73_t_exec(tokens: &Vec<SejongToken>, i: usize) -> (t: SejongToken)
    requires
        i < tokens@.len(),
        p73_c(tokens_view(tokens@), i as int),
    ensures
        t@ == p73_t(tokens_view(tokens@), i as int),
{
    assert(tokens_view(tokens@).len() == tokens@.len());
    let s86 = owned("NNB");
    let mut t85 = tokens[i].duplicate();
    t85.pos = s86;
    t85
}

/// 것/NP before 이/VCP or a particle or a bound noun, after an adnominal ending, or at the end, is the bound noun 것/NNB.
pub fn apply_p73(tokens: &mut Vec<SejongToken>)
    ensures
        tokens_view(final(tokens)@) == p73(tokens_view(old(tokens)@)),
{
    let ghost orig = tokens_view(tokens@);
    let mut out: Vec<SejongToken> = Vec::new();
    let mut k: usize = 0;
    while k < tokens.len()
        invariant
            k <= tokens@.len(),
            orig == tokens_view(tokens@),
            tokens_view(out@) == p73(orig).take(k as int),
        decreases tokens@.len() - k,
    {
        let t = if p73_c_exec(tokens, k) { p73_t_exec(tokens, k) } else { tokens[k].duplicate() };
        push_token(&mut out, t);
        k += 1;
        assert(tokens_view(out@) =~= p73(orig).take(k as int));
    }
    assert(p73(orig).take(k as int) =~= p73(orig));
    *tokens = out;
}

/// Where rule 0 of [`p74`] applies.
pub open spec fn p74_c0(ts: Seq<TokenView>, i: int) -> bool {
    (((0 <= i < ts.len() && ts[i].surface == "간"@) && (0 <= i < ts.len() && ts[i].pos == "VV"@)) && (0 <= i + 1 < ts.len() && seq!["NNG"@, "NNP"@, "NNB"@, "NP"@].contains(ts[i + 1].pos)))
}

/// Where rule 1 of [`p74`] applies.
pub open spec fn p74_c1(ts: Seq<TokenView>, i: int) -> bool {
    (((0 <= i < ts.len() && ts[i].surface == "온"@) && (0 <= i < ts.len() && ts[i].pos == "VV"@)) && (0 <= i + 1 < ts.len() && seq!["NNG"@, "NNP"@, "NNB"@, "NP"@].contains(ts[i + 1].pos)))
}

/// Where rule 2 of [`p74`] applies.
pub open spec fn p74_c2(ts: Seq<TokenView>, i: int) -> bool {
    (((0 <= i < ts.len() && ts[i].surface == "한"@) && (0 <= i < ts.len() && ts[i].pos == "VV"@)) && (0 <= i + 1 < ts.len() && seq!["NNG"@, "NNP"@, "NNB"@, "NP"@].contains(ts[i + 1].pos)))
}

/// Where rule 3 of [`p74`] applies.
pub open spec fn p74_c3(ts: Seq<TokenView>, i: int) -> bool {
    (((0 <= i < ts.len() && ts[i].surface == "갈"@) && (0 <= i < ts.len() && ts[i].pos == "VV"@)) && (0 <= i + 1 < ts.len() && seq!["NNG"@, "NNP"@, "NNB"@, "NP"@].contains(ts[i + 1].pos)))
}

/// Where rule 4 of [`p74`] applies.
pub open spec fn p74_c4(ts: Seq<TokenView>, i: int) -> bool {
    (((0 <= i < ts.len() && ts[i].surface == "올"@) && (0 <= i < ts.len() && ts[i].pos == "VV"@)) && (0 <= i + 1 < ts.len() && seq!["NNG"@, "NNP"@, "NNB"@, "NP"@].contains(ts[i + 1].pos)))
}

/// Where rule 5 of [`p74`] applies.
pub open spec fn p74_c5(ts: Seq<TokenView>, i: int) -> bool {
    (((0 <= i < ts.len() && ts[i].surface == "할"@) && (0 <= i < ts.len() && ts[i].pos == "VV"@)) && (0 <= i + 1 < ts.len() && seq!["NNG"@, "NNP"@, "NNB"@, "NP"@].contains(ts[i + 1].pos)))
}

/// One step of [`p74`] at `i`: the list after it and the next position.
pub open spec fn p74_step(ts: Seq<TokenView>, i: int) -> (Seq<TokenView>, int) {
    if p74_c0(ts, i) {
        (splice(ts, i, 1, seq![plain_view("가"@, "VV"@, ts[i].start_pos, ts[i].end_pos), plain_view("ㄴ"@, "ETM"@, ts[i].end_pos, ts[i].end_pos)]), i + 2)
    } else if p74_c1(ts, i) {
        (splice(ts, i, 1, seq![plain_view("오"@, "VV"@, ts[i].start_pos, ts[i].end_pos), plain_view("ㄴ"@, "ETM"@, ts[i].end_pos, ts[i].end_pos)]), i + 2)
    } else if p74_c2(ts, i) {
        (splice(ts, i, 1, seq![plain_view("하"@, "VV"@, ts[i].start_pos, ts[i].end_pos), plain_view("ㄴ"@, "ETM"@, ts[i].end_pos, ts[i].end_pos)]), i + 2)
    } else if p74_c3(ts, i) {
        (splice(ts, i, 1, seq![plain_view("가"@, "VV"@, ts[i].start_pos, ts[i].end_pos), plain_view("ㄹ"@, "ETM"@, ts[i].end_pos, ts[i].end_pos)]), i + 2)
    } else if p74_c4(ts, i) {
        (splice(ts, i, 1, seq![plain_view("오"@, "VV"@, ts[i].start_pos, ts[i].end_pos), plain_view("ㄹ"@, "ETM"@, ts[i].end_pos, ts[i].end_pos)]), i + 2)
    } else if p74_c5(ts, i) {
        (splice(ts, i, 1, seq![plain_view("하"@, "VV"@, ts[i].start_pos, ts[i].end_pos), plain_view("ㄹ"@, "ETM"@, ts[i].end_pos, ts[i].end_pos)]), i + 2)
    } else {
        (ts, i + 1)
    }
}

/// [`p74_step`] as a function value.
pub open spec fn p74_f() -> spec_fn(Seq<TokenView>, int) -> (Seq<TokenView>, int) {
    |ts: Seq<TokenView>, i: int| p74_step(ts, i)
}

/// An adnominal verb form before a noun is split: 간/VV → 가/VV ㄴ/ETM, 갈/VV → 가/VV ㄹ/ETM.
pub open spec fn p74(ts: Seq<TokenView>) -> Seq<TokenView> {
    scan(ts, 0, p74_f())
}

/// Whether rule 0 of [`p74`] applies at `i`.
fn p74_c0_exec(tokens: &Vec<SejongToken>, i: usize) -> (r: bool)
    requires
        i < tokens@.len(),
    ensures
        r == p74_c0(tokens_view(tokens@), i as int),
{
    assert(tokens_view(tokens@).len() == tokens@.len());
    let c87 = surf_is(&tokens[i], "간");
    let c88 = pos_is(&tokens[i], "VV");
    let l90: [&str; 4] = ["NNG", "NNP", "NNB", "NP"];
    assert(crate::tag_map::strs_view(l90@) =~= seq!["NNG"@, "NNP"@, "NNB"@, "NP"@]);
    let c89 = (tokens.len() - i > 1) && in_list(&l90, tokens[i + 1].pos.as_str());
    ((c87 && c88) && c89)
}

/// Whether rule 1 of [`p74`] applies at `i`.
fn p74_c1_exec(tokens: &Vec<SejongToken>, i: usize) -> (r: bool)
    requires
        i < tokens@.len(),
    ensures
        r == p74_c1(tokens_view(tokens@), i as int),
{
    assert(tokens_view(tokens@).len() == tokens@.len());
    let c91 = surf_is(&tokens[i], "온");
    let c92 = pos_is(&tokens[i], "VV");
    let l94: [&str; 4] = ["NNG", "NNP", "NNB", "NP"];
    assert(crate::tag_map::strs_view(l94@) =~= seq!["NNG"@, "NNP"@, "NNB"@, "NP"@]);
    let c93 = (tokens.len() - i > 1) && in_list(&l94, tokens[i + 1].pos.as_str());
    ((c91 && c92) && c93)
}

/// Whether rule 2 of [`p74`] applies at `i`.
fn p74_c2_exec(tokens: &Vec<SejongToken>, i: usize) -> (r: bool)
    requires
        i < tokens@.len(),
    ensures
        r == p74_c2(tokens_view(tokens@), i as int),
{
    assert(tokens_view(tokens@).len() == tokens@.len());
    let c95 = surf_is(&tokens[i], "한");
    let c96 = pos_is(&tokens[i], "VV");
    let l98: [&str; 4] = ["NNG", "NNP", "NNB", "NP"];
    assert(crate::tag_map::strs_view(l98@) =~= seq!["NNG"@, "NNP"@, "NNB"@, "NP"@]);
    let c97 = (tokens.len() - i > 1) && in_list(&l98, tokens[i + 1].pos.as_str());
    ((c95 && c96) && c97)
}

/// Whether rule 3 of [`p74`] applies at `i`.
fn p74_c3_exec(tokens: &Vec<SejongToken>, i: usize) -> (r: bool)
    requires
        i < tokens@.len(),
    ensures
        r == p74_c3(tokens_view(tokens@), i as int),
{
    assert(tokens_view(tokens@).len() == tokens@.len());
    let c99 = surf_is(&tokens[i], "갈");
    let c100 = pos_is(&tokens[i], "VV");
    let l102: [&str; 4] = ["NNG", "NNP", "NNB", "NP"];
    assert(crate::tag_map::strs_view(l102@) =~= seq!["NNG"@, "NNP"@, "NNB"@, "NP"@]);
    let c101 = (tokens.len() - i > 1) && in_list(&l102, tokens[i + 1].pos.as_str());
    ((c99 && c100) && c101)
}

/// Whether rule 4 of [`p74`] applies at `i`.
fn p74_c4_exec(tokens: &Vec<SejongToken>, i: usize) -> (r: bool)
    requires
        i < tokens@.len(),
    ensures
        r == p74_c4(tokens_view(tokens@), i as int),
{
    assert(tokens_view(tokens@).len() == tokens@.len());
    let c103 = surf_is(&tokens[i], "올");
    let c104 = pos_is(&tokens[i], "VV");
    let l106: [&str; 4] = ["NNG", "NNP", "NNB", "NP"];
    assert(crate::tag_map::strs_view(l106@) =~= seq!["NNG"@, "NNP"@, "NNB"@, "NP"@]);
    let c105 = (tokens.len() - i > 1) && in_list(&l106, tokens[i + 1].pos.as_str());
    ((c103 && c104) && c105)
}

/// Whether rule 5 of [`p74`] applies at `i`.
fn p74_c5_exec(tokens: &Vec<SejongToken>, i: usize) -> (r: bool)
    requires
        i < tokens@.len(),
    ensures
        r == p74_c5(tokens_view(tokens@), i as int),
{
    assert(tokens_view(tokens@).len() == tokens@.len());
    let c107 = surf_is(&tokens[i], "할");
    let c108 = pos_is(&tokens[i], "VV");
    let l110: [&str; 4] = ["NNG", "NNP", "NNB", "NP"];
    assert(crate::tag_map::strs_view(l110@) =~= seq!["NNG"@, "NNP"@, "NNB"@, "NP"@]);
    let c109 = (tokens.len() - i > 1) && in_list(&l110, tokens[i + 1].pos.as_str());
    ((c107 && c108) && c109)
}

/// One step of [`p74`] at `i`; returns the next position.
fn p74_step_exec(tokens: &mut Vec<SejongToken>, i: usize) -> (next: usize)
    requires
        i < old(tokens)@.len(),
    ensures
        (tokens_view(final(tokens)@), next as int) == p74_step(tokens_view(old(tokens)@), i as int),
        final(tokens)@.len() - next < old(tokens)@.len() - i,
        next <= final(tokens)@.len() + 1,
{
    let len0 = tokens.len();
    assert(tokens_view(tokens@).len() == tokens@.len());
    if p74_c0_exec(tokens, i) {
        let s112 = owned("가");
        let s113 = owned("VV");
        let n114 = tokens[i].start_pos;
        let n115 = tokens[i].end_pos;
        let t111 = SejongToken::new(s112.as_str(), s113.as_str(), n114, n115);
        let s117 = owned("ㄴ");
        let s118 = owned("ETM");
        let n119 = tokens[i].end_pos;
        let n120 = tokens[i].end_pos;
        let t116 = SejongToken::new(s117.as_str(), s118.as_str(), n119, n120);
        let mut nv121: Vec<SejongToken> = Vec::new();
        push_token(&mut nv121, t111);
        push_token(&mut nv121, t116);
        splice_tokens(tokens, i, 1, nv121);
        let _len1 = tokens.len();
        return i + 2;
    }
    if p74_c1_exec(tokens, i) {
        let s123 = owned("오");
        let s124 = owned("VV");
        let n125 = tokens[i].start_pos;
        let n126 = tokens[i].end_pos;
        let t122 = SejongToken::new(s123.as_str(), s124.as_str(), n125, n126);
        let s128 = owned("ㄴ");
        let s129 = owned("ETM");
        let n130 = tokens[i].end_pos;
        let n131 = tokens[i].end_pos;
        let t127 = SejongToken::new(s128.as_str(), s129.as_str(), n130, n131);
        let mut nv132: Vec<SejongToken> = Vec::new();
        push_token(&mut nv132, t122);
        push_token(&mut nv132, t127);
        splice_tokens(tokens, i, 1, nv132);
        let _len1 = tokens.len();
        return i + 2;
    }
    if p74_c2_exec(tokens, i) {
        let s134 = owned("하");
        let s135 = owned("VV");
        let n136 = tokens[i].start_pos;
        let n137 = tokens[i].end_pos;
        let t133 = SejongToken::new(s134.as_str(), s135.as_str(), n136, n137);
        let s139 = owned("ㄴ");
        let s140 = owned("ETM");
        let n141 = tokens[i].end_pos;
        let n142 = tokens[i].end_pos;
        let t138 = SejongToken::new(s139.as_str(), s140.as_str(), n141, n142);
        let mut nv143: Vec<SejongToken> = Vec::new();
        push_token(&mut nv143, t133);
        push_token(&mut nv143, t138);
        splice_tokens(tokens, i, 1, nv143);
        let _len1 = tokens.len();
        return i + 2;
    }
    if p74_c3_exec(tokens, i) {
        let s145 = owned("가");
        let s146 = owned("VV");
        let n147 = tokens[i].start_pos;
        let n148 = tokens[i].end_pos;
        let t144 = SejongToken::new(s145.as_str(), s146.as_str(), n147, n148);
        let s150 = owned("ㄹ");
        let s151 = owned("ETM");
        let n152 = tokens[i].end_pos;
        let n153 = tokens[i].end_pos;
        let t149 = SejongToken::new(s150.as_str(), s151.as_str(), n152, n153);
        let mut nv154: Vec<SejongToken> = Vec::new();
        push_token(&mut nv154, t144);
        push_token(&mut nv154, t149);
        splice_tokens(tokens, i, 1, nv154);
        let _len1 = tokens.len();
        return i + 2;
    }
    if p74_c4_exec(tokens, i) {
        let s156 = owned("오");
        let s157 = owned("VV");
        let n158 = tokens[i].start_pos;
        let n159 = tokens[i].end_pos;
        let t155 = SejongToken::new(s156.as_str(), s157.as_str(), n158, n159);
        let s161 = owned("ㄹ");
        let s162 = owned("ETM");
        let n163 = tokens[i].end_pos;
        let n164 = tokens[i].end_pos;
        let t160 = SejongToken::new(s161.as_str(), s162.as_str(), n163, n164);
        let mut nv165: Vec<SejongToken> = Vec::new();
        push_token(&mut nv165, t155);
        push_token(&mut nv165, t160);
        splice_tokens(tokens, i, 1, nv165);
        let _len1 = tokens.len();
        return i + 2;
    }
    if p74_c5_exec(tokens, i) {
        let s167 = owned("하");
        let s168 = owned("VV");
        let n169 = tokens[i].start_pos;
        let n170 = tokens[i].end_pos;
        let t166 = SejongToken::new(s167.as_str(), s168.as_str(), n169, n170);
        let s172 = owned("ㄹ");
        let s173 = owned("ETM");
        let n174 = tokens[i].end_pos;
        let n175 = tokens[i].end_pos;
        let t171 = SejongToken::new(s172.as_str(), s173.as_str(), n174, n175);
        let mut nv176: Vec<SejongToken> = Vec::new();
        push_token(&mut nv176, t166);
        push_token(&mut nv176, t171);
        splice_tokens(tokens, i, 1, nv176);
        let _len1 = tokens.len();
        return i + 2;
    }
    i + 1
}

/// An adnominal verb form before a noun is split: 간/VV → 가/VV ㄴ/ETM, 갈/VV → 가/VV ㄹ/ETM.
pub fn apply_p74(tokens: &mut Vec<SejongToken>)
    ensures
        tokens_view(final(tokens)@) == p74(tokens_view(old(tokens)@)),
{
    let ghost orig = tokens_view(tokens@);
    let mut i: usize = 0;
    while i < tokens.len()
        invariant
            i <= tokens@.len() + 1,
            scan(tokens_view(tokens@), i as int, p74_f()) == scan(orig, 0, p74_f()),
        decreases tokens@.len() + 1 - i,
    {
        let ghost before = tokens_view(tokens@);
        assert(before.len() == tokens@.len());
        i = p74_step_exec(tokens, i);
        assert(tokens_view(tokens@).len() == tokens@.len());
    }
}

/// Where [`p75a`] changes a token.
pub open spec fn p75a_c(ts: Seq<TokenView>, i: int) -> bool {
    (((0 <= i < ts.len() && ts[i].surface == "드"@) && (0 <= i < ts.len() && ts[i].pos == "VV"@)) && ((0 <= i + 1 < ts.len() && ts[i + 1].surface == "세요"@) && (0 <= i + 1 < ts.len() && ts[i + 1].pos == "EF"@)))
}

/// The token [`p75a`] puts at `i`.
pub open spec fn p75a_t(ts: Seq<TokenView>, i: int) -> TokenView {
    TokenView { surface: "들"@, ..ts[i] }
}

/// 드/VV before 세요/EF is the ㄹ-dropping stem 들/VV.
pub open spec fn p75a(ts: Seq<TokenView>) -> Seq<TokenView> {
    map_where(ts, |ts: Seq<TokenView>, i: int| p75a_c(ts, i), |ts: Seq<TokenView>, i: int| p75a_t(ts, i))
}

/// Whether [`p75a`] changes the token at `i`.
fn p75a_c_exec(tokens: &Vec<SejongToken>, i: usize) -> (r: bool)
    requires
        i < tokens@.len(),
    ensures
        r == p75a_c(tokens_view(tokens@), i as int),
{
    assert(tokens_view(tokens@).len() == tokens@.len());
    let c177 = surf_is(&tokens[i], "드");
    let c178 = pos_is(&tokens[i], "VV");
    let c179 = (tokens.len() - i > 1) && surf_is(&tokens[i + 1], "세요");
    let c180 = (tokens.len() - i > 1) && pos_is(&tokens[i + 1], "EF");
    ((c177 && c178) && (c179 && c180))
}

/// The token [`p75a`] puts at `i`.
fn p75a_t_exec(tokens: &Vec<SejongToken>, i: usize) -> (t: SejongToken)
    requires
        i < tokens@.len(),
        p75a_c(tokens_view(tokens@), i as int),
    ensures
        t@ == p75a_t(tokens_view(tokens@), i as int),
{
    assert(tokens_view(tokens@).len() == tokens@.len());
    let s182 = owned("들");
    let mut t181 = tokens[i].duplicate();
    t181.surface = s182;
    t181
}

/// 드/VV before 세요/EF is the ㄹ-dropping stem 들/VV.
pub fn apply_p75a(tokens: &mut Vec<SejongToken>)
    ensures
        tokens_view(final(tokens)@) == p75a(tokens_view(old(tokens)@)),
{
    let ghost orig = tokens_view(tokens@);
    let mut out: Vec<SejongToken> = Vec::new();
    let mut k: usize = 0;
    while k < tokens.len()
        invariant
            k <= tokens@.len(),
            orig == tokens_view(tokens@),
            tokens_view(out@) == p75a(orig).take(k as int),
        decreases tokens@.len() - k,
    {
        let t = if p75a_c_exec(tokens, k) { p75a_t_exec(tokens, k) } else { tokens[k].duplicate() };
        push_token(&mut out, t);
        k += 1;
        assert(tokens_view(out@) =~= p75a(orig).take(k as int));
    }
    assert(p75a(orig).take(k as int) =~= p75a(orig));
    *tokens = out;
}

/// Where [`p75b`] changes a token.
pub open spec fn p75b_c(ts: Seq<TokenView>, i: int) -> bool {
    (((0 <= i < ts.len() && ts[i].surface == "아"@) && (0 <= i < ts.len() && ts[i].pos == "VV"@)) && ((0 <= i + 1 < ts.len() && ts[i + 1].surface == "세요"@) && (0 <= i + 1 < ts.len() && ts[i + 1].pos == "EF"@)))
}

/// The token [`p75b`] puts at `i`.
pub open spec fn p75b_t(ts: Seq<TokenView>, i: int) -> TokenView {
    TokenView { surface: "알"@, ..ts[i] }
}

/// 아/VV before 세요/EF is the ㄹ-dropping stem 알/VV.
pub open spec fn p75b(ts: Seq<TokenView>) -> Seq<TokenView> {
    map_where(ts, |ts: Seq<TokenView>, i: int| p75b_c(ts, i), |ts: Seq<TokenView>, i: int| p75b_t(ts, i))
}

/// Whether [`p75b`] changes the token at `i`.
fn p75b_c_exec(tokens: &Vec<SejongToken>, i: usize) -> (r: bool)
    requires
        i < tokens@.len(),
    ensures
        r == p75b_c(tokens_view(tokens@), i as int),
{
    assert(tokens_view(tokens@).len() == tokens@.len());
    let c183 = surf_is(&tokens[i], "아");
    let c184 = pos_is(&tokens[i], "VV");
    let c185 = (tokens.len() - i > 1) && surf_is(&tokens[i + 1], "세요");
    let c186 = (tokens.len() - i > 1) && pos_is(&tokens[i + 1], "EF");
    ((c183 && c184) && (c185 && c186))
}

/// The token [`p75b`] puts at `i`.
fn p75b_t_exec(tokens: &Vec<SejongToken>, i: usize) -> (t: SejongToken)
    requires
        i < tokens@.len(),
        p75b_c(tokens_view(tokens@), i as int),
    ensures
        t@ == p75b_t(tokens_view(tokens@), i as int),
{
    assert(tokens_view(tokens@).len() == tokens@.len());
    let s188 = owned("알");
    let mut t187 = tokens[i].duplicate();
    t187.surface = s188;
    t187
}

/// 아/VV before 세요/EF is the ㄹ-dropping stem 알/VV.
pub fn apply_p75b(tokens: &mut Vec<SejongToken>)
    ensures
        tokens_view(final(tokens)@) == p75b(tokens_view(old(tokens)@)),
{
    let ghost orig = tokens_view(tokens@);
    let mut out: Vec<SejongToken> = Vec::new();
    let mut k: usize = 0;
    while k < tokens.len()
        invariant
            k <= tokens@.len(),
            orig == tokens_view(tokens@),
            tokens_view(out@) == p75b(orig).take(k as int),
        decreases tokens@.len() - k,
    {
        let t = if p75b_c_exec(tokens, k) { p75b_t_exec(tokens, k) } else { tokens[k].duplicate() };
        push_token(&mut out, t);
        k += 1;
        assert(tokens_view(out@) =~= p75b(orig).take(k as int));
    }
    assert(p75b(orig).take(k as int) =~= p75b(orig));
    *tokens = out;
}

/// Where rule 0 of [`p76`] applies.
pub open spec fn p76_c0(ts: Seq<TokenView>, i: int) -> bool {
    ((0 <= i < ts.len() && ts[i].surface == "웃음"@) && (0 <= i < ts.len() && ts[i].pos == "NNG"@))
}

/// Where rule 1 of [`p76`] applies.
pub open spec fn p76_c1(ts: Seq<TokenView>, i: int) -> bool {
    ((0 <= i < ts.len() && ts[i].surface == "울음"@) && (0 <= i < ts.len() && ts[i].pos == "NNG"@))
}

/// Where rule 2 of [`p76`] applies.
pub open spec fn p76_c2(ts: Seq<TokenView>, i: int) -> bool {
    ((0 <= i < ts.len() && ts[i].surface == "걸음"@) && (0 <= i < ts.len() && ts[i].pos == "NNG"@))
}

/// Where rule 3 of [`p76`] applies.
pub open spec fn p76_c3(ts: Seq<TokenView>, i: int) -> bool {
    ((0 <= i < ts.len() && ts[i].surface == "놀이"@) && (0 <= i < ts.len() && ts[i].pos == "NNG"@))
}

/// Where rule 4 of [`p76`] applies.
pub open spec fn p76_c4(ts: Seq<TokenView>, i: int) -> bool {
    ((0 <= i < ts.len() && ts[i].surface == "먹이"@) && (0 <= i < ts.len() && ts[i].pos == "NNG"@))
}

/// Where rule 5 of [`p76`] applies.
pub open spec fn p76_c5(ts: Seq<TokenView>, i: int) -> bool {
    ((0 <= i < ts.len() && ts[i].surface == "잠"@) && (0 <= i < ts.len() && ts[i].pos == "NNG"@))
}

/// Where rule 6 of [`p76`] applies.
pub open spec fn p76_c6(ts: Seq<TokenView>, i: int) -> bool {
    ((0 <= i < ts.len() && ts[i].surface == "꿈"@) && (0 <= i < ts.len() && ts[i].pos == "NNG"@))
}

/// One step of [`p76`] at `i`: the list after it and the next position.
pub open spec fn p76_step(ts: Seq<TokenView>, i: int) -> (Seq<TokenView>, int) {
    if p76_c0(ts, i) {
        (splice(ts, i, 1, seq![plain_view("웃"@, "VV"@, ts[i].start_pos, (ts[i].start_pos).saturating_add(1)), plain_view("음"@, "ETN"@, (ts[i].start_pos).saturating_add(1), ts[i].end_pos)]), i + 2)
    } else if p76_c1(ts, i) {
        (splice(ts, i, 1, seq![plain_view("울"@, "VV"@, ts[i].start_pos, (ts[i].start_pos).saturating_add(1)), plain_view("음"@, "ETN"@, (ts[i].start_pos).saturating_add(1), ts[i].end_pos)]), i + 2)
    } else if p76_c2(ts, i) {
        (splice(ts, i, 1, seq![plain_view("걷"@, "VV"@, ts[i].start_pos, (ts[i].start_pos).saturating_add(1)), plain_view("음"@, "ETN"@, (ts[i].start_pos).saturating_add(1), ts[i].end_pos)]), i + 2)
    } else if p76_c3(ts, i) {
        (splice(ts, i, 1, seq![plain_view("놀"@, "VV"@, ts[i].start_pos, (ts[i].start_pos).saturating_add(1)), plain_view("이"@, "ETN"@, (ts[i].start_pos).saturating_add(1), ts[i].end_pos)]), i + 2)
    } else if p76_c4(ts, i) {
        (splice(ts, i, 1, seq![plain_view("먹"@, "VV"@, ts[i].start_pos, (ts[i].start_pos).saturating_add(1)), plain_view("이"@, "ETN"@, (ts[i].start_pos).saturating_add(1), ts[i].end_pos)]), i + 2)
    } else if p76_c5(ts, i) {
        (splice(ts, i, 1, seq![plain_view("자"@, "VV"@, ts[i].start_pos, (ts[i].start_pos).saturating_add(1)), plain_view("ㅁ"@, "ETN"@, (ts[i].start_pos).saturating_add(1), ts[i].end_pos)]), i + 2)
    } else if p76_c6(ts, i) {
        (splice(ts, i, 1, seq![plain_view("꾸"@, "VV"@, ts[i].start_pos, (ts[i].start_pos).saturating_add(1)), plain_view("ㅁ"@, "ETN"@, (ts[i].start_pos).saturating_add(1), ts[i].end_pos)]), i + 2)
    } else {
        (ts, i + 1)
    }
}

/// [`p76_step`] as a function value.
pub open spec fn p76_f() -> spec_fn(Seq<TokenView>, int) -> (Seq<TokenView>, int) {
    |ts: Seq<TokenView>, i: int| p76_step(ts, i)
}

/// A derived noun is split into the verb stem and the nominal ending (웃음/NNG → 웃/VV 음/ETN).
pub open spec fn p76(ts: Seq<TokenView>) -> Seq<TokenView> {
    scan(ts, 0, p76_f())
}

/// Whether rule 0 of [`p76`] applies at `i`.
fn p76_c0_exec(tokens: &Vec<SejongToken>, i: usize) -> (r: bool)
    requires
        i < tokens@.len(),
    ensures
        r == p76_c0(tokens_view(tokens@), i as int),
{
    assert(tokens_view(tokens@).len() == tokens@.len());
    let c189 = surf_is(&tokens[i], "웃음");
    let c190 = pos_is(&tokens[i], "NNG");
    (c189 && c190)
}

/// Whether rule 1 of [`p76`] applies at `i`.
fn p76_c1_exec(tokens: &Vec<SejongToken>, i: usize) -> (r: bool)
    requires
        i < tokens@.len(),
    ensures
        r == p76_c1(tokens_view(tokens@), i as int),
{
    assert(tokens_view(tokens@).len() == tokens@.len());
    let c191 = surf_is(&tokens[i], "울음");
    let c192 = pos_is(&tokens[i], "NNG");
    (c191 && c192)
}

/// Whether rule 2 of [`p76`] applies at `i`.
fn p76_c2_exec(tokens: &Vec<SejongToken>, i: usize) -> (r: bool)
    requires
        i < tokens@.len(),
    ensures
        r == p76_c2(tokens_view(tokens@), i as int),
{
    assert(tokens_view(tokens@).len() == tokens@.len());
    let c193 = surf_is(&tokens[i], "걸음");
    let c194 = pos_is(&tokens[i], "NNG");
    (c193 && c194)
}

/// Whether rule 3 of [`p76`] applies at `i`.
fn p76_c3_exec(tokens: &Vec<SejongToken>, i: usize) -> (r: bool)
    requires
        i < tokens@.len(),
    ensures
        r == p76_c3(tokens_view(tokens@), i as int),
{
    assert(tokens_view(tokens@).len() == tokens@.len());
    let c195 = surf_is(&tokens[i], "놀이");
    let c196 = pos_is(&tokens[i], "NNG");
    (c195 && c196)
}

/// Whether rule 4 of [`p76`] applies at `i`.
fn p76_c4_exec(tokens: &Vec<SejongToken>, i: usize) -> (r: bool)
    requires
        i < tokens@.len(),
    ensures
        r == p76_c4(tokens_view(tokens@), i as int),
{
    assert(tokens_view(tokens@).len() == tokens@.len());
    let c197 = surf_is(&tokens[i], "먹이");
    let c198 = pos_is(&tokens[i], "NNG");
    (c197 && c198)
}

/// Whether rule 5 of [`p76`] applies at `i`.
fn p76_c5_exec(tokens: &Vec<SejongToken>, i: usize) -> (r: bool)
    requires
        i < tokens@.len(),
    ensures
        r == p76_c5(tokens_view(tokens@), i as int),
{
    assert(tokens_view(tokens@).len() == tokens@.len());
    let c199 = surf_is(&tokens[i], "잠");
    let c200 = pos_is(&tokens[i], "NNG");
    (c199 && c200)
}

/// Whether rule 6 of [`p76`] applies at `i`.
fn p76_c6_exec(tokens: &Vec<SejongToken>, i: usize) -> (r: bool)
    requires
        i < tokens@.len(),
    ensures
        r == p76_c6(tokens_view(tokens@), i as int),
{
    assert(tokens_view(tokens@).len() == tokens@.len());
    let c201 = surf_is(&tokens[i], "꿈");
    let c202 = pos_is(&tokens[i], "NNG");
    (c201 && c202)
}

/// One step of [`p76`] at `i`; returns the next position.
fn p76_step_exec(tokens: &mut Vec<SejongToken>, i: usize) -> (next: usize)
    requires
        i < old(tokens)@.len(),
    ensures
        (tokens_view(final(tokens)@), next as int) == p76_step(tokens_view(old(tokens)@), i as int),
        final(tokens)@.len() - next < old(tokens)@.len() - i,
        next <= final(tokens)@.len() + 1,
{
    let len0 = tokens.len();
    assert(tokens_view(tokens@).len() == tokens@.len());
    if p76_c0_exec(tokens, i) {
        let s204 = owned("웃");
        let s205 = owned("VV");
        let n206 = tokens[i].start_pos;
        let n208 = tokens[i].start_pos;
        let n207 = n208.saturating_add(1);
        let t203 = SejongToken::new(s204.as_str(), s205.as_str(), n206, n207);
        let s210 = owned("음");
        let s211 = owned("ETN");
        let n213 = tokens[i].start_pos;
        let n212 = n213.saturating_add(1);
        let n214 = tokens[i].end_pos;
        let t209 = SejongToken::new(s210.as_str(), s211.as_str(), n212, n214);
        let mut nv215: Vec<SejongToken> = Vec::new();
        push_token(&mut nv215, t203);
        push_token(&mut nv215, t209);
        splice_tokens(tokens, i, 1, nv215);
        let _len1 = tokens.len();
        return i + 2;
    }
    if p76_c1_exec(tokens, i) {
        let s217 = owned("울");
        let s218 = owned("VV");
        let n219 = tokens[i].start_pos;
        let n221 = tokens[i].start_pos;
        let n220 = n221.saturating_add(1);
        let t216 = SejongToken::new(s217.as_str(), s218.as_str(), n219, n220);
        let s223 = owned("음");
        let s224 = owned("ETN");
        let n226 = tokens[i].start_pos;
        let n225 = n226.saturating_add(1);
        let n227 = tokens[i].end_pos;
        let t222 = SejongToken::new(s223.as_str(), s224.as_str(), n225, n227);
        let mut nv228: Vec<SejongToken> = Vec::new();
        push_token(&mut nv228, t216);
        push_token(&mut nv228, t222);
        splice_tokens(tokens, i, 1, nv228);
        let _len1 = tokens.len();
        return i + 2;
    }
    if p76_c2_exec(tokens, i) {
        let s230 = owned("걷");
        let s231 = owned("VV");
        let n232 = tokens[i].start_pos;
        let n234 = tokens[i].start_pos;
        let n233 = n234.saturating_add(1);
        let t229 = SejongToken::new(s230.as_str(), s231.as_str(), n232, n233);
        let s236 = owned("음");
        let s237 = owned("ETN");
        let n239 = tokens[i].start_pos;
        let n238 = n239.saturating_add(1);
        let n240 = tokens[i].end_pos;
        let t235 = SejongToken::new(s236.as_str(), s237.as_str(), n238, n240);
        let mut nv241: Vec<SejongToken> = Vec::new();
        push_token(&mut nv241, t229);
        push_token(&mut nv241, t235);
        splice_tokens(tokens, i, 1, nv241);
        let _len1 = tokens.len();
        return i + 2;
    }
    if p76_c3_exec(tokens, i) {
        let s243 = owned("놀");
        let s244 = owned("VV");
        let n245 = tokens[i].start_pos;
        let n247 = tokens[i].start_pos;
        let n246 = n247.saturating_add(1);
        let t242 = SejongToken::new(s243.as_str(), s244.as_str(), n245, n246);
        let s249 = owned("이");
        let s250 = owned("ETN");
        let n252 = tokens[i].start_pos;
        let n251 = n252.saturating_add(1);
        let n253 = tokens[i].end_pos;
        let t248 = SejongToken::new(s249.as_str(), s250.as_str(), n251, n253);
        let mut nv254: Vec<SejongToken> = Vec::new();
        push_token(&mut nv254, t242);
        push_token(&mut nv254, t248);
        splice_tokens(tokens, i, 1, nv254);
        let _len1 = tokens.len();
        return i + 2;
    }
    if p76_c4_exec(tokens, i) {
        let s256 = owned("먹");
        let s257 = owned("VV");
        let n258 = tokens[i].start_pos;
        let n260 = tokens[i].start_pos;
        let n259 = n260.saturating_add(1);
        let t255 = SejongToken::new(s256.as_str(), s257.as_str(), n258, n259);
        let s262 = owned("이");
        let s263 = owned("ETN");
        let n265 = tokens[i].start_pos;
        let n264 = n265.saturating_add(1);
        let n266 = tokens[i].end_pos;
        let t261 = SejongToken::new(s262.as_str(), s263.as_str(), n264, n266);
        let mut nv267: Vec<SejongToken> = Vec::new();
        push_token(&mut nv267, t255);
        push_token(&mut nv267, t261);
        splice_tokens(tokens, i, 1, nv267);
        let _len1 = tokens.len();
        return i + 2;
    }
    if p76_c5_exec(tokens, i) {
        let s269 = owned("자");
        let s270 = owned("VV");
        let n271 = tokens[i].start_pos;
        let n273 = tokens[i].start_pos;
        let n272 = n273.saturating_add(1);
        let t268 = SejongToken::new(s269.as_str(), s270.as_str(), n271, n272);
        let s275 = owned("ㅁ");
        let s276 = owned("ETN");
        let n278 = tokens[i].start_pos;
        let n277 = n278.saturating_add(1);
        let n279 = tokens[i].end_pos;
        let t274 = SejongToken::new(s275.as_str(), s276.as_str(), n277, n279);
        let mut nv280: Vec<SejongToken> = Vec::new();
        push_token(&mut nv280, t268);
        push_token(&mut nv280, t274);
        splice_tokens(tokens, i, 1, nv280);
        let _len1 = tokens.len();
        return i + 2;
    }
    if p76_c6_exec(tokens, i) {
        let s282 = owned("꾸");
        let s283 = owned("VV");
        let n284 = tokens[i].start_pos;
        let n286 = tokens[i].start_pos;
        let n285 = n286.saturating_add(1);
        let t281 = SejongToken::new(s282.as_str(), s283.as_str(), n284, n285);
        let s288 = owned("ㅁ");
        let s289 = owned("ETN");
        let n291 = tokens[i].start_pos;
        let n290 = n291.saturating_add(1);
        let n292 = tokens[i].end_pos;
        let t287 = SejongToken::new(s288.as_str(), s289.as_str(), n290, n292);
        let mut nv293: Vec<SejongToken> = Vec::new();
        push_token(&mut nv293, t281);
        push_token(&mut nv293, t287);
        splice_tokens(tokens, i, 1, nv293);
        let _len1 = tokens.len();
        return i + 2;
    }
    i + 1
}

/// A derived noun is split into the verb stem and the nominal ending (웃음/NNG → 웃/VV 음/ETN).
pub fn apply_p76(tokens: &mut Vec<SejongToken>)
    ensures
        tokens_view(final(tokens)@) == p76(tokens_view(old(tokens)@)),
{
    let ghost orig = tokens_view(tokens@);
    let mut i: usize = 0;
    while i < tokens.len()
        invariant
            i <= tokens@.len() + 1,
            scan(tokens_view(tokens@), i as int, p76_f()) == scan(orig, 0, p76_f()),
        decreases tokens@.len() + 1 - i,
    {
        let ghost before = tokens_view(tokens@);
        assert(before.len() == tokens@.len());
        i = p76_step_exec(tokens, i);
        assert(tokens_view(tokens@).len() == tokens@.len());
    }
}

/// Where rule 0 of [`p77`] applies.
pub open spec fn p77_c0(ts: Seq<TokenView>, i: int) -> bool {
    ((0 <= i < ts.len() && ts[i].surface == "간"@) && (0 <= i < ts.len() && seq!["VV"@, "VA"@].contains(ts[i].pos)) && (!(0 <= i + 1 < ts.len() && true) || (0 <= i + 1 < ts.len() && is_prefix("NN"@, ts[i + 1].pos)) || (0 <= i + 1 < ts.len() && seq!["NP"@, "VV"@, "VA"@, "MM"@, "MAG"@].contains(ts[i + 1].pos))))
}

/// Where rule 1 of [`p77`] applies.
pub open spec fn p77_c1(ts: Seq<TokenView>, i: int) -> bool {
    ((0 <= i < ts.len() && ts[i].surface == "온"@) && (0 <= i < ts.len() && seq!["VV"@, "VA"@].contains(ts[i].pos)) && (!(0 <= i + 1 < ts.len() && true) || (0 <= i + 1 < ts.len() && is_prefix("NN"@, ts[i + 1].pos)) || (0 <= i + 1 < ts.len() && seq!["NP"@, "VV"@, "VA"@, "MM"@, "MAG"@].contains(ts[i + 1].pos))))
}

/// Where rule 2 of [`p77`] applies.
pub open spec fn p77_c2(ts: Seq<TokenView>, i: int) -> bool {
    ((0 <= i < ts.len() && ts[i].surface == "한"@) && (0 <= i < ts.len() && seq!["VV"@, "VA"@].contains(ts[i].pos)) && (!(0 <= i + 1 < ts.len() && true) || (0 <= i + 1 < ts.len() && is_prefix("NN"@, ts[i + 1].pos)) || (0 <= i + 1 < ts.len() && seq!["NP"@, "VV"@, "VA"@, "MM"@, "MAG"@].contains(ts[i + 1].pos))))
}

/// Where rule 3 of [`p77`] applies.
pub open spec fn p77_c3(ts: Seq<TokenView>, i: int) -> bool {
    ((0 <= i < ts.len() && ts[i].surface == "본"@) && (0 <= i < ts.len() && seq!["VV"@, "VA"@].contains(ts[i].pos)) && (!(0 <= i + 1 < ts.len() && true) || (0 <= i + 1 < ts.len() && is_prefix("NN"@, ts[i + 1].pos)) || (0 <= i + 1 < ts.len() && seq!["NP"@, "VV"@, "VA"@, "MM"@, "MAG"@].contains(ts[i + 1].pos))))
}

/// Where rule 4 of [`p77`] applies.
pub open spec fn p77_c4(ts: Seq<TokenView>, i: int) -> bool {
    ((0 <= i < ts.len() && ts[i].surface == "잔"@) && (0 <= i < ts.len() && seq!["VV"@, "VA"@].contains(ts[i].pos)) && (!(0 <= i + 1 < ts.len() && true) || (0 <= i + 1 < ts.len() && is_prefix("NN"@, ts[i + 1].pos)) || (0 <= i + 1 < ts.len() && seq!["NP"@, "VV"@, "VA"@, "MM"@, "MAG"@].contains(ts[i + 1].pos))))
}

/// Where rule 5 of [`p77`] applies.
pub open spec fn p77_c5(ts: Seq<TokenView>, i: int) -> bool {
    ((0 <= i < ts.len() && ts[i].surface == "산"@) && (0 <= i < ts.len() && seq!["VV"@, "VA"@].contains(ts[i].pos)) && (!(0 <= i + 1 < ts.len() && true) || (0 <= i + 1 < ts.len() && is_prefix("NN"@, ts[i + 1].pos)) || (0 <= i + 1 < ts.len() && seq!["NP"@, "VV"@, "VA"@, "MM"@, "MAG"@].contains(ts[i + 1].pos))))
}

/// Where rule 6 of [`p77`] applies.
pub open spec fn p77_c6(ts: Seq<TokenView>, i: int) -> bool {
    ((0 <= i < ts.len() && ts[i].surface == "된"@) && (0 <= i < ts.len() && seq!["VV"@, "VA"@].contains(ts[i].pos)) && (!(0 <= i + 1 < ts.len() && true) || (0 <= i + 1 < ts.len() && is_prefix("NN"@, ts[i + 1].pos)) || (0 <= i + 1 < ts.len() && seq!["NP"@, "VV"@, "VA"@, "MM"@, "MAG"@].contains(ts[i + 1].pos))))
}

/// Where rule 7 of [`p77`] applies.
pub open spec fn p77_c7(ts: Seq<TokenView>, i: int) -> bool {
    ((0 <= i < ts.len() && ts[i].surface == "쓴"@) && (0 <= i < ts.len() && seq!["VV"@, "VA"@].contains(ts[i].pos)) && (!(0 <= i + 1 < ts.len() && true) || (0 <= i + 1 < ts.len() && is_prefix("NN"@, ts[i + 1].pos)) || (0 <= i + 1 < ts.len() && seq!["NP"@, "VV"@, "VA"@, "MM"@, "MAG"@].contains(ts[i + 1].pos))))
}

/// Where rule 8 of [`p77`] applies.
pub open spec fn p77_c8(ts: Seq<TokenView>, i: int) -> bool {
    ((0 <= i < ts.len() && ts[i].surface == "갈"@) && (0 <= i < ts.len() && seq!["VV"@, "VA"@].contains(ts[i].pos)) && (!(0 <= i + 1 < ts.len() && true) || (0 <= i + 1 < ts.len() && is_prefix("NN"@, ts[i + 1].pos)) || (0 <= i + 1 < ts.len() && seq!["NP"@, "VV"@, "VA"@, "MM"@, "MAG"@].contains(ts[i + 1].pos))))
}

/// Where rule 9 of [`p77`] applies.
pub open spec fn p77_c9(ts: Seq<TokenView>, i: int) -> bool {
    ((0 <= i < ts.len() && ts[i].surface == "올"@) && (0 <= i < ts.len() && seq!["VV"@, "VA"@].contains(ts[i].pos)) && (!(0 <= i + 1 < ts.len() && true) || (0 <= i + 1 < ts.len() && is_prefix("NN"@, ts[i + 1].pos)) || (0 <= i + 1 < ts.len() && seq!["NP"@, "VV"@, "VA"@, "MM"@, "MAG"@].contains(ts[i + 1].pos))))
}

/// Where rule 10 of [`p77`] applies.
pub open spec fn p77_c10(ts: Seq<TokenView>, i: int) -> bool {
    ((0 <= i < ts.len() && ts[i].surface == "할"@) && (0 <= i < ts.len() && seq!["VV"@, "VA"@].contains(ts[i].pos)) && (!(0 <= i + 1 < ts.len() && true) || (0 <= i + 1 < ts.len() && is_prefix("NN"@, ts[i + 1].pos)) || (0 <= i + 1 < ts.len() && seq!["NP"@, "VV"@, "VA"@, "MM"@, "MAG"@].contains(ts[i + 1].pos))))
}

/// Where rule 11 of [`p77`] applies.
pub open spec fn p77_c11(ts: Seq<TokenView>, i: int) -> bool {
    ((0 <= i < ts.len() && ts[i].surface == "볼"@) && (0 <= i < ts.len() && seq!["VV"@, "VA"@].contains(ts[i].pos)) && (!(0 <= i + 1 < ts.len() && true) || (0 <= i + 1 < ts.len() && is_prefix("NN"@, ts[i + 1].pos)) || (0 <= i + 1 < ts.len() && seq!["NP"@, "VV"@, "VA"@, "MM"@, "MAG"@].contains(ts[i + 1].pos))))
}

/// Where rule 12 of [`p77`] applies.
pub open spec fn p77_c12(ts: Seq<TokenView>, i: int) -> bool {
    ((0 <= i < ts.len() && ts[i].surface == "살"@) && (0 <= i < ts.len() && seq!["VV"@, "VA"@].contains(ts[i].pos)) && (!(0 <= i + 1 < ts.len() && true) || (0 <= i + 1 < ts.len() && is_prefix("NN"@, ts[i + 1].pos)) || (0 <= i + 1 < ts.len() && seq!["NP"@, "VV"@, "VA"@, "MM"@, "MAG"@].contains(ts[i + 1].pos))))
}

/// Where rule 13 of [`p77`] applies.
pub open spec fn p77_c13(ts: Seq<TokenView>, i: int) -> bool {
    ((0 <= i < ts.len() && ts[i].surface == "알"@) && (0 <= i < ts.len() && seq!["VV"@, "VA"@].contains(ts[i].pos)) && (!(0 <= i + 1 < ts.len() && true) || (0 <= i + 1 < ts.len() && is_prefix("NN"@, ts[i + 1].pos)) || (0 <= i + 1 < ts.len() && seq!["NP"@, "VV"@, "VA"@, "MM"@, "MAG"@].contains(ts[i + 1].pos))))
}

/// Where rule 14 of [`p77`] applies.
pub open spec fn p77_c14(ts: Seq<TokenView>, i: int) -> bool {
    ((0 <= i < ts.len() && ts[i].surface == "될"@) && (0 <= i < ts.len() && seq!["VV"@, "VA"@].contains(ts[i].pos)) && (!(0 <= i + 1 < ts.len() && true) || (0 <= i + 1 < ts.len() && is_prefix("NN"@, ts[i + 1].pos)) || (0 <= i + 1 < ts.len() && seq!["NP"@, "VV"@, "VA"@, "MM"@, "MAG"@].contains(ts[i + 1].pos))))
}

/// One step of [`p77`] at `i`: the list after it and the next position.
pub open spec fn p77_step(ts: Seq<TokenView>, i: int) -> (Seq<TokenView>, int) {
    if p77_c0(ts, i) {
        (splice(ts, i, 1, seq![plain_view("가"@, "VV"@, ts[i].start_pos, (ts[i].start_pos).saturating_add(1)), plain_view("ㄴ"@, "ETM"@, (ts[i].start_pos).saturating_add(1), ts[i].end_pos)]), i + 2)
    } else if p77_c1(ts, i) {
        (splice(ts, i, 1, seq![plain_view("오"@, "VV"@, ts[i].start_pos, (ts[i].start_pos).saturating_add(1)), plain_view("ㄴ"@, "ETM"@, (ts[i].start_pos).saturating_add(1), ts[i].end_pos)]), i + 2)
    } else if p77_c2(ts, i) {
        (splice(ts, i, 1, seq![plain_view("하"@, "VV"@, ts[i].start_pos, (ts[i].start_pos).saturating_add(1)), plain_view("ㄴ"@, "ETM"@, (ts[i].start_pos).saturating_add(1), ts[i].end_pos)]), i + 2)
    } else if p77_c3(ts, i) {
        (splice(ts, i, 1, seq![plain_view("보"@, "VV"@, ts[i].start_pos, (ts[i].start_pos).saturating_add(1)), plain_view("ㄴ"@, "ETM"@, (ts[i].start_pos).saturating_add(1), ts[i].end_pos)]), i + 2)
    } else if p77_c4(ts, i) {
        (splice(ts, i, 1, seq![plain_view("자"@, "VV"@, ts[i].start_pos, (ts[i].start_pos).saturating_add(1)), plain_view("ㄴ"@, "ETM"@, (ts[i].start_pos).saturating_add(1), ts[i].end_pos)]), i + 2)
    } else if p77_c5(ts, i) {
        (splice(ts, i, 1, seq![plain_view("사"@, "VV"@, ts[i].start_pos, (ts[i].start_pos).saturating_add(1)), plain_view("ㄴ"@, "ETM"@, (ts[i].start_pos).saturating_add(1), ts[i].end_pos)]), i + 2)
    } else if p77_c6(ts, i) {
        (splice(ts, i, 1, seq![plain_view("되"@, "VV"@, ts[i].start_pos, (ts[i].start_pos).saturating_add(1)), plain_view("ㄴ"@, "ETM"@, (ts[i].start_pos).saturating_add(1), ts[i].end_pos)]), i + 2)
    } else if p77_c7(ts, i) {
        (splice(ts, i, 1, seq![plain_view("쓰"@, "VV"@, ts[i].start_pos, (ts[i].start_pos).saturating_add(1)), plain_view("ㄴ"@, "ETM"@, (ts[i].start_pos).saturating_add(1), ts[i].end_pos)]), i + 2)
    } else if p77_c8(ts, i) {
        (splice(ts, i, 1, seq![plain_view("가"@, "VV"@, ts[i].start_pos, (ts[i].start_pos).saturating_add(1)), plain_view("ㄹ"@, "ETM"@, (ts[i].start_pos).saturating_add(1), ts[i].end_pos)]), i + 2)
    } else if p77_c9(ts, i) {
        (splice(ts, i, 1, seq![plain_view("오"@, "VV"@, ts[i].start_pos, (ts[i].start_pos).saturating_add(1)), plain_view("ㄹ"@, "ETM"@, (ts[i].start_pos).saturating_add(1), ts[i].end_pos)]), i + 2)
    } else if p77_c10(ts, i) {
        (splice(ts, i, 1, seq![plain_view("하"@, "VV"@, ts[i].start_pos, (ts[i].start_pos).saturating_add(1)), plain_view("ㄹ"@, "ETM"@, (ts[i].start_pos).saturating_add(1), ts[i].end_pos)]), i + 2)
    } else if p77_c11(ts, i) {
        (splice(ts, i, 1, seq![plain_view("보"@, "VV"@, ts[i].start_pos, (ts[i].start_pos).saturating_add(1)), plain_view("ㄹ"@, "ETM"@, (ts[i].start_pos).saturating_add(1), ts[i].end_pos)]), i + 2)
    } else if p77_c12(ts, i) {
        (splice(ts, i, 1, seq![plain_view("살"@, "VV"@, ts[i].start_pos, (ts[i].start_pos).saturating_add(1)), plain_view("ㄹ"@, "ETM"@, (ts[i].start_pos).saturating_add(1), ts[i].end_pos)]), i + 2)
    } else if p77_c13(ts, i) {
        (splice(ts, i, 1, seq![plain_view("알"@, "VV"@, ts[i].start_pos, (ts[i].start_pos).saturating_add(1)), plain_view("ㄹ"@, "ETM"@, (ts[i].start_pos).saturating_add(1), ts[i].end_pos)]), i + 2)
    } else if p77_c14(ts, i) {
        (splice(ts, i, 1, seq![plain_view("되"@, "VV"@, ts[i].start_pos, (ts[i].start_pos).saturating_add(1)), plain_view("ㄹ"@, "ETM"@, (ts[i].start_pos).saturating_add(1), ts[i].end_pos)]), i + 2)
    } else {
        (ts, i + 1)
    }
}

/// [`p77_step`] as a function value.
pub open spec fn p77_f() -> spec_fn(Seq<TokenView>, int) -> (Seq<TokenView>, int) {
    |ts: Seq<TokenView>, i: int| p77_step(ts, i)
}

/// A one-syllable adnominal verb or adjective form before a noun, a verb, an adjective, a determiner or an adverb, or at the end, is split (간/VV → 가/VV ㄴ/ETM).
pub open spec fn p77(ts: Seq<TokenView>) -> Seq<TokenView> {
    scan(ts, 0, p77_f())
}

/// Whether rule 0 of [`p77`] applies at `i`.
fn p77_c0_exec(tokens: &Vec<SejongToken>, i: usize) -> (r: bool)
    requires
        i < tokens@.len(),
    ensures
        r == p77_c0(tokens_view(tokens@), i as int),
{
    assert(tokens_view(tokens@).len() == tokens@.len());
    let c294 = surf_is(&tokens[i], "간");
    let l296: [&str; 2] = ["VV", "VA"];
    assert(crate::tag_map::strs_view(l296@) =~= seq!["VV"@, "VA"@]);
    let c295 = in_list(&l296, tokens[i].pos.as_str());
    let c297 = (tokens.len() - i > 1) && true;
    let c298 = (tokens.len() - i > 1) && pos_starts(&tokens[i + 1], "NN");
    let l300: [&str; 5] = ["NP", "VV", "VA", "MM", "MAG"];
    assert(crate::tag_map::strs_view(l300@) =~= seq!["NP"@, "VV"@, "VA"@, "MM"@, "MAG"@]);
    let c299 = (tokens.len() - i > 1) && in_list(&l300, tokens[i + 1].pos.as_str());
    (c294 && c295 && (!c297 || c298 || c299))
}

/// Whether rule 1 of [`p77`] applies at `i`.
fn p77_c1_exec(tokens: &Vec<SejongToken>, i: usize) -> (r: bool)
    requires
        i < tokens@.len(),
    ensures
        r == p77_c1(tokens_view(tokens@), i as int),
{
    assert(tokens_view(tokens@).len() == tokens@.len());
    let c301 = surf_is(&tokens[i], "온");
    let l303: [&str; 2] = ["VV", "VA"];
    assert(crate::tag_map::strs_view(l303@) =~= seq!["VV"@, "VA"@]);
    let c302 = in_list(&l303, tokens[i].pos.as_str());
    let c304 = (tokens.len() - i > 1) && true;
    let c305 = (tokens.len() - i > 1) && pos_starts(&tokens[i + 1], "NN");
    let l307: [&str; 5] = ["NP", "VV", "VA", "MM", "MAG"];
    assert(crate::tag_map::strs_view(l307@) =~= seq!["NP"@, "VV"@, "VA"@, "MM"@, "MAG"@]);
    let c306 = (tokens.len() - i > 1) && in_list(&l307, tokens[i + 1].pos.as_str());
    (c301 && c302 && (!c304 || c305 || c306))
}

/// Whether rule 2 of [`p77`] applies at `i`.
fn p77_c2_exec(tokens: &Vec<SejongToken>, i: usize) -> (r: bool)
    requires
        i < tokens@.len(),
    ensures
        r == p77_c2(tokens_view(tokens@), i as int),
{
    assert(tokens_view(tokens@).len() == tokens@.len());
    let c308 = surf_is(&tokens[i], "한");
    let l310: [&str; 2] = ["VV", "VA"];
    assert(crate::tag_map::strs_view(l310@) =~= seq!["VV"@, "VA"@]);
    let c309 = in_list(&l310, tokens[i].pos.as_str());
    let c311 = (tokens.len() - i > 1) && true;
    let c312 = (tokens.len() - i > 1) && pos_starts(&tokens[i + 1], "NN");
    let l314: [&str; 5] = ["NP", "VV", "VA", "MM", "MAG"];
    assert(crate::tag_map::strs_view(l314@) =~= seq!["NP"@, "VV"@, "VA"@, "MM"@, "MAG"@]);
    let c313 = (tokens.len() - i > 1) && in_list(&l314, tokens[i + 1].pos.as_str());
    (c308 && c309 && (!c311 || c312 || c313))
}

/// Whether rule 3 of [`p77`] applies at `i`.
fn p77_c3_exec(tokens: &Vec<SejongToken>, i: usize) -> (r: bool)
    requires
        i < tokens@.len(),
    ensures
        r == p77_c3(tokens_view(tokens@), i as int),
{
    assert(tokens_view(tokens@).len() == tokens@.len());
    let c315 = surf_is(&tokens[i], "본");
    let l317: [&str; 2] = ["VV", "VA"];
    assert(crate::tag_map::strs_view(l317@) =~= seq!["VV"@, "VA"@]);
    let c316 = in_list(&l317, tokens[i].pos.as_str());
    let c318 = (tokens.len() - i > 1) && true;
    let c319 = (tokens.len() - i > 1) && pos_starts(&tokens[i + 1], "NN");
    let l321: [&str; 5] = ["NP", "VV", "VA", "MM", "MAG"];
    assert(crate::tag_map::strs_view(l321@) =~= seq!["NP"@, "VV"@, "VA"@, "MM"@, "MAG"@]);
    let c320 = (tokens.len() - i > 1) && in_list(&l321, tokens[i + 1].pos.as_str());
    (c315 && c316 && (!c318 || c319 || c320))
}

/// Whether rule 4 of [`p77`] applies at `i`.
fn p77_c4_exec(tokens: &Vec<SejongToken>, i: usize) -> (r: bool)
    requires
        i < tokens@.len(),
    ensures
        r == p77_c4(tokens_view(tokens@), i as int),
{
    assert(tokens_view(tokens@).len() == tokens@.len());
    let c322 = surf_is(&tokens[i], "잔");
    let l324: [&str; 2] = ["VV", "VA"];
    assert(crate::tag_map::strs_view(l324@) =~= seq!["VV"@, "VA"@]);
    let c323 = in_list(&l324, tokens[i].pos.as_str());
    let c325 = (tokens.len() - i > 1) && true;
    let c326 = (tokens.len() - i > 1) && pos_starts(&tokens[i + 1], "NN");
    let l328: [&str; 5] = ["NP", "VV", "VA", "MM", "MAG"];
    assert(crate::tag_map::strs_view(l328@) =~= seq!["NP"@, "VV"@, "VA"@, "MM"@, "MAG"@]);
    let c327 = (tokens.len() - i > 1) && in_list(&l328, tokens[i + 1].pos.as_str());
    (c322 && c323 && (!c325 || c326 || c327))
}

/// Whether rule 5 of [`p77`] applies at `i`.
fn p77_c5_exec(tokens: &Vec<SejongToken>, i: usize) -> (r: bool)
    requires
        i < tokens@.len(),
    ensures
        r == p77_c5(tokens_view(tokens@), i as int),
{
    assert(tokens_view(tokens@).len() == tokens@.len());
    let c329 = surf_is(&tokens[i], "산");
    let l331: [&str; 2] = ["VV", "VA"];
    assert(crate::tag_map::strs_view(l331@) =~= seq!["VV"@, "VA"@]);
    let c330 = in_list(&l331, tokens[i].pos.as_str());
    let c332 = (tokens.len() - i > 1) && true;
    let c333 = (tokens.len() - i > 1) && pos_starts(&tokens[i + 1], "NN");
    let l335: [&str; 5] = ["NP", "VV", "VA", "MM", "MAG"];
    assert(crate::tag_map::strs_view(l335@) =~= seq!["NP"@, "VV"@, "VA"@, "MM"@, "MAG"@]);
    let c334 = (tokens.len() - i > 1) && in_list(&l335, tokens[i + 1].pos.as_str());
    (c329 && c330 && (!c332 || c333 || c334))
}

/// Whether rule 6 of [`p77`] applies at `i`.
fn p77_c6_exec(tokens: &Vec<SejongToken>, i: usize) -> (r: bool)
    requires
        i < tokens@.len(),
    ensures
        r == p77_c6(tokens_view(tokens@), i as int),
{
    assert(tokens_view(tokens@).len() == tokens@.len());
    let c336 = surf_is(&tokens[i], "된");
    let l338: [&str; 2] = ["VV", "VA"];
    assert(crate::tag_map::strs_view(l338@) =~= seq!["VV"@, "VA"@]);
    let c337 = in_list(&l338, tokens[i].pos.as_str());
    let c339 = (tokens.len() - i > 1) && true;
    let c340 = (tokens.len() - i > 1) && pos_starts(&tokens[i + 1], "NN");
    let l342: [&str; 5] = ["NP", "VV", "VA", "MM", "MAG"];
    assert(crate::tag_map::strs_view(l342@) =~= seq!["NP"@, "VV"@, "VA"@, "MM"@, "MAG"@]);
    let c341 = (tokens.len() - i > 1) && in_list(&l342, tokens[i + 1].pos.as_str());
    (c336 && c337 && (!c339 || c340 || c341))
}

/// Whether rule 7 of [`p77`] applies at `i`.
fn p77_c7_exec(tokens: &Vec<SejongToken>, i: usize) -> (r: bool)
    requires
        i < tokens@.len(),
    ensures
        r == p77_c7(tokens_view(tokens@), i as int),
{
    assert(tokens_view(tokens@).len() == tokens@.len());
    let c343 = surf_is(&tokens[i], "쓴");
    let l345: [&str; 2] = ["VV", "VA"];
    assert(crate::tag_map::strs_view(l345@) =~= seq!["VV"@, "VA"@]);
    let c344 = in_list(&l345, tokens[i].pos.as_str());
    let c346 = (tokens.len() - i > 1) && true;
    let c347 = (tokens.len() - i > 1) && pos_starts(&tokens[i + 1], "NN");
    let l349: [&str; 5] = ["NP", "VV", "VA", "MM", "MAG"];
    assert(crate::tag_map::strs_view(l349@) =~= seq!["NP"@, "VV"@, "VA"@, "MM"@, "MAG"@]);
    let c348 = (tokens.len() - i > 1) && in_list(&l349, tokens[i + 1].pos.as_str());
    (c343 && c344 && (!c346 || c347 || c348))
}

/// Whether rule 8 of [`p77`] applies at `i`.
fn p77_c8_exec(tokens: &Vec<SejongToken>, i: usize) -> (r: bool)
    requires
        i < tokens@.len(),
    ensures
        r == p77_c8(tokens_view(tokens@), i as int),
{
    assert(tokens_view(tokens@).len() == tokens@.len());
    let c350 = surf_is(&tokens[i], "갈");
    let l352: [&str; 2] = ["VV", "VA"];
    assert(crate::tag_map::strs_view(l352@) =~= seq!["VV"@, "VA"@]);
    let c351 = in_list(&l352, tokens[i].pos.as_str());
    let c353 = (tokens.len() - i > 1) && true;
    let c354 = (tokens.len() - i > 1) && pos_starts(&tokens[i + 1], "NN");
    let l356: [&str; 5] = ["NP", "VV", "VA", "MM", "MAG"];
    assert(crate::tag_map::strs_view(l356@) =~= seq!["NP"@, "VV"@, "VA"@, "MM"@, "MAG"@]);
    let c355 = (tokens.len() - i > 1) && in_list(&l356, tokens[i + 1].pos.as_str());
    (c350 && c351 && (!c353 || c354 || c355))
}

/// Whether rule 9 of [`p77`] applies at `i`.
fn p77_c9_exec(tokens: &Vec<SejongToken>, i: usize) -> (r: bool)
    requires
        i < tokens@.len(),
    ensures
        r == p77_c9(tokens_view(tokens@), i as int),
{
    assert(tokens_view(tokens@).len() == tokens@.len());
    let c357 = surf_is(&tokens[i], "올");
    let l359: [&str; 2] = ["VV", "VA"];
    assert(crate::tag_map::strs_view(l359@) =~= seq!["VV"@, "VA"@]);
    let c358 = in_list(&l359, tokens[i].pos.as_str());
    let c360 = (tokens.len() - i > 1) && true;
    let c361 = (tokens.len() - i > 1) && pos_starts(&tokens[i + 1], "NN");
    let l363: [&str; 5] = ["NP", "VV", "VA", "MM", "MAG"];
    assert(crate::tag_map::strs_view(l363@) =~= seq!["NP"@, "VV"@, "VA"@, "MM"@, "MAG"@]);
    let c362 = (tokens.len() - i > 1) && in_list(&l363, tokens[i + 1].pos.as_str());
    (c357 && c358 && (!c360 || c361 || c362))
}

/// Whether rule 10 of [`p77`] applies at `i`.
fn p77_c10_exec(tokens: &Vec<SejongToken>, i: usize) -> (r: bool)
    requires
        i < tokens@.len(),
    ensures
        r == p77_c10(tokens_view(tokens@), i as int),
{
    assert(tokens_view(tokens@).len() == tokens@.len());
    let c364 = surf_is(&tokens[i], "할");
    let l366: [&str; 2] = ["VV", "VA"];
    assert(crate::tag_map::strs_view(l366@) =~= seq!["VV"@, "VA"@]);
    let c365 = in_list(&l366, tokens[i].pos.as_str());
    let c367 = (tokens.len() - i > 1) && true;
    let c368 = (tokens.len() - i > 1) && pos_starts(&tokens[i + 1], "NN");
    let l370: [&str; 5] = ["NP", "VV", "VA", "MM", "MAG"];
    assert(crate::tag_map::strs_view(l370@) =~= seq!["NP"@, "VV"@, "VA"@, "MM"@, "MAG"@]);
    let c369 = (tokens.len() - i > 1) && in_list(&l370, tokens[i + 1].pos.as_str());
    (c364 && c365 && (!c367 || c368 || c369))
}

/// Whether rule 11 of [`p77`] applies at `i`.
fn p77_c11_exec(tokens: &Vec<SejongToken>, i: usize) -> (r: bool)
    requires
        i < tokens@.len(),
    ensures
        r == p77_c11(tokens_view(tokens@), i as int),
{
    assert(tokens_view(tokens@).len() == tokens@.len());
    let c371 = surf_is(&tokens[i], "볼");
    let l373: [&str; 2] = ["VV", "VA"];
    assert(crate::tag_map::strs_view(l373@) =~= seq!["VV"@, "VA"@]);
    let c372 = in_list(&l373, tokens[i].pos.as_str());
    let c374 = (tokens.len() - i > 1) && true;
    let c375 = (tokens.len() - i > 1) && pos_starts(&tokens[i + 1], "NN");
    let l377: [&str; 5] = ["NP", "VV", "VA", "MM", "MAG"];
    assert(crate::tag_map::strs_view(l377@) =~= seq!["NP"@, "VV"@, "VA"@, "MM"@, "MAG"@]);
    let c376 = (tokens.len() - i > 1) && in_list(&l377, tokens[i + 1].pos.as_str());
    (c371 && c372 && (!c374 || c375 || c376))
}

/// Whether rule 12 of [`p77`] applies at `i`.
fn p77_c12_exec(tokens: &Vec<SejongToken>, i: usize) -> (r: bool)
    requires
        i < tokens@.len(),
    ensures
        r == p77_c12(tokens_view(tokens@), i as int),
{
    assert(tokens_view(tokens@).len() == tokens@.len());
    let c378 = surf_is(&tokens[i], "살");
    let l380: [&str; 2] = ["VV", "VA"];
    assert(crate::tag_map::strs_view(l380@) =~= seq!["VV"@, "VA"@]);
    let c379 = in_list(&l380, tokens[i].pos.as_str());
    let c381 = (tokens.len() - i > 1) && true;
    let c382 = (tokens.len() - i > 1) && pos_starts(&tokens[i + 1], "NN");
    let l384: [&str; 5] = ["NP", "VV", "VA", "MM", "MAG"];
    assert(crate::tag_map::strs_view(l384@) =~= seq!["NP"@, "VV"@, "VA"@, "MM"@, "MAG"@]);
    let c383 = (tokens.len() - i > 1) && in_list(&l384, tokens[i + 1].pos.as_str());
    (c378 && c379 && (!c381 || c382 || c383))
}

/// Whether rule 13 of [`p77`] applies at `i`.
fn p77_c13_exec(tokens: &Vec<SejongToken>, i: usize) -> (r: bool)
    requires
        i < tokens@.len(),
    ensures
        r == p77_c13(tokens_view(tokens@), i as int),
{
    assert(tokens_view(tokens@).len() == tokens@.len());
    let c385 = surf_is(&tokens[i], "알");
    let l387: [&str; 2] = ["VV", "VA"];
    assert(crate::tag_map::strs_view(l387@) =~= seq!["VV"@, "VA"@]);
    let c386 = in_list(&l387, tokens[i].pos.as_str());
    let c388 = (tokens.len() - i > 1) && true;
    let c389 = (tokens.len() - i > 1) && pos_starts(&tokens[i + 1], "NN");
    let l391: [&str; 5] = ["NP", "VV", "VA", "MM", "MAG"];
    assert(crate::tag_map::strs_view(l391@) =~= seq!["NP"@, "VV"@, "VA"@, "MM"@, "MAG"@]);
    let c390 = (tokens.len() - i > 1) && in_list(&l391, tokens[i + 1].pos.as_str());
    (c385 && c386 && (!c388 || c389 || c390))
}

/// Whether rule 14 of [`p77`] applies at `i`.
fn p77_c14_exec(tokens: &Vec<SejongToken>, i: usize) -> (r: bool)
    requires
        i < tokens@.len(),
    ensures
        r == p77_c14(tokens_view(tokens@), i as int),
{
    assert(tokens_view(tokens@).len() == tokens@.len());
    let c392 = surf_is(&tokens[i], "될");
    let l394: [&str; 2] = ["VV", "VA"];
    assert(crate::tag_map::strs_view(l394@) =~= seq!["VV"@, "VA"@]);
    let c393 = in_list(&l394, tokens[i].pos.as_str());
    let c395 = (tokens.len() - i > 1) && true;
    let c396 = (tokens.len() - i > 1) && pos_starts(&tokens[i + 1], "NN");
    let l398: [&str; 5] = ["NP", "VV", "VA", "MM", "MAG"];
    assert(crate::tag_map::strs_view(l398@) =~= seq!["NP"@, "VV"@, "VA"@, "MM"@, "MAG"@]);
    let c397 = (tokens.len() - i > 1) && in_list(&l398, tokens[i + 1].pos.as_str());
    (c392 && c393 && (!c395 || c396 || c397))
}

/// One step of [`p77`] at `i`; returns the next position.
#[verifier::rlimit(50)]
fn p77_step_exec(tokens: &mut Vec<SejongToken>, i: usize) -> (next: usize)
    requires
        i < old(tokens)@.len(),
    ensures
        (tokens_view(final(tokens)@), next as int) == p77_step(tokens_view(old(tokens)@), i as int),
        final(tokens)@.len() - next < old(tokens)@.len() - i,
        next <= final(tokens)@.len() + 1,
{
    let len0 = tokens.len();
    assert(tokens_view(tokens@).len() == tokens@.len());
    if p77_c0_exec(tokens, i) {
        let s400 = owned("가");
        let s401 = owned("VV");
        let n402 = tokens[i].start_pos;
        let n404 = tokens[i].start_pos;
        let n403 = n404.saturating_add(1);
        let t399 = SejongToken::new(s400.as_str(), s401.as_str(), n402, n403);
        let s406 = owned("ㄴ");
        let s407 = owned("ETM");
        let n409 = tokens[i].start_pos;
        let n408 = n409.saturating_add(1);
        let n410 = tokens[i].end_pos;
        let t405 = SejongToken::new(s406.as_str(), s407.as_str(), n408, n410);
        let mut nv411: Vec<SejongToken> = Vec::new();
        push_token(&mut nv411, t399);
        push_token(&mut nv411, t405);
        splice_tokens(tokens, i, 1, nv411);
        let _len1 = tokens.len();
        return i + 2;
    }
    if p77_c1_exec(tokens, i) {
        let s413 = owned("오");
        let s414 = owned("VV");
        let n415 = tokens[i].start_pos;
        let n417 = tokens[i].start_pos;
        let n416 = n417.saturating_add(1);
        let t412 = SejongToken::new(s413.as_str(), s414.as_str(), n415, n416);
        let s419 = owned("ㄴ");
        let s420 = owned("ETM");
        let n422 = tokens[i].start_pos;
        let n421 = n422.saturating_add(1);
        let n423 = tokens[i].end_pos;
        let t418 = SejongToken::new(s419.as_str(), s420.as_str(), n421, n423);
        let mut nv424: Vec<SejongToken> = Vec::new();
        push_token(&mut nv424, t412);
        push_token(&mut nv424, t418);
        splice_tokens(tokens, i, 1, nv424);
        let _len1 = tokens.len();
        return i + 2;
    }
    if p77_c2_exec(tokens, i) {
        let s426 = owned("하");
        let s427 = owned("VV");
        let n428 = tokens[i].start_pos;
        let n430 = tokens[i].start_pos;
        let n429 = n430.saturating_add(1);
        let t425 = SejongToken::new(s426.as_str(), s427.as_str(), n428, n429);
        let s432 = owned("ㄴ");
        let s433 = owned("ETM");
        let n435 = tokens[i].start_pos;
        let n434 = n435.saturating_add(1);
        let n436 = tokens[i].end_pos;
        let t431 = SejongToken::new(s432.as_str(), s433.as_str(), n434, n436);
        let mut nv437: Vec<SejongToken> = Vec::new();
        push_token(&mut nv437, t425);
        push_token(&mut nv437, t431);
        splice_tokens(tokens, i, 1, nv437);
        let _len1 = tokens.len();
        return i + 2;
    }
    if p77_c3_exec(tokens, i) {
        let s439 = owned("보");
        let s440 = owned("VV");
        let n441 = tokens[i].start_pos;
        let n443 = tokens[i].start_pos;
        let n442 = n443.saturating_add(1);
        let t438 = SejongToken::new(s439.as_str(), s440.as_str(), n441, n442);
        let s445 = owned("ㄴ");
        let s446 = owned("ETM");
        let n448 = tokens[i].start_pos;
        let n447 = n448.saturating_add(1);
        let n449 = tokens[i].end_pos;
        let t444 = SejongToken::new(s445.as_str(), s446.as_str(), n447, n449);
        let mut nv450: Vec<SejongToken> = Vec::new();
        push_token(&mut nv450, t438);
        push_token(&mut nv450, t444);
        splice_tokens(tokens, i, 1, nv450);
        let _len1 = tokens.len();
        return i + 2;
    }
    if p77_c4_exec(tokens, i) {
        let s452 = owned("자");
        let s453 = owned("VV");
        let n454 = tokens[i].start_pos;
        let n456 = tokens[i].start_pos;
        let n455 = n456.saturating_add(1);
        let t451 = SejongToken::new(s452.as_str(), s453.as_str(), n454, n455);
        let s458 = owned("ㄴ");
        let s459 = owned("ETM");
        let n461 = tokens[i].start_pos;
        let n460 = n461.saturating_add(1);
        let n462 = tokens[i].end_pos;
        let t457 = SejongToken::new(s458.as_str(), s459.as_str(), n460, n462);
        let mut nv463: Vec<SejongToken> = Vec::new();
        push_token(&mut nv463, t451);
        push_token(&mut nv463, t457);
        splice_tokens(tokens, i, 1, nv463);
        let _len1 = tokens.len();
        return i + 2;
    }
    if p77_c5_exec(tokens, i) {
        let s465 = owned("사");
        let s466 = owned("VV");
        let n467 = tokens[i].start_pos;
        let n469 = tokens[i].start_pos;
        let n468 = n469.saturating_add(1);
        let t464 = SejongToken::new(s465.as_str(), s466.as_str(), n467, n468);
        let s471 = owned("ㄴ");
        let s472 = owned("ETM");
        let n474 = tokens[i].start_pos;
        let n473 = n474.saturating_add(1);
        let n475 = tokens[i].end_pos;
        let t470 = SejongToken::new(s471.as_str(), s472.as_str(), n473, n475);
        let mut nv476: Vec<SejongToken> = Vec::new();
        push_token(&mut nv476, t464);
        push_token(&mut nv476, t470);
        splice_tokens(tokens, i, 1, nv476);
        let _len1 = tokens.len();
        return i + 2;
    }
    if p77_c6_exec(tokens, i) {
        let s478 = owned("되");
        let s479 = owned("VV");
        let n480 = tokens[i].start_pos;
        let n482 = tokens[i].start_pos;
        let n481 = n482.saturating_add(1);
        let t477 = SejongToken::new(s478.as_str(), s479.as_str(), n480, n481);
        let s484 = owned("ㄴ");
        let s485 = owned("ETM");
        let n487 = tokens[i].start_pos;
        let n486 = n487.saturating_add(1);
        let n488 = tokens[i].end_pos;
        let t483 = SejongToken::new(s484.as_str(), s485.as_str(), n486, n488);
        let mut nv489: Vec<SejongToken> = Vec::new();
        push_token(&mut nv489, t477);
        push_token(&mut nv489, t483);
        splice_tokens(tokens, i, 1, nv489);
        let _len1 = tokens.len();
        return i + 2;
    }
    if p77_c7_exec(tokens, i) {
        let s491 = owned("쓰");
        let s492 = owned("VV");
        let n493 = tokens[i].start_pos;
        let n495 = tokens[i].start_pos;
        let n494 = n495.saturating_add(1);
        let t490 = SejongToken::new(s491.as_str(), s492.as_str(), n493, n494);
        let s497 = owned("ㄴ");
        let s498 = owned("ETM");
        let n500 = tokens[i].start_pos;
        let n499 = n500.saturating_add(1);
        let n501 = tokens[i].end_pos;
        let t496 = SejongToken::new(s497.as_str(), s498.as_str(), n499, n501);
        let mut nv502: Vec<SejongToken> = Vec::new();
        push_token(&mut nv502, t490);
        push_token(&mut nv502, t496);
        splice_tokens(tokens, i, 1, nv502);
        let _len1 = tokens.len();
        return i + 2;
    }
    if p77_c8_exec(tokens, i) {
        let s504 = owned("가");
        let s505 = owned("VV");
        let n506 = tokens[i].start_pos;
        let n508 = tokens[i].start_pos;
        let n507 = n508.saturating_add(1);
        let t503 = SejongToken::new(s504.as_str(), s505.as_str(), n506, n507);
        let s510 = owned("ㄹ");
        let s511 = owned("ETM");
        let n513 = tokens[i].start_pos;
        let n512 = n513.saturating_add(1);
        let n514 = tokens[i].end_pos;
        let t509 = SejongToken::new(s510.as_str(), s511.as_str(), n512, n514);
        let mut nv515: Vec<SejongToken> = Vec::new();
        push_token(&mut nv515, t503);
        push_token(&mut nv515, t509);
        splice_tokens(tokens, i, 1, nv515);
        let _len1 = tokens.len();
        return i + 2;
    }
    if p77_c9_exec(tokens, i) {
        let s517 = owned("오");
        let s518 = owned("VV");
        let n519 = tokens[i].start_pos;
        let n521 = tokens[i].start_pos;
        let n520 = n521.saturating_add(1);
        let t516 = SejongToken::new(s517.as_str(), s518.as_str(), n519, n520);
        let s523 = owned("ㄹ");
        let s524 = owned("ETM");
        let n526 = tokens[i].start_pos;
        let n525 = n526.saturating_add(1);
        let n527 = tokens[i].end_pos;
        let t522 = SejongToken::new(s523.as_str(), s524.as_str(), n525, n527);
        let mut nv528: Vec<SejongToken> = Vec::new();
        push_token(&mut nv528, t516);
        push_token(&mut nv528, t522);
        splice_tokens(tokens, i, 1, nv528);
        let _len1 = tokens.len();
        return i + 2;
    }
    if p77_c10_exec(tokens, i) {
        let s530 = owned("하");
        let s531 = owned("VV");
        let n532 = tokens[i].start_pos;
        let n534 = tokens[i].start_pos;
        let n533 = n534.saturating_add(1);
        let t529 = SejongToken::new(s530.as_str(), s531.as_str(), n532, n533);
        let s536 = owned("ㄹ");
        let s537 = owned("ETM");
        let n539 = tokens[i].start_pos;
        let n538 = n539.saturating_add(1);
        let n540 = tokens[i].end_pos;
        let t535 = SejongToken::new(s536.as_str(), s537.as_str(), n538, n540);
        let mut nv541: Vec<SejongToken> = Vec::new();
        push_token(&mut nv541, t529);
        push_token(&mut nv541, t535);
        splice_tokens(tokens, i, 1, nv541);
        let _len1 = tokens.len();
        return i + 2;
    }
    if p77_c11_exec(tokens, i) {
        let s543 = owned("보");
        let s544 = owned("VV");
        let n545 = tokens[i].start_pos;
        let n547 = tokens[i].start_pos;
        let n546 = n547.saturating_add(1);
        let t542 = SejongToken::new(s543.as_str(), s544.as_str(), n545, n546);
        let s549 = owned("ㄹ");
        let s550 = owned("ETM");
        let n552 = tokens[i].start_pos;
        let n551 = n552.saturating_add(1);
        let n553 = tokens[i].end_pos;
        let t548 = SejongToken::new(s549.as_str(), s550.as_str(), n551, n553);
        let mut nv554: Vec<SejongToken> = Vec::new();
        push_token(&mut nv554, t542);
        push_token(&mut nv554, t548);
        splice_tokens(tokens, i, 1, nv554);
        let _len1 = tokens.len();
        return i + 2;
    }
    if p77_c12_exec(tokens, i) {
        let s556 = owned("살");
        let s557 = owned("VV");
        let n558 = tokens[i].start_pos;
        let n560 = tokens[i].start_pos;
        let n559 = n560.saturating_add(1);
        let t555 = SejongToken::new(s556.as_str(), s557.as_str(), n558, n559);
        let s562 = owned("ㄹ");
        let s563 = owned("ETM");
        let n565 = tokens[i].start_pos;
        let n564 = n565.saturating_add(1);
        let n566 = tokens[i].end_pos;
        let t561 = SejongToken::new(s562.as_str(), s563.as_str(), n564, n566);
        let mut nv567: Vec<SejongToken> = Vec::new();
        push_token(&mut nv567, t555);
        push_token(&mut nv567, t561);
        splice_tokens(tokens, i, 1, nv567);
        let _len1 = tokens.len();
        return i + 2;
    }
    if p77_c13_exec(tokens, i) {
        let s569 = owned("알");
        let s570 = owned("VV");
        let n571 = tokens[i].start_pos;
        let n573 = tokens[i].start_pos;
        let n572 = n573.saturating_add(1);
        let t568 = SejongToken::new(s569.as_str(), s570.as_str(), n571, n572);
        let s575 = owned("ㄹ");
        let s576 = owned("ETM");
        let n578 = tokens[i].start_pos;
        let n577 = n578.saturating_add(1);
        let n579 = tokens[i].end_pos;
        let t574 = SejongToken::new(s575.as_str(), s576.as_str(), n577, n579);
        let mut nv580: Vec<SejongToken> = Vec::new();
        push_token(&mut nv580, t568);
        push_token(&mut nv580, t574);
        splice_tokens(tokens, i, 1, nv580);
        let _len1 = tokens.len();
        return i + 2;
    }
    if p77_c14_exec(tokens, i) {
        let s582 = owned("되");
        let s583 = owned("VV");
        let n584 = tokens[i].start_pos;
        let n586 = tokens[i].start_pos;
        let n585 = n586.saturating_add(1);
        let t581 = SejongToken::new(s582.as_str(), s583.as_str(), n584, n585);
        let s588 = owned("ㄹ");
        let s589 = owned("ETM");
        let n591 = tokens[i].start_pos;
        let n590 = n591.saturating_add(1);
        let n592 = tokens[i].end_pos;
        let t587 = SejongToken::new(s588.as_str(), s589.as_str(), n590, n592);
        let mut nv593: Vec<SejongToken> = Vec::new();
        push_token(&mut nv593, t581);
        push_token(&mut nv593, t587);
        splice_tokens(tokens, i, 1, nv593);
        let _len1 = tokens.len();
        return i + 2;
    }
    i + 1
}

/// A one-syllable adnominal verb or adjective form before a noun, a verb, an adjective, a determiner or an adverb, or at the end, is split (간/VV → 가/VV ㄴ/ETM).
pub fn apply_p77(tokens: &mut Vec<SejongToken>)
    ensures
        tokens_view(final(tokens)@) == p77(tokens_view(old(tokens)@)),
{
    let ghost orig = tokens_view(tokens@);
    let mut i: usize = 0;
    while i < tokens.len()
        invariant
            i <= tokens@.len() + 1,
            scan(tokens_view(tokens@), i as int, p77_f()) == scan(orig, 0, p77_f()),
        decreases tokens@.len() + 1 - i,
    {
        let ghost before = tokens_view(tokens@);
        assert(before.len() == tokens@.len());
        i = p77_step_exec(tokens, i);
        assert(tokens_view(tokens@).len() == tokens@.len());
    }
}

/// Where rule 0 of [`p78`] applies.
pub open spec fn p78_c0(ts: Seq<TokenView>, i: int) -> bool {
    ((0 <= i < ts.len() && ts[i].surface == "되었다"@) && (0 <= i < ts.len() && ts[i].pos == "XSV"@))
}

/// Where rule 1 of [`p78`] applies.
pub open spec fn p78_c1(ts: Seq<TokenView>, i: int) -> bool {
    ((0 <= i < ts.len() && ts[i].surface == "하였다"@) && (0 <= i < ts.len() && ts[i].pos == "XSV"@))
}

/// Where rule 2 of [`p78`] applies.
pub open spec fn p78_c2(ts: Seq<TokenView>, i: int) -> bool {
    ((0 <= i < ts.len() && ts[i].surface == "되었어"@) && (0 <= i < ts.len() && ts[i].pos == "XSV"@))
}

/// Where rule 3 of [`p78`] applies.
pub open spec fn p78_c3(ts: Seq<TokenView>, i: int) -> bool {
    ((0 <= i < ts.len() && ts[i].surface == "하였어"@) && (0 <= i < ts.len() && ts[i].pos == "XSV"@))
}

/// Where rule 4 of [`p78`] applies.
pub open spec fn p78_c4(ts: Seq<TokenView>, i: int) -> bool {
    ((0 <= i < ts.len() && ts[i].surface == "되었으면"@) && (0 <= i < ts.len() && ts[i].pos == "XSV"@))
}

/// Where rule 5 of [`p78`] applies.
pub open spec fn p78_c5(ts: Seq<TokenView>, i: int) -> bool {
    ((0 <= i < ts.len() && ts[i].surface == "하였으면"@) && (0 <= i < ts.len() && ts[i].pos == "XSV"@))
}

/// One step of [`p78`] at `i`: the list after it and the next position.
pub open spec fn p78_step(ts: Seq<TokenView>, i: int) -> (Seq<TokenView>, int) {
    if p78_c0(ts, i) {
        (splice(ts, i, 1, seq![plain_view("되"@, "XSV"@, ts[i].start_pos, (ts[i].start_pos).saturating_add(1)), plain_view("었"@, "EP"@, (ts[i].start_pos).saturating_add(1), (ts[i].start_pos).saturating_add(2)), plain_view("다"@, "EF"@, (ts[i].start_pos).saturating_add(2), ts[i].end_pos)]), i + 3)
    } else if p78_c1(ts, i) {
        (splice(ts, i, 1, seq![plain_view("하"@, "XSV"@, ts[i].start_pos, (ts[i].start_pos).saturating_add(1)), plain_view("었"@, "EP"@, (ts[i].start_pos).saturating_add(1), (ts[i].start_pos).saturating_add(2)), plain_view("다"@, "EF"@, (ts[i].start_pos).saturating_add(2), ts[i].end_pos)]), i + 3)
    } else if p78_c2(ts, i) {
        (splice(ts, i, 1, seq![plain_view("되"@, "XSV"@, ts[i].start_pos, (ts[i].start_pos).saturating_add(1)), plain_view("었"@, "EP"@, (ts[i].start_pos).saturating_add(1), (ts[i].start_pos).saturating_add(2)), plain_view("어"@, "EF"@, (ts[i].start_pos).saturating_add(2), ts[i].end_pos)]), i + 3)
    } else if p78_c3(ts, i) {
        (splice(ts, i, 1, seq![plain_view("하"@, "XSV"@, ts[i].start_pos, (ts[i].start_pos).saturating_add(1)), plain_view("었"@, "EP"@, (ts[i].start_pos).saturating_add(1), (ts[i].start_pos).saturating_add(2)), plain_view("어"@, "EF"@, (ts[i].start_pos).saturating_add(2), ts[i].end_pos)]), i + 3)
    } else if p78_c4(ts, i) {
        (splice(ts, i, 1, seq![plain_view("되"@, "XSV"@, ts[i].start_pos, (ts[i].start_pos).saturating_add(1)), plain_view("었"@, "EP"@, (ts[i].start_pos).saturating_add(1), (ts[i].start_pos).saturating_add(2)), plain_view("으면"@, "EC"@, (ts[i].start_pos).saturating_add(2), ts[i].end_pos)]), i + 3)
    } else if p78_c5(ts, i) {
        (splice(ts, i, 1, seq![plain_view("하"@, "XSV"@, ts[i].start_pos, (ts[i].start_pos).saturating_add(1)), plain_view("었"@, "EP"@, (ts[i].start_pos).saturating_add(1), (ts[i].start_pos).saturating_add(2)), plain_view("으면"@, "EC"@, (ts[i].start_pos).saturating_add(2), ts[i].end_pos)]), i + 3)
    } else {
        (ts, i + 1)
    }
}

/// [`p78_step`] as a function value.
pub open spec fn p78_f() -> spec_fn(Seq<TokenView>, int) -> (Seq<TokenView>, int) {
    |ts: Seq<TokenView>, i: int| p78_step(ts, i)
}

/// A conjugated suffix is split: 되었다/XSV → 되/XSV 었/EP 다/EF.
pub open spec fn p78(ts: Seq<TokenView>) -> Seq<TokenView> {
    scan(ts, 0, p78_f())
}

/// Whether rule 0 of [`p78`] applies at `i`.
fn p78_c0_exec(tokens: &Vec<SejongToken>, i: usize) -> (r: bool)
    requires
        i < tokens@.len(),
    ensures
        r == p78_c0(tokens_view(tokens@), i as int),
{
    assert(tokens_view(tokens@).len() == tokens@.len());
    let c594 = surf_is(&tokens[i], "되었다");
    let c595 = pos_is(&tokens[i], "XSV");
    (c594 && c595)
}

/// Whether rule 1 of [`p78`] applies at `i`.
fn p78_c1_exec(tokens: &Vec<SejongToken>, i: usize) -> (r: bool)
    requires
        i < tokens@.len(),
    ensures
        r == p78_c1(tokens_view(tokens@), i as int),
{
    assert(tokens_view(tokens@).len() == tokens@.len());
    let c596 = surf_is(&tokens[i], "하였다");
    let c597 = pos_is(&tokens[i], "XSV");
    (c596 && c597)
}

/// Whether rule 2 of [`p78`] applies at `i`.
fn p78_c2_exec(tokens: &Vec<SejongToken>, i: usize) -> (r: bool)
    requires
        i < tokens@.len(),
    ensures
        r == p78_c2(tokens_view(tokens@), i as int),
{
    assert(tokens_view(tokens@).len() == tokens@.len());
    let c598 = surf_is(&tokens[i], "되었어");
    let c599 = pos_is(&tokens[i], "XSV");
    (c598 && c599)
}

/// Whether rule 3 of [`p78`] applies at `i`.
fn p78_c3_exec(tokens: &Vec<SejongToken>, i: usize) -> (r: bool)
    requires
        i < tokens@.len(),
    ensures
        r == p78_c3(tokens_view(tokens@), i as int),
{
    assert(tokens_view(tokens@).len() == tokens@.len());
    let c600 = surf_is(&tokens[i], "하였어");
    let c601 = pos_is(&tokens[i], "XSV");
    (c600 && c601)
}

/// Whether rule 4 of [`p78`] applies at `i`.
fn p78_c4_exec(tokens: &Vec<SejongToken>, i: usize) -> (r: bool)
    requires
        i < tokens@.len(),
    ensures
        r == p78_c4(tokens_view(tokens@), i as int),
{
    assert(tokens_view(tokens@).len() == tokens@.len());
    let c602 = surf_is(&tokens[i], "되었으면");
    let c603 = pos_is(&tokens[i], "XSV");
    (c602 && c603)
}

/// Whether rule 5 of [`p78`] applies at `i`.
fn p78_c5_exec(tokens: &Vec<SejongToken>, i: usize) -> (r: bool)
    requires
        i < tokens@.len(),
    ensures
        r == p78_c5(tokens_view(tokens@), i as int),
{
    assert(tokens_view(tokens@).len() == tokens@.len());
    let c604 = surf_is(&tokens[i], "하였으면");
    let c605 = pos_is(&tokens[i], "XSV");
    (c604 && c605)
}

/// One step of [`p78`] at `i`; returns the next position.
fn p78_step_exec(tokens: &mut Vec<SejongToken>, i: usize) -> (next: usize)
    requires
        i < old(tokens)@.len(),
    ensures
        (tokens_view(final(tokens)@), next as int) == p78_step(tokens_view(old(tokens)@), i as int),
        final(tokens)@.len() - next < old(tokens)@.len() - i,
        next <= final(tokens)@.len() + 1,
{
    let len0 = tokens.len();
    assert(tokens_view(tokens@).len() == tokens@.len());
    if p78_c0_exec(tokens, i) {
        let s607 = owned("되");
        let s608 = owned("XSV");
        let n609 = tokens[i].start_pos;
        let n611 = tokens[i].start_pos;
        let n610 = n611.saturating_add(1);
        let t606 = SejongToken::new(s607.as_str(), s608.as_str(), n609, n610);
        let s613 = owned("었");
        let s614 = owned("EP");
        let n616 = tokens[i].start_pos;
        let n615 = n616.saturating_add(1);
        let n618 = tokens[i].start_pos;
        let n617 = n618.saturating_add(2);
        let t612 = SejongToken::new(s613.as_str(), s614.as_str(), n615, n617);
        let s620 = owned("다");
        let s621 = owned("EF");
        let n623 = tokens[i].start_pos;
        let n622 = n623.saturating_add(2);
        let n624 = tokens[i].end_pos;
        let t619 = SejongToken::new(s620.as_str(), s621.as_str(), n622, n624);
        let mut nv625: Vec<SejongToken> = Vec::new();
        push_token(&mut nv625, t606);
        push_token(&mut nv625, t612);
        push_token(&mut nv625, t619);
        splice_tokens(tokens, i, 1, nv625);
        let _len1 = tokens.len();
        return i + 3;
    }
    if p78_c1_exec(tokens, i) {
        let s627 = owned("하");
        let s628 = owned("XSV");
        let n629 = tokens[i].start_pos;
        let n631 = tokens[i].start_pos;
        let n630 = n631.saturating_add(1);
        let t626 = SejongToken::new(s627.as_str(), s628.as_str(), n629, n630);
        let s633 = owned("었");
        let s634 = owned("EP");
        let n636 = tokens[i].start_pos;
        let n635 = n636.saturating_add(1);
        let n638 = tokens[i].start_pos;
        let n637 = n638.saturating_add(2);
        let t632 = SejongToken::new(s633.as_str(), s634.as_str(), n635, n637);
        let s640 = owned("다");
        let s641 = owned("EF");
        let n643 = tokens[i].start_pos;
        let n642 = n643.saturating_add(2);
        let n644 = tokens[i].end_pos;
        let t639 = SejongToken::new(s640.as_str(), s641.as_str(), n642, n644);
        let mut nv645: Vec<SejongToken> = Vec::new();
        push_token(&mut nv645, t626);
        push_token(&mut nv645, t632);
        push_token(&mut nv645, t639);
        splice_tokens(tokens, i, 1, nv645);
        let _len1 = tokens.len();
        return i + 3;
    }
    if p78_c2_exec(tokens, i) {
        let s647 = owned("되");
        let s648 = owned("XSV");
        let n649 = tokens[i].start_pos;
        let n651 = tokens[i].start_pos;
        let n650 = n651.saturating_add(1);
        let t646 = SejongToken::new(s647.as_str(), s648.as_str(), n649, n650);
        let s653 = owned("었");
        let s654 = owned("EP");
        let n656 = tokens[i].start_pos;
        let n655 = n656.saturating_add(1);
        let n658 = tokens[i].start_pos;
        let n657 = n658.saturating_add(2);
        let t652 = SejongToken::new(s653.as_str(), s654.as_str(), n655, n657);
        let s660 = owned("어");
        let s661 = owned("EF");
        let n663 = tokens[i].start_pos;
        let n662 = n663.saturating_add(2);
        let n664 = tokens[i].end_pos;
        let t659 = SejongToken::new(s660.as_str(), s661.as_str(), n662, n664);
        let mut nv665: Vec<SejongToken> = Vec::new();
        push_token(&mut nv665, t646);
        push_token(&mut nv665, t652);
        push_token(&mut nv665, t659);
        splice_tokens(tokens, i, 1, nv665);
        let _len1 = tokens.len();
        return i + 3;
    }
    if p78_c3_exec(tokens, i) {
        let s667 = owned("하");
        let s668 = owned("XSV");
        let n669 = tokens[i].start_pos;
        let n671 = tokens[i].start_pos;
        let n670 = n671.saturating_add(1);
        let t666 = SejongToken::new(s667.as_str(), s668.as_str(), n669, n670);
        let s673 = owned("었");
        let s674 = owned("EP");
        let n676 = tokens[i].start_pos;
        let n675 = n676.saturating_add(1);
        let n678 = tokens[i].start_pos;
        let n677 = n678.saturating_add(2);
        let t672 = SejongToken::new(s673.as_str(), s674.as_str(), n675, n677);
        let s680 = owned("어");
        let s681 = owned("EF");
        let n683 = tokens[i].start_pos;
        let n682 = n683.saturating_add(2);
        let n684 = tokens[i].end_pos;
        let t679 = SejongToken::new(s680.as_str(), s681.as_str(), n682, n684);
        let mut nv685: Vec<SejongToken> = Vec::new();
        push_token(&mut nv685, t666);
        push_token(&mut nv685, t672);
        push_token(&mut nv685, t679);
        splice_tokens(tokens, i, 1, nv685);
        let _len1 = tokens.len();
        return i + 3;
    }
    if p78_c4_exec(tokens, i) {
        let s687 = owned("되");
        let s688 = owned("XSV");
        let n689 = tokens[i].start_pos;
        let n691 = tokens[i].start_pos;
        let n690 = n691.saturating_add(1);
        let t686 = SejongToken::new(s687.as_str(), s688.as_str(), n689, n690);
        let s693 = owned("었");
        let s694 = owned("EP");
        let n696 = tokens[i].start_pos;
        let n695 = n696.saturating_add(1);
        let n698 = tokens[i].start_pos;
        let n697 = n698.saturating_add(2);
        let t692 = SejongToken::new(s693.as_str(), s694.as_str(), n695, n697);
        let s700 = owned("으면");
        let s701 = owned("EC");
        let n703 = tokens[i].start_pos;
        let n702 = n703.saturating_add(2);
        let n704 = tokens[i].end_pos;
        let t699 = SejongToken::new(s700.as_str(), s701.as_str(), n702, n704);
        let mut nv705: Vec<SejongToken> = Vec::new();
        push_token(&mut nv705, t686);
        push_token(&mut nv705, t692);
        push_token(&mut nv705, t699);
        splice_tokens(tokens, i, 1, nv705);
        let _len1 = tokens.len();
        return i + 3;
    }
    if p78_c5_exec(tokens, i) {
        let s707 = owned("하");
        let s708 = owned("XSV");
        let n709 = tokens[i].start_pos;
        let n711 = tokens[i].start_pos;
        let n710 = n711.saturating_add(1);
        let t706 = SejongToken::new(s707.as_str(), s708.as_str(), n709, n710);
        let s713 = owned("었");
        let s714 = owned("EP");
        let n716 = tokens[i].start_pos;
        let n715 = n716.saturating_add(1);
        let n718 = tokens[i].start_pos;
        let n717 = n718.saturating_add(2);
        let t712 = SejongToken::new(s713.as_str(), s714.as_str(), n715, n717);
        let s720 = owned("으면");
        let s721 = owned("EC");
        let n723 = tokens[i].start_pos;
        let n722 = n723.saturating_add(2);
        let n724 = tokens[i].end_pos;
        let t719 = SejongToken::new(s720.as_str(), s721.as_str(), n722, n724);
        let mut nv725: Vec<SejongToken> = Vec::new();
        push_token(&mut nv725, t706);
        push_token(&mut nv725, t712);
        push_token(&mut nv725, t719);
        splice_tokens(tokens, i, 1, nv725);
        let _len1 = tokens.len();
        return i + 3;
    }
    i + 1
}

/// A conjugated suffix is split: 되었다/XSV → 되/XSV 었/EP 다/EF.
pub fn apply_p78(tokens: &mut Vec<SejongToken>)
    ensures
        tokens_view(final(tokens)@) == p78(tokens_view(old(tokens)@)),
{
    let ghost orig = tokens_view(tokens@);
    let mut i: usize = 0;
    while i < tokens.len()
        invariant
            i <= tokens@.len() + 1,
            scan(tokens_view(tokens@), i as int, p78_f()) == scan(orig, 0, p78_f()),
        decreases tokens@.len() + 1 - i,
    {
        let ghost before = tokens_view(tokens@);
        assert(before.len() == tokens@.len());
        i = p78_step_exec(tokens, i);
        assert(tokens_view(tokens@).len() == tokens@.len());
    }
}

/// Where [`p79`] changes a token.
pub open spec fn p79_c(ts: Seq<TokenView>, i: int) -> bool {
    (((0 <= i < ts.len() && ts[i].surface == "이"@) && (0 <= i < ts.len() && ts[i].pos == "MM"@)) && (0 <= i - 1 < ts.len() && ts[i - 1].pos == "VV"@) && (0 <= i - 1 < ts.len() && seq!["먹"@, "놀"@, "알"@, "살"@, "높"@, "낮"@, "깊"@, "넓"@, "짧"@].contains(ts[i - 1].surface)))
}

/// The token [`p79`] puts at `i`.
pub open spec fn p79_t(ts: Seq<TokenView>, i: int) -> TokenView {
    TokenView { pos: "ETN"@, ..ts[i] }
}

/// 이/MM after certain verb stems is the nominal ending 이/ETN (먹/VV 이/ETN).
pub open spec fn p79(ts: Seq<TokenView>) -> Seq<TokenView> {
    map_where(ts, |ts: Seq<TokenView>, i: int| p79_c(ts, i), |ts: Seq<TokenView>, i: int| p79_t(ts, i))
}

/// Whether [`p79`] changes the token at `i`.
fn p79_c_exec(tokens: &Vec<SejongToken>, i: usize) -> (r: bool)
    requires
        i < tokens@.len(),
    ensures
        r == p79_c(tokens_view(tokens@), i as int),
{
    assert(tokens_view(tokens@).len() == tokens@.len());
    let c726 = surf_is(&tokens[i], "이");
    let c727 = pos_is(&tokens[i], "MM");
    let c728 = (i >= 1) && pos_is(&tokens[i - 1], "VV");
    let l730: [&str; 9] = ["먹", "놀", "알", "살", "높", "낮", "깊", "넓", "짧"];
    assert(crate::tag_map::strs_view(l730@) =~= seq!["먹"@, "놀"@, "알"@, "살"@, "높"@, "낮"@, "깊"@, "넓"@, "짧"@]);
    let c729 = (i >= 1) && in_list(&l730, tokens[i - 1].surface.as_str());
    ((c726 && c727) && c728 && c729)
}

/// The token [`p79`] puts at `i`.
fn p79_t_exec(tokens: &Vec<SejongToken>, i: usize) -> (t: SejongToken)
    requires
        i < tokens@.len(),
        p79_c(tokens_view(tokens@), i as int),
    ensures
        t@ == p79_t(tokens_view(tokens@), i as int),
{
    assert(tokens_view(tokens@).len() == tokens@.len());
    let s732 = owned("ETN");
    let mut t731 = tokens[i].duplicate();
    t731.pos = s732;
    t731
}

/// 이/MM after certain verb stems is the nominal ending 이/ETN (먹/VV 이/ETN).
pub fn apply_p79(tokens: &mut Vec<SejongToken>)
    ensures
        tokens_view(final(tokens)@) == p79(tokens_view(old(tokens)@)),
{
    let ghost orig = tokens_view(tokens@);
    let mut out: Vec<SejongToken> = Vec::new();
    let mut k: usize = 0;
    while k < tokens.len()
        invariant
            k <= tokens@.len(),
            orig == tokens_view(tokens@),
            tokens_view(out@) == p79(orig).take(k as int),
        decreases tokens@.len() - k,
    {
        let t = if p79_c_exec(tokens, k) { p79_t_exec(tokens, k) } else { tokens[k].duplicate() };
        push_token(&mut out, t);
        k += 1;
        assert(tokens_view(out@) =~= p79(orig).take(k as int));
    }
    assert(p79(orig).take(k as int) =~= p79(orig));
    *tokens = out;
}

/// Where rule 0 of [`p81`] applies.
pub open spec fn p81_c0(ts: Seq<TokenView>, i: int) -> bool {
    ((0 <= i - 1 < ts.len() && ts[i - 1].pos == "VCP"@) && (0 <= i < ts.len() && ts[i].surface == "시"@) && (0 <= i < ts.len() && seq!["NNB"@, "EP"@].contains(ts[i].pos)) && ((0 <= i + 1 < ts.len() && ts[i + 1].surface == "어요"@) && (0 <= i + 1 < ts.len() && ts[i + 1].pos == "EF"@)))
}

/// One step of [`p81`] at `i`: the list after it and the next position.
pub open spec fn p81_step(ts: Seq<TokenView>, i: int) -> (Seq<TokenView>, int) {
    if p81_c0(ts, i) {
        (splice(ts, i, 2, seq![plain_view("세요"@, "EF"@, ts[i].start_pos, ts[i + 1].end_pos)]), i + 1)
    } else {
        (ts, i + 1)
    }
}

/// [`p81_step`] as a function value.
pub open spec fn p81_f() -> spec_fn(Seq<TokenView>, int) -> (Seq<TokenView>, int) {
    |ts: Seq<TokenView>, i: int| p81_step(ts, i)
}

/// 시/NNB|EP 어요/EF after 이/VCP is the ending 세요/EF (누구/NP 이/VCP 세요/EF).
pub open spec fn p81(ts: Seq<TokenView>) -> Seq<TokenView> {
    scan(ts, 0, p81_f())
}

/// Whether rule 0 of [`p81`] applies at `i`.
fn p81_c0_exec(tokens: &Vec<SejongToken>, i: usize) -> (r: bool)
    requires
        i < tokens@.len(),
    ensures
        r == p81_c0(tokens_view(tokens@), i as int),
{
    assert(tokens_view(tokens@).len() == tokens@.len());
    let c733 = (i >= 1) && pos_is(&tokens[i - 1], "VCP");
    let c734 = surf_is(&tokens[i], "시");
    let l736: [&str; 2] = ["NNB", "EP"];
    assert(crate::tag_map::strs_view(l736@) =~= seq!["NNB"@, "EP"@]);
    let c735 = in_list(&l736, tokens[i].pos.as_str());
    let c737 = (tokens.len() - i > 1) && surf_is(&tokens[i + 1], "어요");
    let c738 = (tokens.len() - i > 1) && pos_is(&tokens[i + 1], "EF");
    (c733 && c734 && c735 && (c737 && c738))
}

/// One step of [`p81`] at `i`; returns the next position.
fn p81_step_exec(tokens: &mut Vec<SejongToken>, i: usize) -> (next: usize)
    requires
        i < old(tokens)@.len(),
    ensures
        (tokens_view(final(tokens)@), next as int) == p81_step(tokens_view(old(tokens)@), i as int),
        final(tokens)@.len() - next < old(tokens)@.len() - i,
        next <= final(tokens)@.len() + 1,
{
    let len0 = tokens.len();
    assert(tokens_view(tokens@).len() == tokens@.len());
    if p81_c0_exec(tokens, i) {
        let s740 = owned("세요");
        let s741 = owned("EF");
        let n742 = tokens[i].start_pos;
        let n743 = tokens[i + 1].end_pos;
        let t739 = SejongToken::new(s740.as_str(), s741.as_str(), n742, n743);
        let mut nv744: Vec<SejongToken> = Vec::new();
        push_token(&mut nv744, t739);
        splice_tokens(tokens, i, 2, nv744);
        let _len1 = tokens.len();
        return i + 1;
    }
    i + 1
}

/// 시/NNB|EP 어요/EF after 이/VCP is the ending 세요/EF (누구/NP 이/VCP 세요/EF).
pub fn apply_p81(tokens: &mut Vec<SejongToken>)
    ensures
        tokens_view(final(tokens)@) == p81(tokens_view(old(tokens)@)),
{
    let ghost orig = tokens_view(tokens@);
    let mut i: usize = 0;
    while i < tokens.len()
        invariant
            i <= tokens@.len() + 1,
            scan(tokens_view(tokens@), i as int, p81_f()) == scan(orig, 0, p81_f()),
        decreases tokens@.len() + 1 - i,
    {
        let ghost before = tokens_view(tokens@);
        assert(before.len() == tokens@.len());
        i = p81_step_exec(tokens, i);
        assert(tokens_view(tokens@).len() == tokens@.len());
    }
}

/// Where [`p82`] changes a token.
pub open spec fn p82_c(ts: Seq<TokenView>, i: int) -> bool {
    ((0 <= i < ts.len() && ts[i].surface == "아"@) && (0 <= i < ts.len() && ts[i].pos == "EC"@))
}

/// The token [`p82`] puts at `i`.
pub open spec fn p82_t(ts: Seq<TokenView>, i: int) -> TokenView {
    TokenView { surface: "어"@, ..ts[i] }
}

/// The connective ending 아/EC is written 어/EC.
pub open spec fn p82(ts: Seq<TokenView>) -> Seq<TokenView> {
    map_where(ts, |ts: Seq<TokenView>, i: int| p82_c(ts, i), |ts: Seq<TokenView>, i: int| p82_t(ts, i))
}

/// Whether [`p82`] changes the token at `i`.
fn p82_c_exec(tokens: &Vec<SejongToken>, i: usize) -> (r: bool)
    requires
        i < tokens@.len(),
    ensures
        r == p82_c(tokens_view(tokens@), i as int),
{
    assert(tokens_view(tokens@).len() == tokens@.len());
    let c745 = surf_is(&tokens[i], "아");
    let c746 = pos_is(&tokens[i], "EC");
    (c745 && c746)
}

/// The token [`p82`] puts at `i`.
fn p82_t_exec(tokens: &Vec<SejongToken>, i: usize) -> (t: SejongToken)
    requires
        i < tokens@.len(),
        p82_c(tokens_view(tokens@), i as int),
    ensures
        t@ == p82_t(tokens_view(tokens@), i as int),
{
    assert(tokens_view(tokens@).len() == tokens@.len());
    let s748 = owned("어");
    let mut t747 = tokens[i].duplicate();
    t747.surface = s748;
    t747
}

/// The connective ending 아/EC is written 어/EC.
pub fn apply_p82(tokens: &mut Vec<SejongToken>)
    ensures
        tokens_view(final(tokens)@) == p82(tokens_view(old(tokens)@)),
{
    let ghost orig = tokens_view(tokens@);
    let mut out: Vec<SejongToken> = Vec::new();
    let mut k: usize = 0;
    while k < tokens.len()
        invariant
            k <= tokens@.len(),
            orig == tokens_view(tokens@),
            tokens_view(out@) == p82(orig).take(k as int),
        decreases tokens@.len() - k,
    {
        let t = if p82_c_exec(tokens, k) { p82_t_exec(tokens, k) } else { tokens[k].duplicate() };
        push_token(&mut out, t);
        k += 1;
        assert(tokens_view(out@) =~= p82(orig).take(k as int));
    }
    assert(p82(orig).take(k as int) =~= p82(orig));
    *tokens = out;
}

/// Where [`p83`] changes a token.
pub open spec fn p83_c(ts: Seq<TokenView>, i: int) -> bool {
    (((0 <= i < ts.len() && ts[i].surface == "어"@) && (0 <= i < ts.len() && ts[i].pos == "IC"@)) && (0 <= i - 1 < ts.len() && seq!["VV"@, "VA"@, "XSV"@].contains(ts[i - 1].pos)))
}

/// The token [`p83`] puts at `i`.
pub open spec fn p83_t(ts: Seq<TokenView>, i: int) -> TokenView {
    TokenView { pos: "EC"@, ..ts[i] }
}

/// 어/IC after a verb, adjective or verb suffix is the connective ending 어/EC.
pub open spec fn p83(ts: Seq<TokenView>) -> Seq<TokenView> {
    map_where(ts, |ts: Seq<TokenView>, i: int| p83_c(ts, i), |ts: Seq<TokenView>, i: int| p83_t(ts, i))
}

/// Whether [`p83`] changes the token at `i`.
fn p83_c_exec(tokens: &Vec<SejongToken>, i: usize) -> (r: bool)
    requires
        i < tokens@.len(),
    ensures
        r == p83_c(tokens_view(tokens@), i as int),
{
    assert(tokens_view(tokens@).len() == tokens@.len());
    let c749 = surf_is(&tokens[i], "어");
    let c750 = pos_is(&tokens[i], "IC");
    let l752: [&str; 3] = ["VV", "VA", "XSV"];
    assert(crate::tag_map::strs_view(l752@) =~= seq!["VV"@, "VA"@, "XSV"@]);
    let c751 = (i >= 1) && in_list(&l752, tokens[i - 1].pos.as_str());
    ((c749 && c750) && c751)
}

/// The token [`p83`] puts at `i`.
fn p83_t_exec(tokens: &Vec<SejongToken>, i: usize) -> (t: SejongToken)
    requires
        i < tokens@.len(),
        p83_c(tokens_view(tokens@), i as int),
    ensures
        t@ == p83_t(tokens_view(tokens@), i as int),
{
    assert(tokens_view(tokens@).len() == tokens@.len());
    let s754 = owned("EC");
    let mut t753 = tokens[i].duplicate();
    t753.pos = s754;
    t753
}

/// 어/IC after a verb, adjective or verb suffix is the connective ending 어/EC.
pub fn apply_p83(tokens: &mut Vec<SejongToken>)
    ensures
        tokens_view(final(tokens)@) == p83(tokens_view(old(tokens)@)),
{
    let ghost orig = tokens_view(tokens@);
    let mut out: Vec<SejongToken> = Vec::new();
    let mut k: usize = 0;
    while k < tokens.len()
        invariant
            k <= tokens@.len(),
            orig == tokens_view(tokens@),
            tokens_view(out@) == p83(orig).take(k as int),
        decreases tokens@.len() - k,
    {
        let t = if p83_c_exec(tokens, k) { p83_t_exec(tokens, k) } else { tokens[k].duplicate() };
        push_token(&mut out, t);
        k += 1;
        assert(tokens_view(out@) =~= p83(orig).take(k as int));
    }
    assert(p83(orig).take(k as int) =~= p83(orig));
    *tokens = out;
}

/// Where [`p84`] changes a token.
pub open spec fn p84_c(ts: Seq<TokenView>, i: int) -> bool {
    (((0 <= i < ts.len() && ts[i].surface == "이"@) && (0 <= i < ts.len() && ts[i].pos == "MM"@)) && (0 <= i - 1 < ts.len() && seq!["NNG"@, "NNP"@, "NNB"@, "NP"@, "XSN"@].contains(ts[i - 1].pos)) && ((0 <= i - 1 < ts.len()) && crate::hangul::ends_in_jongseong(ts[i - 1].surface)))
}

/// The token [`p84`] puts at `i`.
pub open spec fn p84_t(ts: Seq<TokenView>, i: int) -> TokenView {
    TokenView { pos: "JKS"@, ..ts[i] }
}

/// 이/MM after a noun ending in a final consonant is the subject particle 이/JKS.
pub open spec fn p84(ts: Seq<TokenView>) -> Seq<TokenView> {
    map_where(ts, |ts: Seq<TokenView>, i: int| p84_c(ts, i), |ts: Seq<TokenView>, i: int| p84_t(ts, i))
}

/// Whether [`p84`] changes the token at `i`.
fn p84_c_exec(tokens: &Vec<SejongToken>, i: usize) -> (r: bool)
    requires
        i < tokens@.len(),
    ensures
        r == p84_c(tokens_view(tokens@), i as int),
{
    assert(tokens_view(tokens@).len() == tokens@.len());
    let c755 = surf_is(&tokens[i], "이");
    let c756 = pos_is(&tokens[i], "MM");
    let l758: [&str; 5] = ["NNG", "NNP", "NNB", "NP", "XSN"];
    assert(crate::tag_map::strs_view(l758@) =~= seq!["NNG"@, "NNP"@, "NNB"@, "NP"@, "XSN"@]);
    let c757 = (i >= 1) && in_list(&l758, tokens[i - 1].pos.as_str());
    let c759 = (i >= 1) && crate::hangul::last_has_jongseong(tokens[i - 1].surface.as_str()) == Some(true);
    ((c755 && c756) && c757 && c759)
}

/// The token [`p84`] puts at `i`.
fn p84_t_exec(tokens: &Vec<SejongToken>, i: usize) -> (t: SejongToken)
    requires
        i < tokens@.len(),
        p84_c(tokens_view(tokens@), i as int),
    ensures
        t@ == p84_t(tokens_view(tokens@), i as int),
{
    assert(tokens_view(tokens@).len() == tokens@.len());
    let s761 = owned("JKS");
    let mut t760 = tokens[i].duplicate();
    t760.pos = s761;
    t760
}

/// 이/MM after a noun ending in a final consonant is the subject particle 이/JKS.
pub fn apply_p84(tokens: &mut Vec<SejongToken>)
    ensures
        tokens_view(final(tokens)@) == p84(tokens_view(old(tokens)@)),
{
    let ghost orig = tokens_view(tokens@);
    let mut out: Vec<SejongToken> = Vec::new();
    let mut k: usize = 0;
    while k < tokens.len()
        invariant
            k <= tokens@.len(),
            orig == tokens_view(tokens@),
            tokens_view(out@) == p84(orig).take(k as int),
        decreases tokens@.len() - k,
    {
        let t = if p84_c_exec(tokens, k) { p84_t_exec(tokens, k) } else { tokens[k].duplicate() };
        push_token(&mut out, t);
        k += 1;
        assert(tokens_view(out@) =~= p84(orig).take(k as int));
    }
    assert(p84(orig).take(k as int) =~= p84(orig));
    *tokens = out;
}

/// Where [`p264`] changes a token.
pub open spec fn p264_c(ts: Seq<TokenView>, i: int) -> bool {
    (((0 <= i < ts.len() && ts[i].surface == "에"@) && (0 <= i < ts.len() && ts[i].pos == "IC"@)) && (0 <= i - 1 < ts.len() && seq!["NNG"@, "NNP"@, "NNB"@].contains(ts[i - 1].pos)))
}

/// The token [`p264`] puts at `i`.
pub open spec fn p264_t(ts: Seq<TokenView>, i: int) -> TokenView {
    TokenView { pos: "JKB"@, ..ts[i] }
}

/// 에/IC after a noun is the particle 에/JKB.
pub open spec fn p264(ts: Seq<TokenView>) -> Seq<TokenView> {
    map_where(ts, |ts: Seq<TokenView>, i: int| p264_c(ts, i), |ts: Seq<TokenView>, i: int| p264_t(ts, i))
}

/// Whether [`p264`] changes the token at `i`.
fn p264_c_exec(tokens: &Vec<SejongToken>, i: usize) -> (r: bool)
    requires
        i < tokens@.len(),
    ensures
        r == p264_c(tokens_view(tokens@), i as int),
{
    assert(tokens_view(tokens@).len() == tokens@.len());
    let c762 = surf_is(&tokens[i], "에");
    let c763 = pos_is(&tokens[i], "IC");
    let l765: [&str; 3] = ["NNG", "NNP", "NNB"];
    assert(crate::tag_map::strs_view(l765@) =~= seq!["NNG"@, "NNP"@, "NNB"@]);
    let c764 = (i >= 1) && in_list(&l765, tokens[i - 1].pos.as_str());
    ((c762 && c763) && c764)
}

/// The token [`p264`] puts at `i`.
fn p264_t_exec(tokens: &Vec<SejongToken>, i: usize) -> (t: SejongToken)
    requires
        i < tokens@.len(),
        p264_c(tokens_view(tokens@), i as int),
    ensures
        t@ == p264_t(tokens_view(tokens@), i as int),
{
    assert(tokens_view(tokens@).len() == tokens@.len());
    let s767 = owned("JKB");
    let mut t766 = tokens[i].duplicate();
    t766.pos = s767;
    t766
}

/// 에/IC after a noun is the particle 에/JKB.
pub fn apply_p264(tokens: &mut Vec<SejongToken>)
    ensures
        tokens_view(final(tokens)@) == p264(tokens_view(old(tokens)@)),
{
    let ghost orig = tokens_view(tokens@);
    let mut out: Vec<SejongToken> = Vec::new();
    let mut k: usize = 0;
    while k < tokens.len()
        invariant
            k <= tokens@.len(),
            orig == tokens_view(tokens@),
            tokens_view(out@) == p264(orig).take(k as int),
        decreases tokens@.len() - k,
    {
        let t = if p264_c_exec(tokens, k) { p264_t_exec(tokens, k) } else { tokens[k].duplicate() };
        push_token(&mut out, t);
        k += 1;
        assert(tokens_view(out@) =~= p264(orig).take(k as int));
    }
    assert(p264(orig).take(k as int) =~= p264(orig));
    *tokens = out;
}

/// Where rule 0 of [`p85`] applies.
pub open spec fn p85_c0(ts: Seq<TokenView>, i: int) -> bool {
    (((0 <= i < ts.len() && ts[i].surface == "야"@) && (0 <= i < ts.len() && ts[i].pos == "IC"@)) && (0 <= i - 1 < ts.len() && ts[i - 1].pos == "NP"@) && ((0 <= i - 1 < ts.len()) && crate::hangul::ends_in_open_syllable(ts[i - 1].surface)))
}

/// One step of [`p85`] at `i`: the list after it and the next position.
pub open spec fn p85_step(ts: Seq<TokenView>, i: int) -> (Seq<TokenView>, int) {
    if p85_c0(ts, i) {
        (splice(ts, i, 1, seq![plain_view("이"@, "VCP"@, ts[i].start_pos, ts[i].start_pos), plain_view("야"@, "EF"@, ts[i].start_pos, ts[i].end_pos)]), i + 2)
    } else {
        (ts, i + 1)
    }
}

/// [`p85_step`] as a function value.
pub open spec fn p85_f() -> spec_fn(Seq<TokenView>, int) -> (Seq<TokenView>, int) {
    |ts: Seq<TokenView>, i: int| p85_step(ts, i)
}

/// 야/IC after a pronoun with no final consonant is 이/VCP 야/EF (뭐/NP 이/VCP 야/EF).
pub open spec fn p85(ts: Seq<TokenView>) -> Seq<TokenView> {
    scan(ts, 0, p85_f())
}

/// Whether rule 0 of [`p85`] applies at `i`.
fn p85_c0_exec(tokens: &Vec<SejongToken>, i: usize) -> (r: bool)
    requires
        i < tokens@.len(),
    ensures
        r == p85_c0(tokens_view(tokens@), i as int),
{
    assert(tokens_view(tokens@).len() == tokens@.len());
    let c768 = surf_is(&tokens[i], "야");
    let c769 = pos_is(&tokens[i], "IC");
    let c770 = (i >= 1) && pos_is(&tokens[i - 1], "NP");
    let c771 = (i >= 1) && crate::hangul::last_has_jongseong(tokens[i - 1].surface.as_str()) == Some(false);
    ((c768 && c769) && c770 && c771)
}

/// One step of [`p85`] at `i`; returns the next position.
fn p85_step_exec(tokens: &mut Vec<SejongToken>, i: usize) -> (next: usize)
    requires
        i < old(tokens)@.len(),
    ensures
        (tokens_view(final(tokens)@), next as int) == p85_step(tokens_view(old(tokens)@), i as int),
        final(tokens)@.len() - next < old(tokens)@.len() - i,
        next <= final(tokens)@.len() + 1,
{
    let len0 = tokens.len();
    assert(tokens_view(tokens@).len() == tokens@.len());
    if p85_c0_exec(tokens, i) {
        let s773 = owned("이");
        let s774 = owned("VCP");
        let n775 = tokens[i].start_pos;
        let n776 = tokens[i].start_pos;
        let t772 = SejongToken::new(s773.as_str(), s774.as_str(), n775, n776);
        let s778 = owned("야");
        let s779 = owned("EF");
        let n780 = tokens[i].start_pos;
        let n781 = tokens[i].end_pos;
        let t777 = SejongToken::new(s778.as_str(), s779.as_str(), n780, n781);
        let mut nv782: Vec<SejongToken> = Vec::new();
        push_token(&mut nv782, t772);
        push_token(&mut nv782, t777);
        splice_tokens(tokens, i, 1, nv782);
        let _len1 = tokens.len();
        return i + 2;
    }
    i + 1
}

/// 야/IC after a pronoun with no final consonant is 이/VCP 야/EF (뭐/NP 이/VCP 야/EF).
pub fn apply_p85(tokens: &mut Vec<SejongToken>)
    ensures
        tokens_view(final(tokens)@) == p85(tokens_view(old(tokens)@)),
{
    let ghost orig = tokens_view(tokens@);
    let mut i: usize = 0;
    while i < tokens.len()
        invariant
            i <= tokens@.len() + 1,
            scan(tokens_view(tokens@), i as int, p85_f()) == scan(orig, 0, p85_f()),
        decreases tokens@.len() + 1 - i,
    {
        let ghost before = tokens_view(tokens@);
        assert(before.len() == tokens@.len());
        i = p85_step_exec(tokens, i);
        assert(tokens_view(tokens@).len() == tokens@.len());
    }
}

/// Where rule 0 of [`p171`] applies.
pub open spec fn p171_c0(ts: Seq<TokenView>, i: int) -> bool {
    (((0 <= i < ts.len() && ts[i].surface == "이"@) && (0 <= i < ts.len() && ts[i].pos == "NP"@)) && (0 <= i - 1 < ts.len() && ts[i - 1].pos == "NNG"@) && ((0 <= i + 1 < ts.len() && ts[i + 1].surface == "네"@) && (0 <= i + 1 < ts.len() && ts[i + 1].pos == "XSN"@)))
}

/// One step of [`p171`] at `i`: the list after it and the next position.
pub open spec fn p171_step(ts: Seq<TokenView>, i: int) -> (Seq<TokenView>, int) {
    if p171_c0(ts, i) {
        (ts.update(i, TokenView { pos: "VCP"@, ..ts[i] }).update(i + 1, TokenView { pos: "EF"@, ..ts[i + 1] }), i + 1)
    } else {
        (ts, i + 1)
    }
}

/// [`p171_step`] as a function value.
pub open spec fn p171_f() -> spec_fn(Seq<TokenView>, int) -> (Seq<TokenView>, int) {
    |ts: Seq<TokenView>, i: int| p171_step(ts, i)
}

/// 이/NP 네/XSN after a common noun is 이/VCP 네/EF.
pub open spec fn p171(ts: Seq<TokenView>) -> Seq<TokenView> {
    scan(ts, 0, p171_f())
}

/// Whether rule 0 of [`p171`] applies at `i`.
fn p171_c0_exec(tokens: &Vec<SejongToken>, i: usize) -> (r: bool)
    requires
        i < tokens@.len(),
    ensures
        r == p171_c0(tokens_view(tokens@), i as int),
{
    assert(tokens_view(tokens@).len() == tokens@.len());
    let c783 = surf_is(&tokens[i], "이");
    let c784 = pos_is(&tokens[i], "NP");
    let c785 = (i >= 1) && pos_is(&tokens[i - 1], "NNG");
    let c786 = (tokens.len() - i > 1) && surf_is(&tokens[i + 1], "네");
    let c787 = (tokens.len() - i > 1) && pos_is(&tokens[i + 1], "XSN");
    ((c783 && c784) && c785 && (c786 && c787))
}

/// One step of [`p171`] at `i`; returns the next position.
fn p171_step_exec(tokens: &mut Vec<SejongToken>, i: usize) -> (next: usize)
    requires
        i < old(tokens)@.len(),
    ensures
        (tokens_view(final(tokens)@), next as int) == p171_step(tokens_view(old(tokens)@), i as int),
        final(tokens)@.len() - next < old(tokens)@.len() - i,
        next <= final(tokens)@.len() + 1,
{
    let len0 = tokens.len();
    assert(tokens_view(tokens@).len() == tokens@.len());
    if p171_c0_exec(tokens, i) {
        let s789 = owned("VCP");
        let mut t788 = tokens[i].duplicate();
        t788.pos = s789;
        let s791 = owned("EF");
        let mut t790 = tokens[i + 1].duplicate();
        t790.pos = s791;
        set_token(tokens, i, t788);
        set_token(tokens, i + 1, t790);
        let _len1 = tokens.len();
        return i + 1;
    }
    i + 1
}

/// 이/NP 네/XSN after a common noun is 이/VCP 네/EF.
pub fn apply_p171(tokens: &mut Vec<SejongToken>)
    ensures
        tokens_view(final(tokens)@) == p171(tokens_view(old(tokens)@)),
{
    let ghost orig = tokens_view(tokens@);
    let mut i: usize = 0;
    while i < tokens.len()
        invariant
            i <= tokens@.len() + 1,
            scan(tokens_view(tokens@), i as int, p171_f()) == scan(orig, 0, p171_f()),
        decreases tokens@.len() + 1 - i,
    {
        let ghost before = tokens_view(tokens@);
        assert(before.len() == tokens@.len());
        i = p171_step_exec(tokens, i);
        assert(tokens_view(tokens@).len() == tokens@.len());
    }
}

/// Where rule 0 of [`p172`] applies.
pub open spec fn p172_c0(ts: Seq<TokenView>, i: int) -> bool {
    ((0 <= i < ts.len() && is_suffix("러"@, ts[i].surface)) && (0 <= i < ts.len() && ts[i].surface.len() >= 2) && (0 <= i < ts.len() && seq!["JKB"@, "NNP"@].contains(ts[i].pos)) && (0 <= i + 1 < ts.len() && seq!["VV+EF"@, "VV"@].contains(ts[i + 1].pos)))
}

/// One step of [`p172`] at `i`: the list after it and the next position.
pub open spec fn p172_step(ts: Seq<TokenView>, i: int) -> (Seq<TokenView>, int) {
    if p172_c0(ts, i) {
        (splice(ts, i, 1, seq![plain_view(strip_suffix(ts[i].surface, "러"@), "VV"@, ts[i].start_pos, (ts[i].start_pos).saturating_add(strip_suffix(ts[i].surface, "러"@).len() as usize)), plain_view("러"@, "EC"@, (ts[i].start_pos).saturating_add(strip_suffix(ts[i].surface, "러"@).len() as usize), ts[i].end_pos)]), i + 2)
    } else {
        (ts, i + 1)
    }
}

/// [`p172_step`] as a function value.
pub open spec fn p172_f() -> spec_fn(Seq<TokenView>, int) -> (Seq<TokenView>, int) {
    |ts: Seq<TokenView>, i: int| p172_step(ts, i)
}

/// A form in -러 tagged JKB or NNP before a verb is a verb stem with the purpose ending 러/EC (보러 → 보/VV 러/EC).
pub open spec fn p172(ts: Seq<TokenView>) -> Seq<TokenView> {
    scan(ts, 0, p172_f())
}

/// Whether rule 0 of [`p172`] applies at `i`.
fn p172_c0_exec(tokens: &Vec<SejongToken>, i: usize) -> (r: bool)
    requires
        i < tokens@.len(),
    ensures
        r == p172_c0(tokens_view(tokens@), i as int),
{
    assert(tokens_view(tokens@).len() == tokens@.len());
    let c792 = surf_ends(&tokens[i], "러");
    let c793 = char_count(tokens[i].surface.as_str()) >= 2;
    let l795: [&str; 2] = ["JKB", "NNP"];
    assert(crate::tag_map::strs_view(l795@) =~= seq!["JKB"@, "NNP"@]);
    let c794 = in_list(&l795, tokens[i].pos.as_str());
    let l797: [&str; 2] = ["VV+EF", "VV"];
    assert(crate::tag_map::strs_view(l797@) =~= seq!["VV+EF"@, "VV"@]);
    let c796 = (tokens.len() - i > 1) && in_list(&l797, tokens[i + 1].pos.as_str());
    (c792 && c793 && c794 && c796)
}

/// One step of [`p172`] at `i`; returns the next position.
fn p172_step_exec(tokens: &mut Vec<SejongToken>, i: usize) -> (next: usize)
    requires
        i < old(tokens)@.len(),
    ensures
        (tokens_view(final(tokens)@), next as int) == p172_step(tokens_view(old(tokens)@), i as int),
        final(tokens)@.len() - next < old(tokens)@.len() - i,
        next <= final(tokens)@.len() + 1,
{
    let len0 = tokens.len();
    assert(tokens_view(tokens@).len() == tokens@.len());
    if p172_c0_exec(tokens, i) {
        let s800 = tokens[i].surface.clone();
        let s799 = strip_suffix_exec(s800.as_str(), "러");
        let s801 = owned("VV");
        let n802 = tokens[i].start_pos;
        let n804 = tokens[i].start_pos;
        let s806 = tokens[i].surface.clone();
        let s805 = strip_suffix_exec(s806.as_str(), "러");
        let n803 = n804.saturating_add(s805.unicode_len());
        let t798 = SejongToken::new(s799.as_str(), s801.as_str(), n802, n803);
        let s808 = owned("러");
        let s809 = owned("EC");
        let n811 = tokens[i].start_pos;
        let s813 = tokens[i].surface.clone();
        let s812 = strip_suffix_exec(s813.as_str(), "러");
        let n810 = n811.saturating_add(s812.unicode_len());
        let n814 = tokens[i].end_pos;
        let t807 = SejongToken::new(s808.as_str(), s809.as_str(), n810, n814);
        let mut nv815: Vec<SejongToken> = Vec::new();
        push_token(&mut nv815, t798);
        push_token(&mut nv815, t807);
        splice_tokens(tokens, i, 1, nv815);
        let _len1 = tokens.len();
        return i + 2;
    }
    i + 1
}

/// A form in -러 tagged JKB or NNP before a verb is a verb stem with the purpose ending 러/EC (보러 → 보/VV 러/EC).
pub fn apply_p172(tokens: &mut Vec<SejongToken>)
    ensures
        tokens_view(final(tokens)@) == p172(tokens_view(old(tokens)@)),
{
    let ghost orig = tokens_view(tokens@);
    let mut i: usize = 0;
    while i < tokens.len()
        invariant
            i <= tokens@.len() + 1,
            scan(tokens_view(tokens@), i as int, p172_f()) == scan(orig, 0, p172_f()),
        decreases tokens@.len() + 1 - i,
    {
        let ghost before = tokens_view(tokens@);
        assert(before.len() == tokens@.len());
        i = p172_step_exec(tokens, i);
        assert(tokens_view(tokens@).len() == tokens@.len());
    }
}

/// Suffixes, bound nouns, derived words and purpose endings.
pub open spec fn spec_apply_suffix_and_dependency_corrections(ts: Seq<TokenView>) -> Seq<TokenView> {
    p172(p171(p85(p264(p84(p83(p82(p81(p79(p78(p77(p76(p75b(p75a(p74(p73(p80(p72(p71(p70(p69(p68(p168(p167(ts))))))))))))))))))))))))
}

/// Suffixes, bound nouns, derived words and purpose endings.
pub fn apply_suffix_and_dependency_corrections(tokens: &mut Vec<SejongToken>)
    ensures
        tokens_view(final(tokens)@) == spec_apply_suffix_and_dependency_corrections(tokens_view(old(tokens)@)),
{
    apply_p167(tokens);
    apply_p168(tokens);
    apply_p68(tokens);
    apply_p69(tokens);
    apply_p70(tokens);
    apply_p71(tokens);
    apply_p72(tokens);
    apply_p80(tokens);
    apply_p73(tokens);
    apply_p74(tokens);
    apply_p75a(tokens);
    apply_p75b(tokens);
    apply_p76(tokens);
    apply_p77(tokens);
    apply_p78(tokens);
    apply_p79(tokens);
    apply_p81(tokens);
    apply_p82(tokens);
    apply_p83(tokens);
    apply_p84(tokens);
    apply_p264(tokens);
    apply_p85(tokens);
    apply_p171(tokens);
    apply_p172(tokens);
}

} // verus!
