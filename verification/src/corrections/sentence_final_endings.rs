//! Interrogatives, numerals and the forms of final endings.

use vstd::prelude::*;
use crate::converter::tokens_view;
use crate::rewrite::{in_list, lemma_scan_none_bad, lemma_splice_none_bad, map_where, none_bad, pos_is, push_token, scan, splice, splice_tokens, surf_is};
use crate::text::{concat, owned};
use crate::types::{plain_view, SejongToken, TokenView};

verus! {

/// Where rule 0 of [`p149`] applies.
pub open spec fn p149_c0(ts: Seq<TokenView>, i: int) -> bool {
    ((0 <= i - 1 < ts.len() && ts[i - 1].pos == "VCP"@) && ((0 <= i < ts.len() && ts[i].surface == "시"@) && (0 <= i < ts.len() && ts[i].pos == "EP"@)) && ((0 <= i + 1 < ts.len() && ts[i + 1].surface == "라고"@) && (0 <= i + 1 < ts.len() && ts[i + 1].pos == "EC"@)))
}

/// One step of [`p149`] at `i`: the list after it and the next position.
pub open spec fn p149_step(ts: Seq<TokenView>, i: int) -> (Seq<TokenView>, int) {
    if p149_c0(ts, i) {
        (splice(ts, i, 1, seq![]), i + 1)
    } else {
        (ts, i + 1)
    }
}

/// [`p149_step`] as a function value.
pub open spec fn p149_f() -> spec_fn(Seq<TokenView>, int) -> (Seq<TokenView>, int) {
    |ts: Seq<TokenView>, i: int| p149_step(ts, i)
}

/// 시/EP between 이/VCP and 라고/EC is dropped.
pub open spec fn p149(ts: Seq<TokenView>) -> Seq<TokenView> {
    scan(ts, 0, p149_f())
}

/// Whether rule 0 of [`p149`] applies at `i`.
fn p149_c0_exec(tokens: &Vec<SejongToken>, i: usize) -> (r: bool)
    requires
        i < tokens@.len(),
    ensures
        r == p149_c0(tokens_view(tokens@), i as int),
{
    assert(tokens_view(tokens@).len() == tokens@.len());
    let c0 = (i >= 1) && pos_is(&tokens[i - 1], "VCP");
    let c1 = surf_is(&tokens[i], "시");
    let c2 = pos_is(&tokens[i], "EP");
    let c3 = (tokens.len() - i > 1) && surf_is(&tokens[i + 1], "라고");
    let c4 = (tokens.len() - i > 1) && pos_is(&tokens[i + 1], "EC");
    (c0 && (c1 && c2) && (c3 && c4))
}

/// One step of [`p149`] at `i`; returns the next position.
fn p149_step_exec(tokens: &mut Vec<SejongToken>, i: usize) -> (next: usize)
    requires
        i < old(tokens)@.len(),
    ensures
        (tokens_view(final(tokens)@), next as int) == p149_step(tokens_view(old(tokens)@), i as int),
        final(tokens)@.len() - next < old(tokens)@.len() - i,
        next <= final(tokens)@.len() + 1,
{
    let len0 = tokens.len();
    assert(tokens_view(tokens@).len() == tokens@.len());
    if p149_c0_exec(tokens, i) {
        let mut nv5: Vec<SejongToken> = Vec::new();
        splice_tokens(tokens, i, 1, nv5);
        let _len1 = tokens.len();
        return i + 1;
    }
    i + 1
}

/// 시/EP between 이/VCP and 라고/EC is dropped.
pub fn apply_p149(tokens: &mut Vec<SejongToken>)
    ensures
        tokens_view(final(tokens)@) == p149(tokens_view(old(tokens)@)),
{
    let ghost orig = tokens_view(tokens@);
    let mut i: usize = 0;
    while i < tokens.len()
        invariant
            i <= tokens@.len() + 1,
            scan(tokens_view(tokens@), i as int, p149_f()) == scan(orig, 0, p149_f()),
        decreases tokens@.len() + 1 - i,
    {
        let ghost before = tokens_view(tokens@);
        assert(before.len() == tokens@.len());
        i = p149_step_exec(tokens, i);
        assert(tokens_view(tokens@).len() == tokens@.len());
    }
}

/// Where rule 0 of [`p149b`] applies.
pub open spec fn p149b_c0(ts: Seq<TokenView>, i: int) -> bool {
    ((0 <= i < ts.len() && seq!["ㄴ"@, "는"@].contains(ts[i].surface)) && (0 <= i < ts.len() && ts[i].pos == "ETM"@) && ((0 <= i + 1 < ts.len() && ts[i + 1].surface == "다"@) && (0 <= i + 1 < ts.len() && ts[i + 1].pos == "NNG"@)) && (0 <= i + 2 < ts.len() && seq!["VV"@, "VA"@].contains(ts[i + 2].pos)))
}

/// One step of [`p149b`] at `i`: the list after it and the next position.
pub open spec fn p149b_step(ts: Seq<TokenView>, i: int) -> (Seq<TokenView>, int) {
    if p149b_c0(ts, i) {
        (splice(ts, i, 2, seq![plain_view((ts[i].surface + "다"@), "EF"@, ts[i].start_pos, ts[i + 1].end_pos)]), i + 1)
    } else {
        (ts, i + 1)
    }
}

/// [`p149b_step`] as a function value.
pub open spec fn p149b_f() -> spec_fn(Seq<TokenView>, int) -> (Seq<TokenView>, int) {
    |ts: Seq<TokenView>, i: int| p149b_step(ts, i)
}

/// ㄴ/ETM or 는/ETM with 다/NNG before a verb or adjective is the final ending ㄴ다/EF or 는다/EF.
pub open spec fn p149b(ts: Seq<TokenView>) -> Seq<TokenView> {
    scan(ts, 0, p149b_f())
}

/// Whether rule 0 of [`p149b`] applies at `i`.
fn p149b_c0_exec(tokens: &Vec<SejongToken>, i: usize) -> (r: bool)
    requires
        i < tokens@.len(),
    ensures
        r == p149b_c0(tokens_view(tokens@), i as int),
{
    assert(tokens_view(tokens@).len() == tokens@.len());
    let l7: [&str; 2] = ["ㄴ", "는"];
    assert(crate::tag_map::strs_view(l7@) =~= seq!["ㄴ"@, "는"@]);
    let c6 = in_list(&l7, tokens[i].surface.as_str());
    let c8 = pos_is(&tokens[i], "ETM");
    let c9 = (tokens.len() - i > 1) && surf_is(&tokens[i + 1], "다");
    let c10 = (tokens.len() - i > 1) && pos_is(&tokens[i + 1], "NNG");
    let l12: [&str; 2] = ["VV", "VA"];
    assert(crate::tag_map::strs_view(l12@) =~= seq!["VV"@, "VA"@]);
    let c11 = (tokens.len() - i > 2) && in_list(&l12, tokens[i + 2].pos.as_str());
    (c6 && c8 && (c9 && c10) && c11)
}

/// One step of [`p149b`] at `i`; returns the next position.
fn p149b_step_exec(tokens: &mut Vec<SejongToken>, i: usize) -> (next: usize)
    requires
        i < old(tokens)@.len(),
    ensures
        (tokens_view(final(tokens)@), next as int) == p149b_step(tokens_view(old(tokens)@), i as int),
        final(tokens)@.len() - next < old(tokens)@.len() - i,
        next <= final(tokens)@.len() + 1,
{
    let len0 = tokens.len();
    assert(tokens_view(tokens@).len() == tokens@.len());
    if p149b_c0_exec(tokens, i) {
        let s15 = tokens[i].surface.clone();
        let s16 = owned("다");
        let s14 = concat(s15.as_str(), s16.as_str());
        let s17 = owned("EF");
        let n18 = tokens[i].start_pos;
        let n19 = tokens[i + 1].end_pos;
        let t13 = SejongToken::new(s14.as_str(), s17.as_str(), n18, n19);
        let mut nv20: Vec<SejongToken> = Vec::new();
        push_token(&mut nv20, t13);
        splice_tokens(tokens, i, 2, nv20);
        let _len1 = tokens.len();
        return i + 1;
    }
    i + 1
}

/// ㄴ/ETM or 는/ETM with 다/NNG before a verb or adjective is the final ending ㄴ다/EF or 는다/EF.
pub fn apply_p149b(tokens: &mut Vec<SejongToken>)
    ensures
        tokens_view(final(tokens)@) == p149b(tokens_view(old(tokens)@)),
{
    let ghost orig = tokens_view(tokens@);
    let mut i: usize = 0;
    while i < tokens.len()
        invariant
            i <= tokens@.len() + 1,
            scan(tokens_view(tokens@), i as int, p149b_f()) == scan(orig, 0, p149b_f()),
        decreases tokens@.len() + 1 - i,
    {
        let ghost before = tokens_view(tokens@);
        assert(before.len() == tokens@.len());
        i = p149b_step_exec(tokens, i);
        assert(tokens_view(tokens@).len() == tokens@.len());
    }
}

/// Where rule 0 of [`p152`] applies.
pub open spec fn p152_c0(ts: Seq<TokenView>, i: int) -> bool {
    (((0 <= i < ts.len() && ts[i].surface == "크"@) && (0 <= i < ts.len() && ts[i].pos == "VA"@)) && ((0 <= i + 1 < ts.len() && ts[i + 1].surface == "ㄴ"@) && (0 <= i + 1 < ts.len() && ts[i + 1].pos == "ETM"@)) && (0 <= i + 2 < ts.len() && ts[i + 2].pos == "NNG"@))
}

/// Where rule 1 of [`p152`] applies.
pub open spec fn p152_c1(ts: Seq<TokenView>, i: int) -> bool {
    (((0 <= i < ts.len() && ts[i].surface == "작"@) && (0 <= i < ts.len() && ts[i].pos == "VA"@)) && ((0 <= i + 1 < ts.len() && ts[i + 1].surface == "ㄴ"@) && (0 <= i + 1 < ts.len() && ts[i + 1].pos == "ETM"@)) && (0 <= i + 2 < ts.len() && ts[i + 2].pos == "NNG"@))
}

/// One step of [`p152`] at `i`: the list after it and the next position.
pub open spec fn p152_step(ts: Seq<TokenView>, i: int) -> (Seq<TokenView>, int) {
    if p152_c0(ts, i) {
        (splice(ts, i, 2, seq![plain_view("큰"@, "XPN"@, ts[i].start_pos, ts[i + 1].end_pos)]), i + 1)
    } else if p152_c1(ts, i) {
        (splice(ts, i, 2, seq![plain_view("작은"@, "XPN"@, ts[i].start_pos, ts[i + 1].end_pos)]), i + 1)
    } else {
        (ts, i + 1)
    }
}

/// [`p152_step`] as a function value.
pub open spec fn p152_f() -> spec_fn(Seq<TokenView>, int) -> (Seq<TokenView>, int) {
    |ts: Seq<TokenView>, i: int| p152_step(ts, i)
}

/// 크/VA or 작/VA with ㄴ/ETM before a common noun is the prefix 큰/XPN or 작은/XPN.
pub open spec fn p152(ts: Seq<TokenView>) -> Seq<TokenView> {
    scan(ts, 0, p152_f())
}

/// Whether rule 0 of [`p152`] applies at `i`.
fn p152_c0_exec(tokens: &Vec<SejongToken>, i: usize) -> (r: bool)
    requires
        i < tokens@.len(),
    ensures
        r == p152_c0(tokens_view(tokens@), i as int),
{
    assert(tokens_view(tokens@).len() == tokens@.len());
    let c21 = surf_is(&tokens[i], "크");
    let c22 = pos_is(&tokens[i], "VA");
    let c23 = (tokens.len() - i > 1) && surf_is(&tokens[i + 1], "ㄴ");
    let c24 = (tokens.len() - i > 1) && pos_is(&tokens[i + 1], "ETM");
    let c25 = (tokens.len() - i > 2) && pos_is(&tokens[i + 2], "NNG");
    ((c21 && c22) && (c23 && c24) && c25)
}

/// Whether rule 1 of [`p152`] applies at `i`.
fn p152_c1_exec(tokens: &Vec<SejongToken>, i: usize) -> (r: bool)
    requires
        i < tokens@.len(),
    ensures
        r == p152_c1(tokens_view(tokens@), i as int),
{
    assert(tokens_view(tokens@).len() == tokens@.len());
    let c26 = surf_is(&tokens[i], "작");
    let c27 = pos_is(&tokens[i], "VA");
    let c28 = (tokens.len() - i > 1) && surf_is(&tokens[i + 1], "ㄴ");
    let c29 = (tokens.len() - i > 1) && pos_is(&tokens[i + 1], "ETM");
    let c30 = (tokens.len() - i > 2) && pos_is(&tokens[i + 2], "NNG");
    ((c26 && c27) && (c28 && c29) && c30)
}

/// One step of [`p152`] at `i`; returns the next position.
fn p152_step_exec(tokens: &mut Vec<SejongToken>, i: usize) -> (next: usize)
    requires
        i < old(tokens)@.len(),
    ensures
        (tokens_view(final(tokens)@), next as int) == p152_step(tokens_view(old(tokens)@), i as int),
        final(tokens)@.len() - next < old(tokens)@.len() - i,
        next <= final(tokens)@.len() + 1,
{
    let len0 = tokens.len();
    assert(tokens_view(tokens@).len() == tokens@.len());
    if p152_c0_exec(tokens, i) {
        let s32 = owned("큰");
        let s33 = owned("XPN");
        let n34 = tokens[i].start_pos;
        let n35 = tokens[i + 1].end_pos;
        let t31 = SejongToken::new(s32.as_str(), s33.as_str(), n34, n35);
        let mut nv36: Vec<SejongToken> = Vec::new();
        push_token(&mut nv36, t31);
        splice_tokens(tokens, i, 2, nv36);
        let _len1 = tokens.len();
        return i + 1;
    }
    if p152_c1_exec(tokens, i) {
        let s38 = owned("작은");
        let s39 = owned("XPN");
        let n40 = tokens[i].start_pos;
        let n41 = tokens[i + 1].end_pos;
        let t37 = SejongToken::new(s38.as_str(), s39.as_str(), n40, n41);
        let mut nv42: Vec<SejongToken> = Vec::new();
        push_token(&mut nv42, t37);
        splice_tokens(tokens, i, 2, nv42);
        let _len1 = tokens.len();
        return i + 1;
    }
    i + 1
}

/// 크/VA or 작/VA with ㄴ/ETM before a common noun is the prefix 큰/XPN or 작은/XPN.
pub fn apply_p152(tokens: &mut Vec<SejongToken>)
    ensures
        tokens_view(final(tokens)@) == p152(tokens_view(old(tokens)@)),
{
    let ghost orig = tokens_view(tokens@);
    let mut i: usize = 0;
    while i < tokens.len()
        invariant
            i <= tokens@.len() + 1,
            scan(tokens_view(tokens@), i as int, p152_f()) == scan(orig, 0, p152_f()),
        decreases tokens@.len() + 1 - i,
    {
        let ghost before = tokens_view(tokens@);
        assert(before.len() == tokens@.len());
        i = p152_step_exec(tokens, i);
        assert(tokens_view(tokens@).len() == tokens@.len());
    }
}

/// Where rule 0 of [`p153`] applies.
pub open spec fn p153_c0(ts: Seq<TokenView>, i: int) -> bool {
    (((0 <= i < ts.len() && ts[i].surface == "채"@) && (0 <= i < ts.len() && ts[i].pos == "VV"@)) && ((0 <= i + 1 < ts.len() && ts[i + 1].surface == "어"@) && (0 <= i + 1 < ts.len() && ts[i + 1].pos == "EC"@)))
}

/// Where rule 1 of [`p153`] applies.
pub open spec fn p153_c1(ts: Seq<TokenView>, i: int) -> bool {
    (((0 <= i < ts.len() && ts[i].surface == "대"@) && (0 <= i < ts.len() && ts[i].pos == "NNG"@)) && ((0 <= i + 1 < ts.len() && ts[i + 1].surface == "로"@) && (0 <= i + 1 < ts.len() && ts[i + 1].pos == "JKB"@)))
}

/// Where rule 2 of [`p153`] applies.
pub open spec fn p153_c2(ts: Seq<TokenView>, i: int) -> bool {
    (((0 <= i < ts.len() && ts[i].surface == "따르"@) && (0 <= i < ts.len() && ts[i].pos == "VV"@)) && ((0 <= i + 1 < ts.len() && ts[i + 1].surface == "어"@) && (0 <= i + 1 < ts.len() && ts[i + 1].pos == "EC"@)) && (0 <= i - 1 < ts.len() && ts[i - 1].pos == "ETM"@))
}

/// One step of [`p153`] at `i`: the list after it and the next position.
pub open spec fn p153_step(ts: Seq<TokenView>, i: int) -> (Seq<TokenView>, int) {
    if p153_c0(ts, i) {
        (splice(ts, i, 2, seq![plain_view("채"@, "NNB"@, ts[i].start_pos, ts[i + 1].end_pos)]), i + 1)
    } else if p153_c1(ts, i) {
        (splice(ts, i, 2, seq![plain_view("대로"@, "NNB"@, ts[i].start_pos, ts[i + 1].end_pos)]), i + 1)
    } else if p153_c2(ts, i) {
        (splice(ts, i, 2, seq![plain_view("따라"@, "NNB"@, ts[i].start_pos, ts[i + 1].end_pos)]), i + 1)
    } else {
        (ts, i + 1)
    }
}

/// [`p153_step`] as a function value.
pub open spec fn p153_f() -> spec_fn(Seq<TokenView>, int) -> (Seq<TokenView>, int) {
    |ts: Seq<TokenView>, i: int| p153_step(ts, i)
}

/// 채/VV 어/EC is the bound noun 채/NNB; 대/NNG 로/JKB is 대로/NNB; 따르/VV 어/EC after an adnominal ending is 따라/NNB.
pub open spec fn p153(ts: Seq<TokenView>) -> Seq<TokenView> {
    scan(ts, 0, p153_f())
}

/// Whether rule 0 of [`p153`] applies at `i`.
fn p153_c0_exec(tokens: &Vec<SejongToken>, i: usize) -> (r: bool)
    requires
        i < tokens@.len(),
    ensures
        r == p153_c0(tokens_view(tokens@), i as int),
{
    assert(tokens_view(tokens@).len() == tokens@.len());
    let c43 = surf_is(&tokens[i], "채");
    let c44 = pos_is(&tokens[i], "VV");
    let c45 = (tokens.len() - i > 1) && surf_is(&tokens[i + 1], "어");
    let c46 = (tokens.len() - i > 1) && pos_is(&tokens[i + 1], "EC");
    ((c43 && c44) && (c45 && c46))
}

/// Whether rule 1 of [`p153`] applies at `i`.
fn p153_c1_exec(tokens: &Vec<SejongToken>, i: usize) -> (r: bool)
    requires
        i < tokens@.len(),
    ensures
        r == p153_c1(tokens_view(tokens@), i as int),
{
    assert(tokens_view(tokens@).len() == tokens@.len());
    let c47 = surf_is(&tokens[i], "대");
    let c48 = pos_is(&tokens[i], "NNG");
    let c49 = (tokens.len() - i > 1) && surf_is(&tokens[i + 1], "로");
    let c50 = (tokens.len() - i > 1) && pos_is(&tokens[i + 1], "JKB");
    ((c47 && c48) && (c49 && c50))
}

/// Whether rule 2 of [`p153`] applies at `i`.
fn p153_c2_exec(tokens: &Vec<SejongToken>, i: usize) -> (r: bool)
    requires
        i < tokens@.len(),
    ensures
        r == p153_c2(tokens_view(tokens@), i as int),
{
    assert(tokens_view(tokens@).len() == tokens@.len());
    let c51 = surf_is(&tokens[i], "따르");
    let c52 = pos_is(&tokens[i], "VV");
    let c53 = (tokens.len() - i > 1) && surf_is(&tokens[i + 1], "어");
    let c54 = (tokens.len() - i > 1) && pos_is(&tokens[i + 1], "EC");
    let c55 = (i >= 1) && pos_is(&tokens[i - 1], "ETM");
    ((c51 && c52) && (c53 && c54) && c55)
}

/// One step of [`p153`] at `i`; returns the next position.
fn p153_step_exec(tokens: &mut Vec<SejongToken>, i: usize) -> (next: usize)
    requires
        i < old(tokens)@.len(),
    ensures
        (tokens_view(final(tokens)@), next as int) == p153_step(tokens_view(old(tokens)@), i as int),
        final(tokens)@.len() - next < old(tokens)@.len() - i,
        next <= final(tokens)@.len() + 1,
{
    let len0 = tokens.len();
    assert(tokens_view(tokens@).len() == tokens@.len());
    if p153_c0_exec(tokens, i) {
        let s57 = owned("채");
        let s58 = owned("NNB");
        let n59 = tokens[i].start_pos;
        let n60 = tokens[i + 1].end_pos;
        let t56 = SejongToken::new(s57.as_str(), s58.as_str(), n59, n60);
        let mut nv61: Vec<SejongToken> = Vec::new();
        push_token(&mut nv61, t56);
        splice_tokens(tokens, i, 2, nv61);
        let _len1 = tokens.len();
        return i + 1;
    }
    if p153_c1_exec(tokens, i) {
        let s63 = owned("대로");
        let s64 = owned("NNB");
        let n65 = tokens[i].start_pos;
        let n66 = tokens[i + 1].end_pos;
        let t62 = SejongToken::new(s63.as_str(), s64.as_str(), n65, n66);
        let mut nv67: Vec<SejongToken> = Vec::new();
        push_token(&mut nv67, t62);
        splice_tokens(tokens, i, 2, nv67);
        let _len1 = tokens.len();
        return i + 1;
    }
    if p153_c2_exec(tokens, i) {
        let s69 = owned("따라");
        let s70 = owned("NNB");
        let n71 = tokens[i].start_pos;
        let n72 = tokens[i + 1].end_pos;
        let t68 = SejongToken::new(s69.as_str(), s70.as_str(), n71, n72);
        let mut nv73: Vec<SejongToken> = Vec::new();
        push_token(&mut nv73, t68);
        splice_tokens(tokens, i, 2, nv73);
        let _len1 = tokens.len();
        return i + 1;
    }
    i + 1
}

/// 채/VV 어/EC is the bound noun 채/NNB; 대/NNG 로/JKB is 대로/NNB; 따르/VV 어/EC after an adnominal ending is 따라/NNB.
pub fn apply_p153(tokens: &mut Vec<SejongToken>)
    ensures
        tokens_view(final(tokens)@) == p153(tokens_view(old(tokens)@)),
{
    let ghost orig = tokens_view(tokens@);
    let mut i: usize = 0;
    while i < tokens.len()
        invariant
            i <= tokens@.len() + 1,
            scan(tokens_view(tokens@), i as int, p153_f()) == scan(orig, 0, p153_f()),
        decreases tokens@.len() + 1 - i,
    {
        let ghost before = tokens_view(tokens@);
        assert(before.len() == tokens@.len());
        i = p153_step_exec(tokens, i);
        assert(tokens_view(tokens@).len() == tokens@.len());
    }
}

/// Where [`p154`] changes a token.
pub open spec fn p154_c(ts: Seq<TokenView>, i: int) -> bool {
    (((0 <= i < ts.len() && ts[i].surface == "다"@) && (0 <= i < ts.len() && ts[i].pos == "NNG"@)) && !(0 <= i + 1 < ts.len() && true))
}

/// The token [`p154`] puts at `i`.
pub open spec fn p154_t(ts: Seq<TokenView>, i: int) -> TokenView {
    TokenView { pos: "EF"@, ..ts[i] }
}

/// A final 다/NNG is the final ending 다/EF.
pub open spec fn p154(ts: Seq<TokenView>) -> Seq<TokenView> {
    map_where(ts, |ts: Seq<TokenView>, i: int| p154_c(ts, i), |ts: Seq<TokenView>, i: int| p154_t(ts, i))
}

/// Whether [`p154`] changes the token at `i`.
fn p154_c_exec(tokens: &Vec<SejongToken>, i: usize) -> (r: bool)
    requires
        i < tokens@.len(),
    ensures
        r == p154_c(tokens_view(tokens@), i as int),
{
    assert(tokens_view(tokens@).len() == tokens@.len());
    let c74 = surf_is(&tokens[i], "다");
    let c75 = pos_is(&tokens[i], "NNG");
    let c76 = (tokens.len() - i > 1) && true;
    ((c74 && c75) && !c76)
}

/// The token [`p154`] puts at `i`.
fn p154_t_exec(tokens: &Vec<SejongToken>, i: usize) -> (t: SejongToken)
    requires
        i < tokens@.len(),
        p154_c(tokens_view(tokens@), i as int),
    ensures
        t@ == p154_t(tokens_view(tokens@), i as int),
{
    assert(tokens_view(tokens@).len() == tokens@.len());
    let s78 = owned("EF");
    let mut t77 = tokens[i].duplicate();
    t77.pos = s78;
    t77
}

/// A final 다/NNG is the final ending 다/EF.
pub fn apply_p154(tokens: &mut Vec<SejongToken>)
    ensures
        tokens_view(final(tokens)@) == p154(tokens_view(old(tokens)@)),
{
    let ghost orig = tokens_view(tokens@);
    let mut out: Vec<SejongToken> = Vec::new();
    let mut k: usize = 0;
    while k < tokens.len()
        invariant
            k <= tokens@.len(),
            orig == tokens_view(tokens@),
            tokens_view(out@) == p154(orig).take(k as int),
        decreases tokens@.len() - k,
    {
        let t = if p154_c_exec(tokens, k) { p154_t_exec(tokens, k) } else { tokens[k].duplicate() };
        push_token(&mut out, t);
        k += 1;
        assert(tokens_view(out@) =~= p154(orig).take(k as int));
    }
    assert(p154(orig).take(k as int) =~= p154(orig));
    *tokens = out;
}

/// Where [`p154b`] changes a token.
pub open spec fn p154b_c(ts: Seq<TokenView>, i: int) -> bool {
    (((0 <= i < ts.len() && ts[i].surface == "다"@) && (0 <= i < ts.len() && ts[i].pos == "NNG"@)) && (0 <= i - 1 < ts.len() && seq!["VV"@, "VA"@, "VX"@].contains(ts[i - 1].pos)))
}

/// The token [`p154b`] puts at `i`.
pub open spec fn p154b_t(ts: Seq<TokenView>, i: int) -> TokenView {
    TokenView { pos: "EF"@, ..ts[i] }
}

/// 다/NNG after a verb, adjective or auxiliary is the final ending 다/EF.
pub open spec fn p154b(ts: Seq<TokenView>) -> Seq<TokenView> {
    map_where(ts, |ts: Seq<TokenView>, i: int| p154b_c(ts, i), |ts: Seq<TokenView>, i: int| p154b_t(ts, i))
}

/// Whether [`p154b`] changes the token at `i`.
fn p154b_c_exec(tokens: &Vec<SejongToken>, i: usize) -> (r: bool)
    requires
        i < tokens@.len(),
    ensures
        r == p154b_c(tokens_view(tokens@), i as int),
{
    assert(tokens_view(tokens@).len() == tokens@.len());
    let c79 = surf_is(&tokens[i], "다");
    let c80 = pos_is(&tokens[i], "NNG");
    let l82: [&str; 3] = ["VV", "VA", "VX"];
    assert(crate::tag_map::strs_view(l82@) =~= seq!["VV"@, "VA"@, "VX"@]);
    let c81 = (i >= 1) && in_list(&l82, tokens[i - 1].pos.as_str());
    ((c79 && c80) && c81)
}

/// The token [`p154b`] puts at `i`.
fn p154b_t_exec(tokens: &Vec<SejongToken>, i: usize) -> (t: SejongToken)
    requires
        i < tokens@.len(),
        p154b_c(tokens_view(tokens@), i as int),
    ensures
        t@ == p154b_t(tokens_view(tokens@), i as int),
{
    assert(tokens_view(tokens@).len() == tokens@.len());
    let s84 = owned("EF");
    let mut t83 = tokens[i].duplicate();
    t83.pos = s84;
    t83
}

/// 다/NNG after a verb, adjective or auxiliary is the final ending 다/EF.
pub fn apply_p154b(tokens: &mut Vec<SejongToken>)
    ensures
        tokens_view(final(tokens)@) == p154b(tokens_view(old(tokens)@)),
{
    let ghost orig = tokens_view(tokens@);
    let mut out: Vec<SejongToken> = Vec::new();
    let mut k: usize = 0;
    while k < tokens.len()
        invariant
            k <= tokens@.len(),
            orig == tokens_view(tokens@),
            tokens_view(out@) == p154b(orig).take(k as int),
        decreases tokens@.len() - k,
    {
        let t = if p154b_c_exec(tokens, k) { p154b_t_exec(tokens, k) } else { tokens[k].duplicate() };
        push_token(&mut out, t);
        k += 1;
        assert(tokens_view(out@) =~= p154b(orig).take(k as int));
    }
    assert(p154b(orig).take(k as int) =~= p154b(orig));
    *tokens = out;
}

/// Where [`p155`] changes a token.
pub open spec fn p155_c(ts: Seq<TokenView>, i: int) -> bool {
    (((0 <= i < ts.len() && ts[i].surface == "다"@) && (0 <= i < ts.len() && ts[i].pos == "NNG"@)) && (0 <= i - 1 < ts.len() && seq!["XSV"@, "EP"@].contains(ts[i - 1].pos)))
}

/// The token [`p155`] puts at `i`.
pub open spec fn p155_t(ts: Seq<TokenView>, i: int) -> TokenView {
    TokenView { pos: "EF"@, ..ts[i] }
}

/// 다/NNG after a verb suffix or a pre-final ending is the final ending 다/EF.
pub open spec fn p155(ts: Seq<TokenView>) -> Seq<TokenView> {
    map_where(ts, |ts: Seq<TokenView>, i: int| p155_c(ts, i), |ts: Seq<TokenView>, i: int| p155_t(ts, i))
}

/// Whether [`p155`] changes the token at `i`.
fn p155_c_exec(tokens: &Vec<SejongToken>, i: usize) -> (r: bool)
    requires
        i < tokens@.len(),
    ensures
        r == p155_c(tokens_view(tokens@), i as int),
{
    assert(tokens_view(tokens@).len() == tokens@.len());
    let c85 = surf_is(&tokens[i], "다");
    let c86 = pos_is(&tokens[i], "NNG");
    let l88: [&str; 2] = ["XSV", "EP"];
    assert(crate::tag_map::strs_view(l88@) =~= seq!["XSV"@, "EP"@]);
    let c87 = (i >= 1) && in_list(&l88, tokens[i - 1].pos.as_str());
    ((c85 && c86) && c87)
}

/// The token [`p155`] puts at `i`.
fn p155_t_exec(tokens: &Vec<SejongToken>, i: usize) -> (t: SejongToken)
    requires
        i < tokens@.len(),
        p155_c(tokens_view(tokens@), i as int),
    ensures
        t@ == p155_t(tokens_view(tokens@), i as int),
{
    assert(tokens_view(tokens@).len() == tokens@.len());
    let s90 = owned("EF");
    let mut t89 = tokens[i].duplicate();
    t89.pos = s90;
    t89
}

/// 다/NNG after a verb suffix or a pre-final ending is the final ending 다/EF.
pub fn apply_p155(tokens: &mut Vec<SejongToken>)
    ensures
        tokens_view(final(tokens)@) == p155(tokens_view(old(tokens)@)),
{
    let ghost orig = tokens_view(tokens@);
    let mut out: Vec<SejongToken> = Vec::new();
    let mut k: usize = 0;
    while k < tokens.len()
        invariant
            k <= tokens@.len(),
            orig == tokens_view(tokens@),
            tokens_view(out@) == p155(orig).take(k as int),
        decreases tokens@.len() - k,
    {
        let t = if p155_c_exec(tokens, k) { p155_t_exec(tokens, k) } else { tokens[k].duplicate() };
        push_token(&mut out, t);
        k += 1;
        assert(tokens_view(out@) =~= p155(orig).take(k as int));
    }
    assert(p155(orig).take(k as int) =~= p155(orig));
    *tokens = out;
}

/// Where [`p155b`] changes a token.
pub open spec fn p155b_c(ts: Seq<TokenView>, i: int) -> bool {
    (((0 <= i < ts.len() && ts[i].surface == "다"@) && (0 <= i < ts.len() && ts[i].pos == "NNG"@)) && (0 <= i - 1 < ts.len() && ts[i - 1].pos == "VCP"@))
}

/// The token [`p155b`] puts at `i`.
pub open spec fn p155b_t(ts: Seq<TokenView>, i: int) -> TokenView {
    TokenView { pos: "EF"@, ..ts[i] }
}

/// 다/NNG after the copula is the final ending 다/EF.
pub open spec fn p155b(ts: Seq<TokenView>) -> Seq<TokenView> {
    map_where(ts, |ts: Seq<TokenView>, i: int| p155b_c(ts, i), |ts: Seq<TokenView>, i: int| p155b_t(ts, i))
}

/// Whether [`p155b`] changes the token at `i`.
fn p155b_c_exec(tokens: &Vec<SejongToken>, i: usize) -> (r: bool)
    requires
        i < tokens@.len(),
    ensures
        r == p155b_c(tokens_view(tokens@), i as int),
{
    assert(tokens_view(tokens@).len() == tokens@.len());
    let c91 = surf_is(&tokens[i], "다");
    let c92 = pos_is(&tokens[i], "NNG");
    let c93 = (i >= 1) && pos_is(&tokens[i - 1], "VCP");
    ((c91 && c92) && c93)
}

/// The token [`p155b`] puts at `i`.
fn p155b_t_exec(tokens: &Vec<SejongToken>, i: usize) -> (t: SejongToken)
    requires
        i < tokens@.len(),
        p155b_c(tokens_view(tokens@), i as int),
    ensures
        t@ == p155b_t(tokens_view(tokens@), i as int),
{
    assert(tokens_view(tokens@).len() == tokens@.len());
    let s95 = owned("EF");
    let mut t94 = tokens[i].duplicate();
    t94.pos = s95;
    t94
}

/// 다/NNG after the copula is the final ending 다/EF.
pub fn apply_p155b(tokens: &mut Vec<SejongToken>)
    ensures
        tokens_view(final(tokens)@) == p155b(tokens_view(old(tokens)@)),
{
    let ghost orig = tokens_view(tokens@);
    let mut out: Vec<SejongToken> = Vec::new();
    let mut k: usize = 0;
    while k < tokens.len()
        invariant
            k <= tokens@.len(),
            orig == tokens_view(tokens@),
            tokens_view(out@) == p155b(orig).take(k as int),
        decreases tokens@.len() - k,
    {
        let t = if p155b_c_exec(tokens, k) { p155b_t_exec(tokens, k) } else { tokens[k].duplicate() };
        push_token(&mut out, t);
        k += 1;
        assert(tokens_view(out@) =~= p155b(orig).take(k as int));
    }
    assert(p155b(orig).take(k as int) =~= p155b(orig));
    *tokens = out;
}

/// Where [`p156`] changes a token.
pub open spec fn p156_c(ts: Seq<TokenView>, i: int) -> bool {
    ((0 <= i < ts.len() && ts[i].pos == "NNG"@) && (0 <= i < ts.len() && seq!["얼마"@, "뭐"@, "무엇"@, "누구"@, "어디"@, "언제"@, "어느"@, "왜"@, "어떻게"@].contains(ts[i].surface)))
}

/// The token [`p156`] puts at `i`.
pub open spec fn p156_t(ts: Seq<TokenView>, i: int) -> TokenView {
    TokenView { pos: "NP"@, ..ts[i] }
}

/// Interrogatives analysed as common nouns are pronouns (NP).
pub open spec fn p156(ts: Seq<TokenView>) -> Seq<TokenView> {
    map_where(ts, |ts: Seq<TokenView>, i: int| p156_c(ts, i), |ts: Seq<TokenView>, i: int| p156_t(ts, i))
}

/// Whether [`p156`] changes the token at `i`.
fn p156_c_exec(tokens: &Vec<SejongToken>, i: usize) -> (r: bool)
    requires
        i < tokens@.len(),
    ensures
        r == p156_c(tokens_view(tokens@), i as int),
{
    assert(tokens_view(tokens@).len() == tokens@.len());
    let c96 = pos_is(&tokens[i], "NNG");
    let l98: [&str; 9] = ["얼마", "뭐", "무엇", "누구", "어디", "언제", "어느", "왜", "어떻게"];
    assert(crate::tag_map::strs_view(l98@) =~= seq!["얼마"@, "뭐"@, "무엇"@, "누구"@, "어디"@, "언제"@, "어느"@, "왜"@, "어떻게"@]);
    let c97 = in_list(&l98, tokens[i].surface.as_str());
    (c96 && c97)
}

/// The token [`p156`] puts at `i`.
fn p156_t_exec(tokens: &Vec<SejongToken>, i: usize) -> (t: SejongToken)
    requires
        i < tokens@.len(),
        p156_c(tokens_view(tokens@), i as int),
    ensures
        t@ == p156_t(tokens_view(tokens@), i as int),
{
    assert(tokens_view(tokens@).len() == tokens@.len());
    let s100 = owned("NP");
    let mut t99 = tokens[i].duplicate();
    t99.pos = s100;
    t99
}

/// Interrogatives analysed as common nouns are pronouns (NP).
pub fn apply_p156(tokens: &mut Vec<SejongToken>)
    ensures
        tokens_view(final(tokens)@) == p156(tokens_view(old(tokens)@)),
{
    let ghost orig = tokens_view(tokens@);
    let mut out: Vec<SejongToken> = Vec::new();
    let mut k: usize = 0;
    while k < tokens.len()
        invariant
            k <= tokens@.len(),
            orig == tokens_view(tokens@),
            tokens_view(out@) == p156(orig).take(k as int),
        decreases tokens@.len() - k,
    {
        let t = if p156_c_exec(tokens, k) { p156_t_exec(tokens, k) } else { tokens[k].duplicate() };
        push_token(&mut out, t);
        k += 1;
        assert(tokens_view(out@) =~= p156(orig).take(k as int));
    }
    assert(p156(orig).take(k as int) =~= p156(orig));
    *tokens = out;
}

/// Where [`p157`] changes a token.
pub open spec fn p157_c(ts: Seq<TokenView>, i: int) -> bool {
    ((0 <= i < ts.len() && ts[i].surface == "ㅓㅆ"@) && (0 <= i < ts.len() && ts[i].pos == "EP"@))
}

/// The token [`p157`] puts at `i`.
pub open spec fn p157_t(ts: Seq<TokenView>, i: int) -> TokenView {
    TokenView { surface: "었"@, ..ts[i] }
}

/// The pre-final ending ㅓㅆ is written 었.
pub open spec fn p157(ts: Seq<TokenView>) -> Seq<TokenView> {
    map_where(ts, |ts: Seq<TokenView>, i: int| p157_c(ts, i), |ts: Seq<TokenView>, i: int| p157_t(ts, i))
}

/// Whether [`p157`] changes the token at `i`.
fn p157_c_exec(tokens: &Vec<SejongToken>, i: usize) -> (r: bool)
    requires
        i < tokens@.len(),
    ensures
        r == p157_c(tokens_view(tokens@), i as int),
{
    assert(tokens_view(tokens@).len() == tokens@.len());
    let c101 = surf_is(&tokens[i], "ㅓㅆ");
    let c102 = pos_is(&tokens[i], "EP");
    (c101 && c102)
}

/// The token [`p157`] puts at `i`.
fn p157_t_exec(tokens: &Vec<SejongToken>, i: usize) -> (t: SejongToken)
    requires
        i < tokens@.len(),
        p157_c(tokens_view(tokens@), i as int),
    ensures
        t@ == p157_t(tokens_view(tokens@), i as int),
{
    assert(tokens_view(tokens@).len() == tokens@.len());
    let s104 = owned("었");
    let mut t103 = tokens[i].duplicate();
    t103.surface = s104;
    t103
}

/// The pre-final ending ㅓㅆ is written 었.
pub fn apply_p157(tokens: &mut Vec<SejongToken>)
    ensures
        tokens_view(final(tokens)@) == p157(tokens_view(old(tokens)@)),
{
    let ghost orig = tokens_view(tokens@);
    let mut out: Vec<SejongToken> = Vec::new();
    let mut k: usize = 0;
    while k < tokens.len()
        invariant
            k <= tokens@.len(),
            orig == tokens_view(tokens@),
            tokens_view(out@) == p157(orig).take(k as int),
        decreases tokens@.len() - k,
    {
        let t = if p157_c_exec(tokens, k) { p157_t_exec(tokens, k) } else { tokens[k].duplicate() };
        push_token(&mut out, t);
        k += 1;
        assert(tokens_view(out@) =~= p157(orig).take(k as int));
    }
    assert(p157(orig).take(k as int) =~= p157(orig));
    *tokens = out;
}

/// Where [`p157b`] changes a token.
pub open spec fn p157b_c(ts: Seq<TokenView>, i: int) -> bool {
    ((0 <= i < ts.len() && ts[i].surface == "ㅏㅆ"@) && (0 <= i < ts.len() && ts[i].pos == "EP"@))
}

/// The token [`p157b`] puts at `i`.
pub open spec fn p157b_t(ts: Seq<TokenView>, i: int) -> TokenView {
    TokenView { surface: "았"@, ..ts[i] }
}

/// The pre-final ending ㅏㅆ is written 았.
pub open spec fn p157b(ts: Seq<TokenView>) -> Seq<TokenView> {
    map_where(ts, |ts: Seq<TokenView>, i: int| p157b_c(ts, i), |ts: Seq<TokenView>, i: int| p157b_t(ts, i))
}

/// Whether [`p157b`] changes the token at `i`.
fn p157b_c_exec(tokens: &Vec<SejongToken>, i: usize) -> (r: bool)
    requires
        i < tokens@.len(),
    ensures
        r == p157b_c(tokens_view(tokens@), i as int),
{
    assert(tokens_view(tokens@).len() == tokens@.len());
    let c105 = surf_is(&tokens[i], "ㅏㅆ");
    let c106 = pos_is(&tokens[i], "EP");
    (c105 && c106)
}

/// The token [`p157b`] puts at `i`.
fn p157b_t_exec(tokens: &Vec<SejongToken>, i: usize) -> (t: SejongToken)
    requires
        i < tokens@.len(),
        p157b_c(tokens_view(tokens@), i as int),
    ensures
        t@ == p157b_t(tokens_view(tokens@), i as int),
{
    assert(tokens_view(tokens@).len() == tokens@.len());
    let s108 = owned("았");
    let mut t107 = tokens[i].duplicate();
    t107.surface = s108;
    t107
}

/// The pre-final ending ㅏㅆ is written 았.
pub fn apply_p157b(tokens: &mut Vec<SejongToken>)
    ensures
        tokens_view(final(tokens)@) == p157b(tokens_view(old(tokens)@)),
{
    let ghost orig = tokens_view(tokens@);
    let mut out: Vec<SejongToken> = Vec::new();
    let mut k: usize = 0;
    while k < tokens.len()
        invariant
            k <= tokens@.len(),
            orig == tokens_view(tokens@),
            tokens_view(out@) == p157b(orig).take(k as int),
        decreases tokens@.len() - k,
    {
        let t = if p157b_c_exec(tokens, k) { p157b_t_exec(tokens, k) } else { tokens[k].duplicate() };
        push_token(&mut out, t);
        k += 1;
        assert(tokens_view(out@) =~= p157b(orig).take(k as int));
    }
    assert(p157b(orig).take(k as int) =~= p157b(orig));
    *tokens = out;
}

/// Where rule 0 of [`p158`] applies.
pub open spec fn p158_c0(ts: Seq<TokenView>, i: int) -> bool {
    ((0 <= i < ts.len() && seq!["재미"@, "맛"@, "멋"@, "값"@, "뜻"@, "힘"@, "흥미"@, "의미"@, "가치"@, "효과"@, "보람"@, "관심"@, "정"@, "맥"@, "볼"@].contains(ts[i].surface)) && (0 <= i < ts.len() && ts[i].pos == "NNG"@) && (0 <= i + 1 < ts.len() && seq!["있"@, "없"@].contains(ts[i + 1].surface)) && (0 <= i + 1 < ts.len() && seq!["VV"@, "VX"@].contains(ts[i + 1].pos)))
}

/// One step of [`p158`] at `i`: the list after it and the next position.
pub open spec fn p158_step(ts: Seq<TokenView>, i: int) -> (Seq<TokenView>, int) {
    if p158_c0(ts, i) {
        (splice(ts, i, 2, seq![plain_view((ts[i].surface + ts[i + 1].surface), "VA"@, ts[i].start_pos, ts[i + 1].end_pos)]), i + 1)
    } else {
        (ts, i + 1)
    }
}

/// [`p158_step`] as a function value.
pub open spec fn p158_f() -> spec_fn(Seq<TokenView>, int) -> (Seq<TokenView>, int) {
    |ts: Seq<TokenView>, i: int| p158_step(ts, i)
}

/// A noun with 있 or 없 tagged VV or VX is one adjective (재미/NNG 있/VV → 재미있/VA).
pub open spec fn p158(ts: Seq<TokenView>) -> Seq<TokenView> {
    scan(ts, 0, p158_f())
}

/// Whether rule 0 of [`p158`] applies at `i`.
fn p158_c0_exec(tokens: &Vec<SejongToken>, i: usize) -> (r: bool)
    requires
        i < tokens@.len(),
    ensures
        r == p158_c0(tokens_view(tokens@), i as int),
{
    assert(tokens_view(tokens@).len() == tokens@.len());
    let l110: [&str; 15] = ["재미", "맛", "멋", "값", "뜻", "힘", "흥미", "의미", "가치", "효과", "보람", "관심", "정", "맥", "볼"];
    assert(crate::tag_map::strs_view(l110@) =~= seq!["재미"@, "맛"@, "멋"@, "값"@, "뜻"@, "힘"@, "흥미"@, "의미"@, "가치"@, "효과"@, "보람"@, "관심"@, "정"@, "맥"@, "볼"@]);
    let c109 = in_list(&l110, tokens[i].surface.as_str());
    let c111 = pos_is(&tokens[i], "NNG");
    let l113: [&str; 2] = ["있", "없"];
    assert(crate::tag_map::strs_view(l113@) =~= seq!["있"@, "없"@]);
    let c112 = (tokens.len() - i > 1) && in_list(&l113, tokens[i + 1].surface.as_str());
    let l115: [&str; 2] = ["VV", "VX"];
    assert(crate::tag_map::strs_view(l115@) =~= seq!["VV"@, "VX"@]);
    let c114 = (tokens.len() - i > 1) && in_list(&l115, tokens[i + 1].pos.as_str());
    (c109 && c111 && c112 && c114)
}

/// One step of [`p158`] at `i`; returns the next position.
fn p158_step_exec(tokens: &mut Vec<SejongToken>, i: usize) -> (next: usize)
    requires
        i < old(tokens)@.len(),
    ensures
        (tokens_view(final(tokens)@), next as int) == p158_step(tokens_view(old(tokens)@), i as int),
        final(tokens)@.len() - next < old(tokens)@.len() - i,
        next <= final(tokens)@.len() + 1,
{
    let len0 = tokens.len();
    assert(tokens_view(tokens@).len() == tokens@.len());
    if p158_c0_exec(tokens, i) {
        let s118 = tokens[i].surface.clone();
        let s119 = tokens[i + 1].surface.clone();
        let s117 = concat(s118.as_str(), s119.as_str());
        let s120 = owned("VA");
        let n121 = tokens[i].start_pos;
        let n122 = tokens[i + 1].end_pos;
        let t116 = SejongToken::new(s117.as_str(), s120.as_str(), n121, n122);
        let mut nv123: Vec<SejongToken> = Vec::new();
        push_token(&mut nv123, t116);
        splice_tokens(tokens, i, 2, nv123);
        let _len1 = tokens.len();
        return i + 1;
    }
    i + 1
}

/// A noun with 있 or 없 tagged VV or VX is one adjective (재미/NNG 있/VV → 재미있/VA).
pub fn apply_p158(tokens: &mut Vec<SejongToken>)
    ensures
        tokens_view(final(tokens)@) == p158(tokens_view(old(tokens)@)),
{
    let ghost orig = tokens_view(tokens@);
    let mut i: usize = 0;
    while i < tokens.len()
        invariant
            i <= tokens@.len() + 1,
            scan(tokens_view(tokens@), i as int, p158_f()) == scan(orig, 0, p158_f()),
        decreases tokens@.len() + 1 - i,
    {
        let ghost before = tokens_view(tokens@);
        assert(before.len() == tokens@.len());
        i = p158_step_exec(tokens, i);
        assert(tokens_view(tokens@).len() == tokens@.len());
    }
}

/// Where rule 0 of [`p159`] applies.
pub open spec fn p159_c0(ts: Seq<TokenView>, i: int) -> bool {
    (((0 <= i < ts.len() && ts[i].surface == "ㄹ"@) && (0 <= i < ts.len() && ts[i].pos == "ETM"@)) && (0 <= i - 1 < ts.len() && ts[i - 1].pos == "VA"@) && (0 <= i + 1 < ts.len() && ts[i + 1].pos == "EF"@))
}

/// One step of [`p159`] at `i`: the list after it and the next position.
pub open spec fn p159_step(ts: Seq<TokenView>, i: int) -> (Seq<TokenView>, int) {
    if p159_c0(ts, i) {
        (splice(ts, i, 1, seq![]), i + 1)
    } else {
        (ts, i + 1)
    }
}

/// [`p159_step`] as a function value.
pub open spec fn p159_f() -> spec_fn(Seq<TokenView>, int) -> (Seq<TokenView>, int) {
    |ts: Seq<TokenView>, i: int| p159_step(ts, i)
}

/// ㄹ/ETM between an adjective and a final ending is dropped.
pub open spec fn p159(ts: Seq<TokenView>) -> Seq<TokenView> {
    scan(ts, 0, p159_f())
}

/// Whether rule 0 of [`p159`] applies at `i`.
fn p159_c0_exec(tokens: &Vec<SejongToken>, i: usize) -> (r: bool)
    requires
        i < tokens@.len(),
    ensures
        r == p159_c0(tokens_view(tokens@), i as int),
{
    assert(tokens_view(tokens@).len() == tokens@.len());
    let c124 = surf_is(&tokens[i], "ㄹ");
    let c125 = pos_is(&tokens[i], "ETM");
    let c126 = (i >= 1) && pos_is(&tokens[i - 1], "VA");
    let c127 = (tokens.len() - i > 1) && pos_is(&tokens[i + 1], "EF");
    ((c124 && c125) && c126 && c127)
}

/// One step of [`p159`] at `i`; returns the next position.
fn p159_step_exec(tokens: &mut Vec<SejongToken>, i: usize) -> (next: usize)
    requires
        i < old(tokens)@.len(),
    ensures
        (tokens_view(final(tokens)@), next as int) == p159_step(tokens_view(old(tokens)@), i as int),
        final(tokens)@.len() - next < old(tokens)@.len() - i,
        next <= final(tokens)@.len() + 1,
{
    let len0 = tokens.len();
    assert(tokens_view(tokens@).len() == tokens@.len());
    if p159_c0_exec(tokens, i) {
        let mut nv128: Vec<SejongToken> = Vec::new();
        splice_tokens(tokens, i, 1, nv128);
        let _len1 = tokens.len();
        return i + 1;
    }
    i + 1
}

/// ㄹ/ETM between an adjective and a final ending is dropped.
pub fn apply_p159(tokens: &mut Vec<SejongToken>)
    ensures
        tokens_view(final(tokens)@) == p159(tokens_view(old(tokens)@)),
{
    let ghost orig = tokens_view(tokens@);
    let mut i: usize = 0;
    while i < tokens.len()
        invariant
            i <= tokens@.len() + 1,
            scan(tokens_view(tokens@), i as int, p159_f()) == scan(orig, 0, p159_f()),
        decreases tokens@.len() + 1 - i,
    {
        let ghost before = tokens_view(tokens@);
        assert(before.len() == tokens@.len());
        i = p159_step_exec(tokens, i);
        assert(tokens_view(tokens@).len() == tokens@.len());
    }
}

/// Where rule 0 of [`p160`] applies.
pub open spec fn p160_c0(ts: Seq<TokenView>, i: int) -> bool {
    ((0 <= i - 1 < ts.len() && ts[i - 1].pos == "VV"@) && ((0 <= i < ts.len() && ts[i].surface == "어디"@) && (0 <= i < ts.len() && ts[i].pos == "NP"@)) && ((0 <= i + 1 < ts.len() && ts[i + 1].surface == "서"@) && (0 <= i + 1 < ts.len() && ts[i + 1].pos == "JKB"@)))
}

/// One step of [`p160`] at `i`: the list after it and the next position.
pub open spec fn p160_step(ts: Seq<TokenView>, i: int) -> (Seq<TokenView>, int) {
    if p160_c0(ts, i) {
        (splice(ts, i, 2, seq![plain_view("어서"@, "EC"@, ts[i].start_pos, ts[i + 1].end_pos)]), i + 1)
    } else {
        (ts, i + 1)
    }
}

/// [`p160_step`] as a function value.
pub open spec fn p160_f() -> spec_fn(Seq<TokenView>, int) -> (Seq<TokenView>, int) {
    |ts: Seq<TokenView>, i: int| p160_step(ts, i)
}

/// 어디/NP 서/JKB after a verb is the connective ending 어서/EC.
pub open spec fn p160(ts: Seq<TokenView>) -> Seq<TokenView> {
    scan(ts, 0, p160_f())
}

/// Whether rule 0 of [`p160`] applies at `i`.
fn p160_c0_exec(tokens: &Vec<SejongToken>, i: usize) -> (r: bool)
    requires
        i < tokens@.len(),
    ensures
        r == p160_c0(tokens_view(tokens@), i as int),
{
    assert(tokens_view(tokens@).len() == tokens@.len());
    let c129 = (i >= 1) && pos_is(&tokens[i - 1], "VV");
    let c130 = surf_is(&tokens[i], "어디");
    let c131 = pos_is(&tokens[i], "NP");
    let c132 = (tokens.len() - i > 1) && surf_is(&tokens[i + 1], "서");
    let c133 = (tokens.len() - i > 1) && pos_is(&tokens[i + 1], "JKB");
    (c129 && (c130 && c131) && (c132 && c133))
}

/// One step of [`p160`] at `i`; returns the next position.
fn p160_step_exec(tokens: &mut Vec<SejongToken>, i: usize) -> (next: usize)
    requires
        i < old(tokens)@.len(),
    ensures
        (tokens_view(final(tokens)@), next as int) == p160_step(tokens_view(old(tokens)@), i as int),
        final(tokens)@.len() - next < old(tokens)@.len() - i,
        next <= final(tokens)@.len() + 1,
{
    let len0 = tokens.len();
    assert(tokens_view(tokens@).len() == tokens@.len());
    if p160_c0_exec(tokens, i) {
        let s135 = owned("어서");
        let s136 = owned("EC");
        let n137 = tokens[i].start_pos;
        let n138 = tokens[i + 1].end_pos;
        let t134 = SejongToken::new(s135.as_str(), s136.as_str(), n137, n138);
        let mut nv139: Vec<SejongToken> = Vec::new();
        push_token(&mut nv139, t134);
        splice_tokens(tokens, i, 2, nv139);
        let _len1 = tokens.len();
        return i + 1;
    }
    i + 1
}

/// 어디/NP 서/JKB after a verb is the connective ending 어서/EC.
pub fn apply_p160(tokens: &mut Vec<SejongToken>)
    ensures
        tokens_view(final(tokens)@) == p160(tokens_view(old(tokens)@)),
{
    let ghost orig = tokens_view(tokens@);
    let mut i: usize = 0;
    while i < tokens.len()
        invariant
            i <= tokens@.len() + 1,
            scan(tokens_view(tokens@), i as int, p160_f()) == scan(orig, 0, p160_f()),
        decreases tokens@.len() + 1 - i,
    {
        let ghost before = tokens_view(tokens@);
        assert(before.len() == tokens@.len());
        i = p160_step_exec(tokens, i);
        assert(tokens_view(tokens@).len() == tokens@.len());
    }
}

/// Where [`p161`] changes a token.
pub open spec fn p161_c(ts: Seq<TokenView>, i: int) -> bool {
    ((0 <= i < ts.len() && seq!["EC"@, "IC"@].contains(ts[i].pos)) && (0 <= i < ts.len() && seq!["ㅏ"@, "아"@].contains(ts[i].surface)) && !(0 <= i + 1 < ts.len() && true))
}

/// The token [`p161`] puts at `i`.
pub open spec fn p161_t(ts: Seq<TokenView>, i: int) -> TokenView {
    TokenView { surface: "아"@, pos: "EF"@, ..ts[i] }
}

/// A final ㅏ or 아 tagged EC or IC is the final ending 아/EF.
pub open spec fn p161(ts: Seq<TokenView>) -> Seq<TokenView> {
    map_where(ts, |ts: Seq<TokenView>, i: int| p161_c(ts, i), |ts: Seq<TokenView>, i: int| p161_t(ts, i))
}

/// Whether [`p161`] changes the token at `i`.
fn p161_c_exec(tokens: &Vec<SejongToken>, i: usize) -> (r: bool)
    requires
        i < tokens@.len(),
    ensures
        r == p161_c(tokens_view(tokens@), i as int),
{
    assert(tokens_view(tokens@).len() == tokens@.len());
    let l141: [&str; 2] = ["EC", "IC"];
    assert(crate::tag_map::strs_view(l141@) =~= seq!["EC"@, "IC"@]);
    let c140 = in_list(&l141, tokens[i].pos.as_str());
    let l143: [&str; 2] = ["ㅏ", "아"];
    assert(crate::tag_map::strs_view(l143@) =~= seq!["ㅏ"@, "아"@]);
    let c142 = in_list(&l143, tokens[i].surface.as_str());
    let c144 = (tokens.len() - i > 1) && true;
    (c140 && c142 && !c144)
}

/// The token [`p161`] puts at `i`.
fn p161_t_exec(tokens: &Vec<SejongToken>, i: usize) -> (t: SejongToken)
    requires
        i < tokens@.len(),
        p161_c(tokens_view(tokens@), i as int),
    ensures
        t@ == p161_t(tokens_view(tokens@), i as int),
{
    assert(tokens_view(tokens@).len() == tokens@.len());
    let s146 = owned("아");
    let s147 = owned("EF");
    let mut t145 = tokens[i].duplicate();
    t145.surface = s146;
    t145.pos = s147;
    t145
}

/// A final ㅏ or 아 tagged EC or IC is the final ending 아/EF.
pub fn apply_p161(tokens: &mut Vec<SejongToken>)
    ensures
        tokens_view(final(tokens)@) == p161(tokens_view(old(tokens)@)),
{
    let ghost orig = tokens_view(tokens@);
    let mut out: Vec<SejongToken> = Vec::new();
    let mut k: usize = 0;
    while k < tokens.len()
        invariant
            k <= tokens@.len(),
            orig == tokens_view(tokens@),
            tokens_view(out@) == p161(orig).take(k as int),
        decreases tokens@.len() - k,
    {
        let t = if p161_c_exec(tokens, k) { p161_t_exec(tokens, k) } else { tokens[k].duplicate() };
        push_token(&mut out, t);
        k += 1;
        assert(tokens_view(out@) =~= p161(orig).take(k as int));
    }
    assert(p161(orig).take(k as int) =~= p161(orig));
    *tokens = out;
}

/// Where [`p161b`] changes a token.
pub open spec fn p161b_c(ts: Seq<TokenView>, i: int) -> bool {
    ((0 <= i < ts.len() && seq!["EC"@, "IC"@].contains(ts[i].pos)) && (0 <= i < ts.len() && seq!["ㅓ"@, "어"@].contains(ts[i].surface)) && !(0 <= i + 1 < ts.len() && true))
}

/// The token [`p161b`] puts at `i`.
pub open spec fn p161b_t(ts: Seq<TokenView>, i: int) -> TokenView {
    TokenView { surface: "어"@, pos: "EF"@, ..ts[i] }
}

/// A final ㅓ or 어 tagged EC or IC is the final ending 어/EF.
pub open spec fn p161b(ts: Seq<TokenView>) -> Seq<TokenView> {
    map_where(ts, |ts: Seq<TokenView>, i: int| p161b_c(ts, i), |ts: Seq<TokenView>, i: int| p161b_t(ts, i))
}

/// Whether [`p161b`] changes the token at `i`.
fn p161b_c_exec(tokens: &Vec<SejongToken>, i: usize) -> (r: bool)
    requires
        i < tokens@.len(),
    ensures
        r == p161b_c(tokens_view(tokens@), i as int),
{
    assert(tokens_view(tokens@).len() == tokens@.len());
    let l149: [&str; 2] = ["EC", "IC"];
    assert(crate::tag_map::strs_view(l149@) =~= seq!["EC"@, "IC"@]);
    let c148 = in_list(&l149, tokens[i].pos.as_str());
    let l151: [&str; 2] = ["ㅓ", "어"];
    assert(crate::tag_map::strs_view(l151@) =~= seq!["ㅓ"@, "어"@]);
    let c150 = in_list(&l151, tokens[i].surface.as_str());
    let c152 = (tokens.len() - i > 1) && true;
    (c148 && c150 && !c152)
}

/// The token [`p161b`] puts at `i`.
fn p161b_t_exec(tokens: &Vec<SejongToken>, i: usize) -> (t: SejongToken)
    requires
        i < tokens@.len(),
        p161b_c(tokens_view(tokens@), i as int),
    ensures
        t@ == p161b_t(tokens_view(tokens@), i as int),
{
    assert(tokens_view(tokens@).len() == tokens@.len());
    let s154 = owned("어");
    let s155 = owned("EF");
    let mut t153 = tokens[i].duplicate();
    t153.surface = s154;
    t153.pos = s155;
    t153
}

/// A final ㅓ or 어 tagged EC or IC is the final ending 어/EF.
pub fn apply_p161b(tokens: &mut Vec<SejongToken>)
    ensures
        tokens_view(final(tokens)@) == p161b(tokens_view(old(tokens)@)),
{
    let ghost orig = tokens_view(tokens@);
    let mut out: Vec<SejongToken> = Vec::new();
    let mut k: usize = 0;
    while k < tokens.len()
        invariant
            k <= tokens@.len(),
            orig == tokens_view(tokens@),
            tokens_view(out@) == p161b(orig).take(k as int),
        decreases tokens@.len() - k,
    {
        let t = if p161b_c_exec(tokens, k) { p161b_t_exec(tokens, k) } else { tokens[k].duplicate() };
        push_token(&mut out, t);
        k += 1;
        assert(tokens_view(out@) =~= p161b(orig).take(k as int));
    }
    assert(p161b(orig).take(k as int) =~= p161b(orig));
    *tokens = out;
}

/// Where [`p265`] changes a token.
pub open spec fn p265_c(ts: Seq<TokenView>, i: int) -> bool {
    (((0 <= i < ts.len() && ts[i].surface == "네"@) && (0 <= i < ts.len() && ts[i].pos == "IC"@)) && !(0 <= i + 1 < ts.len() && true) && (0 <= i - 1 < ts.len() && seq!["VV"@, "VA"@, "VX"@].contains(ts[i - 1].pos)))
}

/// The token [`p265`] puts at `i`.
pub open spec fn p265_t(ts: Seq<TokenView>, i: int) -> TokenView {
    TokenView { pos: "EF"@, ..ts[i] }
}

/// A final 네/IC after a verb, adjective or auxiliary is the final ending 네/EF.
pub open spec fn p265(ts: Seq<TokenView>) -> Seq<TokenView> {
    map_where(ts, |ts: Seq<TokenView>, i: int| p265_c(ts, i), |ts: Seq<TokenView>, i: int| p265_t(ts, i))
}

/// Whether [`p265`] changes the token at `i`.
fn p265_c_exec(tokens: &Vec<SejongToken>, i: usize) -> (r: bool)
    requires
        i < tokens@.len(),
    ensures
        r == p265_c(tokens_view(tokens@), i as int),
{
    assert(tokens_view(tokens@).len() == tokens@.len());
    let c156 = surf_is(&tokens[i], "네");
    let c157 = pos_is(&tokens[i], "IC");
    let c158 = (tokens.len() - i > 1) && true;
    let l160: [&str; 3] = ["VV", "VA", "VX"];
    assert(crate::tag_map::strs_view(l160@) =~= seq!["VV"@, "VA"@, "VX"@]);
    let c159 = (i >= 1) && in_list(&l160, tokens[i - 1].pos.as_str());
    ((c156 && c157) && !c158 && c159)
}

/// The token [`p265`] puts at `i`.
fn p265_t_exec(tokens: &Vec<SejongToken>, i: usize) -> (t: SejongToken)
    requires
        i < tokens@.len(),
        p265_c(tokens_view(tokens@), i as int),
    ensures
        t@ == p265_t(tokens_view(tokens@), i as int),
{
    assert(tokens_view(tokens@).len() == tokens@.len());
    let s162 = owned("EF");
    let mut t161 = tokens[i].duplicate();
    t161.pos = s162;
    t161
}

/// A final 네/IC after a verb, adjective or auxiliary is the final ending 네/EF.
pub fn apply_p265(tokens: &mut Vec<SejongToken>)
    ensures
        tokens_view(final(tokens)@) == p265(tokens_view(old(tokens)@)),
{
    let ghost orig = tokens_view(tokens@);
    let mut out: Vec<SejongToken> = Vec::new();
    let mut k: usize = 0;
    while k < tokens.len()
        invariant
            k <= tokens@.len(),
            orig == tokens_view(tokens@),
            tokens_view(out@) == p265(orig).take(k as int),
        decreases tokens@.len() - k,
    {
        let t = if p265_c_exec(tokens, k) { p265_t_exec(tokens, k) } else { tokens[k].duplicate() };
        push_token(&mut out, t);
        k += 1;
        assert(tokens_view(out@) =~= p265(orig).take(k as int));
    }
    assert(p265(orig).take(k as int) =~= p265(orig));
    *tokens = out;
}

/// Where [`p163`] changes a token.
pub open spec fn p163_c(ts: Seq<TokenView>, i: int) -> bool {
    ((0 <= i < ts.len() && ts[i].pos == "EF"@) && (0 <= i < ts.len() && seq!["ㅔ요"@, "ㅐ요"@, "ㅔ"@, "ㅐ"@].contains(ts[i].surface)))
}

/// The token [`p163`] puts at `i`.
pub open spec fn p163_t(ts: Seq<TokenView>, i: int) -> TokenView {
    TokenView { surface: (if (0 <= i < ts.len() && ts[i].surface == "ㅔ요"@) { "에요"@ } else { (if (0 <= i < ts.len() && ts[i].surface == "ㅐ요"@) { "애요"@ } else { (if (0 <= i < ts.len() && ts[i].surface == "ㅔ"@) { "에"@ } else { "애"@ }) }) }), ..ts[i] }
}

/// Final endings written with a bare vowel are written with ㅇ (ㅔ요 → 에요, ㅐ요 → 애요, ㅔ → 에, ㅐ → 애).
pub open spec fn p163(ts: Seq<TokenView>) -> Seq<TokenView> {
    map_where(ts, |ts: Seq<TokenView>, i: int| p163_c(ts, i), |ts: Seq<TokenView>, i: int| p163_t(ts, i))
}

/// Whether [`p163`] changes the token at `i`.
fn p163_c_exec(tokens: &Vec<SejongToken>, i: usize) -> (r: bool)
    requires
        i < tokens@.len(),
    ensures
        r == p163_c(tokens_view(tokens@), i as int),
{
    assert(tokens_view(tokens@).len() == tokens@.len());
    let c163 = pos_is(&tokens[i], "EF");
    let l165: [&str; 4] = ["ㅔ요", "ㅐ요", "ㅔ", "ㅐ"];
    assert(crate::tag_map::strs_view(l165@) =~= seq!["ㅔ요"@, "ㅐ요"@, "ㅔ"@, "ㅐ"@]);
    let c164 = in_list(&l165, tokens[i].surface.as_str());
    (c163 && c164)
}

/// The token [`p163`] puts at `i`.
fn p163_t_exec(tokens: &Vec<SejongToken>, i: usize) -> (t: SejongToken)
    requires
        i < tokens@.len(),
        p163_c(tokens_view(tokens@), i as int),
    ensures
        t@ == p163_t(tokens_view(tokens@), i as int),
{
    assert(tokens_view(tokens@).len() == tokens@.len());
    let c167 = surf_is(&tokens[i], "ㅔ요");
    let c168 = surf_is(&tokens[i], "ㅐ요");
    let c169 = surf_is(&tokens[i], "ㅔ");
    let s170 = if c167 { let s171 = owned("에요"); s171 } else if c168 { let s172 = owned("애요"); s172 } else if c169 { let s173 = owned("에"); s173 } else { let s174 = owned("애"); s174 };
    let mut t166 = tokens[i].duplicate();
    t166.surface = s170;
    t166
}

/// Final endings written with a bare vowel are written with ㅇ (ㅔ요 → 에요, ㅐ요 → 애요, ㅔ → 에, ㅐ → 애).
pub fn apply_p163(tokens: &mut Vec<SejongToken>)
    ensures
        tokens_view(final(tokens)@) == p163(tokens_view(old(tokens)@)),
{
    let ghost orig = tokens_view(tokens@);
    let mut out: Vec<SejongToken> = Vec::new();
    let mut k: usize = 0;
    while k < tokens.len()
        invariant
            k <= tokens@.len(),
            orig == tokens_view(tokens@),
            tokens_view(out@) == p163(orig).take(k as int),
        decreases tokens@.len() - k,
    {
        let t = if p163_c_exec(tokens, k) { p163_t_exec(tokens, k) } else { tokens[k].duplicate() };
        push_token(&mut out, t);
        k += 1;
        assert(tokens_view(out@) =~= p163(orig).take(k as int));
    }
    assert(p163(orig).take(k as int) =~= p163(orig));
    *tokens = out;
}

/// Where [`p204`] changes a token.
pub open spec fn p204_c(ts: Seq<TokenView>, i: int) -> bool {
    ((0 <= i < ts.len() && ts[i].pos == "EC"@) && (0 <= i < ts.len() && seq!["ᆫ데요"@, "ㄴ데요"@].contains(ts[i].surface)) && !(0 <= i + 1 < ts.len() && true))
}

/// The token [`p204`] puts at `i`.
pub open spec fn p204_t(ts: Seq<TokenView>, i: int) -> TokenView {
    TokenView { surface: "ㄴ데요"@, pos: "EF"@, ..ts[i] }
}

/// A final ᆫ데요/EC or ㄴ데요/EC is the final ending ㄴ데요/EF.
pub open spec fn p204(ts: Seq<TokenView>) -> Seq<TokenView> {
    map_where(ts, |ts: Seq<TokenView>, i: int| p204_c(ts, i), |ts: Seq<TokenView>, i: int| p204_t(ts, i))
}

/// Whether [`p204`] changes the token at `i`.
fn p204_c_exec(tokens: &Vec<SejongToken>, i: usize) -> (r: bool)
    requires
        i < tokens@.len(),
    ensures
        r == p204_c(tokens_view(tokens@), i as int),
{
    assert(tokens_view(tokens@).len() == tokens@.len());
    let c175 = pos_is(&tokens[i], "EC");
    let l177: [&str; 2] = ["ᆫ데요", "ㄴ데요"];
    assert(crate::tag_map::strs_view(l177@) =~= seq!["ᆫ데요"@, "ㄴ데요"@]);
    let c176 = in_list(&l177, tokens[i].surface.as_str());
    let c178 = (tokens.len() - i > 1) && true;
    (c175 && c176 && !c178)
}

/// The token [`p204`] puts at `i`.
fn p204_t_exec(tokens: &Vec<SejongToken>, i: usize) -> (t: SejongToken)
    requires
        i < tokens@.len(),
        p204_c(tokens_view(tokens@), i as int),
    ensures
        t@ == p204_t(tokens_view(tokens@), i as int),
{
    assert(tokens_view(tokens@).len() == tokens@.len());
    let s180 = owned("ㄴ데요");
    let s181 = owned("EF");
    let mut t179 = tokens[i].duplicate();
    t179.surface = s180;
    t179.pos = s181;
    t179
}

/// A final ᆫ데요/EC or ㄴ데요/EC is the final ending ㄴ데요/EF.
pub fn apply_p204(tokens: &mut Vec<SejongToken>)
    ensures
        tokens_view(final(tokens)@) == p204(tokens_view(old(tokens)@)),
{
    let ghost orig = tokens_view(tokens@);
    let mut out: Vec<SejongToken> = Vec::new();
    let mut k: usize = 0;
    while k < tokens.len()
        invariant
            k <= tokens@.len(),
            orig == tokens_view(tokens@),
            tokens_view(out@) == p204(orig).take(k as int),
        decreases tokens@.len() - k,
    {
        let t = if p204_c_exec(tokens, k) { p204_t_exec(tokens, k) } else { tokens[k].duplicate() };
        push_token(&mut out, t);
        k += 1;
        assert(tokens_view(out@) =~= p204(orig).take(k as int));
    }
    assert(p204(orig).take(k as int) =~= p204(orig));
    *tokens = out;
}

/// Where [`p204b`] changes a token.
pub open spec fn p204b_c(ts: Seq<TokenView>, i: int) -> bool {
    ((0 <= i < ts.len() && ts[i].pos == "EC"@) && (0 <= i < ts.len() && seq!["ᆫ데"@, "ㄴ데"@].contains(ts[i].surface)) && !(0 <= i + 1 < ts.len() && true))
}

/// The token [`p204b`] puts at `i`.
pub open spec fn p204b_t(ts: Seq<TokenView>, i: int) -> TokenView {
    TokenView { surface: "ㄴ데"@, pos: "EF"@, ..ts[i] }
}

/// A final ᆫ데/EC or ㄴ데/EC is the final ending ㄴ데/EF.
pub open spec fn p204b(ts: Seq<TokenView>) -> Seq<TokenView> {
    map_where(ts, |ts: Seq<TokenView>, i: int| p204b_c(ts, i), |ts: Seq<TokenView>, i: int| p204b_t(ts, i))
}

/// Whether [`p204b`] changes the token at `i`.
fn p204b_c_exec(tokens: &Vec<SejongToken>, i: usize) -> (r: bool)
    requires
        i < tokens@.len(),
    ensures
        r == p204b_c(tokens_view(tokens@), i as int),
{
    assert(tokens_view(tokens@).len() == tokens@.len());
    let c182 = pos_is(&tokens[i], "EC");
    let l184: [&str; 2] = ["ᆫ데", "ㄴ데"];
    assert(crate::tag_map::strs_view(l184@) =~= seq!["ᆫ데"@, "ㄴ데"@]);
    let c183 = in_list(&l184, tokens[i].surface.as_str());
    let c185 = (tokens.len() - i > 1) && true;
    (c182 && c183 && !c185)
}

/// The token [`p204b`] puts at `i`.
fn p204b_t_exec(tokens: &Vec<SejongToken>, i: usize) -> (t: SejongToken)
    requires
        i < tokens@.len(),
        p204b_c(tokens_view(tokens@), i as int),
    ensures
        t@ == p204b_t(tokens_view(tokens@), i as int),
{
    assert(tokens_view(tokens@).len() == tokens@.len());
    let s187 = owned("ㄴ데");
    let s188 = owned("EF");
    let mut t186 = tokens[i].duplicate();
    t186.surface = s187;
    t186.pos = s188;
    t186
}

/// A final ᆫ데/EC or ㄴ데/EC is the final ending ㄴ데/EF.
pub fn apply_p204b(tokens: &mut Vec<SejongToken>)
    ensures
        tokens_view(final(tokens)@) == p204b(tokens_view(old(tokens)@)),
{
    let ghost orig = tokens_view(tokens@);
    let mut out: Vec<SejongToken> = Vec::new();
    let mut k: usize = 0;
    while k < tokens.len()
        invariant
            k <= tokens@.len(),
            orig == tokens_view(tokens@),
            tokens_view(out@) == p204b(orig).take(k as int),
        decreases tokens@.len() - k,
    {
        let t = if p204b_c_exec(tokens, k) { p204b_t_exec(tokens, k) } else { tokens[k].duplicate() };
        push_token(&mut out, t);
        k += 1;
        assert(tokens_view(out@) =~= p204b(orig).take(k as int));
    }
    assert(p204b(orig).take(k as int) =~= p204b(orig));
    *tokens = out;
}

/// Where [`p204c`] changes a token.
pub open spec fn p204c_c(ts: Seq<TokenView>, i: int) -> bool {
    (((0 <= i < ts.len() && ts[i].surface == "네"@) && (0 <= i < ts.len() && ts[i].pos == "EC"@)) && !(0 <= i + 1 < ts.len() && true))
}

/// The token [`p204c`] puts at `i`.
pub open spec fn p204c_t(ts: Seq<TokenView>, i: int) -> TokenView {
    TokenView { pos: "EF"@, ..ts[i] }
}

/// A final 네/EC is the final ending 네/EF.
pub open spec fn p204c(ts: Seq<TokenView>) -> Seq<TokenView> {
    map_where(ts, |ts: Seq<TokenView>, i: int| p204c_c(ts, i), |ts: Seq<TokenView>, i: int| p204c_t(ts, i))
}

/// Whether [`p204c`] changes the token at `i`.
fn p204c_c_exec(tokens: &Vec<SejongToken>, i: usize) -> (r: bool)
    requires
        i < tokens@.len(),
    ensures
        r == p204c_c(tokens_view(tokens@), i as int),
{
    assert(tokens_view(tokens@).len() == tokens@.len());
    let c189 = surf_is(&tokens[i], "네");
    let c190 = pos_is(&tokens[i], "EC");
    let c191 = (tokens.len() - i > 1) && true;
    ((c189 && c190) && !c191)
}

/// The token [`p204c`] puts at `i`.
fn p204c_t_exec(tokens: &Vec<SejongToken>, i: usize) -> (t: SejongToken)
    requires
        i < tokens@.len(),
        p204c_c(tokens_view(tokens@), i as int),
    ensures
        t@ == p204c_t(tokens_view(tokens@), i as int),
{
    assert(tokens_view(tokens@).len() == tokens@.len());
    let s193 = owned("EF");
    let mut t192 = tokens[i].duplicate();
    t192.pos = s193;
    t192
}

/// A final 네/EC is the final ending 네/EF.
pub fn apply_p204c(tokens: &mut Vec<SejongToken>)
    ensures
        tokens_view(final(tokens)@) == p204c(tokens_view(old(tokens)@)),
{
    let ghost orig = tokens_view(tokens@);
    let mut out: Vec<SejongToken> = Vec::new();
    let mut k: usize = 0;
    while k < tokens.len()
        invariant
            k <= tokens@.len(),
            orig == tokens_view(tokens@),
            tokens_view(out@) == p204c(orig).take(k as int),
        decreases tokens@.len() - k,
    {
        let t = if p204c_c_exec(tokens, k) { p204c_t_exec(tokens, k) } else { tokens[k].duplicate() };
        push_token(&mut out, t);
        k += 1;
        assert(tokens_view(out@) =~= p204c(orig).take(k as int));
    }
    assert(p204c(orig).take(k as int) =~= p204c(orig));
    *tokens = out;
}

/// Where rule 0 of [`p164`] applies.
pub open spec fn p164_c0(ts: Seq<TokenView>, i: int) -> bool {
    ((0 <= i < ts.len() && ts[i].pos == "NR"@) && (0 <= i + 1 < ts.len() && ts[i + 1].pos == "NR"@) && (0 <= i + 1 < ts.len() && seq!["십"@, "백"@, "천"@, "만"@].contains(ts[i + 1].surface)) && (0 <= i < ts.len() && seq!["일"@, "이"@, "삼"@, "사"@, "오"@, "육"@, "칠"@, "팔"@, "구"@].contains(ts[i].surface)))
}

/// One step of [`p164`] at `i`: the list after it and the next position.
pub open spec fn p164_step(ts: Seq<TokenView>, i: int) -> (Seq<TokenView>, int) {
    if p164_c0(ts, i) {
        (splice(ts, i, 2, seq![TokenView { surface: (ts[i].surface + ts[i + 1].surface), ..ts[i] }]), i + 1)
    } else {
        (ts, i + 1)
    }
}

/// [`p164_step`] as a function value.
pub open spec fn p164_f() -> spec_fn(Seq<TokenView>, int) -> (Seq<TokenView>, int) {
    |ts: Seq<TokenView>, i: int| p164_step(ts, i)
}

/// A one-digit numeral before 십, 백, 천 or 만 (both NR) is joined to it (삼/NR 십/NR → 삼십/NR).
pub open spec fn p164(ts: Seq<TokenView>) -> Seq<TokenView> {
    scan(ts, 0, p164_f())
}

/// Whether rule 0 of [`p164`] applies at `i`.
fn p164_c0_exec(tokens: &Vec<SejongToken>, i: usize) -> (r: bool)
    requires
        i < tokens@.len(),
    ensures
        r == p164_c0(tokens_view(tokens@), i as int),
{
    assert(tokens_view(tokens@).len() == tokens@.len());
    let c194 = pos_is(&tokens[i], "NR");
    let c195 = (tokens.len() - i > 1) && pos_is(&tokens[i + 1], "NR");
    let l197: [&str; 4] = ["십", "백", "천", "만"];
    assert(crate::tag_map::strs_view(l197@) =~= seq!["십"@, "백"@, "천"@, "만"@]);
    let c196 = (tokens.len() - i > 1) && in_list(&l197, tokens[i + 1].surface.as_str());
    let l199: [&str; 9] = ["일", "이", "삼", "사", "오", "육", "칠", "팔", "구"];
    assert(crate::tag_map::strs_view(l199@) =~= seq!["일"@, "이"@, "삼"@, "사"@, "오"@, "육"@, "칠"@, "팔"@, "구"@]);
    let c198 = in_list(&l199, tokens[i].surface.as_str());
    (c194 && c195 && c196 && c198)
}

/// One step of [`p164`] at `i`; returns the next position.
fn p164_step_exec(tokens: &mut Vec<SejongToken>, i: usize) -> (next: usize)
    requires
        i < old(tokens)@.len(),
    ensures
        (tokens_view(final(tokens)@), next as int) == p164_step(tokens_view(old(tokens)@), i as int),
        final(tokens)@.len() - next < old(tokens)@.len() - i,
        next <= final(tokens)@.len() + 1,
{
    let len0 = tokens.len();
    assert(tokens_view(tokens@).len() == tokens@.len());
    if p164_c0_exec(tokens, i) {
        let s202 = tokens[i].surface.clone();
        let s203 = tokens[i + 1].surface.clone();
        let s201 = concat(s202.as_str(), s203.as_str());
        let mut t200 = tokens[i].duplicate();
        t200.surface = s201;
        let mut nv204: Vec<SejongToken> = Vec::new();
        push_token(&mut nv204, t200);
        splice_tokens(tokens, i, 2, nv204);
        let _len1 = tokens.len();
        return i + 1;
    }
    i + 1
}

/// A one-digit numeral before 십, 백, 천 or 만 (both NR) is joined to it (삼/NR 십/NR → 삼십/NR).
pub fn apply_p164(tokens: &mut Vec<SejongToken>)
    ensures
        tokens_view(final(tokens)@) == p164(tokens_view(old(tokens)@)),
{
    let ghost orig = tokens_view(tokens@);
    let mut i: usize = 0;
    while i < tokens.len()
        invariant
            i <= tokens@.len() + 1,
            scan(tokens_view(tokens@), i as int, p164_f()) == scan(orig, 0, p164_f()),
        decreases tokens@.len() + 1 - i,
    {
        let ghost before = tokens_view(tokens@);
        assert(before.len() == tokens@.len());
        i = p164_step_exec(tokens, i);
        assert(tokens_view(tokens@).len() == tokens@.len());
    }
}

/// Where [`p189`] changes a token.
pub open spec fn p189_c(ts: Seq<TokenView>, i: int) -> bool {
    ((0 <= i < ts.len() && ts[i].pos == "NR"@) && (0 <= i < ts.len() && seq!["일"@, "이"@, "삼"@, "사"@, "오"@, "육"@, "칠"@, "팔"@, "구"@, "영"@, "공"@].contains(ts[i].surface)))
}

/// The token [`p189`] puts at `i`.
pub open spec fn p189_t(ts: Seq<TokenView>, i: int) -> TokenView {
    TokenView { pos: "SN"@, ..ts[i] }
}

/// A one-syllable Sino-Korean numeral is a number (SN).
pub open spec fn p189(ts: Seq<TokenView>) -> Seq<TokenView> {
    map_where(ts, |ts: Seq<TokenView>, i: int| p189_c(ts, i), |ts: Seq<TokenView>, i: int| p189_t(ts, i))
}

/// Whether [`p189`] changes the token at `i`.
fn p189_c_exec(tokens: &Vec<SejongToken>, i: usize) -> (r: bool)
    requires
        i < tokens@.len(),
    ensures
        r == p189_c(tokens_view(tokens@), i as int),
{
    assert(tokens_view(tokens@).len() == tokens@.len());
    let c205 = pos_is(&tokens[i], "NR");
    let l207: [&str; 11] = ["일", "이", "삼", "사", "오", "육", "칠", "팔", "구", "영", "공"];
    assert(crate::tag_map::strs_view(l207@) =~= seq!["일"@, "이"@, "삼"@, "사"@, "오"@, "육"@, "칠"@, "팔"@, "구"@, "영"@, "공"@]);
    let c206 = in_list(&l207, tokens[i].surface.as_str());
    (c205 && c206)
}

/// The token [`p189`] puts at `i`.
fn p189_t_exec(tokens: &Vec<SejongToken>, i: usize) -> (t: SejongToken)
    requires
        i < tokens@.len(),
        p189_c(tokens_view(tokens@), i as int),
    ensures
        t@ == p189_t(tokens_view(tokens@), i as int),
{
    assert(tokens_view(tokens@).len() == tokens@.len());
    let s209 = owned("SN");
    let mut t208 = tokens[i].duplicate();
    t208.pos = s209;
    t208
}

/// A one-syllable Sino-Korean numeral is a number (SN).
pub fn apply_p189(tokens: &mut Vec<SejongToken>)
    ensures
        tokens_view(final(tokens)@) == p189(tokens_view(old(tokens)@)),
{
    let ghost orig = tokens_view(tokens@);
    let mut out: Vec<SejongToken> = Vec::new();
    let mut k: usize = 0;
    while k < tokens.len()
        invariant
            k <= tokens@.len(),
            orig == tokens_view(tokens@),
            tokens_view(out@) == p189(orig).take(k as int),
        decreases tokens@.len() - k,
    {
        let t = if p189_c_exec(tokens, k) { p189_t_exec(tokens, k) } else { tokens[k].duplicate() };
        push_token(&mut out, t);
        k += 1;
        assert(tokens_view(out@) =~= p189(orig).take(k as int));
    }
    assert(p189(orig).take(k as int) =~= p189(orig));
    *tokens = out;
}

/// Where rule 0 of [`p255`] applies.
pub open spec fn p255_c0(ts: Seq<TokenView>, i: int) -> bool {
    (((0 <= i < ts.len() && ts[i].surface == "어"@) && (0 <= i < ts.len() && ts[i].pos == "EF"@)) && ((0 <= i + 1 < ts.len() && ts[i + 1].surface == "요"@) && (0 <= i + 1 < ts.len() && ts[i + 1].pos == "JX"@)))
}

/// One step of [`p255`] at `i`: the list after it and the next position.
pub open spec fn p255_step(ts: Seq<TokenView>, i: int) -> (Seq<TokenView>, int) {
    if p255_c0(ts, i) {
        (splice(ts, i, 2, seq![plain_view("어요"@, "EF"@, ts[i].start_pos, ts[i + 1].end_pos)]), i + 1)
    } else {
        (ts, i + 1)
    }
}

/// [`p255_step`] as a function value.
pub open spec fn p255_f() -> spec_fn(Seq<TokenView>, int) -> (Seq<TokenView>, int) {
    |ts: Seq<TokenView>, i: int| p255_step(ts, i)
}

/// 어/EF 요/JX is the final ending 어요/EF.
pub open spec fn p255(ts: Seq<TokenView>) -> Seq<TokenView> {
    scan(ts, 0, p255_f())
}

/// Whether rule 0 of [`p255`] applies at `i`.
fn p255_c0_exec(tokens: &Vec<SejongToken>, i: usize) -> (r: bool)
    requires
        i < tokens@.len(),
    ensures
        r == p255_c0(tokens_view(tokens@), i as int),
{
    assert(tokens_view(tokens@).len() == tokens@.len());
    let c210 = surf_is(&tokens[i], "어");
    let c211 = pos_is(&tokens[i], "EF");
    let c212 = (tokens.len() - i > 1) && surf_is(&tokens[i + 1], "요");
    let c213 = (tokens.len() - i > 1) && pos_is(&tokens[i + 1], "JX");
    ((c210 && c211) && (c212 && c213))
}

/// One step of [`p255`] at `i`; returns the next position.
fn p255_step_exec(tokens: &mut Vec<SejongToken>, i: usize) -> (next: usize)
    requires
        i < old(tokens)@.len(),
    ensures
        (tokens_view(final(tokens)@), next as int) == p255_step(tokens_view(old(tokens)@), i as int),
        final(tokens)@.len() - next < old(tokens)@.len() - i,
        next <= final(tokens)@.len() + 1,
{
    let len0 = tokens.len();
    assert(tokens_view(tokens@).len() == tokens@.len());
    if p255_c0_exec(tokens, i) {
        let s215 = owned("어요");
        let s216 = owned("EF");
        let n217 = tokens[i].start_pos;
        let n218 = tokens[i + 1].end_pos;
        let t214 = SejongToken::new(s215.as_str(), s216.as_str(), n217, n218);
        let mut nv219: Vec<SejongToken> = Vec::new();
        push_token(&mut nv219, t214);
        splice_tokens(tokens, i, 2, nv219);
        let _len1 = tokens.len();
        return i + 1;
    }
    i + 1
}

/// 어/EF 요/JX is the final ending 어요/EF.
pub fn apply_p255(tokens: &mut Vec<SejongToken>)
    ensures
        tokens_view(final(tokens)@) == p255(tokens_view(old(tokens)@)),
{
    let ghost orig = tokens_view(tokens@);
    let mut i: usize = 0;
    while i < tokens.len()
        invariant
            i <= tokens@.len() + 1,
            scan(tokens_view(tokens@), i as int, p255_f()) == scan(orig, 0, p255_f()),
        decreases tokens@.len() + 1 - i,
    {
        let ghost before = tokens_view(tokens@);
        assert(before.len() == tokens@.len());
        i = p255_step_exec(tokens, i);
        assert(tokens_view(tokens@).len() == tokens@.len());
    }
}

/// Where rule 0 of [`p259`] applies.
pub open spec fn p259_c0(ts: Seq<TokenView>, i: int) -> bool {
    (((0 <= i < ts.len() && ts[i].surface == "채"@) && (0 <= i < ts.len() && ts[i].pos == "VV"@)) && (0 <= i + 1 < ts.len() && seq!["아"@, "ㅏ"@].contains(ts[i + 1].surface)) && (0 <= i + 1 < ts.len() && ts[i + 1].pos == "EF"@) && !(0 <= i + 2 < ts.len() && true))
}

/// One step of [`p259`] at `i`: the list after it and the next position.
pub open spec fn p259_step(ts: Seq<TokenView>, i: int) -> (Seq<TokenView>, int) {
    if p259_c0(ts, i) {
        let t2 = splice(ts, i, 2, seq![TokenView { pos: "NNB"@, ..ts[i] }]);
        (t2, t2.len() as int)
    } else {
        (ts, i + 1)
    }
}

/// [`p259_step`] as a function value.
pub open spec fn p259_f() -> spec_fn(Seq<TokenView>, int) -> (Seq<TokenView>, int) {
    |ts: Seq<TokenView>, i: int| p259_step(ts, i)
}

/// A final 채/VV 아/EF is the bound noun 채/NNB.
pub open spec fn p259(ts: Seq<TokenView>) -> Seq<TokenView> {
    scan(ts, 0, p259_f())
}

/// Whether rule 0 of [`p259`] applies at `i`.
fn p259_c0_exec(tokens: &Vec<SejongToken>, i: usize) -> (r: bool)
    requires
        i < tokens@.len(),
    ensures
        r == p259_c0(tokens_view(tokens@), i as int),
{
    assert(tokens_view(tokens@).len() == tokens@.len());
    let c220 = surf_is(&tokens[i], "채");
    let c221 = pos_is(&tokens[i], "VV");
    let l223: [&str; 2] = ["아", "ㅏ"];
    assert(crate::tag_map::strs_view(l223@) =~= seq!["아"@, "ㅏ"@]);
    let c222 = (tokens.len() - i > 1) && in_list(&l223, tokens[i + 1].surface.as_str());
    let c224 = (tokens.len() - i > 1) && pos_is(&tokens[i + 1], "EF");
    let c225 = (tokens.len() - i > 2) && true;
    ((c220 && c221) && c222 && c224 && !c225)
}

/// One step of [`p259`] at `i`; returns the next position.
fn p259_step_exec(tokens: &mut Vec<SejongToken>, i: usize) -> (next: usize)
    requires
        i < old(tokens)@.len(),
    ensures
        (tokens_view(final(tokens)@), next as int) == p259_step(tokens_view(old(tokens)@), i as int),
        final(tokens)@.len() - next < old(tokens)@.len() - i,
        next <= final(tokens)@.len() + 1,
{
    let len0 = tokens.len();
    assert(tokens_view(tokens@).len() == tokens@.len());
    if p259_c0_exec(tokens, i) {
        let s227 = owned("NNB");
        let mut t226 = tokens[i].duplicate();
        t226.pos = s227;
        let mut nv228: Vec<SejongToken> = Vec::new();
        push_token(&mut nv228, t226);
        splice_tokens(tokens, i, 2, nv228);
        let _len1 = tokens.len();
        return tokens.len();
    }
    i + 1
}

/// A final 채/VV 아/EF is the bound noun 채/NNB.
pub fn apply_p259(tokens: &mut Vec<SejongToken>)
    ensures
        tokens_view(final(tokens)@) == p259(tokens_view(old(tokens)@)),
{
    let ghost orig = tokens_view(tokens@);
    let mut i: usize = 0;
    while i < tokens.len()
        invariant
            i <= tokens@.len() + 1,
            scan(tokens_view(tokens@), i as int, p259_f()) == scan(orig, 0, p259_f()),
        decreases tokens@.len() + 1 - i,
    {
        let ghost before = tokens_view(tokens@);
        assert(before.len() == tokens@.len());
        i = p259_step_exec(tokens, i);
        assert(tokens_view(tokens@).len() == tokens@.len());
    }
}

/// Interrogatives, numerals and the forms of final endings.
pub open spec fn spec_apply_sentence_final_endings_corrections(ts: Seq<TokenView>) -> Seq<TokenView> {
    p259(p255(p189(p164(p204c(p204b(p204(p163(p265(p161b(p161(p160(p159(p158(p157b(p157(p156(p155b(p155(p154b(p154(p153(p152(p149b(p149(ts)))))))))))))))))))))))))
}

/// Interrogatives, numerals and the forms of final endings.
pub fn apply_sentence_final_endings_corrections(tokens: &mut Vec<SejongToken>)
    ensures
        tokens_view(final(tokens)@) == spec_apply_sentence_final_endings_corrections(tokens_view(old(tokens)@)),
{
    apply_p149(tokens);
    apply_p149b(tokens);
    apply_p152(tokens);
    apply_p153(tokens);
    apply_p154(tokens);
    apply_p154b(tokens);
    apply_p155(tokens);
    apply_p155b(tokens);
    apply_p156(tokens);
    apply_p157(tokens);
    apply_p157b(tokens);
    apply_p158(tokens);
    apply_p159(tokens);
    apply_p160(tokens);
    apply_p161(tokens);
    apply_p161b(tokens);
    apply_p265(tokens);
    apply_p163(tokens);
    apply_p204(tokens);
    apply_p204b(tokens);
    apply_p204c(tokens);
    apply_p164(tokens);
    apply_p189(tokens);
    apply_p255(tokens);
    apply_p259(tokens);
}

/// [`p149`] leaves a list with no 는다, ㄴ다 or ᆫ다 tagged EC without one.
pub proof fn p149_keeps(ts0: Seq<TokenView>)
    requires
        none_bad(ts0, crate::corrections::sentence_final::nda_ec()),
    ensures
        none_bad(p149(ts0), crate::corrections::sentence_final::nda_ec()),
{
    assert forall|ts: Seq<TokenView>, i: int| 0 <= i < ts.len() && none_bad(ts, crate::corrections::sentence_final::nda_ec()) implies
        none_bad((#[trigger] p149_f()(ts, i)).0, crate::corrections::sentence_final::nda_ec()) by {
        reveal_strlit("EC");
        reveal_strlit("EP");
        reveal_strlit("VCP");
        reveal_strlit("ᆫ다");
        reveal_strlit("ㄴ다");
        reveal_strlit("는다");
        reveal_strlit("라고");
        reveal_strlit("시");
        assert(p149_f()(ts, i) == p149_step(ts, i));
        if p149_c0(ts, i) {
                let nw0 = seq![];
                assert(nw0.len() == 0);
                let s0 = splice(ts, i, 1, nw0);
                lemma_splice_none_bad(ts, i, 1, nw0, crate::corrections::sentence_final::nda_ec());
            }
    }
    lemma_scan_none_bad(ts0, 0, p149_f(), crate::corrections::sentence_final::nda_ec());
}

/// [`p149b`] leaves a list with no 는다, ㄴ다 or ᆫ다 tagged EC without one.
pub proof fn p149b_keeps(ts0: Seq<TokenView>)
    requires
        none_bad(ts0, crate::corrections::sentence_final::nda_ec()),
    ensures
        none_bad(p149b(ts0), crate::corrections::sentence_final::nda_ec()),
{
    assert forall|ts: Seq<TokenView>, i: int| 0 <= i < ts.len() && none_bad(ts, crate::corrections::sentence_final::nda_ec()) implies
        none_bad((#[trigger] p149b_f()(ts, i)).0, crate::corrections::sentence_final::nda_ec()) by {
        reveal_strlit("EC");
        reveal_strlit("EF");
        reveal_strlit("ETM");
        reveal_strlit("NNG");
        reveal_strlit("VA");
        reveal_strlit("VV");
        reveal_strlit("ᆫ다");
        reveal_strlit("ㄴ");
        reveal_strlit("ㄴ다");
        reveal_strlit("는");
        reveal_strlit("는다");
        reveal_strlit("다");
        assert(p149b_f()(ts, i) == p149b_step(ts, i));
        if p149b_c0(ts, i) {
                let nw0 = seq![plain_view((ts[i].surface + "다"@), "EF"@, ts[i].start_pos, ts[i + 1].end_pos)];
                assert forall|k: int| 0 <= k < nw0.len() implies !crate::corrections::sentence_final::nda_ec()(#[trigger] nw0[k]) by { if k == 0 { assert(nw0[0] == plain_view((ts[i].surface + "다"@), "EF"@, ts[i].start_pos, ts[i + 1].end_pos)); assert(!crate::corrections::sentence_final::is_nda_ec(plain_view((ts[i].surface + "다"@), "EF"@, ts[i].start_pos, ts[i + 1].end_pos))); } }
                let s0 = splice(ts, i, 2, nw0);
                lemma_splice_none_bad(ts, i, 2, nw0, crate::corrections::sentence_final::nda_ec());
            }
    }
    lemma_scan_none_bad(ts0, 0, p149b_f(), crate::corrections::sentence_final::nda_ec());
}

/// [`p152`] leaves a list with no 는다, ㄴ다 or ᆫ다 tagged EC without one.
pub proof fn p152_keeps(ts0: Seq<TokenView>)
    requires
        none_bad(ts0, crate::corrections::sentence_final::nda_ec()),
    ensures
        none_bad(p152(ts0), crate::corrections::sentence_final::nda_ec()),
{
    assert forall|ts: Seq<TokenView>, i: int| 0 <= i < ts.len() && none_bad(ts, crate::corrections::sentence_final::nda_ec()) implies
        none_bad((#[trigger] p152_f()(ts, i)).0, crate::corrections::sentence_final::nda_ec()) by {
        reveal_strlit("EC");
        reveal_strlit("ETM");
        reveal_strlit("NNG");
        reveal_strlit("VA");
        reveal_strlit("XPN");
        reveal_strlit("ᆫ다");
        reveal_strlit("ㄴ");
        reveal_strlit("ㄴ다");
        reveal_strlit("는다");
        reveal_strlit("작");
        reveal_strlit("작은");
        reveal_strlit("크");
        reveal_strlit("큰");
        assert(p152_f()(ts, i) == p152_step(ts, i));
        if p152_c0(ts, i) {
                let nw0 = seq![plain_view("큰"@, "XPN"@, ts[i].start_pos, ts[i + 1].end_pos)];
                assert forall|k: int| 0 <= k < nw0.len() implies !crate::corrections::sentence_final::nda_ec()(#[trigger] nw0[k]) by { if k == 0 { assert(nw0[0] == plain_view("큰"@, "XPN"@, ts[i].start_pos, ts[i + 1].end_pos)); assert(!crate::corrections::sentence_final::is_nda_ec(plain_view("큰"@, "XPN"@, ts[i].start_pos, ts[i + 1].end_pos))); } }
                let s0 = splice(ts, i, 2, nw0);
                lemma_splice_none_bad(ts, i, 2, nw0, crate::corrections::sentence_final::nda_ec());
            } else if p152_c1(ts, i) {
                let nw0 = seq![plain_view("작은"@, "XPN"@, ts[i].start_pos, ts[i + 1].end_pos)];
                assert forall|k: int| 0 <= k < nw0.len() implies !crate::corrections::sentence_final::nda_ec()(#[trigger] nw0[k]) by { if k == 0 { assert(nw0[0] == plain_view("작은"@, "XPN"@, ts[i].start_pos, ts[i + 1].end_pos)); assert(!crate::corrections::sentence_final::is_nda_ec(plain_view("작은"@, "XPN"@, ts[i].start_pos, ts[i + 1].end_pos))); } }
                let s0 = splice(ts, i, 2, nw0);
                lemma_splice_none_bad(ts, i, 2, nw0, crate::corrections::sentence_final::nda_ec());
            }
    }
    lemma_scan_none_bad(ts0, 0, p152_f(), crate::corrections::sentence_final::nda_ec());
}

/// [`p153`] leaves a list with no 는다, ㄴ다 or ᆫ다 tagged EC without one.
pub proof fn p153_keeps(ts0: Seq<TokenView>)
    requires
        none_bad(ts0, crate::corrections::sentence_final::nda_ec()),
    ensures
        none_bad(p153(ts0), crate::corrections::sentence_final::nda_ec()),
{
    assert forall|ts: Seq<TokenView>, i: int| 0 <= i < ts.len() && none_bad(ts, crate::corrections::sentence_final::nda_ec()) implies
        none_bad((#[trigger] p153_f()(ts, i)).0, crate::corrections::sentence_final::nda_ec()) by {
        reveal_strlit("EC");
        reveal_strlit("ETM");
        reveal_strlit("JKB");
        reveal_strlit("NNB");
        reveal_strlit("NNG");
        reveal_strlit("VV");
        reveal_strlit("ᆫ다");
        reveal_strlit("ㄴ다");
        reveal_strlit("는다");
        reveal_strlit("대");
        reveal_strlit("대로");
        reveal_strlit("따라");
        reveal_strlit("따르");
        reveal_strlit("로");
        reveal_strlit("어");
        reveal_strlit("채");
        assert(p153_f()(ts, i) == p153_step(ts, i));
        if p153_c0(ts, i) {
                let nw0 = seq![plain_view("채"@, "NNB"@, ts[i].start_pos, ts[i + 1].end_pos)];
                assert forall|k: int| 0 <= k < nw0.len() implies !crate::corrections::sentence_final::nda_ec()(#[trigger] nw0[k]) by { if k == 0 { assert(nw0[0] == plain_view("채"@, "NNB"@, ts[i].start_pos, ts[i + 1].end_pos)); assert(!crate::corrections::sentence_final::is_nda_ec(plain_view("채"@, "NNB"@, ts[i].start_pos, ts[i + 1].end_pos))); } }
                let s0 = splice(ts, i, 2, nw0);
                lemma_splice_none_bad(ts, i, 2, nw0, crate::corrections::sentence_final::nda_ec());
            } else if p153_c1(ts, i) {
                let nw0 = seq![plain_view("대로"@, "NNB"@, ts[i].start_pos, ts[i + 1].end_pos)];
                assert forall|k: int| 0 <= k < nw0.len() implies !crate::corrections::sentence_final::nda_ec()(#[trigger] nw0[k]) by { if k == 0 { assert(nw0[0] == plain_view("대로"@, "NNB"@, ts[i].start_pos, ts[i + 1].end_pos)); assert(!crate::corrections::sentence_final::is_nda_ec(plain_view("대로"@, "NNB"@, ts[i].start_pos, ts[i + 1].end_pos))); } }
                let s0 = splice(ts, i, 2, nw0);
                lemma_splice_none_bad(ts, i, 2, nw0, crate::corrections::sentence_final::nda_ec());
            } else if p153_c2(ts, i) {
                let nw0 = seq![plain_view("따라"@, "NNB"@, ts[i].start_pos, ts[i + 1].end_pos)];
                assert forall|k: int| 0 <= k < nw0.len() implies !crate::corrections::sentence_final::nda_ec()(#[trigger] nw0[k]) by { if k == 0 { assert(nw0[0] == plain_view("따라"@, "NNB"@, ts[i].start_pos, ts[i + 1].end_pos)); assert(!crate::corrections::sentence_final::is_nda_ec(plain_view("따라"@, "NNB"@, ts[i].start_pos, ts[i + 1].end_pos))); } }
                let s0 = splice(ts, i, 2, nw0);
                lemma_splice_none_bad(ts, i, 2, nw0, crate::corrections::sentence_final::nda_ec());
            }
    }
    lemma_scan_none_bad(ts0, 0, p153_f(), crate::corrections::sentence_final::nda_ec());
}

/// [`p154`] leaves a list with no 는다, ㄴ다 or ᆫ다 tagged EC without one.
pub proof fn p154_keeps(ts: Seq<TokenView>)
    requires
        none_bad(ts, crate::corrections::sentence_final::nda_ec()),
    ensures
        none_bad(p154(ts), crate::corrections::sentence_final::nda_ec()),
{
    assert forall|j: int| 0 <= j < p154(ts).len() implies !crate::corrections::sentence_final::nda_ec()(#[trigger] p154(ts)[j]) by {
        reveal_strlit("EC");
        reveal_strlit("EF");
        reveal_strlit("NNG");
        reveal_strlit("ᆫ다");
        reveal_strlit("ㄴ다");
        reveal_strlit("는다");
        reveal_strlit("다");
        assert(p154(ts)[j] == (if p154_c(ts, j) { p154_t(ts, j) } else { ts[j] }));
        if p154_c(ts, j) {
            assert(!crate::corrections::sentence_final::is_nda_ec(p154_t(ts, j)));
        } else {
            assert(!crate::corrections::sentence_final::nda_ec()(ts[j]));
        }
    }
}

/// [`p154b`] leaves a list with no 는다, ㄴ다 or ᆫ다 tagged EC without one.
pub proof fn p154b_keeps(ts: Seq<TokenView>)
    requires
        none_bad(ts, crate::corrections::sentence_final::nda_ec()),
    ensures
        none_bad(p154b(ts), crate::corrections::sentence_final::nda_ec()),
{
    assert forall|j: int| 0 <= j < p154b(ts).len() implies !crate::corrections::sentence_final::nda_ec()(#[trigger] p154b(ts)[j]) by {
        reveal_strlit("EC");
        reveal_strlit("EF");
        reveal_strlit("NNG");
        reveal_strlit("VA");
        reveal_strlit("VV");
        reveal_strlit("VX");
        reveal_strlit("ᆫ다");
        reveal_strlit("ㄴ다");
        reveal_strlit("는다");
        reveal_strlit("다");
        assert(p154b(ts)[j] == (if p154b_c(ts, j) { p154b_t(ts, j) } else { ts[j] }));
        if p154b_c(ts, j) {
            assert(!crate::corrections::sentence_final::is_nda_ec(p154b_t(ts, j)));
        } else {
            assert(!crate::corrections::sentence_final::nda_ec()(ts[j]));
        }
    }
}

/// [`p155`] leaves a list with no 는다, ㄴ다 or ᆫ다 tagged EC without one.
pub proof fn p155_keeps(ts: Seq<TokenView>)
    requires
        none_bad(ts, crate::corrections::sentence_final::nda_ec()),
    ensures
        none_bad(p155(ts), crate::corrections::sentence_final::nda_ec()),
{
    assert forall|j: int| 0 <= j < p155(ts).len() implies !crate::corrections::sentence_final::nda_ec()(#[trigger] p155(ts)[j]) by {
        reveal_strlit("EC");
        reveal_strlit("EF");
        reveal_strlit("EP");
        reveal_strlit("NNG");
        reveal_strlit("XSV");
        reveal_strlit("ᆫ다");
        reveal_strlit("ㄴ다");
        reveal_strlit("는다");
        reveal_strlit("다");
        assert(p155(ts)[j] == (if p155_c(ts, j) { p155_t(ts, j) } else { ts[j] }));
        if p155_c(ts, j) {
            assert(!crate::corrections::sentence_final::is_nda_ec(p155_t(ts, j)));
        } else {
            assert(!crate::corrections::sentence_final::nda_ec()(ts[j]));
        }
    }
}

/// [`p155b`] leaves a list with no 는다, ㄴ다 or ᆫ다 tagged EC without one.
pub proof fn p155b_keeps(ts: Seq<TokenView>)
    requires
        none_bad(ts, crate::corrections::sentence_final::nda_ec()),
    ensures
        none_bad(p155b(ts), crate::corrections::sentence_final::nda_ec()),
{
    assert forall|j: int| 0 <= j < p155b(ts).len() implies !crate::corrections::sentence_final::nda_ec()(#[trigger] p155b(ts)[j]) by {
        reveal_strlit("EC");
        reveal_strlit("EF");
        reveal_strlit("NNG");
        reveal_strlit("VCP");
        reveal_strlit("ᆫ다");
        reveal_strlit("ㄴ다");
        reveal_strlit("는다");
        reveal_strlit("다");
        assert(p155b(ts)[j] == (if p155b_c(ts, j) { p155b_t(ts, j) } else { ts[j] }));
        if p155b_c(ts, j) {
            assert(!crate::corrections::sentence_final::is_nda_ec(p155b_t(ts, j)));
        } else {
            assert(!crate::corrections::sentence_final::nda_ec()(ts[j]));
        }
    }
}

/// [`p156`] leaves a list with no 는다, ㄴ다 or ᆫ다 tagged EC without one.
pub proof fn p156_keeps(ts: Seq<TokenView>)
    requires
        none_bad(ts, crate::corrections::sentence_final::nda_ec()),
    ensures
        none_bad(p156(ts), crate::corrections::sentence_final::nda_ec()),
{
    assert forall|j: int| 0 <= j < p156(ts).len() implies !crate::corrections::sentence_final::nda_ec()(#[trigger] p156(ts)[j]) by {
        reveal_strlit("EC");
        reveal_strlit("NNG");
        reveal_strlit("NP");
        reveal_strlit("ᆫ다");
        reveal_strlit("ㄴ다");
        reveal_strlit("누구");
        reveal_strlit("는다");
        reveal_strlit("무엇");
        reveal_strlit("뭐");
        reveal_strlit("어느");
        reveal_strlit("어디");
        reveal_strlit("어떻게");
        reveal_strlit("언제");
        reveal_strlit("얼마");
        reveal_strlit("왜");
        assert(p156(ts)[j] == (if p156_c(ts, j) { p156_t(ts, j) } else { ts[j] }));
        if p156_c(ts, j) {
            assert(!crate::corrections::sentence_final::is_nda_ec(p156_t(ts, j)));
        } else {
            assert(!crate::corrections::sentence_final::nda_ec()(ts[j]));
        }
    }
}

/// [`p157`] leaves a list with no 는다, ㄴ다 or ᆫ다 tagged EC without one.
pub proof fn p157_keeps(ts: Seq<TokenView>)
    requires
        none_bad(ts, crate::corrections::sentence_final::nda_ec()),
    ensures
        none_bad(p157(ts), crate::corrections::sentence_final::nda_ec()),
{
    assert forall|j: int| 0 <= j < p157(ts).len() implies !crate::corrections::sentence_final::nda_ec()(#[trigger] p157(ts)[j]) by {
        reveal_strlit("EC");
        reveal_strlit("EP");
        reveal_strlit("ᆫ다");
        reveal_strlit("ㄴ다");
        reveal_strlit("ㅓㅆ");
        reveal_strlit("는다");
        reveal_strlit("었");
        assert(p157(ts)[j] == (if p157_c(ts, j) { p157_t(ts, j) } else { ts[j] }));
        if p157_c(ts, j) {
            assert(!crate::corrections::sentence_final::is_nda_ec(p157_t(ts, j)));
        } else {
            assert(!crate::corrections::sentence_final::nda_ec()(ts[j]));
        }
    }
}

/// [`p157b`] leaves a list with no 는다, ㄴ다 or ᆫ다 tagged EC without one.
pub proof fn p157b_keeps(ts: Seq<TokenView>)
    requires
        none_bad(ts, crate::corrections::sentence_final::nda_ec()),
    ensures
        none_bad(p157b(ts), crate::corrections::sentence_final::nda_ec()),
{
    assert forall|j: int| 0 <= j < p157b(ts).len() implies !crate::corrections::sentence_final::nda_ec()(#[trigger] p157b(ts)[j]) by {
        reveal_strlit("EC");
        reveal_strlit("EP");
        reveal_strlit("ᆫ다");
        reveal_strlit("ㄴ다");
        reveal_strlit("ㅏㅆ");
        reveal_strlit("는다");
        reveal_strlit("았");
        assert(p157b(ts)[j] == (if p157b_c(ts, j) { p157b_t(ts, j) } else { ts[j] }));
        if p157b_c(ts, j) {
            assert(!crate::corrections::sentence_final::is_nda_ec(p157b_t(ts, j)));
        } else {
            assert(!crate::corrections::sentence_final::nda_ec()(ts[j]));
        }
    }
}

/// [`p158`] leaves a list with no 는다, ㄴ다 or ᆫ다 tagged EC without one.
pub proof fn p158_keeps(ts0: Seq<TokenView>)
    requires
        none_bad(ts0, crate::corrections::sentence_final::nda_ec()),
    ensures
        none_bad(p158(ts0), crate::corrections::sentence_final::nda_ec()),
{
    assert forall|ts: Seq<TokenView>, i: int| 0 <= i < ts.len() && none_bad(ts, crate::corrections::sentence_final::nda_ec()) implies
        none_bad((#[trigger] p158_f()(ts, i)).0, crate::corrections::sentence_final::nda_ec()) by {
        reveal_strlit("EC");
        reveal_strlit("NNG");
        reveal_strlit("VA");
        reveal_strlit("VV");
        reveal_strlit("VX");
        reveal_strlit("ᆫ다");
        reveal_strlit("ㄴ다");
        reveal_strlit("가치");
        reveal_strlit("값");
        reveal_strlit("관심");
        reveal_strlit("는다");
        reveal_strlit("뜻");
        reveal_strlit("맛");
        reveal_strlit("맥");
        reveal_strlit("멋");
        reveal_strlit("보람");
        reveal_strlit("볼");
        reveal_strlit("없");
        reveal_strlit("의미");
        reveal_strlit("있");
        reveal_strlit("재미");
        reveal_strlit("정");
        reveal_strlit("효과");
        reveal_strlit("흥미");
        reveal_strlit("힘");
        assert(p158_f()(ts, i) == p158_step(ts, i));
        if p158_c0(ts, i) {
                let nw0 = seq![plain_view((ts[i].surface + ts[i + 1].surface), "VA"@, ts[i].start_pos, ts[i + 1].end_pos)];
                assert forall|k: int| 0 <= k < nw0.len() implies !crate::corrections::sentence_final::nda_ec()(#[trigger] nw0[k]) by { if k == 0 { assert(nw0[0] == plain_view((ts[i].surface + ts[i + 1].surface), "VA"@, ts[i].start_pos, ts[i + 1].end_pos)); assert(!crate::corrections::sentence_final::is_nda_ec(plain_view((ts[i].surface + ts[i + 1].surface), "VA"@, ts[i].start_pos, ts[i + 1].end_pos))); } }
                let s0 = splice(ts, i, 2, nw0);
                lemma_splice_none_bad(ts, i, 2, nw0, crate::corrections::sentence_final::nda_ec());
            }
    }
    lemma_scan_none_bad(ts0, 0, p158_f(), crate::corrections::sentence_final::nda_ec());
}

/// [`p159`] leaves a list with no 는다, ㄴ다 or ᆫ다 tagged EC without one.
pub proof fn p159_keeps(ts0: Seq<TokenView>)
    requires
        none_bad(ts0, crate::corrections::sentence_final::nda_ec()),
    ensures
        none_bad(p159(ts0), crate::corrections::sentence_final::nda_ec()),
{
    assert forall|ts: Seq<TokenView>, i: int| 0 <= i < ts.len() && none_bad(ts, crate::corrections::sentence_final::nda_ec()) implies
        none_bad((#[trigger] p159_f()(ts, i)).0, crate::corrections::sentence_final::nda_ec()) by {
        reveal_strlit("EC");
        reveal_strlit("EF");
        reveal_strlit("ETM");
        reveal_strlit("VA");
        reveal_strlit("ᆫ다");
        reveal_strlit("ㄴ다");
        reveal_strlit("ㄹ");
        reveal_strlit("는다");
        assert(p159_f()(ts, i) == p159_step(ts, i));
        if p159_c0(ts, i) {
                let nw0 = seq![];
                assert(nw0.len() == 0);
                let s0 = splice(ts, i, 1, nw0);
                lemma_splice_none_bad(ts, i, 1, nw0, crate::corrections::sentence_final::nda_ec());
            }
    }
    lemma_scan_none_bad(ts0, 0, p159_f(), crate::corrections::sentence_final::nda_ec());
}

/// [`p160`] leaves a list with no 는다, ㄴ다 or ᆫ다 tagged EC without one.
pub proof fn p160_keeps(ts0: Seq<TokenView>)
    requires
        none_bad(ts0, crate::corrections::sentence_final::nda_ec()),
    ensures
        none_bad(p160(ts0), crate::corrections::sentence_final::nda_ec()),
{
    assert forall|ts: Seq<TokenView>, i: int| 0 <= i < ts.len() && none_bad(ts, crate::corrections::sentence_final::nda_ec()) implies
        none_bad((#[trigger] p160_f()(ts, i)).0, crate::corrections::sentence_final::nda_ec()) by {
        reveal_strlit("EC");
        reveal_strlit("JKB");
        reveal_strlit("NP");
        reveal_strlit("VV");
        reveal_strlit("ᆫ다");
        reveal_strlit("ㄴ다");
        reveal_strlit("는다");
        reveal_strlit("서");
        reveal_strlit("어디");
        reveal_strlit("어서");
        assert(p160_f()(ts, i) == p160_step(ts, i));
        if p160_c0(ts, i) {
                let nw0 = seq![plain_view("어서"@, "EC"@, ts[i].start_pos, ts[i + 1].end_pos)];
                assert forall|k: int| 0 <= k < nw0.len() implies !crate::corrections::sentence_final::nda_ec()(#[trigger] nw0[k]) by { if k == 0 { assert(nw0[0] == plain_view("어서"@, "EC"@, ts[i].start_pos, ts[i + 1].end_pos)); assert(!crate::corrections::sentence_final::is_nda_ec(plain_view("어서"@, "EC"@, ts[i].start_pos, ts[i + 1].end_pos))); } }
                let s0 = splice(ts, i, 2, nw0);
                lemma_splice_none_bad(ts, i, 2, nw0, crate::corrections::sentence_final::nda_ec());
            }
    }
    lemma_scan_none_bad(ts0, 0, p160_f(), crate::corrections::sentence_final::nda_ec());
}

/// [`p161`] leaves a list with no 는다, ㄴ다 or ᆫ다 tagged EC without one.
pub proof fn p161_keeps(ts: Seq<TokenView>)
    requires
        none_bad(ts, crate::corrections::sentence_final::nda_ec()),
    ensures
        none_bad(p161(ts), crate::corrections::sentence_final::nda_ec()),
{
    assert forall|j: int| 0 <= j < p161(ts).len() implies !crate::corrections::sentence_final::nda_ec()(#[trigger] p161(ts)[j]) by {
        reveal_strlit("EC");
        reveal_strlit("EF");
        reveal_strlit("IC");
        reveal_strlit("ᆫ다");
        reveal_strlit("ㄴ다");
        reveal_strlit("ㅏ");
        reveal_strlit("는다");
        reveal_strlit("아");
        assert(p161(ts)[j] == (if p161_c(ts, j) { p161_t(ts, j) } else { ts[j] }));
        if p161_c(ts, j) {
            assert(!crate::corrections::sentence_final::is_nda_ec(p161_t(ts, j)));
        } else {
            assert(!crate::corrections::sentence_final::nda_ec()(ts[j]));
        }
    }
}

/// [`p161b`] leaves a list with no 는다, ㄴ다 or ᆫ다 tagged EC without one.
pub proof fn p161b_keeps(ts: Seq<TokenView>)
    requires
        none_bad(ts, crate::corrections::sentence_final::nda_ec()),
    ensures
        none_bad(p161b(ts), crate::corrections::sentence_final::nda_ec()),
{
    assert forall|j: int| 0 <= j < p161b(ts).len() implies !crate::corrections::sentence_final::nda_ec()(#[trigger] p161b(ts)[j]) by {
        reveal_strlit("EC");
        reveal_strlit("EF");
        reveal_strlit("IC");
        reveal_strlit("ᆫ다");
        reveal_strlit("ㄴ다");
        reveal_strlit("ㅓ");
        reveal_strlit("는다");
        reveal_strlit("어");
        assert(p161b(ts)[j] == (if p161b_c(ts, j) { p161b_t(ts, j) } else { ts[j] }));
        if p161b_c(ts, j) {
            assert(!crate::corrections::sentence_final::is_nda_ec(p161b_t(ts, j)));
        } else {
            assert(!crate::corrections::sentence_final::nda_ec()(ts[j]));
        }
    }
}

/// [`p265`] leaves a list with no 는다, ㄴ다 or ᆫ다 tagged EC without one.
pub proof fn p265_keeps(ts: Seq<TokenView>)
    requires
        none_bad(ts, crate::corrections::sentence_final::nda_ec()),
    ensures
        none_bad(p265(ts), crate::corrections::sentence_final::nda_ec()),
{
    assert forall|j: int| 0 <= j < p265(ts).len() implies !crate::corrections::sentence_final::nda_ec()(#[trigger] p265(ts)[j]) by {
        reveal_strlit("EC");
        reveal_strlit("EF");
        reveal_strlit("IC");
        reveal_strlit("VA");
        reveal_strlit("VV");
        reveal_strlit("VX");
        reveal_strlit("ᆫ다");
        reveal_strlit("ㄴ다");
        reveal_strlit("네");
        reveal_strlit("는다");
        assert(p265(ts)[j] == (if p265_c(ts, j) { p265_t(ts, j) } else { ts[j] }));
        if p265_c(ts, j) {
            assert(!crate::corrections::sentence_final::is_nda_ec(p265_t(ts, j)));
        } else {
            assert(!crate::corrections::sentence_final::nda_ec()(ts[j]));
        }
    }
}

/// [`p163`] leaves a list with no 는다, ㄴ다 or ᆫ다 tagged EC without one.
pub proof fn p163_keeps(ts: Seq<TokenView>)
    requires
        none_bad(ts, crate::corrections::sentence_final::nda_ec()),
    ensures
        none_bad(p163(ts), crate::corrections::sentence_final::nda_ec()),
{
    assert forall|j: int| 0 <= j < p163(ts).len() implies !crate::corrections::sentence_final::nda_ec()(#[trigger] p163(ts)[j]) by {
        reveal_strlit("EC");
        reveal_strlit("EF");
        reveal_strlit("ᆫ다");
        reveal_strlit("ㄴ다");
        reveal_strlit("ㅐ");
        reveal_strlit("ㅐ요");
        reveal_strlit("ㅔ");
        reveal_strlit("ㅔ요");
        reveal_strlit("는다");
        reveal_strlit("애");
        reveal_strlit("애요");
        reveal_strlit("에");
        reveal_strlit("에요");
        assert(p163(ts)[j] == (if p163_c(ts, j) { p163_t(ts, j) } else { ts[j] }));
        if p163_c(ts, j) {
            assert(!crate::corrections::sentence_final::is_nda_ec(p163_t(ts, j)));
        } else {
            assert(!crate::corrections::sentence_final::nda_ec()(ts[j]));
        }
    }
}

/// [`p204`] leaves a list with no 는다, ㄴ다 or ᆫ다 tagged EC without one.
pub proof fn p204_keeps(ts: Seq<TokenView>)
    requires
        none_bad(ts, crate::corrections::sentence_final::nda_ec()),
    ensures
        none_bad(p204(ts), crate::corrections::sentence_final::nda_ec()),
{
    assert forall|j: int| 0 <= j < p204(ts).len() implies !crate::corrections::sentence_final::nda_ec()(#[trigger] p204(ts)[j]) by {
        reveal_strlit("EC");
        reveal_strlit("EF");
        reveal_strlit("ᆫ다");
        reveal_strlit("ᆫ데요");
        reveal_strlit("ㄴ다");
        reveal_strlit("ㄴ데요");
        reveal_strlit("는다");
        assert(p204(ts)[j] == (if p204_c(ts, j) { p204_t(ts, j) } else { ts[j] }));
        if p204_c(ts, j) {
            assert(!crate::corrections::sentence_final::is_nda_ec(p204_t(ts, j)));
        } else {
            assert(!crate::corrections::sentence_final::nda_ec()(ts[j]));
        }
    }
}

/// [`p204b`] leaves a list with no 는다, ㄴ다 or ᆫ다 tagged EC without one.
pub proof fn p204b_keeps(ts: Seq<TokenView>)
    requires
        none_bad(ts, crate::corrections::sentence_final::nda_ec()),
    ensures
        none_bad(p204b(ts), crate::corrections::sentence_final::nda_ec()),
{
    assert forall|j: int| 0 <= j < p204b(ts).len() implies !crate::corrections::sentence_final::nda_ec()(#[trigger] p204b(ts)[j]) by {
        reveal_strlit("EC");
        reveal_strlit("EF");
        reveal_strlit("ᆫ다");
        reveal_strlit("ᆫ데");
        reveal_strlit("ㄴ다");
        reveal_strlit("ㄴ데");
        reveal_strlit("는다");
        assert(p204b(ts)[j] == (if p204b_c(ts, j) { p204b_t(ts, j) } else { ts[j] }));
        if p204b_c(ts, j) {
            assert(!crate::corrections::sentence_final::is_nda_ec(p204b_t(ts, j)));
        } else {
            assert(!crate::corrections::sentence_final::nda_ec()(ts[j]));
        }
    }
}

/// [`p204c`] leaves a list with no 는다, ㄴ다 or ᆫ다 tagged EC without one.
pub proof fn p204c_keeps(ts: Seq<TokenView>)
    requires
        none_bad(ts, crate::corrections::sentence_final::nda_ec()),
    ensures
        none_bad(p204c(ts), crate::corrections::sentence_final::nda_ec()),
{
    assert forall|j: int| 0 <= j < p204c(ts).len() implies !crate::corrections::sentence_final::nda_ec()(#[trigger] p204c(ts)[j]) by {
        reveal_strlit("EC");
        reveal_strlit("EF");
        reveal_strlit("ᆫ다");
        reveal_strlit("ㄴ다");
        reveal_strlit("네");
        reveal_strlit("는다");
        assert(p204c(ts)[j] == (if p204c_c(ts, j) { p204c_t(ts, j) } else { ts[j] }));
        if p204c_c(ts, j) {
            assert(!crate::corrections::sentence_final::is_nda_ec(p204c_t(ts, j)));
        } else {
            assert(!crate::corrections::sentence_final::nda_ec()(ts[j]));
        }
    }
}

/// [`p164`] leaves a list with no 는다, ㄴ다 or ᆫ다 tagged EC without one.
pub proof fn p164_keeps(ts0: Seq<TokenView>)
    requires
        none_bad(ts0, crate::corrections::sentence_final::nda_ec()),
    ensures
        none_bad(p164(ts0), crate::corrections::sentence_final::nda_ec()),
{
    assert forall|ts: Seq<TokenView>, i: int| 0 <= i < ts.len() && none_bad(ts, crate::corrections::sentence_final::nda_ec()) implies
        none_bad((#[trigger] p164_f()(ts, i)).0, crate::corrections::sentence_final::nda_ec()) by {
        reveal_strlit("EC");
        reveal_strlit("NR");
        reveal_strlit("ᆫ다");
        reveal_strlit("ㄴ다");
        reveal_strlit("구");
        reveal_strlit("는다");
        reveal_strlit("만");
        reveal_strlit("백");
        reveal_strlit("사");
        reveal_strlit("삼");
        reveal_strlit("십");
        reveal_strlit("오");
        reveal_strlit("육");
        reveal_strlit("이");
        reveal_strlit("일");
        reveal_strlit("천");
        reveal_strlit("칠");
        reveal_strlit("팔");
        assert(p164_f()(ts, i) == p164_step(ts, i));
        if p164_c0(ts, i) {
                let nw0 = seq![TokenView { surface: (ts[i].surface + ts[i + 1].surface), ..ts[i] }];
                assert forall|k: int| 0 <= k < nw0.len() implies !crate::corrections::sentence_final::nda_ec()(#[trigger] nw0[k]) by { if k == 0 { assert(nw0[0] == TokenView { surface: (ts[i].surface + ts[i + 1].surface), ..ts[i] }); assert(!crate::corrections::sentence_final::is_nda_ec(TokenView { surface: (ts[i].surface + ts[i + 1].surface), ..ts[i] })); } }
                let s0 = splice(ts, i, 2, nw0);
                lemma_splice_none_bad(ts, i, 2, nw0, crate::corrections::sentence_final::nda_ec());
            }
    }
    lemma_scan_none_bad(ts0, 0, p164_f(), crate::corrections::sentence_final::nda_ec());
}

/// [`p189`] leaves a list with no 는다, ㄴ다 or ᆫ다 tagged EC without one.
pub proof fn p189_keeps(ts: Seq<TokenView>)
    requires
        none_bad(ts, crate::corrections::sentence_final::nda_ec()),
    ensures
        none_bad(p189(ts), crate::corrections::sentence_final::nda_ec()),
{
    assert forall|j: int| 0 <= j < p189(ts).len() implies !crate::corrections::sentence_final::nda_ec()(#[trigger] p189(ts)[j]) by {
        reveal_strlit("EC");
        reveal_strlit("NR");
        reveal_strlit("SN");
        reveal_strlit("ᆫ다");
        reveal_strlit("ㄴ다");
        reveal_strlit("공");
        reveal_strlit("구");
        reveal_strlit("는다");
        reveal_strlit("사");
        reveal_strlit("삼");
        reveal_strlit("영");
        reveal_strlit("오");
        reveal_strlit("육");
        reveal_strlit("이");
        reveal_strlit("일");
        reveal_strlit("칠");
        reveal_strlit("팔");
        assert(p189(ts)[j] == (if p189_c(ts, j) { p189_t(ts, j) } else { ts[j] }));
        if p189_c(ts, j) {
            assert(!crate::corrections::sentence_final::is_nda_ec(p189_t(ts, j)));
        } else {
            assert(!crate::corrections::sentence_final::nda_ec()(ts[j]));
        }
    }
}

/// [`p255`] leaves a list with no 는다, ㄴ다 or ᆫ다 tagged EC without one.
pub proof fn p255_keeps(ts0: Seq<TokenView>)
    requires
        none_bad(ts0, crate::corrections::sentence_final::nda_ec()),
    ensures
        none_bad(p255(ts0), crate::corrections::sentence_final::nda_ec()),
{
    assert forall|ts: Seq<TokenView>, i: int| 0 <= i < ts.len() && none_bad(ts, crate::corrections::sentence_final::nda_ec()) implies
        none_bad((#[trigger] p255_f()(ts, i)).0, crate::corrections::sentence_final::nda_ec()) by {
        reveal_strlit("EC");
        reveal_strlit("EF");
        reveal_strlit("JX");
        reveal_strlit("ᆫ다");
        reveal_strlit("ㄴ다");
        reveal_strlit("는다");
        reveal_strlit("어");
        reveal_strlit("어요");
        reveal_strlit("요");
        assert(p255_f()(ts, i) == p255_step(ts, i));
        if p255_c0(ts, i) {
                let nw0 = seq![plain_view("어요"@, "EF"@, ts[i].start_pos, ts[i + 1].end_pos)];
                assert forall|k: int| 0 <= k < nw0.len() implies !crate::corrections::sentence_final::nda_ec()(#[trigger] nw0[k]) by { if k == 0 { assert(nw0[0] == plain_view("어요"@, "EF"@, ts[i].start_pos, ts[i + 1].end_pos)); assert(!crate::corrections::sentence_final::is_nda_ec(plain_view("어요"@, "EF"@, ts[i].start_pos, ts[i + 1].end_pos))); } }
                let s0 = splice(ts, i, 2, nw0);
                lemma_splice_none_bad(ts, i, 2, nw0, crate::corrections::sentence_final::nda_ec());
            }
    }
    lemma_scan_none_bad(ts0, 0, p255_f(), crate::corrections::sentence_final::nda_ec());
}

/// [`p259`] leaves a list with no 는다, ㄴ다 or ᆫ다 tagged EC without one.
pub proof fn p259_keeps(ts0: Seq<TokenView>)
    requires
        none_bad(ts0, crate::corrections::sentence_final::nda_ec()),
    ensures
        none_bad(p259(ts0), crate::corrections::sentence_final::nda_ec()),
{
    assert forall|ts: Seq<TokenView>, i: int| 0 <= i < ts.len() && none_bad(ts, crate::corrections::sentence_final::nda_ec()) implies
        none_bad((#[trigger] p259_f()(ts, i)).0, crate::corrections::sentence_final::nda_ec()) by {
        reveal_strlit("EC");
        reveal_strlit("EF");
        reveal_strlit("NNB");
        reveal_strlit("VV");
        reveal_strlit("ᆫ다");
        reveal_strlit("ㄴ다");
        reveal_strlit("ㅏ");
        reveal_strlit("는다");
        reveal_strlit("아");
        reveal_strlit("채");
        assert(p259_f()(ts, i) == p259_step(ts, i));
        if p259_c0(ts, i) {
                let nw0 = seq![TokenView { pos: "NNB"@, ..ts[i] }];
                assert forall|k: int| 0 <= k < nw0.len() implies !crate::corrections::sentence_final::nda_ec()(#[trigger] nw0[k]) by { if k == 0 { assert(nw0[0] == TokenView { pos: "NNB"@, ..ts[i] }); assert(!crate::corrections::sentence_final::is_nda_ec(TokenView { pos: "NNB"@, ..ts[i] })); } }
                let s0 = splice(ts, i, 2, nw0);
                lemma_splice_none_bad(ts, i, 2, nw0, crate::corrections::sentence_final::nda_ec());
            }
    }
    lemma_scan_none_bad(ts0, 0, p259_f(), crate::corrections::sentence_final::nda_ec());
}

/// These corrections tag no 는다, ㄴ다 or ᆫ다 EC that was not.
pub proof fn lemma_sentence_final_endings_keeps(ts: Seq<TokenView>)
    requires
        none_bad(ts, crate::corrections::sentence_final::nda_ec()),
    ensures
        none_bad(spec_apply_sentence_final_endings_corrections(ts), crate::corrections::sentence_final::nda_ec()),
{
    p149_keeps(ts);
    let t0 = p149(ts);
    p149b_keeps(t0);
    let t1 = p149b(t0);
    p152_keeps(t1);
    let t2 = p152(t1);
    p153_keeps(t2);
    let t3 = p153(t2);
    p154_keeps(t3);
    let t4 = p154(t3);
    p154b_keeps(t4);
    let t5 = p154b(t4);
    p155_keeps(t5);
    let t6 = p155(t5);
    p155b_keeps(t6);
    let t7 = p155b(t6);
    p156_keeps(t7);
    let t8 = p156(t7);
    p157_keeps(t8);
    let t9 = p157(t8);
    p157b_keeps(t9);
    let t10 = p157b(t9);
    p158_keeps(t10);
    let t11 = p158(t10);
    p159_keeps(t11);
    let t12 = p159(t11);
    p160_keeps(t12);
    let t13 = p160(t12);
    p161_keeps(t13);
    let t14 = p161(t13);
    p161b_keeps(t14);
    let t15 = p161b(t14);
    p265_keeps(t15);
    let t16 = p265(t15);
    p163_keeps(t16);
    let t17 = p163(t16);
    p204_keeps(t17);
    let t18 = p204(t17);
    p204b_keeps(t18);
    let t19 = p204b(t18);
    p204c_keeps(t19);
    let t20 = p204c(t19);
    p164_keeps(t20);
    let t21 = p164(t20);
    p189_keeps(t21);
    let t22 = p189(t21);
    p255_keeps(t22);
    let t23 = p255(t22);
    p259_keeps(t23);
    let t24 = p259(t23);
}

} // verus!
