//! Compound words merged and irregular conjugations repaired.

use vstd::prelude::*;
use crate::converter::tokens_view;
use crate::rewrite::{in_list, map_where, pos_is, push_token, scan, set_token, splice, splice_tokens, surf_ends, surf_is};
use crate::text::{is_suffix, owned};
use crate::types::{plain_view, SejongToken, TokenView};

verus! {

/// Where rule 0 of [`p228`] applies.
pub open spec fn p228_c0(ts: Seq<TokenView>, i: int) -> bool {
    ((0 <= i < ts.len() && ts[i].surface == "하"@) && (0 <= i < ts.len() && seq!["XSV"@, "VV"@].contains(ts[i].pos)) && ((0 <= i + 1 < ts.len() && ts[i + 1].surface == "ㄹ"@) && (0 <= i + 1 < ts.len() && ts[i + 1].pos == "ETM"@)) && ((0 <= i + 2 < ts.len() && ts[i + 2].surface == "머"@) && (0 <= i + 2 < ts.len() && ts[i + 2].pos == "NP"@)) && ((0 <= i + 3 < ts.len() && ts[i + 3].surface == "님"@) && (0 <= i + 3 < ts.len() && ts[i + 3].pos == "XSN"@)))
}

/// Where rule 1 of [`p228`] applies.
pub open spec fn p228_c1(ts: Seq<TokenView>, i: int) -> bool {
    ((0 <= i < ts.len() && ts[i].surface == "하"@) && (0 <= i < ts.len() && seq!["XSV"@, "VV"@].contains(ts[i].pos)) && ((0 <= i + 1 < ts.len() && ts[i + 1].surface == "ㄹ"@) && (0 <= i + 1 < ts.len() && ts[i + 1].pos == "ETM"@)) && ((0 <= i + 2 < ts.len() && ts[i + 2].surface == "아버"@) && (0 <= i + 2 < ts.len() && ts[i + 2].pos == "NNG"@)) && ((0 <= i + 3 < ts.len() && ts[i + 3].surface == "님"@) && (0 <= i + 3 < ts.len() && ts[i + 3].pos == "XSN"@)))
}

/// One step of [`p228`] at `i`: the list after it and the next position.
pub open spec fn p228_step(ts: Seq<TokenView>, i: int) -> (Seq<TokenView>, int) {
    if p228_c0(ts, i) {
        (splice(ts, i, 4, seq![plain_view("할머님"@, "NNG"@, ts[i].start_pos, ts[i + 3].end_pos)]), i + 1)
    } else if p228_c1(ts, i) {
        (splice(ts, i, 4, seq![plain_view("할아버님"@, "NNG"@, ts[i].start_pos, ts[i + 3].end_pos)]), i + 1)
    } else {
        (ts, i + 1)
    }
}

/// [`p228_step`] as a function value.
pub open spec fn p228_f() -> spec_fn(Seq<TokenView>, int) -> (Seq<TokenView>, int) {
    |ts: Seq<TokenView>, i: int| p228_step(ts, i)
}

/// 하/XSV|VV ㄹ/ETM 머/NP 님/XSN is 할머님/NNG; with 아버/NNG in place of 머/NP it is 할아버님/NNG.
pub open spec fn p228(ts: Seq<TokenView>) -> Seq<TokenView> {
    scan(ts, 0, p228_f())
}

/// Whether rule 0 of [`p228`] applies at `i`.
fn p228_c0_exec(tokens: &Vec<SejongToken>, i: usize) -> (r: bool)
    requires
        i < tokens@.len(),
    ensures
        r == p228_c0(tokens_view(tokens@), i as int),
{
    assert(tokens_view(tokens@).len() == tokens@.len());
    let c0 = surf_is(&tokens[i], "하");
    let l2: [&str; 2] = ["XSV", "VV"];
    assert(crate::tag_map::strs_view(l2@) =~= seq!["XSV"@, "VV"@]);
    let c1 = in_list(&l2, tokens[i].pos.as_str());
    let c3 = (tokens.len() - i > 1) && surf_is(&tokens[i + 1], "ㄹ");
    let c4 = (tokens.len() - i > 1) && pos_is(&tokens[i + 1], "ETM");
    let c5 = (tokens.len() - i > 2) && surf_is(&tokens[i + 2], "머");
    let c6 = (tokens.len() - i > 2) && pos_is(&tokens[i + 2], "NP");
    let c7 = (tokens.len() - i > 3) && surf_is(&tokens[i + 3], "님");
    let c8 = (tokens.len() - i > 3) && pos_is(&tokens[i + 3], "XSN");
    (c0 && c1 && (c3 && c4) && (c5 && c6) && (c7 && c8))
}

/// Whether rule 1 of [`p228`] applies at `i`.
fn p228_c1_exec(tokens: &Vec<SejongToken>, i: usize) -> (r: bool)
    requires
        i < tokens@.len(),
    ensures
        r == p228_c1(tokens_view(tokens@), i as int),
{
    assert(tokens_view(tokens@).len() == tokens@.len());
    let c9 = surf_is(&tokens[i], "하");
    let l11: [&str; 2] = ["XSV", "VV"];
    assert(crate::tag_map::strs_view(l11@) =~= seq!["XSV"@, "VV"@]);
    let c10 = in_list(&l11, tokens[i].pos.as_str());
    let c12 = (tokens.len() - i > 1) && surf_is(&tokens[i + 1], "ㄹ");
    let c13 = (tokens.len() - i > 1) && pos_is(&tokens[i + 1], "ETM");
    let c14 = (tokens.len() - i > 2) && surf_is(&tokens[i + 2], "아버");
    let c15 = (tokens.len() - i > 2) && pos_is(&tokens[i + 2], "NNG");
    let c16 = (tokens.len() - i > 3) && surf_is(&tokens[i + 3], "님");
    let c17 = (tokens.len() - i > 3) && pos_is(&tokens[i + 3], "XSN");
    (c9 && c10 && (c12 && c13) && (c14 && c15) && (c16 && c17))
}

/// One step of [`p228`] at `i`; returns the next position.
fn p228_step_exec(tokens: &mut Vec<SejongToken>, i: usize) -> (next: usize)
    requires
        i < old(tokens)@.len(),
    ensures
        (tokens_view(final(tokens)@), next as int) == p228_step(tokens_view(old(tokens)@), i as int),
        final(tokens)@.len() - next < old(tokens)@.len() - i,
        next <= final(tokens)@.len() + 1,
{
    let len0 = tokens.len();
    assert(tokens_view(tokens@).len() == tokens@.len());
    if p228_c0_exec(tokens, i) {
        let s19 = owned("할머님");
        let s20 = owned("NNG");
        let n21 = tokens[i].start_pos;
        let n22 = tokens[i + 3].end_pos;
        let t18 = SejongToken::new(s19.as_str(), s20.as_str(), n21, n22);
        let mut nv23: Vec<SejongToken> = Vec::new();
        push_token(&mut nv23, t18);
        splice_tokens(tokens, i, 4, nv23);
        let _len1 = tokens.len();
        return i + 1;
    }
    if p228_c1_exec(tokens, i) {
        let s25 = owned("할아버님");
        let s26 = owned("NNG");
        let n27 = tokens[i].start_pos;
        let n28 = tokens[i + 3].end_pos;
        let t24 = SejongToken::new(s25.as_str(), s26.as_str(), n27, n28);
        let mut nv29: Vec<SejongToken> = Vec::new();
        push_token(&mut nv29, t24);
        splice_tokens(tokens, i, 4, nv29);
        let _len1 = tokens.len();
        return i + 1;
    }
    i + 1
}

/// 하/XSV|VV ㄹ/ETM 머/NP 님/XSN is 할머님/NNG; with 아버/NNG in place of 머/NP it is 할아버님/NNG.
pub fn apply_p228(tokens: &mut Vec<SejongToken>)
    ensures
        tokens_view(final(tokens)@) == p228(tokens_view(old(tokens)@)),
{
    let ghost orig = tokens_view(tokens@);
    let mut i: usize = 0;
    while i < tokens.len()
        invariant
            i <= tokens@.len() + 1,
            scan(tokens_view(tokens@), i as int, p228_f()) == scan(orig, 0, p228_f()),
        decreases tokens@.len() + 1 - i,
    {
        let ghost before = tokens_view(tokens@);
        assert(before.len() == tokens@.len());
        i = p228_step_exec(tokens, i);
        assert(tokens_view(tokens@).len() == tokens@.len());
    }
}

/// Where rule 0 of [`p230`] applies.
pub open spec fn p230_c0(ts: Seq<TokenView>, i: int) -> bool {
    ((0 <= i < ts.len() && ts[i].surface == "시"@) && (0 <= i < ts.len() && seq!["NNG"@, "NNB"@].contains(ts[i].pos)) && (0 <= i + 1 < ts.len() && ts[i + 1].surface == "가"@) && (0 <= i + 1 < ts.len() && seq!["VV"@, "JKS"@].contains(ts[i + 1].pos)) && ((0 <= i + 2 < ts.len() && ts[i + 2].surface == "ㄴ"@) && (0 <= i + 2 < ts.len() && ts[i + 2].pos == "ETM"@)))
}

/// One step of [`p230`] at `i`: the list after it and the next position.
pub open spec fn p230_step(ts: Seq<TokenView>, i: int) -> (Seq<TokenView>, int) {
    if p230_c0(ts, i) {
        (splice(ts, i, 3, seq![plain_view("시간"@, "NNG"@, ts[i].start_pos, ts[i + 2].end_pos)]), i + 1)
    } else {
        (ts, i + 1)
    }
}

/// [`p230_step`] as a function value.
pub open spec fn p230_f() -> spec_fn(Seq<TokenView>, int) -> (Seq<TokenView>, int) {
    |ts: Seq<TokenView>, i: int| p230_step(ts, i)
}

/// 시/NNG|NNB 가/VV|JKS ㄴ/ETM is the noun 시간/NNG.
pub open spec fn p230(ts: Seq<TokenView>) -> Seq<TokenView> {
    scan(ts, 0, p230_f())
}

/// Whether rule 0 of [`p230`] applies at `i`.
fn p230_c0_exec(tokens: &Vec<SejongToken>, i: usize) -> (r: bool)
    requires
        i < tokens@.len(),
    ensures
        r == p230_c0(tokens_view(tokens@), i as int),
{
    assert(tokens_view(tokens@).len() == tokens@.len());
    let c30 = surf_is(&tokens[i], "시");
    let l32: [&str; 2] = ["NNG", "NNB"];
    assert(crate::tag_map::strs_view(l32@) =~= seq!["NNG"@, "NNB"@]);
    let c31 = in_list(&l32, tokens[i].pos.as_str());
    let c33 = (tokens.len() - i > 1) && surf_is(&tokens[i + 1], "가");
    let l35: [&str; 2] = ["VV", "JKS"];
    assert(crate::tag_map::strs_view(l35@) =~= seq!["VV"@, "JKS"@]);
    let c34 = (tokens.len() - i > 1) && in_list(&l35, tokens[i + 1].pos.as_str());
    let c36 = (tokens.len() - i > 2) && surf_is(&tokens[i + 2], "ㄴ");
    let c37 = (tokens.len() - i > 2) && pos_is(&tokens[i + 2], "ETM");
    (c30 && c31 && c33 && c34 && (c36 && c37))
}

/// One step of [`p230`] at `i`; returns the next position.
fn p230_step_exec(tokens: &mut Vec<SejongToken>, i: usize) -> (next: usize)
    requires
        i < old(tokens)@.len(),
    ensures
        (tokens_view(final(tokens)@), next as int) == p230_step(tokens_view(old(tokens)@), i as int),
        final(tokens)@.len() - next < old(tokens)@.len() - i,
        next <= final(tokens)@.len() + 1,
{
    let len0 = tokens.len();
    assert(tokens_view(tokens@).len() == tokens@.len());
    if p230_c0_exec(tokens, i) {
        let s39 = owned("시간");
        let s40 = owned("NNG");
        let n41 = tokens[i].start_pos;
        let n42 = tokens[i + 2].end_pos;
        let t38 = SejongToken::new(s39.as_str(), s40.as_str(), n41, n42);
        let mut nv43: Vec<SejongToken> = Vec::new();
        push_token(&mut nv43, t38);
        splice_tokens(tokens, i, 3, nv43);
        let _len1 = tokens.len();
        return i + 1;
    }
    i + 1
}

/// 시/NNG|NNB 가/VV|JKS ㄴ/ETM is the noun 시간/NNG.
pub fn apply_p230(tokens: &mut Vec<SejongToken>)
    ensures
        tokens_view(final(tokens)@) == p230(tokens_view(old(tokens)@)),
{
    let ghost orig = tokens_view(tokens@);
    let mut i: usize = 0;
    while i < tokens.len()
        invariant
            i <= tokens@.len() + 1,
            scan(tokens_view(tokens@), i as int, p230_f()) == scan(orig, 0, p230_f()),
        decreases tokens@.len() + 1 - i,
    {
        let ghost before = tokens_view(tokens@);
        assert(before.len() == tokens@.len());
        i = p230_step_exec(tokens, i);
        assert(tokens_view(tokens@).len() == tokens@.len());
    }
}

/// Where rule 0 of [`p231`] applies.
pub open spec fn p231_c0(ts: Seq<TokenView>, i: int) -> bool {
    (((0 <= i < ts.len() && ts[i].surface == "주"@) && (0 <= i < ts.len() && ts[i].pos == "VX"@)) && ((0 <= i + 1 < ts.len() && ts[i + 1].surface == "말"@) && (0 <= i + 1 < ts.len() && ts[i + 1].pos == "NNG"@)))
}

/// One step of [`p231`] at `i`: the list after it and the next position.
pub open spec fn p231_step(ts: Seq<TokenView>, i: int) -> (Seq<TokenView>, int) {
    if p231_c0(ts, i) {
        (splice(ts, i, 2, seq![plain_view("주말"@, "NNG"@, ts[i].start_pos, ts[i + 1].end_pos)]), i + 1)
    } else {
        (ts, i + 1)
    }
}

/// [`p231_step`] as a function value.
pub open spec fn p231_f() -> spec_fn(Seq<TokenView>, int) -> (Seq<TokenView>, int) {
    |ts: Seq<TokenView>, i: int| p231_step(ts, i)
}

/// 주/VX 말/NNG is the noun 주말/NNG.
pub open spec fn p231(ts: Seq<TokenView>) -> Seq<TokenView> {
    scan(ts, 0, p231_f())
}

/// Whether rule 0 of [`p231`] applies at `i`.
fn p231_c0_exec(tokens: &Vec<SejongToken>, i: usize) -> (r: bool)
    requires
        i < tokens@.len(),
    ensures
        r == p231_c0(tokens_view(tokens@), i as int),
{
    assert(tokens_view(tokens@).len() == tokens@.len());
    let c44 = surf_is(&tokens[i], "주");
    let c45 = pos_is(&tokens[i], "VX");
    let c46 = (tokens.len() - i > 1) && surf_is(&tokens[i + 1], "말");
    let c47 = (tokens.len() - i > 1) && pos_is(&tokens[i + 1], "NNG");
    ((c44 && c45) && (c46 && c47))
}

/// One step of [`p231`] at `i`; returns the next position.
fn p231_step_exec(tokens: &mut Vec<SejongToken>, i: usize) -> (next: usize)
    requires
        i < old(tokens)@.len(),
    ensures
        (tokens_view(final(tokens)@), next as int) == p231_step(tokens_view(old(tokens)@), i as int),
        final(tokens)@.len() - next < old(tokens)@.len() - i,
        next <= final(tokens)@.len() + 1,
{
    let len0 = tokens.len();
    assert(tokens_view(tokens@).len() == tokens@.len());
    if p231_c0_exec(tokens, i) {
        let s49 = owned("주말");
        let s50 = owned("NNG");
        let n51 = tokens[i].start_pos;
        let n52 = tokens[i + 1].end_pos;
        let t48 = SejongToken::new(s49.as_str(), s50.as_str(), n51, n52);
        let mut nv53: Vec<SejongToken> = Vec::new();
        push_token(&mut nv53, t48);
        splice_tokens(tokens, i, 2, nv53);
        let _len1 = tokens.len();
        return i + 1;
    }
    i + 1
}

/// 주/VX 말/NNG is the noun 주말/NNG.
pub fn apply_p231(tokens: &mut Vec<SejongToken>)
    ensures
        tokens_view(final(tokens)@) == p231(tokens_view(old(tokens)@)),
{
    let ghost orig = tokens_view(tokens@);
    let mut i: usize = 0;
    while i < tokens.len()
        invariant
            i <= tokens@.len() + 1,
            scan(tokens_view(tokens@), i as int, p231_f()) == scan(orig, 0, p231_f()),
        decreases tokens@.len() + 1 - i,
    {
        let ghost before = tokens_view(tokens@);
        assert(before.len() == tokens@.len());
        i = p231_step_exec(tokens, i);
        assert(tokens_view(tokens@).len() == tokens@.len());
    }
}

/// Where rule 0 of [`p232`] applies.
pub open spec fn p232_c0(ts: Seq<TokenView>, i: int) -> bool {
    (((0 <= i < ts.len() && ts[i].surface == "가"@) && (0 <= i < ts.len() && ts[i].pos == "VV"@)) && ((0 <= i + 1 < ts.len() && ts[i + 1].surface == "ㄹ"@) && (0 <= i + 1 < ts.len() && ts[i + 1].pos == "ETM"@)) && (0 <= i + 2 < ts.len() && ts[i + 2].surface == "등"@) && (0 <= i + 2 < ts.len() && seq!["NNG"@, "NNB"@].contains(ts[i + 2].pos)))
}

/// One step of [`p232`] at `i`: the list after it and the next position.
pub open spec fn p232_step(ts: Seq<TokenView>, i: int) -> (Seq<TokenView>, int) {
    if p232_c0(ts, i) {
        (splice(ts, i, 3, seq![plain_view("갈등"@, "NNG"@, ts[i].start_pos, ts[i + 2].end_pos)]), i + 1)
    } else {
        (ts, i + 1)
    }
}

/// [`p232_step`] as a function value.
pub open spec fn p232_f() -> spec_fn(Seq<TokenView>, int) -> (Seq<TokenView>, int) {
    |ts: Seq<TokenView>, i: int| p232_step(ts, i)
}

/// 가/VV ㄹ/ETM 등/NNG|NNB is the noun 갈등/NNG.
pub open spec fn p232(ts: Seq<TokenView>) -> Seq<TokenView> {
    scan(ts, 0, p232_f())
}

/// Whether rule 0 of [`p232`] applies at `i`.
fn p232_c0_exec(tokens: &Vec<SejongToken>, i: usize) -> (r: bool)
    requires
        i < tokens@.len(),
    ensures
        r == p232_c0(tokens_view(tokens@), i as int),
{
    assert(tokens_view(tokens@).len() == tokens@.len());
    let c54 = surf_is(&tokens[i], "가");
    let c55 = pos_is(&tokens[i], "VV");
    let c56 = (tokens.len() - i > 1) && surf_is(&tokens[i + 1], "ㄹ");
    let c57 = (tokens.len() - i > 1) && pos_is(&tokens[i + 1], "ETM");
    let c58 = (tokens.len() - i > 2) && surf_is(&tokens[i + 2], "등");
    let l60: [&str; 2] = ["NNG", "NNB"];
    assert(crate::tag_map::strs_view(l60@) =~= seq!["NNG"@, "NNB"@]);
    let c59 = (tokens.len() - i > 2) && in_list(&l60, tokens[i + 2].pos.as_str());
    ((c54 && c55) && (c56 && c57) && c58 && c59)
}

/// One step of [`p232`] at `i`; returns the next position.
fn p232_step_exec(tokens: &mut Vec<SejongToken>, i: usize) -> (next: usize)
    requires
        i < old(tokens)@.len(),
    ensures
        (tokens_view(final(tokens)@), next as int) == p232_step(tokens_view(old(tokens)@), i as int),
        final(tokens)@.len() - next < old(tokens)@.len() - i,
        next <= final(tokens)@.len() + 1,
{
    let len0 = tokens.len();
    assert(tokens_view(tokens@).len() == tokens@.len());
    if p232_c0_exec(tokens, i) {
        let s62 = owned("갈등");
        let s63 = owned("NNG");
        let n64 = tokens[i].start_pos;
        let n65 = tokens[i + 2].end_pos;
        let t61 = SejongToken::new(s62.as_str(), s63.as_str(), n64, n65);
        let mut nv66: Vec<SejongToken> = Vec::new();
        push_token(&mut nv66, t61);
        splice_tokens(tokens, i, 3, nv66);
        let _len1 = tokens.len();
        return i + 1;
    }
    i + 1
}

/// 가/VV ㄹ/ETM 등/NNG|NNB is the noun 갈등/NNG.
pub fn apply_p232(tokens: &mut Vec<SejongToken>)
    ensures
        tokens_view(final(tokens)@) == p232(tokens_view(old(tokens)@)),
{
    let ghost orig = tokens_view(tokens@);
    let mut i: usize = 0;
    while i < tokens.len()
        invariant
            i <= tokens@.len() + 1,
            scan(tokens_view(tokens@), i as int, p232_f()) == scan(orig, 0, p232_f()),
        decreases tokens@.len() + 1 - i,
    {
        let ghost before = tokens_view(tokens@);
        assert(before.len() == tokens@.len());
        i = p232_step_exec(tokens, i);
        assert(tokens_view(tokens@).len() == tokens@.len());
    }
}

/// Where rule 0 of [`p234`] applies.
pub open spec fn p234_c0(ts: Seq<TokenView>, i: int) -> bool {
    (((0 <= i < ts.len() && ts[i].surface == "가"@) && (0 <= i < ts.len() && ts[i].pos == "VV"@)) && (0 <= i - 1 < ts.len() && ts[i - 1].pos == "SL"@) && (0 <= i + 1 < ts.len() && seq!["어"@, "아"@].contains(ts[i + 1].surface)) && (0 <= i + 1 < ts.len() && ts[i + 1].pos == "EC"@))
}

/// One step of [`p234`] at `i`: the list after it and the next position.
pub open spec fn p234_step(ts: Seq<TokenView>, i: int) -> (Seq<TokenView>, int) {
    if p234_c0(ts, i) {
        (splice(ts, i, 2, seq![TokenView { pos: "JKS"@, ..ts[i] }]), i + 1)
    } else {
        (ts, i + 1)
    }
}

/// [`p234_step`] as a function value.
pub open spec fn p234_f() -> spec_fn(Seq<TokenView>, int) -> (Seq<TokenView>, int) {
    |ts: Seq<TokenView>, i: int| p234_step(ts, i)
}

/// 가/VV 아|어/EC after a foreign word is the subject particle 가/JKS.
pub open spec fn p234(ts: Seq<TokenView>) -> Seq<TokenView> {
    scan(ts, 0, p234_f())
}

/// Whether rule 0 of [`p234`] applies at `i`.
fn p234_c0_exec(tokens: &Vec<SejongToken>, i: usize) -> (r: bool)
    requires
        i < tokens@.len(),
    ensures
        r == p234_c0(tokens_view(tokens@), i as int),
{
    assert(tokens_view(tokens@).len() == tokens@.len());
    let c67 = surf_is(&tokens[i], "가");
    let c68 = pos_is(&tokens[i], "VV");
    let c69 = (i >= 1) && pos_is(&tokens[i - 1], "SL");
    let l71: [&str; 2] = ["어", "아"];
    assert(crate::tag_map::strs_view(l71@) =~= seq!["어"@, "아"@]);
    let c70 = (tokens.len() - i > 1) && in_list(&l71, tokens[i + 1].surface.as_str());
    let c72 = (tokens.len() - i > 1) && pos_is(&tokens[i + 1], "EC");
    ((c67 && c68) && c69 && c70 && c72)
}

/// One step of [`p234`] at `i`; returns the next position.
fn p234_step_exec(tokens: &mut Vec<SejongToken>, i: usize) -> (next: usize)
    requires
        i < old(tokens)@.len(),
    ensures
        (tokens_view(final(tokens)@), next as int) == p234_step(tokens_view(old(tokens)@), i as int),
        final(tokens)@.len() - next < old(tokens)@.len() - i,
        next <= final(tokens)@.len() + 1,
{
    let len0 = tokens.len();
    assert(tokens_view(tokens@).len() == tokens@.len());
    if p234_c0_exec(tokens, i) {
        let s74 = owned("JKS");
        let mut t73 = tokens[i].duplicate();
        t73.pos = s74;
        let mut nv75: Vec<SejongToken> = Vec::new();
        push_token(&mut nv75, t73);
        splice_tokens(tokens, i, 2, nv75);
        let _len1 = tokens.len();
        return i + 1;
    }
    i + 1
}

/// 가/VV 아|어/EC after a foreign word is the subject particle 가/JKS.
pub fn apply_p234(tokens: &mut Vec<SejongToken>)
    ensures
        tokens_view(final(tokens)@) == p234(tokens_view(old(tokens)@)),
{
    let ghost orig = tokens_view(tokens@);
    let mut i: usize = 0;
    while i < tokens.len()
        invariant
            i <= tokens@.len() + 1,
            scan(tokens_view(tokens@), i as int, p234_f()) == scan(orig, 0, p234_f()),
        decreases tokens@.len() + 1 - i,
    {
        let ghost before = tokens_view(tokens@);
        assert(before.len() == tokens@.len());
        i = p234_step_exec(tokens, i);
        assert(tokens_view(tokens@).len() == tokens@.len());
    }
}

/// Where [`p234b`] changes a token.
pub open spec fn p234b_c(ts: Seq<TokenView>, i: int) -> bool {
    (((0 <= i < ts.len() && ts[i].surface == "가"@) && (0 <= i < ts.len() && ts[i].pos == "VV"@)) && (0 <= i - 1 < ts.len() && ts[i - 1].pos == "SL"@))
}

/// The token [`p234b`] puts at `i`.
pub open spec fn p234b_t(ts: Seq<TokenView>, i: int) -> TokenView {
    TokenView { pos: "JKS"@, ..ts[i] }
}

/// 가/VV after a foreign word is the subject particle 가/JKS.
pub open spec fn p234b(ts: Seq<TokenView>) -> Seq<TokenView> {
    map_where(ts, |ts: Seq<TokenView>, i: int| p234b_c(ts, i), |ts: Seq<TokenView>, i: int| p234b_t(ts, i))
}

/// Whether [`p234b`] changes the token at `i`.
fn p234b_c_exec(tokens: &Vec<SejongToken>, i: usize) -> (r: bool)
    requires
        i < tokens@.len(),
    ensures
        r == p234b_c(tokens_view(tokens@), i as int),
{
    assert(tokens_view(tokens@).len() == tokens@.len());
    let c76 = surf_is(&tokens[i], "가");
    let c77 = pos_is(&tokens[i], "VV");
    let c78 = (i >= 1) && pos_is(&tokens[i - 1], "SL");
    ((c76 && c77) && c78)
}

/// The token [`p234b`] puts at `i`.
fn p234b_t_exec(tokens: &Vec<SejongToken>, i: usize) -> (t: SejongToken)
    requires
        i < tokens@.len(),
        p234b_c(tokens_view(tokens@), i as int),
    ensures
        t@ == p234b_t(tokens_view(tokens@), i as int),
{
    assert(tokens_view(tokens@).len() == tokens@.len());
    let s80 = owned("JKS");
    let mut t79 = tokens[i].duplicate();
    t79.pos = s80;
    t79
}

/// 가/VV after a foreign word is the subject particle 가/JKS.
pub fn apply_p234b(tokens: &mut Vec<SejongToken>)
    ensures
        tokens_view(final(tokens)@) == p234b(tokens_view(old(tokens)@)),
{
    let ghost orig = tokens_view(tokens@);
    let mut out: Vec<SejongToken> = Vec::new();
    let mut k: usize = 0;
    while k < tokens.len()
        invariant
            k <= tokens@.len(),
            orig == tokens_view(tokens@),
            tokens_view(out@) == p234b(orig).take(k as int),
        decreases tokens@.len() - k,
    {
        let t = if p234b_c_exec(tokens, k) { p234b_t_exec(tokens, k) } else { tokens[k].duplicate() };
        push_token(&mut out, t);
        k += 1;
        assert(tokens_view(out@) =~= p234b(orig).take(k as int));
    }
    assert(p234b(orig).take(k as int) =~= p234b(orig));
    *tokens = out;
}

/// Where rule 0 of [`p236`] applies.
pub open spec fn p236_c0(ts: Seq<TokenView>, i: int) -> bool {
    (((0 <= i < ts.len() && ts[i].surface == "지"@) && (0 <= i < ts.len() && ts[i].pos == "VX"@)) && ((0 <= i + 1 < ts.len() && ts[i + 1].surface == "ㄴ"@) && (0 <= i + 1 < ts.len() && ts[i + 1].pos == "ETM"@)) && ((0 <= i + 2 < ts.len() && ts[i + 2].surface == "행"@) && (0 <= i + 2 < ts.len() && ts[i + 2].pos == "NNG"@)))
}

/// One step of [`p236`] at `i`: the list after it and the next position.
pub open spec fn p236_step(ts: Seq<TokenView>, i: int) -> (Seq<TokenView>, int) {
    if p236_c0(ts, i) {
        (splice(ts, i, 3, seq![plain_view("진행"@, "NNG"@, ts[i].start_pos, ts[i + 2].end_pos)]), i + 1)
    } else {
        (ts, i + 1)
    }
}

/// [`p236_step`] as a function value.
pub open spec fn p236_f() -> spec_fn(Seq<TokenView>, int) -> (Seq<TokenView>, int) {
    |ts: Seq<TokenView>, i: int| p236_step(ts, i)
}

/// 지/VX ㄴ/ETM 행/NNG is the noun 진행/NNG.
pub open spec fn p236(ts: Seq<TokenView>) -> Seq<TokenView> {
    scan(ts, 0, p236_f())
}

/// Whether rule 0 of [`p236`] applies at `i`.
fn p236_c0_exec(tokens: &Vec<SejongToken>, i: usize) -> (r: bool)
    requires
        i < tokens@.len(),
    ensures
        r == p236_c0(tokens_view(tokens@), i as int),
{
    assert(tokens_view(tokens@).len() == tokens@.len());
    let c81 = surf_is(&tokens[i], "지");
    let c82 = pos_is(&tokens[i], "VX");
    let c83 = (tokens.len() - i > 1) && surf_is(&tokens[i + 1], "ㄴ");
    let c84 = (tokens.len() - i > 1) && pos_is(&tokens[i + 1], "ETM");
    let c85 = (tokens.len() - i > 2) && surf_is(&tokens[i + 2], "행");
    let c86 = (tokens.len() - i > 2) && pos_is(&tokens[i + 2], "NNG");
    ((c81 && c82) && (c83 && c84) && (c85 && c86))
}

/// One step of [`p236`] at `i`; returns the next position.
fn p236_step_exec(tokens: &mut Vec<SejongToken>, i: usize) -> (next: usize)
    requires
        i < old(tokens)@.len(),
    ensures
        (tokens_view(final(tokens)@), next as int) == p236_step(tokens_view(old(tokens)@), i as int),
        final(tokens)@.len() - next < old(tokens)@.len() - i,
        next <= final(tokens)@.len() + 1,
{
    let len0 = tokens.len();
    assert(tokens_view(tokens@).len() == tokens@.len());
    if p236_c0_exec(tokens, i) {
        let s88 = owned("진행");
        let s89 = owned("NNG");
        let n90 = tokens[i].start_pos;
        let n91 = tokens[i + 2].end_pos;
        let t87 = SejongToken::new(s88.as_str(), s89.as_str(), n90, n91);
        let mut nv92: Vec<SejongToken> = Vec::new();
        push_token(&mut nv92, t87);
        splice_tokens(tokens, i, 3, nv92);
        let _len1 = tokens.len();
        return i + 1;
    }
    i + 1
}

/// 지/VX ㄴ/ETM 행/NNG is the noun 진행/NNG.
pub fn apply_p236(tokens: &mut Vec<SejongToken>)
    ensures
        tokens_view(final(tokens)@) == p236(tokens_view(old(tokens)@)),
{
    let ghost orig = tokens_view(tokens@);
    let mut i: usize = 0;
    while i < tokens.len()
        invariant
            i <= tokens@.len() + 1,
            scan(tokens_view(tokens@), i as int, p236_f()) == scan(orig, 0, p236_f()),
        decreases tokens@.len() + 1 - i,
    {
        let ghost before = tokens_view(tokens@);
        assert(before.len() == tokens@.len());
        i = p236_step_exec(tokens, i);
        assert(tokens_view(tokens@).len() == tokens@.len());
    }
}

/// Where [`p237`] changes a token.
pub open spec fn p237_c(ts: Seq<TokenView>, i: int) -> bool {
    ((0 <= i < ts.len() && ts[i].pos == "EC"@) && (0 <= i < ts.len() && seq!["어"@, "아"@].contains(ts[i].surface)) && (0 <= i - 1 < ts.len() && seq!["VV"@, "VA"@, "VX"@].contains(ts[i - 1].pos)) && !(0 <= i - 1 < ts.len() && seq!["위하"@, "대하"@, "인하"@, "관하"@, "의하"@, "통하"@, "비하"@].contains(ts[i - 1].surface)) && (crate::rewrite::ends_eojeol(ts, i)))
}

/// The token [`p237`] puts at `i`.
pub open spec fn p237_t(ts: Seq<TokenView>, i: int) -> TokenView {
    TokenView { pos: "EF"@, ..ts[i] }
}

/// 어/EC or 아/EC after a verb, adjective or auxiliary that ends its word is a final ending (EF); not after 위하, 대하, 인하, 관하, 의하, 통하, 비하.
pub open spec fn p237(ts: Seq<TokenView>) -> Seq<TokenView> {
    map_where(ts, |ts: Seq<TokenView>, i: int| p237_c(ts, i), |ts: Seq<TokenView>, i: int| p237_t(ts, i))
}

/// Whether [`p237`] changes the token at `i`.
fn p237_c_exec(tokens: &Vec<SejongToken>, i: usize) -> (r: bool)
    requires
        i < tokens@.len(),
    ensures
        r == p237_c(tokens_view(tokens@), i as int),
{
    assert(tokens_view(tokens@).len() == tokens@.len());
    let c93 = pos_is(&tokens[i], "EC");
    let l95: [&str; 2] = ["어", "아"];
    assert(crate::tag_map::strs_view(l95@) =~= seq!["어"@, "아"@]);
    let c94 = in_list(&l95, tokens[i].surface.as_str());
    let l97: [&str; 3] = ["VV", "VA", "VX"];
    assert(crate::tag_map::strs_view(l97@) =~= seq!["VV"@, "VA"@, "VX"@]);
    let c96 = (i >= 1) && in_list(&l97, tokens[i - 1].pos.as_str());
    let l99: [&str; 7] = ["위하", "대하", "인하", "관하", "의하", "통하", "비하"];
    assert(crate::tag_map::strs_view(l99@) =~= seq!["위하"@, "대하"@, "인하"@, "관하"@, "의하"@, "통하"@, "비하"@]);
    let c98 = (i >= 1) && in_list(&l99, tokens[i - 1].surface.as_str());
    let c100 = crate::rewrite::is_eojeol_end(tokens, i);
    (c93 && c94 && c96 && !c98 && c100)
}

/// The token [`p237`] puts at `i`.
fn p237_t_exec(tokens: &Vec<SejongToken>, i: usize) -> (t: SejongToken)
    requires
        i < tokens@.len(),
        p237_c(tokens_view(tokens@), i as int),
    ensures
        t@ == p237_t(tokens_view(tokens@), i as int),
{
    assert(tokens_view(tokens@).len() == tokens@.len());
    let s102 = owned("EF");
    let mut t101 = tokens[i].duplicate();
    t101.pos = s102;
    t101
}

/// 어/EC or 아/EC after a verb, adjective or auxiliary that ends its word is a final ending (EF); not after 위하, 대하, 인하, 관하, 의하, 통하, 비하.
pub fn apply_p237(tokens: &mut Vec<SejongToken>)
    ensures
        tokens_view(final(tokens)@) == p237(tokens_view(old(tokens)@)),
{
    let ghost orig = tokens_view(tokens@);
    let mut out: Vec<SejongToken> = Vec::new();
    let mut k: usize = 0;
    while k < tokens.len()
        invariant
            k <= tokens@.len(),
            orig == tokens_view(tokens@),
            tokens_view(out@) == p237(orig).take(k as int),
        decreases tokens@.len() - k,
    {
        let t = if p237_c_exec(tokens, k) { p237_t_exec(tokens, k) } else { tokens[k].duplicate() };
        push_token(&mut out, t);
        k += 1;
        assert(tokens_view(out@) =~= p237(orig).take(k as int));
    }
    assert(p237(orig).take(k as int) =~= p237(orig));
    *tokens = out;
}

/// Where [`p238`] changes a token.
pub open spec fn p238_c(ts: Seq<TokenView>, i: int) -> bool {
    ((0 <= i < ts.len() && seq!["EC"@, "EF"@].contains(ts[i].pos)) && (0 <= i < ts.len() && ts[i].surface == "아"@) && (0 <= i - 1 < ts.len() && seq!["VV"@, "XSV"@].contains(ts[i - 1].pos)) && (0 <= i - 1 < ts.len() && is_suffix("하"@, ts[i - 1].surface)))
}

/// The token [`p238`] puts at `i`.
pub open spec fn p238_t(ts: Seq<TokenView>, i: int) -> TokenView {
    TokenView { surface: "어"@, ..ts[i] }
}

/// 아/EC|EF after a verb or suffix ending in 하 is written 어.
pub open spec fn p238(ts: Seq<TokenView>) -> Seq<TokenView> {
    map_where(ts, |ts: Seq<TokenView>, i: int| p238_c(ts, i), |ts: Seq<TokenView>, i: int| p238_t(ts, i))
}

/// Whether [`p238`] changes the token at `i`.
fn p238_c_exec(tokens: &Vec<SejongToken>, i: usize) -> (r: bool)
    requires
        i < tokens@.len(),
    ensures
        r == p238_c(tokens_view(tokens@), i as int),
{
    assert(tokens_view(tokens@).len() == tokens@.len());
    let l104: [&str; 2] = ["EC", "EF"];
    assert(crate::tag_map::strs_view(l104@) =~= seq!["EC"@, "EF"@]);
    let c103 = in_list(&l104, tokens[i].pos.as_str());
    let c105 = surf_is(&tokens[i], "아");
    let l107: [&str; 2] = ["VV", "XSV"];
    assert(crate::tag_map::strs_view(l107@) =~= seq!["VV"@, "XSV"@]);
    let c106 = (i >= 1) && in_list(&l107, tokens[i - 1].pos.as_str());
    let c108 = (i >= 1) && surf_ends(&tokens[i - 1], "하");
    (c103 && c105 && c106 && c108)
}

/// The token [`p238`] puts at `i`.
fn p238_t_exec(tokens: &Vec<SejongToken>, i: usize) -> (t: SejongToken)
    requires
        i < tokens@.len(),
        p238_c(tokens_view(tokens@), i as int),
    ensures
        t@ == p238_t(tokens_view(tokens@), i as int),
{
    assert(tokens_view(tokens@).len() == tokens@.len());
    let s110 = owned("어");
    let mut t109 = tokens[i].duplicate();
    t109.surface = s110;
    t109
}

/// 아/EC|EF after a verb or suffix ending in 하 is written 어.
pub fn apply_p238(tokens: &mut Vec<SejongToken>)
    ensures
        tokens_view(final(tokens)@) == p238(tokens_view(old(tokens)@)),
{
    let ghost orig = tokens_view(tokens@);
    let mut out: Vec<SejongToken> = Vec::new();
    let mut k: usize = 0;
    while k < tokens.len()
        invariant
            k <= tokens@.len(),
            orig == tokens_view(tokens@),
            tokens_view(out@) == p238(orig).take(k as int),
        decreases tokens@.len() - k,
    {
        let t = if p238_c_exec(tokens, k) { p238_t_exec(tokens, k) } else { tokens[k].duplicate() };
        push_token(&mut out, t);
        k += 1;
        assert(tokens_view(out@) =~= p238(orig).take(k as int));
    }
    assert(p238(orig).take(k as int) =~= p238(orig));
    *tokens = out;
}

/// Where rule 0 of [`p239`] applies.
pub open spec fn p239_c0(ts: Seq<TokenView>, i: int) -> bool {
    (((0 <= i < ts.len() && ts[i].surface == "주"@) && (0 <= i < ts.len() && ts[i].pos == "VX"@)) && ((0 <= i + 1 < ts.len() && ts[i + 1].surface == "워"@) && (0 <= i + 1 < ts.len() && ts[i + 1].pos == "NNG"@)) && (!(0 <= i + 2 < ts.len() && true) || (0 <= i + 2 < ts.len() && seq!["VV"@, "VX"@, "NNG"@, "NNP"@, "NP"@, "MAG"@].contains(ts[i + 2].pos))))
}

/// Where rule 1 of [`p239`] applies.
pub open spec fn p239_c1(ts: Seq<TokenView>, i: int) -> bool {
    (((0 <= i < ts.len() && ts[i].surface == "주"@) && (0 <= i < ts.len() && ts[i].pos == "VX"@)) && ((0 <= i + 1 < ts.len() && ts[i + 1].surface == "워"@) && (0 <= i + 1 < ts.len() && ts[i + 1].pos == "NNG"@)))
}

/// Where rule 2 of [`p239`] applies.
pub open spec fn p239_c2(ts: Seq<TokenView>, i: int) -> bool {
    (((0 <= i < ts.len() && ts[i].surface == "주"@) && (0 <= i < ts.len() && ts[i].pos == "VX"@)) && ((0 <= i + 1 < ts.len() && ts[i + 1].surface == "우면"@) && (0 <= i + 1 < ts.len() && ts[i + 1].pos == "NNG"@)))
}

/// One step of [`p239`] at `i`: the list after it and the next position.
pub open spec fn p239_step(ts: Seq<TokenView>, i: int) -> (Seq<TokenView>, int) {
    if p239_c0(ts, i) {
        (ts.update(i, plain_view("줍"@, "VV"@, ts[i].start_pos, ts[i].end_pos)).update(i + 1, plain_view("어"@, "EF"@, ts[i + 1].start_pos, ts[i + 1].end_pos)), i + 2)
    } else if p239_c1(ts, i) {
        (ts.update(i, plain_view("줍"@, "VV"@, ts[i].start_pos, ts[i].end_pos)).update(i + 1, plain_view("어"@, "EC"@, ts[i + 1].start_pos, ts[i + 1].end_pos)), i + 2)
    } else if p239_c2(ts, i) {
        (ts.update(i, plain_view("줍"@, "VV"@, ts[i].start_pos, ts[i].end_pos)).update(i + 1, plain_view("으면"@, "EC"@, ts[i + 1].start_pos, ts[i + 1].end_pos)), i + 2)
    } else {
        (ts, i + 1)
    }
}

/// [`p239_step`] as a function value.
pub open spec fn p239_f() -> spec_fn(Seq<TokenView>, int) -> (Seq<TokenView>, int) {
    |ts: Seq<TokenView>, i: int| p239_step(ts, i)
}

/// 주/VX 워/NNG is 줍/VV 어/EF (어/EC when no new word follows); 주/VX 우면/NNG is 줍/VV 으면/EC.
pub open spec fn p239(ts: Seq<TokenView>) -> Seq<TokenView> {
    scan(ts, 0, p239_f())
}

/// Whether rule 0 of [`p239`] applies at `i`.
fn p239_c0_exec(tokens: &Vec<SejongToken>, i: usize) -> (r: bool)
    requires
        i < tokens@.len(),
    ensures
        r == p239_c0(tokens_view(tokens@), i as int),
{
    assert(tokens_view(tokens@).len() == tokens@.len());
    let c111 = surf_is(&tokens[i], "주");
    let c112 = pos_is(&tokens[i], "VX");
    let c113 = (tokens.len() - i > 1) && surf_is(&tokens[i + 1], "워");
    let c114 = (tokens.len() - i > 1) && pos_is(&tokens[i + 1], "NNG");
    let c115 = (tokens.len() - i > 2) && true;
    let l117: [&str; 6] = ["VV", "VX", "NNG", "NNP", "NP", "MAG"];
    assert(crate::tag_map::strs_view(l117@) =~= seq!["VV"@, "VX"@, "NNG"@, "NNP"@, "NP"@, "MAG"@]);
    let c116 = (tokens.len() - i > 2) && in_list(&l117, tokens[i + 2].pos.as_str());
    ((c111 && c112) && (c113 && c114) && (!c115 || c116))
}

/// Whether rule 1 of [`p239`] applies at `i`.
fn p239_c1_exec(tokens: &Vec<SejongToken>, i: usize) -> (r: bool)
    requires
        i < tokens@.len(),
    ensures
        r == p239_c1(tokens_view(tokens@), i as int),
{
    assert(tokens_view(tokens@).len() == tokens@.len());
    let c118 = surf_is(&tokens[i], "주");
    let c119 = pos_is(&tokens[i], "VX");
    let c120 = (tokens.len() - i > 1) && surf_is(&tokens[i + 1], "워");
    let c121 = (tokens.len() - i > 1) && pos_is(&tokens[i + 1], "NNG");
    ((c118 && c119) && (c120 && c121))
}

/// Whether rule 2 of [`p239`] applies at `i`.
fn p239_c2_exec(tokens: &Vec<SejongToken>, i: usize) -> (r: bool)
    requires
        i < tokens@.len(),
    ensures
        r == p239_c2(tokens_view(tokens@), i as int),
{
    assert(tokens_view(tokens@).len() == tokens@.len());
    let c122 = surf_is(&tokens[i], "주");
    let c123 = pos_is(&tokens[i], "VX");
    let c124 = (tokens.len() - i > 1) && surf_is(&tokens[i + 1], "우면");
    let c125 = (tokens.len() - i > 1) && pos_is(&tokens[i + 1], "NNG");
    ((c122 && c123) && (c124 && c125))
}

/// One step of [`p239`] at `i`; returns the next position.
fn p239_step_exec(tokens: &mut Vec<SejongToken>, i: usize) -> (next: usize)
    requires
        i < old(tokens)@.len(),
    ensures
        (tokens_view(final(tokens)@), next as int) == p239_step(tokens_view(old(tokens)@), i as int),
        final(tokens)@.len() - next < old(tokens)@.len() - i,
        next <= final(tokens)@.len() + 1,
{
    let len0 = tokens.len();
    assert(tokens_view(tokens@).len() == tokens@.len());
    if p239_c0_exec(tokens, i) {
        let s127 = owned("줍");
        let s128 = owned("VV");
        let n129 = tokens[i].start_pos;
        let n130 = tokens[i].end_pos;
        let t126 = SejongToken::new(s127.as_str(), s128.as_str(), n129, n130);
        let s132 = owned("어");
        let s133 = owned("EF");
        let n134 = tokens[i + 1].start_pos;
        let n135 = tokens[i + 1].end_pos;
        let t131 = SejongToken::new(s132.as_str(), s133.as_str(), n134, n135);
        set_token(tokens, i, t126);
        set_token(tokens, i + 1, t131);
        let _len1 = tokens.len();
        return i + 2;
    }
    if p239_c1_exec(tokens, i) {
        let s137 = owned("줍");
        let s138 = owned("VV");
        let n139 = tokens[i].start_pos;
        let n140 = tokens[i].end_pos;
        let t136 = SejongToken::new(s137.as_str(), s138.as_str(), n139, n140);
        let s142 = owned("어");
        let s143 = owned("EC");
        let n144 = tokens[i + 1].start_pos;
        let n145 = tokens[i + 1].end_pos;
        let t141 = SejongToken::new(s142.as_str(), s143.as_str(), n144, n145);
        set_token(tokens, i, t136);
        set_token(tokens, i + 1, t141);
        let _len1 = tokens.len();
        return i + 2;
    }
    if p239_c2_exec(tokens, i) {
        let s147 = owned("줍");
        let s148 = owned("VV");
        let n149 = tokens[i].start_pos;
        let n150 = tokens[i].end_pos;
        let t146 = SejongToken::new(s147.as_str(), s148.as_str(), n149, n150);
        let s152 = owned("으면");
        let s153 = owned("EC");
        let n154 = tokens[i + 1].start_pos;
        let n155 = tokens[i + 1].end_pos;
        let t151 = SejongToken::new(s152.as_str(), s153.as_str(), n154, n155);
        set_token(tokens, i, t146);
        set_token(tokens, i + 1, t151);
        let _len1 = tokens.len();
        return i + 2;
    }
    i + 1
}

/// 주/VX 워/NNG is 줍/VV 어/EF (어/EC when no new word follows); 주/VX 우면/NNG is 줍/VV 으면/EC.
pub fn apply_p239(tokens: &mut Vec<SejongToken>)
    ensures
        tokens_view(final(tokens)@) == p239(tokens_view(old(tokens)@)),
{
    let ghost orig = tokens_view(tokens@);
    let mut i: usize = 0;
    while i < tokens.len()
        invariant
            i <= tokens@.len() + 1,
            scan(tokens_view(tokens@), i as int, p239_f()) == scan(orig, 0, p239_f()),
        decreases tokens@.len() + 1 - i,
    {
        let ghost before = tokens_view(tokens@);
        assert(before.len() == tokens@.len());
        i = p239_step_exec(tokens, i);
        assert(tokens_view(tokens@).len() == tokens@.len());
    }
}

/// Where rule 0 of [`p241`] applies.
pub open spec fn p241_c0(ts: Seq<TokenView>, i: int) -> bool {
    (((0 <= i < ts.len() && ts[i].surface == "무거"@) && (0 <= i < ts.len() && ts[i].pos == "NNG"@)) && ((0 <= i + 1 < ts.len() && ts[i + 1].surface == "우면"@) && (0 <= i + 1 < ts.len() && ts[i + 1].pos == "NNG"@)))
}

/// One step of [`p241`] at `i`: the list after it and the next position.
pub open spec fn p241_step(ts: Seq<TokenView>, i: int) -> (Seq<TokenView>, int) {
    if p241_c0(ts, i) {
        (ts.update(i, plain_view("무겁"@, "VA"@, ts[i].start_pos, ts[i].end_pos)).update(i + 1, plain_view("으면"@, "EC"@, ts[i + 1].start_pos, ts[i + 1].end_pos)), i + 2)
    } else {
        (ts, i + 1)
    }
}

/// [`p241_step`] as a function value.
pub open spec fn p241_f() -> spec_fn(Seq<TokenView>, int) -> (Seq<TokenView>, int) {
    |ts: Seq<TokenView>, i: int| p241_step(ts, i)
}

/// 무거/NNG 우면/NNG is 무겁/VA 으면/EC.
pub open spec fn p241(ts: Seq<TokenView>) -> Seq<TokenView> {
    scan(ts, 0, p241_f())
}

/// Whether rule 0 of [`p241`] applies at `i`.
fn p241_c0_exec(tokens: &Vec<SejongToken>, i: usize) -> (r: bool)
    requires
        i < tokens@.len(),
    ensures
        r == p241_c0(tokens_view(tokens@), i as int),
{
    assert(tokens_view(tokens@).len() == tokens@.len());
    let c156 = surf_is(&tokens[i], "무거");
    let c157 = pos_is(&tokens[i], "NNG");
    let c158 = (tokens.len() - i > 1) && surf_is(&tokens[i + 1], "우면");
    let c159 = (tokens.len() - i > 1) && pos_is(&tokens[i + 1], "NNG");
    ((c156 && c157) && (c158 && c159))
}

/// One step of [`p241`] at `i`; returns the next position.
fn p241_step_exec(tokens: &mut Vec<SejongToken>, i: usize) -> (next: usize)
    requires
        i < old(tokens)@.len(),
    ensures
        (tokens_view(final(tokens)@), next as int) == p241_step(tokens_view(old(tokens)@), i as int),
        final(tokens)@.len() - next < old(tokens)@.len() - i,
        next <= final(tokens)@.len() + 1,
{
    let len0 = tokens.len();
    assert(tokens_view(tokens@).len() == tokens@.len());
    if p241_c0_exec(tokens, i) {
        let s161 = owned("무겁");
        let s162 = owned("VA");
        let n163 = tokens[i].start_pos;
        let n164 = tokens[i].end_pos;
        let t160 = SejongToken::new(s161.as_str(), s162.as_str(), n163, n164);
        let s166 = owned("으면");
        let s167 = owned("EC");
        let n168 = tokens[i + 1].start_pos;
        let n169 = tokens[i + 1].end_pos;
        let t165 = SejongToken::new(s166.as_str(), s167.as_str(), n168, n169);
        set_token(tokens, i, t160);
        set_token(tokens, i + 1, t165);
        let _len1 = tokens.len();
        return i + 2;
    }
    i + 1
}

/// 무거/NNG 우면/NNG is 무겁/VA 으면/EC.
pub fn apply_p241(tokens: &mut Vec<SejongToken>)
    ensures
        tokens_view(final(tokens)@) == p241(tokens_view(old(tokens)@)),
{
    let ghost orig = tokens_view(tokens@);
    let mut i: usize = 0;
    while i < tokens.len()
        invariant
            i <= tokens@.len() + 1,
            scan(tokens_view(tokens@), i as int, p241_f()) == scan(orig, 0, p241_f()),
        decreases tokens@.len() + 1 - i,
    {
        let ghost before = tokens_view(tokens@);
        assert(before.len() == tokens@.len());
        i = p241_step_exec(tokens, i);
        assert(tokens_view(tokens@).len() == tokens@.len());
    }
}

/// Where rule 0 of [`p242`] applies.
pub open spec fn p242_c0(ts: Seq<TokenView>, i: int) -> bool {
    (((0 <= i < ts.len() && ts[i].surface == "이르면"@) && (0 <= i < ts.len() && ts[i].pos == "MAJ"@)) && (0 <= i - 1 < ts.len() && seq!["VV"@, "EF"@].contains(ts[i - 1].pos)))
}

/// One step of [`p242`] at `i`: the list after it and the next position.
pub open spec fn p242_step(ts: Seq<TokenView>, i: int) -> (Seq<TokenView>, int) {
    if p242_c0(ts, i) {
        (splice(ts, i, 1, seq![plain_view("이르"@, "VV"@, ts[i].start_pos, (ts[i].start_pos).saturating_add(2)), plain_view("면"@, "EC"@, (ts[i].start_pos).saturating_add(2), ts[i].end_pos)]), i + 2)
    } else {
        (ts, i + 1)
    }
}

/// [`p242_step`] as a function value.
pub open spec fn p242_f() -> spec_fn(Seq<TokenView>, int) -> (Seq<TokenView>, int) {
    |ts: Seq<TokenView>, i: int| p242_step(ts, i)
}

/// 이르면/MAJ after a verb or a final ending is 이르/VV 면/EC.
pub open spec fn p242(ts: Seq<TokenView>) -> Seq<TokenView> {
    scan(ts, 0, p242_f())
}

/// Whether rule 0 of [`p242`] applies at `i`.
fn p242_c0_exec(tokens: &Vec<SejongToken>, i: usize) -> (r: bool)
    requires
        i < tokens@.len(),
    ensures
        r == p242_c0(tokens_view(tokens@), i as int),
{
    assert(tokens_view(tokens@).len() == tokens@.len());
    let c170 = surf_is(&tokens[i], "이르면");
    let c171 = pos_is(&tokens[i], "MAJ");
    let l173: [&str; 2] = ["VV", "EF"];
    assert(crate::tag_map::strs_view(l173@) =~= seq!["VV"@, "EF"@]);
    let c172 = (i >= 1) && in_list(&l173, tokens[i - 1].pos.as_str());
    ((c170 && c171) && c172)
}

/// One step of [`p242`] at `i`; returns the next position.
fn p242_step_exec(tokens: &mut Vec<SejongToken>, i: usize) -> (next: usize)
    requires
        i < old(tokens)@.len(),
    ensures
        (tokens_view(final(tokens)@), next as int) == p242_step(tokens_view(old(tokens)@), i as int),
        final(tokens)@.len() - next < old(tokens)@.len() - i,
        next <= final(tokens)@.len() + 1,
{
    let len0 = tokens.len();
    assert(tokens_view(tokens@).len() == tokens@.len());
    if p242_c0_exec(tokens, i) {
        let s175 = owned("이르");
        let s176 = owned("VV");
        let n177 = tokens[i].start_pos;
        let n179 = tokens[i].start_pos;
        let n178 = n179.saturating_add(2);
        let t174 = SejongToken::new(s175.as_str(), s176.as_str(), n177, n178);
        let s181 = owned("면");
        let s182 = owned("EC");
        let n184 = tokens[i].start_pos;
        let n183 = n184.saturating_add(2);
        let n185 = tokens[i].end_pos;
        let t180 = SejongToken::new(s181.as_str(), s182.as_str(), n183, n185);
        let mut nv186: Vec<SejongToken> = Vec::new();
        push_token(&mut nv186, t174);
        push_token(&mut nv186, t180);
        splice_tokens(tokens, i, 1, nv186);
        let _len1 = tokens.len();
        return i + 2;
    }
    i + 1
}

/// 이르면/MAJ after a verb or a final ending is 이르/VV 면/EC.
pub fn apply_p242(tokens: &mut Vec<SejongToken>)
    ensures
        tokens_view(final(tokens)@) == p242(tokens_view(old(tokens)@)),
{
    let ghost orig = tokens_view(tokens@);
    let mut i: usize = 0;
    while i < tokens.len()
        invariant
            i <= tokens@.len() + 1,
            scan(tokens_view(tokens@), i as int, p242_f()) == scan(orig, 0, p242_f()),
        decreases tokens@.len() + 1 - i,
    {
        let ghost before = tokens_view(tokens@);
        assert(before.len() == tokens@.len());
        i = p242_step_exec(tokens, i);
        assert(tokens_view(tokens@).len() == tokens@.len());
    }
}

/// Where rule 0 of [`p243`] applies.
pub open spec fn p243_c0(ts: Seq<TokenView>, i: int) -> bool {
    (((0 <= i < ts.len() && ts[i].surface == "노래"@) && (0 <= i < ts.len() && ts[i].pos == "NNG"@)) && ((0 <= i - 2 < ts.len() && ts[i - 2].surface == "노랗"@) && (0 <= i - 2 < ts.len() && ts[i - 2].pos == "VA"@)) && ((0 <= i - 1 < ts.len() && ts[i - 1].surface == "다"@) && (0 <= i - 1 < ts.len() && ts[i - 1].pos == "EF"@)))
}

/// One step of [`p243`] at `i`: the list after it and the next position.
pub open spec fn p243_step(ts: Seq<TokenView>, i: int) -> (Seq<TokenView>, int) {
    if p243_c0(ts, i) {
        (splice(ts, i, 1, seq![plain_view("노랗"@, "VA"@, ts[i].start_pos, (ts[i].start_pos).saturating_add(2)), plain_view("아"@, "EF"@, (ts[i].start_pos).saturating_add(2), ts[i].end_pos)]), i + 2)
    } else {
        (ts, i + 1)
    }
}

/// [`p243_step`] as a function value.
pub open spec fn p243_f() -> spec_fn(Seq<TokenView>, int) -> (Seq<TokenView>, int) {
    |ts: Seq<TokenView>, i: int| p243_step(ts, i)
}

/// 노래/NNG after 노랗/VA 다/EF is 노랗/VA 아/EF.
pub open spec fn p243(ts: Seq<TokenView>) -> Seq<TokenView> {
    scan(ts, 0, p243_f())
}

/// Whether rule 0 of [`p243`] applies at `i`.
fn p243_c0_exec(tokens: &Vec<SejongToken>, i: usize) -> (r: bool)
    requires
        i < tokens@.len(),
    ensures
        r == p243_c0(tokens_view(tokens@), i as int),
{
    assert(tokens_view(tokens@).len() == tokens@.len());
    let c187 = surf_is(&tokens[i], "노래");
    let c188 = pos_is(&tokens[i], "NNG");
    let c189 = (i >= 2) && surf_is(&tokens[i - 2], "노랗");
    let c190 = (i >= 2) && pos_is(&tokens[i - 2], "VA");
    let c191 = (i >= 1) && surf_is(&tokens[i - 1], "다");
    let c192 = (i >= 1) && pos_is(&tokens[i - 1], "EF");
    ((c187 && c188) && (c189 && c190) && (c191 && c192))
}

/// One step of [`p243`] at `i`; returns the next position.
fn p243_step_exec(tokens: &mut Vec<SejongToken>, i: usize) -> (next: usize)
    requires
        i < old(tokens)@.len(),
    ensures
        (tokens_view(final(tokens)@), next as int) == p243_step(tokens_view(old(tokens)@), i as int),
        final(tokens)@.len() - next < old(tokens)@.len() - i,
        next <= final(tokens)@.len() + 1,
{
    let len0 = tokens.len();
    assert(tokens_view(tokens@).len() == tokens@.len());
    if p243_c0_exec(tokens, i) {
        let s194 = owned("노랗");
        let s195 = owned("VA");
        let n196 = tokens[i].start_pos;
        let n198 = tokens[i].start_pos;
        let n197 = n198.saturating_add(2);
        let t193 = SejongToken::new(s194.as_str(), s195.as_str(), n196, n197);
        let s200 = owned("아");
        let s201 = owned("EF");
        let n203 = tokens[i].start_pos;
        let n202 = n203.saturating_add(2);
        let n204 = tokens[i].end_pos;
        let t199 = SejongToken::new(s200.as_str(), s201.as_str(), n202, n204);
        let mut nv205: Vec<SejongToken> = Vec::new();
        push_token(&mut nv205, t193);
        push_token(&mut nv205, t199);
        splice_tokens(tokens, i, 1, nv205);
        let _len1 = tokens.len();
        return i + 2;
    }
    i + 1
}

/// 노래/NNG after 노랗/VA 다/EF is 노랗/VA 아/EF.
pub fn apply_p243(tokens: &mut Vec<SejongToken>)
    ensures
        tokens_view(final(tokens)@) == p243(tokens_view(old(tokens)@)),
{
    let ghost orig = tokens_view(tokens@);
    let mut i: usize = 0;
    while i < tokens.len()
        invariant
            i <= tokens@.len() + 1,
            scan(tokens_view(tokens@), i as int, p243_f()) == scan(orig, 0, p243_f()),
        decreases tokens@.len() + 1 - i,
    {
        let ghost before = tokens_view(tokens@);
        assert(before.len() == tokens@.len());
        i = p243_step_exec(tokens, i);
        assert(tokens_view(tokens@).len() == tokens@.len());
    }
}

/// Where rule 0 of [`p244`] applies.
pub open spec fn p244_c0(ts: Seq<TokenView>, i: int) -> bool {
    (((0 <= i < ts.len() && ts[i].surface == "안"@) && (0 <= i < ts.len() && ts[i].pos == "MAG"@)) && (0 <= i - 1 < ts.len() && ts[i - 1].pos == "VX"@) && ((0 <= i + 1 < ts.len() && ts[i + 1].surface == "으며"@) && (0 <= i + 1 < ts.len() && ts[i + 1].pos == "EC"@)))
}

/// One step of [`p244`] at `i`: the list after it and the next position.
pub open spec fn p244_step(ts: Seq<TokenView>, i: int) -> (Seq<TokenView>, int) {
    if p244_c0(ts, i) {
        (splice(ts, i, 1, seq![]), i + 0)
    } else {
        (ts, i + 1)
    }
}

/// [`p244_step`] as a function value.
pub open spec fn p244_f() -> spec_fn(Seq<TokenView>, int) -> (Seq<TokenView>, int) {
    |ts: Seq<TokenView>, i: int| p244_step(ts, i)
}

/// 안/MAG between an auxiliary and 으며/EC is dropped.
pub open spec fn p244(ts: Seq<TokenView>) -> Seq<TokenView> {
    scan(ts, 0, p244_f())
}

/// Whether rule 0 of [`p244`] applies at `i`.
fn p244_c0_exec(tokens: &Vec<SejongToken>, i: usize) -> (r: bool)
    requires
        i < tokens@.len(),
    ensures
        r == p244_c0(tokens_view(tokens@), i as int),
{
    assert(tokens_view(tokens@).len() == tokens@.len());
    let c206 = surf_is(&tokens[i], "안");
    let c207 = pos_is(&tokens[i], "MAG");
    let c208 = (i >= 1) && pos_is(&tokens[i - 1], "VX");
    let c209 = (tokens.len() - i > 1) && surf_is(&tokens[i + 1], "으며");
    let c210 = (tokens.len() - i > 1) && pos_is(&tokens[i + 1], "EC");
    ((c206 && c207) && c208 && (c209 && c210))
}

/// One step of [`p244`] at `i`; returns the next position.
fn p244_step_exec(tokens: &mut Vec<SejongToken>, i: usize) -> (next: usize)
    requires
        i < old(tokens)@.len(),
    ensures
        (tokens_view(final(tokens)@), next as int) == p244_step(tokens_view(old(tokens)@), i as int),
        final(tokens)@.len() - next < old(tokens)@.len() - i,
        next <= final(tokens)@.len() + 1,
{
    let len0 = tokens.len();
    assert(tokens_view(tokens@).len() == tokens@.len());
    if p244_c0_exec(tokens, i) {
        let mut nv211: Vec<SejongToken> = Vec::new();
        splice_tokens(tokens, i, 1, nv211);
        let _len1 = tokens.len();
        return i + 0;
    }
    i + 1
}

/// 안/MAG between an auxiliary and 으며/EC is dropped.
pub fn apply_p244(tokens: &mut Vec<SejongToken>)
    ensures
        tokens_view(final(tokens)@) == p244(tokens_view(old(tokens)@)),
{
    let ghost orig = tokens_view(tokens@);
    let mut i: usize = 0;
    while i < tokens.len()
        invariant
            i <= tokens@.len() + 1,
            scan(tokens_view(tokens@), i as int, p244_f()) == scan(orig, 0, p244_f()),
        decreases tokens@.len() + 1 - i,
    {
        let ghost before = tokens_view(tokens@);
        assert(before.len() == tokens@.len());
        i = p244_step_exec(tokens, i);
        assert(tokens_view(tokens@).len() == tokens@.len());
    }
}

/// Compound words merged and irregular conjugations repaired.
pub open spec fn spec_apply_compound_and_irregular_corrections(ts: Seq<TokenView>) -> Seq<TokenView> {
    p244(p243(p242(p241(p239(p238(p237(p236(p234b(p234(p232(p231(p230(p228(ts))))))))))))))
}

/// Compound words merged and irregular conjugations repaired.
pub fn apply_compound_and_irregular_corrections(tokens: &mut Vec<SejongToken>)
    ensures
        tokens_view(final(tokens)@) == spec_apply_compound_and_irregular_corrections(tokens_view(old(tokens)@)),
{
    apply_p228(tokens);
    apply_p230(tokens);
    apply_p231(tokens);
    apply_p232(tokens);
    apply_p234(tokens);
    apply_p234b(tokens);
    apply_p236(tokens);
    apply_p237(tokens);
    apply_p238(tokens);
    apply_p239(tokens);
    apply_p241(tokens);
    apply_p242(tokens);
    apply_p243(tokens);
    apply_p244(tokens);
}

} // verus!
