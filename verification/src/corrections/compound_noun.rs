//! Merges and splits of compound nouns and morphemes.

use vstd::prelude::*;
use vstd::utf8::encode_utf8;
use crate::converter::tokens_view;
use crate::rewrite::{in_list, pos_is, push_token, scan, set_token, splice, splice_tokens, surf_is};
use crate::text::{concat, owned};
use crate::types::{plain_view, SejongToken, TokenView};

verus! {

/// Where rule 0 of [`p192`] applies.
pub open spec fn p192_c0(ts: Seq<TokenView>, i: int) -> bool {
    (((0 <= i < ts.len() && ts[i].surface == "가"@) && (0 <= i < ts.len() && ts[i].pos == "VV"@)) && (0 <= i + 1 < ts.len() && ts[i + 1].surface == "지"@) && ((0 <= i + 1 < ts.len() && ts[i + 1].pos == "NNB"@) || (0 <= i + 1 < ts.len() && ts[i + 1].pos == "VX"@)) && ((0 <= i + 2 < ts.len() && ts[i + 2].surface == "고"@) && (0 <= i + 2 < ts.len() && ts[i + 2].pos == "EC"@)))
}

/// One step of [`p192`] at `i`: the list after it and the next position.
pub open spec fn p192_step(ts: Seq<TokenView>, i: int) -> (Seq<TokenView>, int) {
    if p192_c0(ts, i) {
        (splice(ts, i, 2, seq![TokenView { surface: "가지"@, end_pos: ts[i + 1].end_pos, ..ts[i] }]), i + 2)
    } else {
        (ts, i + 1)
    }
}

/// [`p192_step`] as a function value.
pub open spec fn p192_f() -> spec_fn(Seq<TokenView>, int) -> (Seq<TokenView>, int) {
    |ts: Seq<TokenView>, i: int| p192_step(ts, i)
}

/// 가/VV 지/NNB|VX 고/EC: 가 and 지 are merged into the verb stem 가지/VV.
pub open spec fn p192(ts: Seq<TokenView>) -> Seq<TokenView> {
    scan(ts, 0, p192_f())
}

/// Whether rule 0 of [`p192`] applies at `i`.
fn p192_c0_exec(tokens: &Vec<SejongToken>, i: usize) -> (r: bool)
    requires
        i < tokens@.len(),
    ensures
        r == p192_c0(tokens_view(tokens@), i as int),
{
    assert(tokens_view(tokens@).len() == tokens@.len());
    let c0 = surf_is(&tokens[i], "가");
    let c1 = pos_is(&tokens[i], "VV");
    let c2 = (tokens.len() - i > 1) && surf_is(&tokens[i + 1], "지");
    let c3 = (tokens.len() - i > 1) && pos_is(&tokens[i + 1], "NNB");
    let c4 = (tokens.len() - i > 1) && pos_is(&tokens[i + 1], "VX");
    let c5 = (tokens.len() - i > 2) && surf_is(&tokens[i + 2], "고");
    let c6 = (tokens.len() - i > 2) && pos_is(&tokens[i + 2], "EC");
    ((c0 && c1) && c2 && (c3 || c4) && (c5 && c6))
}

/// One step of [`p192`] at `i`; returns the next position.
fn p192_step_exec(tokens: &mut Vec<SejongToken>, i: usize) -> (next: usize)
    requires
        i < old(tokens)@.len(),
    ensures
        (tokens_view(final(tokens)@), next as int) == p192_step(tokens_view(old(tokens)@), i as int),
        final(tokens)@.len() - next < old(tokens)@.len() - i,
        next <= final(tokens)@.len() + 1,
{
    let len0 = tokens.len();
    assert(tokens_view(tokens@).len() == tokens@.len());
    if p192_c0_exec(tokens, i) {
        let s8 = owned("가지");
        let n9 = tokens[i + 1].end_pos;
        let mut t7 = tokens[i].duplicate();
        t7.surface = s8;
        t7.end_pos = n9;
        let mut nv10: Vec<SejongToken> = Vec::new();
        push_token(&mut nv10, t7);
        splice_tokens(tokens, i, 2, nv10);
        let _len1 = tokens.len();
        return i + 2;
    }
    i + 1
}

/// 가/VV 지/NNB|VX 고/EC: 가 and 지 are merged into the verb stem 가지/VV.
pub fn apply_p192(tokens: &mut Vec<SejongToken>)
    ensures
        tokens_view(final(tokens)@) == p192(tokens_view(old(tokens)@)),
{
    let ghost orig = tokens_view(tokens@);
    let mut i: usize = 0;
    while i < tokens.len()
        invariant
            i <= tokens@.len() + 1,
            scan(tokens_view(tokens@), i as int, p192_f()) == scan(orig, 0, p192_f()),
        decreases tokens@.len() + 1 - i,
    {
        let ghost before = tokens_view(tokens@);
        assert(before.len() == tokens@.len());
        i = p192_step_exec(tokens, i);
        assert(tokens_view(tokens@).len() == tokens@.len());
    }
}

/// Where rule 0 of [`p200`] applies.
pub open spec fn p200_c0(ts: Seq<TokenView>, i: int) -> bool {
    ((0 <= i < ts.len() && ts[i].pos == "NNG"@) && (0 <= i < ts.len() && ts[i].surface == "밤낮"@))
}

/// One step of [`p200`] at `i`: the list after it and the next position.
pub open spec fn p200_step(ts: Seq<TokenView>, i: int) -> (Seq<TokenView>, int) {
    if p200_c0(ts, i) {
        (splice(ts, i, 1, seq![plain_view("밤"@, "NNG"@, ts[i].start_pos, (ts[i].start_pos).saturating_add("밤"@.len() as usize)), plain_view("낮"@, "NNG"@, (ts[i].start_pos).saturating_add("밤"@.len() as usize), ts[i].end_pos)]), i + 2)
    } else {
        (ts, i + 1)
    }
}

/// [`p200_step`] as a function value.
pub open spec fn p200_f() -> spec_fn(Seq<TokenView>, int) -> (Seq<TokenView>, int) {
    |ts: Seq<TokenView>, i: int| p200_step(ts, i)
}

/// 밤낮/NNG is split into 밤/NNG 낮/NNG.
pub open spec fn p200(ts: Seq<TokenView>) -> Seq<TokenView> {
    scan(ts, 0, p200_f())
}

/// Whether rule 0 of [`p200`] applies at `i`.
fn p200_c0_exec(tokens: &Vec<SejongToken>, i: usize) -> (r: bool)
    requires
        i < tokens@.len(),
    ensures
        r == p200_c0(tokens_view(tokens@), i as int),
{
    assert(tokens_view(tokens@).len() == tokens@.len());
    let c11 = pos_is(&tokens[i], "NNG");
    let c12 = surf_is(&tokens[i], "밤낮");
    (c11 && c12)
}

/// One step of [`p200`] at `i`; returns the next position.
fn p200_step_exec(tokens: &mut Vec<SejongToken>, i: usize) -> (next: usize)
    requires
        i < old(tokens)@.len(),
    ensures
        (tokens_view(final(tokens)@), next as int) == p200_step(tokens_view(old(tokens)@), i as int),
        final(tokens)@.len() - next < old(tokens)@.len() - i,
        next <= final(tokens)@.len() + 1,
{
    let len0 = tokens.len();
    assert(tokens_view(tokens@).len() == tokens@.len());
    if p200_c0_exec(tokens, i) {
        let s14 = owned("밤");
        let s15 = owned("NNG");
        let n16 = tokens[i].start_pos;
        let n18 = tokens[i].start_pos;
        let s19 = owned("밤");
        let n17 = n18.saturating_add(s19.unicode_len());
        let t13 = SejongToken::new(s14.as_str(), s15.as_str(), n16, n17);
        let s21 = owned("낮");
        let s22 = owned("NNG");
        let n24 = tokens[i].start_pos;
        let s25 = owned("밤");
        let n23 = n24.saturating_add(s25.unicode_len());
        let n26 = tokens[i].end_pos;
        let t20 = SejongToken::new(s21.as_str(), s22.as_str(), n23, n26);
        let mut nv27: Vec<SejongToken> = Vec::new();
        push_token(&mut nv27, t13);
        push_token(&mut nv27, t20);
        splice_tokens(tokens, i, 1, nv27);
        let _len1 = tokens.len();
        return i + 2;
    }
    i + 1
}

/// 밤낮/NNG is split into 밤/NNG 낮/NNG.
pub fn apply_p200(tokens: &mut Vec<SejongToken>)
    ensures
        tokens_view(final(tokens)@) == p200(tokens_view(old(tokens)@)),
{
    let ghost orig = tokens_view(tokens@);
    let mut i: usize = 0;
    while i < tokens.len()
        invariant
            i <= tokens@.len() + 1,
            scan(tokens_view(tokens@), i as int, p200_f()) == scan(orig, 0, p200_f()),
        decreases tokens@.len() + 1 - i,
    {
        let ghost before = tokens_view(tokens@);
        assert(before.len() == tokens@.len());
        i = p200_step_exec(tokens, i);
        assert(tokens_view(tokens@).len() == tokens@.len());
    }
}

/// Where rule 0 of [`p196`] applies.
pub open spec fn p196_c0(ts: Seq<TokenView>, i: int) -> bool {
    ((0 <= i < ts.len() && ts[i].pos == "NNG"@) && (0 <= i < ts.len() && ts[i].surface == "맨손"@))
}

/// Where rule 1 of [`p196`] applies.
pub open spec fn p196_c1(ts: Seq<TokenView>, i: int) -> bool {
    ((0 <= i < ts.len() && ts[i].pos == "NNG"@) && (0 <= i < ts.len() && ts[i].surface == "맨발"@))
}

/// Where rule 2 of [`p196`] applies.
pub open spec fn p196_c2(ts: Seq<TokenView>, i: int) -> bool {
    ((0 <= i < ts.len() && ts[i].pos == "NNG"@) && (0 <= i < ts.len() && ts[i].surface == "맨몸"@))
}

/// Where rule 3 of [`p196`] applies.
pub open spec fn p196_c3(ts: Seq<TokenView>, i: int) -> bool {
    ((0 <= i < ts.len() && ts[i].pos == "NNG"@) && (0 <= i < ts.len() && ts[i].surface == "맨땅"@))
}

/// One step of [`p196`] at `i`: the list after it and the next position.
pub open spec fn p196_step(ts: Seq<TokenView>, i: int) -> (Seq<TokenView>, int) {
    if p196_c0(ts, i) {
        (splice(ts, i, 1, seq![plain_view("맨"@, "XPN"@, ts[i].start_pos, (ts[i].start_pos).saturating_add("맨"@.len() as usize)), plain_view("손"@, "NNG"@, (ts[i].start_pos).saturating_add("맨"@.len() as usize), ts[i].end_pos)]), i + 2)
    } else if p196_c1(ts, i) {
        (splice(ts, i, 1, seq![plain_view("맨"@, "XPN"@, ts[i].start_pos, (ts[i].start_pos).saturating_add("맨"@.len() as usize)), plain_view("발"@, "NNG"@, (ts[i].start_pos).saturating_add("맨"@.len() as usize), ts[i].end_pos)]), i + 2)
    } else if p196_c2(ts, i) {
        (splice(ts, i, 1, seq![plain_view("맨"@, "XPN"@, ts[i].start_pos, (ts[i].start_pos).saturating_add("맨"@.len() as usize)), plain_view("몸"@, "NNG"@, (ts[i].start_pos).saturating_add("맨"@.len() as usize), ts[i].end_pos)]), i + 2)
    } else if p196_c3(ts, i) {
        (splice(ts, i, 1, seq![plain_view("맨"@, "XPN"@, ts[i].start_pos, (ts[i].start_pos).saturating_add("맨"@.len() as usize)), plain_view("땅"@, "NNG"@, (ts[i].start_pos).saturating_add("맨"@.len() as usize), ts[i].end_pos)]), i + 2)
    } else {
        (ts, i + 1)
    }
}

/// [`p196_step`] as a function value.
pub open spec fn p196_f() -> spec_fn(Seq<TokenView>, int) -> (Seq<TokenView>, int) {
    |ts: Seq<TokenView>, i: int| p196_step(ts, i)
}

/// Nouns with the prefix 맨 are split: 맨손/NNG → 맨/XPN 손/NNG.
pub open spec fn p196(ts: Seq<TokenView>) -> Seq<TokenView> {
    scan(ts, 0, p196_f())
}

/// Whether rule 0 of [`p196`] applies at `i`.
fn p196_c0_exec(tokens: &Vec<SejongToken>, i: usize) -> (r: bool)
    requires
        i < tokens@.len(),
    ensures
        r == p196_c0(tokens_view(tokens@), i as int),
{
    assert(tokens_view(tokens@).len() == tokens@.len());
    let c28 = pos_is(&tokens[i], "NNG");
    let c29 = surf_is(&tokens[i], "맨손");
    (c28 && c29)
}

/// Whether rule 1 of [`p196`] applies at `i`.
fn p196_c1_exec(tokens: &Vec<SejongToken>, i: usize) -> (r: bool)
    requires
        i < tokens@.len(),
    ensures
        r == p196_c1(tokens_view(tokens@), i as int),
{
    assert(tokens_view(tokens@).len() == tokens@.len());
    let c30 = pos_is(&tokens[i], "NNG");
    let c31 = surf_is(&tokens[i], "맨발");
    (c30 && c31)
}

/// Whether rule 2 of [`p196`] applies at `i`.
fn p196_c2_exec(tokens: &Vec<SejongToken>, i: usize) -> (r: bool)
    requires
        i < tokens@.len(),
    ensures
        r == p196_c2(tokens_view(tokens@), i as int),
{
    assert(tokens_view(tokens@).len() == tokens@.len());
    let c32 = pos_is(&tokens[i], "NNG");
    let c33 = surf_is(&tokens[i], "맨몸");
    (c32 && c33)
}

/// Whether rule 3 of [`p196`] applies at `i`.
fn p196_c3_exec(tokens: &Vec<SejongToken>, i: usize) -> (r: bool)
    requires
        i < tokens@.len(),
    ensures
        r == p196_c3(tokens_view(tokens@), i as int),
{
    assert(tokens_view(tokens@).len() == tokens@.len());
    let c34 = pos_is(&tokens[i], "NNG");
    let c35 = surf_is(&tokens[i], "맨땅");
    (c34 && c35)
}

/// One step of [`p196`] at `i`; returns the next position.
fn p196_step_exec(tokens: &mut Vec<SejongToken>, i: usize) -> (next: usize)
    requires
        i < old(tokens)@.len(),
    ensures
        (tokens_view(final(tokens)@), next as int) == p196_step(tokens_view(old(tokens)@), i as int),
        final(tokens)@.len() - next < old(tokens)@.len() - i,
        next <= final(tokens)@.len() + 1,
{
    let len0 = tokens.len();
    assert(tokens_view(tokens@).len() == tokens@.len());
    if p196_c0_exec(tokens, i) {
        let s37 = owned("맨");
        let s38 = owned("XPN");
        let n39 = tokens[i].start_pos;
        let n41 = tokens[i].start_pos;
        let s42 = owned("맨");
        let n40 = n41.saturating_add(s42.unicode_len());
        let t36 = SejongToken::new(s37.as_str(), s38.as_str(), n39, n40);
        let s44 = owned("손");
        let s45 = owned("NNG");
        let n47 = tokens[i].start_pos;
        let s48 = owned("맨");
        let n46 = n47.saturating_add(s48.unicode_len());
        let n49 = tokens[i].end_pos;
        let t43 = SejongToken::new(s44.as_str(), s45.as_str(), n46, n49);
        let mut nv50: Vec<SejongToken> = Vec::new();
        push_token(&mut nv50, t36);
        push_token(&mut nv50, t43);
        splice_tokens(tokens, i, 1, nv50);
        let _len1 = tokens.len();
        return i + 2;
    }
    if p196_c1_exec(tokens, i) {
        let s52 = owned("맨");
        let s53 = owned("XPN");
        let n54 = tokens[i].start_pos;
        let n56 = tokens[i].start_pos;
        let s57 = owned("맨");
        let n55 = n56.saturating_add(s57.unicode_len());
        let t51 = SejongToken::new(s52.as_str(), s53.as_str(), n54, n55);
        let s59 = owned("발");
        let s60 = owned("NNG");
        let n62 = tokens[i].start_pos;
        let s63 = owned("맨");
        let n61 = n62.saturating_add(s63.unicode_len());
        let n64 = tokens[i].end_pos;
        let t58 = SejongToken::new(s59.as_str(), s60.as_str(), n61, n64);
        let mut nv65: Vec<SejongToken> = Vec::new();
        push_token(&mut nv65, t51);
        push_token(&mut nv65, t58);
        splice_tokens(tokens, i, 1, nv65);
        let _len1 = tokens.len();
        return i + 2;
    }
    if p196_c2_exec(tokens, i) {
        let s67 = owned("맨");
        let s68 = owned("XPN");
        let n69 = tokens[i].start_pos;
        let n71 = tokens[i].start_pos;
        let s72 = owned("맨");
        let n70 = n71.saturating_add(s72.unicode_len());
        let t66 = SejongToken::new(s67.as_str(), s68.as_str(), n69, n70);
        let s74 = owned("몸");
        let s75 = owned("NNG");
        let n77 = tokens[i].start_pos;
        let s78 = owned("맨");
        let n76 = n77.saturating_add(s78.unicode_len());
        let n79 = tokens[i].end_pos;
        let t73 = SejongToken::new(s74.as_str(), s75.as_str(), n76, n79);
        let mut nv80: Vec<SejongToken> = Vec::new();
        push_token(&mut nv80, t66);
        push_token(&mut nv80, t73);
        splice_tokens(tokens, i, 1, nv80);
        let _len1 = tokens.len();
        return i + 2;
    }
    if p196_c3_exec(tokens, i) {
        let s82 = owned("맨");
        let s83 = owned("XPN");
        let n84 = tokens[i].start_pos;
        let n86 = tokens[i].start_pos;
        let s87 = owned("맨");
        let n85 = n86.saturating_add(s87.unicode_len());
        let t81 = SejongToken::new(s82.as_str(), s83.as_str(), n84, n85);
        let s89 = owned("땅");
        let s90 = owned("NNG");
        let n92 = tokens[i].start_pos;
        let s93 = owned("맨");
        let n91 = n92.saturating_add(s93.unicode_len());
        let n94 = tokens[i].end_pos;
        let t88 = SejongToken::new(s89.as_str(), s90.as_str(), n91, n94);
        let mut nv95: Vec<SejongToken> = Vec::new();
        push_token(&mut nv95, t81);
        push_token(&mut nv95, t88);
        splice_tokens(tokens, i, 1, nv95);
        let _len1 = tokens.len();
        return i + 2;
    }
    i + 1
}

/// Nouns with the prefix 맨 are split: 맨손/NNG → 맨/XPN 손/NNG.
pub fn apply_p196(tokens: &mut Vec<SejongToken>)
    ensures
        tokens_view(final(tokens)@) == p196(tokens_view(old(tokens)@)),
{
    let ghost orig = tokens_view(tokens@);
    let mut i: usize = 0;
    while i < tokens.len()
        invariant
            i <= tokens@.len() + 1,
            scan(tokens_view(tokens@), i as int, p196_f()) == scan(orig, 0, p196_f()),
        decreases tokens@.len() + 1 - i,
    {
        let ghost before = tokens_view(tokens@);
        assert(before.len() == tokens@.len());
        i = p196_step_exec(tokens, i);
        assert(tokens_view(tokens@).len() == tokens@.len());
    }
}

/// Where rule 0 of [`p197`] applies.
pub open spec fn p197_c0(ts: Seq<TokenView>, i: int) -> bool {
    (((0 <= i < ts.len() && ts[i].surface == "작"@) && (0 <= i < ts.len() && ts[i].pos == "VA"@)) && ((0 <= i + 1 < ts.len() && ts[i + 1].surface == "은"@) && (0 <= i + 1 < ts.len() && ts[i + 1].pos == "ETM"@)) && (0 <= i + 2 < ts.len() && ts[i + 2].surface == "집"@))
}

/// One step of [`p197`] at `i`: the list after it and the next position.
pub open spec fn p197_step(ts: Seq<TokenView>, i: int) -> (Seq<TokenView>, int) {
    if p197_c0(ts, i) {
        (ts.update(i, TokenView { pos: "XPN"@, ..ts[i] }).update(i + 1, TokenView { pos: "XPN"@, ..ts[i + 1] }), i + 1)
    } else {
        (ts, i + 1)
    }
}

/// [`p197_step`] as a function value.
pub open spec fn p197_f() -> spec_fn(Seq<TokenView>, int) -> (Seq<TokenView>, int) {
    |ts: Seq<TokenView>, i: int| p197_step(ts, i)
}

/// 작/VA 은/ETM before 집 are prefixes: 작/XPN 은/XPN.
pub open spec fn p197(ts: Seq<TokenView>) -> Seq<TokenView> {
    scan(ts, 0, p197_f())
}

/// Whether rule 0 of [`p197`] applies at `i`.
fn p197_c0_exec(tokens: &Vec<SejongToken>, i: usize) -> (r: bool)
    requires
        i < tokens@.len(),
    ensures
        r == p197_c0(tokens_view(tokens@), i as int),
{
    assert(tokens_view(tokens@).len() == tokens@.len());
    let c96 = surf_is(&tokens[i], "작");
    let c97 = pos_is(&tokens[i], "VA");
    let c98 = (tokens.len() - i > 1) && surf_is(&tokens[i + 1], "은");
    let c99 = (tokens.len() - i > 1) && pos_is(&tokens[i + 1], "ETM");
    let c100 = (tokens.len() - i > 2) && surf_is(&tokens[i + 2], "집");
    ((c96 && c97) && (c98 && c99) && c100)
}

/// One step of [`p197`] at `i`; returns the next position.
fn p197_step_exec(tokens: &mut Vec<SejongToken>, i: usize) -> (next: usize)
    requires
        i < old(tokens)@.len(),
    ensures
        (tokens_view(final(tokens)@), next as int) == p197_step(tokens_view(old(tokens)@), i as int),
        final(tokens)@.len() - next < old(tokens)@.len() - i,
        next <= final(tokens)@.len() + 1,
{
    let len0 = tokens.len();
    assert(tokens_view(tokens@).len() == tokens@.len());
    if p197_c0_exec(tokens, i) {
        let s102 = owned("XPN");
        let mut t101 = tokens[i].duplicate();
        t101.pos = s102;
        let s104 = owned("XPN");
        let mut t103 = tokens[i + 1].duplicate();
        t103.pos = s104;
        set_token(tokens, i, t101);
        set_token(tokens, i + 1, t103);
        let _len1 = tokens.len();
        return i + 1;
    }
    i + 1
}

/// 작/VA 은/ETM before 집 are prefixes: 작/XPN 은/XPN.
pub fn apply_p197(tokens: &mut Vec<SejongToken>)
    ensures
        tokens_view(final(tokens)@) == p197(tokens_view(old(tokens)@)),
{
    let ghost orig = tokens_view(tokens@);
    let mut i: usize = 0;
    while i < tokens.len()
        invariant
            i <= tokens@.len() + 1,
            scan(tokens_view(tokens@), i as int, p197_f()) == scan(orig, 0, p197_f()),
        decreases tokens@.len() + 1 - i,
    {
        let ghost before = tokens_view(tokens@);
        assert(before.len() == tokens@.len());
        i = p197_step_exec(tokens, i);
        assert(tokens_view(tokens@).len() == tokens@.len());
    }
}

/// Where rule 0 of [`p202`] applies.
pub open spec fn p202_c0(ts: Seq<TokenView>, i: int) -> bool {
    ((0 <= i < ts.len() && ts[i].pos == "NNG"@) && (0 <= i + 1 < ts.len() && ts[i + 1].pos == "NNG"@) && (0 <= i < ts.len() && ts[i].surface == "무역"@) && (0 <= i + 1 < ts.len() && ts[i + 1].surface == "수지"@))
}

/// Where rule 1 of [`p202`] applies.
pub open spec fn p202_c1(ts: Seq<TokenView>, i: int) -> bool {
    ((0 <= i < ts.len() && ts[i].pos == "NNG"@) && (0 <= i + 1 < ts.len() && ts[i + 1].pos == "NNG"@) && (0 <= i < ts.len() && ts[i].surface == "여론"@) && (0 <= i + 1 < ts.len() && ts[i + 1].surface == "조사"@))
}

/// Where rule 2 of [`p202`] applies.
pub open spec fn p202_c2(ts: Seq<TokenView>, i: int) -> bool {
    ((0 <= i < ts.len() && ts[i].pos == "NNG"@) && (0 <= i + 1 < ts.len() && ts[i + 1].pos == "NNG"@) && (0 <= i < ts.len() && ts[i].surface == "시민"@) && (0 <= i + 1 < ts.len() && ts[i + 1].surface == "단체"@))
}

/// Where rule 3 of [`p202`] applies.
pub open spec fn p202_c3(ts: Seq<TokenView>, i: int) -> bool {
    ((0 <= i < ts.len() && ts[i].pos == "NNG"@) && (0 <= i + 1 < ts.len() && ts[i + 1].pos == "NNG"@) && (0 <= i < ts.len() && ts[i].surface == "국민"@) && (0 <= i + 1 < ts.len() && ts[i + 1].surface == "경제"@))
}

/// Where rule 4 of [`p202`] applies.
pub open spec fn p202_c4(ts: Seq<TokenView>, i: int) -> bool {
    ((0 <= i < ts.len() && ts[i].pos == "NNG"@) && (0 <= i + 1 < ts.len() && ts[i + 1].pos == "NNG"@) && (0 <= i < ts.len() && ts[i].surface == "경제"@) && (0 <= i + 1 < ts.len() && ts[i + 1].surface == "성장"@))
}

/// Where rule 5 of [`p202`] applies.
pub open spec fn p202_c5(ts: Seq<TokenView>, i: int) -> bool {
    ((0 <= i < ts.len() && ts[i].pos == "NNG"@) && (0 <= i + 1 < ts.len() && ts[i + 1].pos == "NNG"@) && (0 <= i < ts.len() && ts[i].surface == "대통령"@) && (0 <= i + 1 < ts.len() && ts[i + 1].surface == "선거"@))
}

/// Where rule 6 of [`p202`] applies.
pub open spec fn p202_c6(ts: Seq<TokenView>, i: int) -> bool {
    ((0 <= i < ts.len() && ts[i].pos == "NNG"@) && (0 <= i + 1 < ts.len() && ts[i + 1].pos == "NNG"@) && (0 <= i < ts.len() && ts[i].surface == "정부"@) && (0 <= i + 1 < ts.len() && ts[i + 1].surface == "정책"@))
}

/// Where rule 7 of [`p202`] applies.
pub open spec fn p202_c7(ts: Seq<TokenView>, i: int) -> bool {
    ((0 <= i < ts.len() && ts[i].pos == "NNG"@) && (0 <= i + 1 < ts.len() && ts[i + 1].pos == "NNG"@) && (0 <= i < ts.len() && ts[i].surface == "환경"@) && (0 <= i + 1 < ts.len() && ts[i + 1].surface == "보호"@))
}

/// Where rule 8 of [`p202`] applies.
pub open spec fn p202_c8(ts: Seq<TokenView>, i: int) -> bool {
    ((0 <= i < ts.len() && ts[i].pos == "NNG"@) && (0 <= i + 1 < ts.len() && ts[i + 1].pos == "NNG"@) && (0 <= i < ts.len() && ts[i].surface == "인공"@) && (0 <= i + 1 < ts.len() && ts[i + 1].surface == "지능"@))
}

/// Where rule 9 of [`p202`] applies.
pub open spec fn p202_c9(ts: Seq<TokenView>, i: int) -> bool {
    ((0 <= i < ts.len() && ts[i].pos == "NNG"@) && (0 <= i + 1 < ts.len() && ts[i + 1].pos == "NNG"@) && (0 <= i < ts.len() && ts[i].surface == "형태소"@) && (0 <= i + 1 < ts.len() && ts[i + 1].surface == "분석"@))
}

/// One step of [`p202`] at `i`: the list after it and the next position.
pub open spec fn p202_step(ts: Seq<TokenView>, i: int) -> (Seq<TokenView>, int) {
    if p202_c0(ts, i) {
        (splice(ts, i, 2, seq![plain_view((ts[i].surface + ts[i + 1].surface), "NNG"@, ts[i].start_pos, ts[i + 1].end_pos)]), i + 0)
    } else if p202_c1(ts, i) {
        (splice(ts, i, 2, seq![plain_view((ts[i].surface + ts[i + 1].surface), "NNG"@, ts[i].start_pos, ts[i + 1].end_pos)]), i + 0)
    } else if p202_c2(ts, i) {
        (splice(ts, i, 2, seq![plain_view((ts[i].surface + ts[i + 1].surface), "NNG"@, ts[i].start_pos, ts[i + 1].end_pos)]), i + 0)
    } else if p202_c3(ts, i) {
        (splice(ts, i, 2, seq![plain_view((ts[i].surface + ts[i + 1].surface), "NNG"@, ts[i].start_pos, ts[i + 1].end_pos)]), i + 0)
    } else if p202_c4(ts, i) {
        (splice(ts, i, 2, seq![plain_view((ts[i].surface + ts[i + 1].surface), "NNG"@, ts[i].start_pos, ts[i + 1].end_pos)]), i + 0)
    } else if p202_c5(ts, i) {
        (splice(ts, i, 2, seq![plain_view((ts[i].surface + ts[i + 1].surface), "NNG"@, ts[i].start_pos, ts[i + 1].end_pos)]), i + 0)
    } else if p202_c6(ts, i) {
        (splice(ts, i, 2, seq![plain_view((ts[i].surface + ts[i + 1].surface), "NNG"@, ts[i].start_pos, ts[i + 1].end_pos)]), i + 0)
    } else if p202_c7(ts, i) {
        (splice(ts, i, 2, seq![plain_view((ts[i].surface + ts[i + 1].surface), "NNG"@, ts[i].start_pos, ts[i + 1].end_pos)]), i + 0)
    } else if p202_c8(ts, i) {
        (splice(ts, i, 2, seq![plain_view((ts[i].surface + ts[i + 1].surface), "NNG"@, ts[i].start_pos, ts[i + 1].end_pos)]), i + 0)
    } else if p202_c9(ts, i) {
        (splice(ts, i, 2, seq![plain_view((ts[i].surface + ts[i + 1].surface), "NNG"@, ts[i].start_pos, ts[i + 1].end_pos)]), i + 0)
    } else {
        (ts, i + 1)
    }
}

/// [`p202_step`] as a function value.
pub open spec fn p202_f() -> spec_fn(Seq<TokenView>, int) -> (Seq<TokenView>, int) {
    |ts: Seq<TokenView>, i: int| p202_step(ts, i)
}

/// Compound nouns written as one word in the corpus are merged (여론/NNG 조사/NNG → 여론조사/NNG).
pub open spec fn p202(ts: Seq<TokenView>) -> Seq<TokenView> {
    scan(ts, 0, p202_f())
}

/// Whether rule 0 of [`p202`] applies at `i`.
fn p202_c0_exec(tokens: &Vec<SejongToken>, i: usize) -> (r: bool)
    requires
        i < tokens@.len(),
    ensures
        r == p202_c0(tokens_view(tokens@), i as int),
{
    assert(tokens_view(tokens@).len() == tokens@.len());
    let c105 = pos_is(&tokens[i], "NNG");
    let c106 = (tokens.len() - i > 1) && pos_is(&tokens[i + 1], "NNG");
    let c107 = surf_is(&tokens[i], "무역");
    let c108 = (tokens.len() - i > 1) && surf_is(&tokens[i + 1], "수지");
    (c105 && c106 && c107 && c108)
}

/// Whether rule 1 of [`p202`] applies at `i`.
fn p202_c1_exec(tokens: &Vec<SejongToken>, i: usize) -> (r: bool)
    requires
        i < tokens@.len(),
    ensures
        r == p202_c1(tokens_view(tokens@), i as int),
{
    assert(tokens_view(tokens@).len() == tokens@.len());
    let c109 = pos_is(&tokens[i], "NNG");
    let c110 = (tokens.len() - i > 1) && pos_is(&tokens[i + 1], "NNG");
    let c111 = surf_is(&tokens[i], "여론");
    let c112 = (tokens.len() - i > 1) && surf_is(&tokens[i + 1], "조사");
    (c109 && c110 && c111 && c112)
}

/// Whether rule 2 of [`p202`] applies at `i`.
fn p202_c2_exec(tokens: &Vec<SejongToken>, i: usize) -> (r: bool)
    requires
        i < tokens@.len(),
    ensures
        r == p202_c2(tokens_view(tokens@), i as int),
{
    assert(tokens_view(tokens@).len() == tokens@.len());
    let c113 = pos_is(&tokens[i], "NNG");
    let c114 = (tokens.len() - i > 1) && pos_is(&tokens[i + 1], "NNG");
    let c115 = surf_is(&tokens[i], "시민");
    let c116 = (tokens.len() - i > 1) && surf_is(&tokens[i + 1], "단체");
    (c113 && c114 && c115 && c116)
}

/// Whether rule 3 of [`p202`] applies at `i`.
fn p202_c3_exec(tokens: &Vec<SejongToken>, i: usize) -> (r: bool)
    requires
        i < tokens@.len(),
    ensures
        r == p202_c3(tokens_view(tokens@), i as int),
{
    assert(tokens_view(tokens@).len() == tokens@.len());
    let c117 = pos_is(&tokens[i], "NNG");
    let c118 = (tokens.len() - i > 1) && pos_is(&tokens[i + 1], "NNG");
    let c119 = surf_is(&tokens[i], "국민");
    let c120 = (tokens.len() - i > 1) && surf_is(&tokens[i + 1], "경제");
    (c117 && c118 && c119 && c120)
}

/// Whether rule 4 of [`p202`] applies at `i`.
fn p202_c4_exec(tokens: &Vec<SejongToken>, i: usize) -> (r: bool)
    requires
        i < tokens@.len(),
    ensures
        r == p202_c4(tokens_view(tokens@), i as int),
{
    assert(tokens_view(tokens@).len() == tokens@.len());
    let c121 = pos_is(&tokens[i], "NNG");
    let c122 = (tokens.len() - i > 1) && pos_is(&tokens[i + 1], "NNG");
    let c123 = surf_is(&tokens[i], "경제");
    let c124 = (tokens.len() - i > 1) && surf_is(&tokens[i + 1], "성장");
    (c121 && c122 && c123 && c124)
}

/// Whether rule 5 of [`p202`] applies at `i`.
fn p202_c5_exec(tokens: &Vec<SejongToken>, i: usize) -> (r: bool)
    requires
        i < tokens@.len(),
    ensures
        r == p202_c5(tokens_view(tokens@), i as int),
{
    assert(tokens_view(tokens@).len() == tokens@.len());
    let c125 = pos_is(&tokens[i], "NNG");
    let c126 = (tokens.len() - i > 1) && pos_is(&tokens[i + 1], "NNG");
    let c127 = surf_is(&tokens[i], "대통령");
    let c128 = (tokens.len() - i > 1) && surf_is(&tokens[i + 1], "선거");
    (c125 && c126 && c127 && c128)
}

/// Whether rule 6 of [`p202`] applies at `i`.
fn p202_c6_exec(tokens: &Vec<SejongToken>, i: usize) -> (r: bool)
    requires
        i < tokens@.len(),
    ensures
        r == p202_c6(tokens_view(tokens@), i as int),
{
    assert(tokens_view(tokens@).len() == tokens@.len());
    let c129 = pos_is(&tokens[i], "NNG");
    let c130 = (tokens.len() - i > 1) && pos_is(&tokens[i + 1], "NNG");
    let c131 = surf_is(&tokens[i], "정부");
    let c132 = (tokens.len() - i > 1) && surf_is(&tokens[i + 1], "정책");
    (c129 && c130 && c131 && c132)
}

/// Whether rule 7 of [`p202`] applies at `i`.
fn p202_c7_exec(tokens: &Vec<SejongToken>, i: usize) -> (r: bool)
    requires
        i < tokens@.len(),
    ensures
        r == p202_c7(tokens_view(tokens@), i as int),
{
    assert(tokens_view(tokens@).len() == tokens@.len());
    let c133 = pos_is(&tokens[i], "NNG");
    let c134 = (tokens.len() - i > 1) && pos_is(&tokens[i + 1], "NNG");
    let c135 = surf_is(&tokens[i], "환경");
    let c136 = (tokens.len() - i > 1) && surf_is(&tokens[i + 1], "보호");
    (c133 && c134 && c135 && c136)
}

/// Whether rule 8 of [`p202`] applies at `i`.
fn p202_c8_exec(tokens: &Vec<SejongToken>, i: usize) -> (r: bool)
    requires
        i < tokens@.len(),
    ensures
        r == p202_c8(tokens_view(tokens@), i as int),
{
    assert(tokens_view(tokens@).len() == tokens@.len());
    let c137 = pos_is(&tokens[i], "NNG");
    let c138 = (tokens.len() - i > 1) && pos_is(&tokens[i + 1], "NNG");
    let c139 = surf_is(&tokens[i], "인공");
    let c140 = (tokens.len() - i > 1) && surf_is(&tokens[i + 1], "지능");
    (c137 && c138 && c139 && c140)
}

/// Whether rule 9 of [`p202`] applies at `i`.
fn p202_c9_exec(tokens: &Vec<SejongToken>, i: usize) -> (r: bool)
    requires
        i < tokens@.len(),
    ensures
        r == p202_c9(tokens_view(tokens@), i as int),
{
    assert(tokens_view(tokens@).len() == tokens@.len());
    let c141 = pos_is(&tokens[i], "NNG");
    let c142 = (tokens.len() - i > 1) && pos_is(&tokens[i + 1], "NNG");
    let c143 = surf_is(&tokens[i], "형태소");
    let c144 = (tokens.len() - i > 1) && surf_is(&tokens[i + 1], "분석");
    (c141 && c142 && c143 && c144)
}

/// One step of [`p202`] at `i`; returns the next position.
fn p202_step_exec(tokens: &mut Vec<SejongToken>, i: usize) -> (next: usize)
    requires
        i < old(tokens)@.len(),
    ensures
        (tokens_view(final(tokens)@), next as int) == p202_step(tokens_view(old(tokens)@), i as int),
        final(tokens)@.len() - next < old(tokens)@.len() - i,
        next <= final(tokens)@.len() + 1,
{
    let len0 = tokens.len();
    assert(tokens_view(tokens@).len() == tokens@.len());
    if p202_c0_exec(tokens, i) {
        let s147 = tokens[i].surface.clone();
        let s148 = tokens[i + 1].surface.clone();
        let s146 = concat(s147.as_str(), s148.as_str());
        let s149 = owned("NNG");
        let n150 = tokens[i].start_pos;
        let n151 = tokens[i + 1].end_pos;
        let t145 = SejongToken::new(s146.as_str(), s149.as_str(), n150, n151);
        let mut nv152: Vec<SejongToken> = Vec::new();
        push_token(&mut nv152, t145);
        splice_tokens(tokens, i, 2, nv152);
        let _len1 = tokens.len();
        return i + 0;
    }
    if p202_c1_exec(tokens, i) {
        let s155 = tokens[i].surface.clone();
        let s156 = tokens[i + 1].surface.clone();
        let s154 = concat(s155.as_str(), s156.as_str());
        let s157 = owned("NNG");
        let n158 = tokens[i].start_pos;
        let n159 = tokens[i + 1].end_pos;
        let t153 = SejongToken::new(s154.as_str(), s157.as_str(), n158, n159);
        let mut nv160: Vec<SejongToken> = Vec::new();
        push_token(&mut nv160, t153);
        splice_tokens(tokens, i, 2, nv160);
        let _len1 = tokens.len();
        return i + 0;
    }
    if p202_c2_exec(tokens, i) {
        let s163 = tokens[i].surface.clone();
        let s164 = tokens[i + 1].surface.clone();
        let s162 = concat(s163.as_str(), s164.as_str());
        let s165 = owned("NNG");
        let n166 = tokens[i].start_pos;
        let n167 = tokens[i + 1].end_pos;
        let t161 = SejongToken::new(s162.as_str(), s165.as_str(), n166, n167);
        let mut nv168: Vec<SejongToken> = Vec::new();
        push_token(&mut nv168, t161);
        splice_tokens(tokens, i, 2, nv168);
        let _len1 = tokens.len();
        return i + 0;
    }
    if p202_c3_exec(tokens, i) {
        let s171 = tokens[i].surface.clone();
        let s172 = tokens[i + 1].surface.clone();
        let s170 = concat(s171.as_str(), s172.as_str());
        let s173 = owned("NNG");
        let n174 = tokens[i].start_pos;
        let n175 = tokens[i + 1].end_pos;
        let t169 = SejongToken::new(s170.as_str(), s173.as_str(), n174, n175);
        let mut nv176: Vec<SejongToken> = Vec::new();
        push_token(&mut nv176, t169);
        splice_tokens(tokens, i, 2, nv176);
        let _len1 = tokens.len();
        return i + 0;
    }
    if p202_c4_exec(tokens, i) {
        let s179 = tokens[i].surface.clone();
        let s180 = tokens[i + 1].surface.clone();
        let s178 = concat(s179.as_str(), s180.as_str());
        let s181 = owned("NNG");
        let n182 = tokens[i].start_pos;
        let n183 = tokens[i + 1].end_pos;
        let t177 = SejongToken::new(s178.as_str(), s181.as_str(), n182, n183);
        let mut nv184: Vec<SejongToken> = Vec::new();
        push_token(&mut nv184, t177);
        splice_tokens(tokens, i, 2, nv184);
        let _len1 = tokens.len();
        return i + 0;
    }
    if p202_c5_exec(tokens, i) {
        let s187 = tokens[i].surface.clone();
        let s188 = tokens[i + 1].surface.clone();
        let s186 = concat(s187.as_str(), s188.as_str());
        let s189 = owned("NNG");
        let n190 = tokens[i].start_pos;
        let n191 = tokens[i + 1].end_pos;
        let t185 = SejongToken::new(s186.as_str(), s189.as_str(), n190, n191);
        let mut nv192: Vec<SejongToken> = Vec::new();
        push_token(&mut nv192, t185);
        splice_tokens(tokens, i, 2, nv192);
        let _len1 = tokens.len();
        return i + 0;
    }
    if p202_c6_exec(tokens, i) {
        let s195 = tokens[i].surface.clone();
        let s196 = tokens[i + 1].surface.clone();
        let s194 = concat(s195.as_str(), s196.as_str());
        let s197 = owned("NNG");
        let n198 = tokens[i].start_pos;
        let n199 = tokens[i + 1].end_pos;
        let t193 = SejongToken::new(s194.as_str(), s197.as_str(), n198, n199);
        let mut nv200: Vec<SejongToken> = Vec::new();
        push_token(&mut nv200, t193);
        splice_tokens(tokens, i, 2, nv200);
        let _len1 = tokens.len();
        return i + 0;
    }
    if p202_c7_exec(tokens, i) {
        let s203 = tokens[i].surface.clone();
        let s204 = tokens[i + 1].surface.clone();
        let s202 = concat(s203.as_str(), s204.as_str());
        let s205 = owned("NNG");
        let n206 = tokens[i].start_pos;
        let n207 = tokens[i + 1].end_pos;
        let t201 = SejongToken::new(s202.as_str(), s205.as_str(), n206, n207);
        let mut nv208: Vec<SejongToken> = Vec::new();
        push_token(&mut nv208, t201);
        splice_tokens(tokens, i, 2, nv208);
        let _len1 = tokens.len();
        return i + 0;
    }
    if p202_c8_exec(tokens, i) {
        let s211 = tokens[i].surface.clone();
        let s212 = tokens[i + 1].surface.clone();
        let s210 = concat(s211.as_str(), s212.as_str());
        let s213 = owned("NNG");
        let n214 = tokens[i].start_pos;
        let n215 = tokens[i + 1].end_pos;
        let t209 = SejongToken::new(s210.as_str(), s213.as_str(), n214, n215);
        let mut nv216: Vec<SejongToken> = Vec::new();
        push_token(&mut nv216, t209);
        splice_tokens(tokens, i, 2, nv216);
        let _len1 = tokens.len();
        return i + 0;
    }
    if p202_c9_exec(tokens, i) {
        let s219 = tokens[i].surface.clone();
        let s220 = tokens[i + 1].surface.clone();
        let s218 = concat(s219.as_str(), s220.as_str());
        let s221 = owned("NNG");
        let n222 = tokens[i].start_pos;
        let n223 = tokens[i + 1].end_pos;
        let t217 = SejongToken::new(s218.as_str(), s221.as_str(), n222, n223);
        let mut nv224: Vec<SejongToken> = Vec::new();
        push_token(&mut nv224, t217);
        splice_tokens(tokens, i, 2, nv224);
        let _len1 = tokens.len();
        return i + 0;
    }
    i + 1
}

/// Compound nouns written as one word in the corpus are merged (여론/NNG 조사/NNG → 여론조사/NNG).
pub fn apply_p202(tokens: &mut Vec<SejongToken>)
    ensures
        tokens_view(final(tokens)@) == p202(tokens_view(old(tokens)@)),
{
    let ghost orig = tokens_view(tokens@);
    let mut i: usize = 0;
    while i < tokens.len()
        invariant
            i <= tokens@.len() + 1,
            scan(tokens_view(tokens@), i as int, p202_f()) == scan(orig, 0, p202_f()),
        decreases tokens@.len() + 1 - i,
    {
        let ghost before = tokens_view(tokens@);
        assert(before.len() == tokens@.len());
        i = p202_step_exec(tokens, i);
        assert(tokens_view(tokens@).len() == tokens@.len());
    }
}

/// Where rule 0 of [`p198`] applies.
pub open spec fn p198_c0(ts: Seq<TokenView>, i: int) -> bool {
    ((0 <= i < ts.len() && ts[i].pos == "NNG"@) && (0 <= i < ts.len() && ts[i].surface == "높이"@))
}

/// Where rule 1 of [`p198`] applies.
pub open spec fn p198_c1(ts: Seq<TokenView>, i: int) -> bool {
    ((0 <= i < ts.len() && ts[i].pos == "NNG"@) && (0 <= i < ts.len() && ts[i].surface == "낮이"@))
}

/// Where rule 2 of [`p198`] applies.
pub open spec fn p198_c2(ts: Seq<TokenView>, i: int) -> bool {
    ((0 <= i < ts.len() && ts[i].pos == "NNG"@) && (0 <= i < ts.len() && ts[i].surface == "깊이"@))
}

/// Where rule 3 of [`p198`] applies.
pub open spec fn p198_c3(ts: Seq<TokenView>, i: int) -> bool {
    ((0 <= i < ts.len() && ts[i].pos == "NNG"@) && (0 <= i < ts.len() && ts[i].surface == "넓이"@))
}

/// Where rule 4 of [`p198`] applies.
pub open spec fn p198_c4(ts: Seq<TokenView>, i: int) -> bool {
    ((0 <= i < ts.len() && ts[i].pos == "NNG"@) && (0 <= i < ts.len() && seq!["높"@, "낮"@, "깊"@, "넓"@].contains(ts[i].surface)) && ((0 <= i + 1 < ts.len() && ts[i + 1].surface == "이"@) && (0 <= i + 1 < ts.len() && ts[i + 1].pos == "JKS"@)))
}

/// One step of [`p198`] at `i`: the list after it and the next position.
pub open spec fn p198_step(ts: Seq<TokenView>, i: int) -> (Seq<TokenView>, int) {
    if p198_c0(ts, i) {
        (splice(ts, i, 1, seq![plain_view("높"@, "VA"@, ts[i].start_pos, (ts[i].start_pos).saturating_add("높"@.len() as usize)), plain_view("이"@, "EC"@, (ts[i].start_pos).saturating_add("높"@.len() as usize), ts[i].end_pos)]), i + 2)
    } else if p198_c1(ts, i) {
        (splice(ts, i, 1, seq![plain_view("낮"@, "VA"@, ts[i].start_pos, (ts[i].start_pos).saturating_add("낮"@.len() as usize)), plain_view("이"@, "EC"@, (ts[i].start_pos).saturating_add("낮"@.len() as usize), ts[i].end_pos)]), i + 2)
    } else if p198_c2(ts, i) {
        (splice(ts, i, 1, seq![plain_view("깊"@, "VA"@, ts[i].start_pos, (ts[i].start_pos).saturating_add("깊"@.len() as usize)), plain_view("이"@, "EC"@, (ts[i].start_pos).saturating_add("깊"@.len() as usize), ts[i].end_pos)]), i + 2)
    } else if p198_c3(ts, i) {
        (splice(ts, i, 1, seq![plain_view("넓"@, "VA"@, ts[i].start_pos, (ts[i].start_pos).saturating_add("넓"@.len() as usize)), plain_view("이"@, "EC"@, (ts[i].start_pos).saturating_add("넓"@.len() as usize), ts[i].end_pos)]), i + 2)
    } else if p198_c4(ts, i) {
        (ts.update(i, TokenView { pos: "VA"@, ..ts[i] }).update(i + 1, TokenView { pos: "EC"@, ..ts[i + 1] }), i + 2)
    } else {
        (ts, i + 1)
    }
}

/// [`p198_step`] as a function value.
pub open spec fn p198_f() -> spec_fn(Seq<TokenView>, int) -> (Seq<TokenView>, int) {
    |ts: Seq<TokenView>, i: int| p198_step(ts, i)
}

/// Adverbial forms of adjectives analysed as nouns are split: 높이/NNG → 높/VA 이/EC; 낮/NNG 이/JKS → 낮/VA 이/EC.
pub open spec fn p198(ts: Seq<TokenView>) -> Seq<TokenView> {
    scan(ts, 0, p198_f())
}

/// Whether rule 0 of [`p198`] applies at `i`.
fn p198_c0_exec(tokens: &Vec<SejongToken>, i: usize) -> (r: bool)
    requires
        i < tokens@.len(),
    ensures
        r == p198_c0(tokens_view(tokens@), i as int),
{
    assert(tokens_view(tokens@).len() == tokens@.len());
    let c225 = pos_is(&tokens[i], "NNG");
    let c226 = surf_is(&tokens[i], "높이");
    (c225 && c226)
}

/// Whether rule 1 of [`p198`] applies at `i`.
fn p198_c1_exec(tokens: &Vec<SejongToken>, i: usize) -> (r: bool)
    requires
        i < tokens@.len(),
    ensures
        r == p198_c1(tokens_view(tokens@), i as int),
{
    assert(tokens_view(tokens@).len() == tokens@.len());
    let c227 = pos_is(&tokens[i], "NNG");
    let c228 = surf_is(&tokens[i], "낮이");
    (c227 && c228)
}

/// Whether rule 2 of [`p198`] applies at `i`.
fn p198_c2_exec(tokens: &Vec<SejongToken>, i: usize) -> (r: bool)
    requires
        i < tokens@.len(),
    ensures
        r == p198_c2(tokens_view(tokens@), i as int),
{
    assert(tokens_view(tokens@).len() == tokens@.len());
    let c229 = pos_is(&tokens[i], "NNG");
    let c230 = surf_is(&tokens[i], "깊이");
    (c229 && c230)
}

/// Whether rule 3 of [`p198`] applies at `i`.
fn p198_c3_exec(tokens: &Vec<SejongToken>, i: usize) -> (r: bool)
    requires
        i < tokens@.len(),
    ensures
        r == p198_c3(tokens_view(tokens@), i as int),
{
    assert(tokens_view(tokens@).len() == tokens@.len());
    let c231 = pos_is(&tokens[i], "NNG");
    let c232 = surf_is(&tokens[i], "넓이");
    (c231 && c232)
}

/// Whether rule 4 of [`p198`] applies at `i`.
fn p198_c4_exec(tokens: &Vec<SejongToken>, i: usize) -> (r: bool)
    requires
        i < tokens@.len(),
    ensures
        r == p198_c4(tokens_view(tokens@), i as int),
{
    assert(tokens_view(tokens@).len() == tokens@.len());
    let c233 = pos_is(&tokens[i], "NNG");
    let l235: [&str; 4] = ["높", "낮", "깊", "넓"];
    assert(crate::tag_map::strs_view(l235@) =~= seq!["높"@, "낮"@, "깊"@, "넓"@]);
    let c234 = in_list(&l235, tokens[i].surface.as_str());
    let c236 = (tokens.len() - i > 1) && surf_is(&tokens[i + 1], "이");
    let c237 = (tokens.len() - i > 1) && pos_is(&tokens[i + 1], "JKS");
    (c233 && c234 && (c236 && c237))
}

/// One step of [`p198`] at `i`; returns the next position.
fn p198_step_exec(tokens: &mut Vec<SejongToken>, i: usize) -> (next: usize)
    requires
        i < old(tokens)@.len(),
    ensures
        (tokens_view(final(tokens)@), next as int) == p198_step(tokens_view(old(tokens)@), i as int),
        final(tokens)@.len() - next < old(tokens)@.len() - i,
        next <= final(tokens)@.len() + 1,
{
    let len0 = tokens.len();
    assert(tokens_view(tokens@).len() == tokens@.len());
    if p198_c0_exec(tokens, i) {
        let s239 = owned("높");
        let s240 = owned("VA");
        let n241 = tokens[i].start_pos;
        let n243 = tokens[i].start_pos;
        let s244 = owned("높");
        let n242 = n243.saturating_add(s244.unicode_len());
        let t238 = SejongToken::new(s239.as_str(), s240.as_str(), n241, n242);
        let s246 = owned("이");
        let s247 = owned("EC");
        let n249 = tokens[i].start_pos;
        let s250 = owned("높");
        let n248 = n249.saturating_add(s250.unicode_len());
        let n251 = tokens[i].end_pos;
        let t245 = SejongToken::new(s246.as_str(), s247.as_str(), n248, n251);
        let mut nv252: Vec<SejongToken> = Vec::new();
        push_token(&mut nv252, t238);
        push_token(&mut nv252, t245);
        splice_tokens(tokens, i, 1, nv252);
        let _len1 = tokens.len();
        return i + 2;
    }
    if p198_c1_exec(tokens, i) {
        let s254 = owned("낮");
        let s255 = owned("VA");
        let n256 = tokens[i].start_pos;
        let n258 = tokens[i].start_pos;
        let s259 = owned("낮");
        let n257 = n258.saturating_add(s259.unicode_len());
        let t253 = SejongToken::new(s254.as_str(), s255.as_str(), n256, n257);
        let s261 = owned("이");
        let s262 = owned("EC");
        let n264 = tokens[i].start_pos;
        let s265 = owned("낮");
        let n263 = n264.saturating_add(s265.unicode_len());
        let n266 = tokens[i].end_pos;
        let t260 = SejongToken::new(s261.as_str(), s262.as_str(), n263, n266);
        let mut nv267: Vec<SejongToken> = Vec::new();
        push_token(&mut nv267, t253);
        push_token(&mut nv267, t260);
        splice_tokens(tokens, i, 1, nv267);
        let _len1 = tokens.len();
        return i + 2;
    }
    if p198_c2_exec(tokens, i) {
        let s269 = owned("깊");
        let s270 = owned("VA");
        let n271 = tokens[i].start_pos;
        let n273 = tokens[i].start_pos;
        let s274 = owned("깊");
        let n272 = n273.saturating_add(s274.unicode_len());
        let t268 = SejongToken::new(s269.as_str(), s270.as_str(), n271, n272);
        let s276 = owned("이");
        let s277 = owned("EC");
        let n279 = tokens[i].start_pos;
        let s280 = owned("깊");
        let n278 = n279.saturating_add(s280.unicode_len());
        let n281 = tokens[i].end_pos;
        let t275 = SejongToken::new(s276.as_str(), s277.as_str(), n278, n281);
        let mut nv282: Vec<SejongToken> = Vec::new();
        push_token(&mut nv282, t268);
        push_token(&mut nv282, t275);
        splice_tokens(tokens, i, 1, nv282);
        let _len1 = tokens.len();
        return i + 2;
    }
    if p198_c3_exec(tokens, i) {
        let s284 = owned("넓");
        let s285 = owned("VA");
        let n286 = tokens[i].start_pos;
        let n288 = tokens[i].start_pos;
        let s289 = owned("넓");
        let n287 = n288.saturating_add(s289.unicode_len());
        let t283 = SejongToken::new(s284.as_str(), s285.as_str(), n286, n287);
        let s291 = owned("이");
        let s292 = owned("EC");
        let n294 = tokens[i].start_pos;
        let s295 = owned("넓");
        let n293 = n294.saturating_add(s295.unicode_len());
        let n296 = tokens[i].end_pos;
        let t290 = SejongToken::new(s291.as_str(), s292.as_str(), n293, n296);
        let mut nv297: Vec<SejongToken> = Vec::new();
        push_token(&mut nv297, t283);
        push_token(&mut nv297, t290);
        splice_tokens(tokens, i, 1, nv297);
        let _len1 = tokens.len();
        return i + 2;
    }
    if p198_c4_exec(tokens, i) {
        let s299 = owned("VA");
        let mut t298 = tokens[i].duplicate();
        t298.pos = s299;
        let s301 = owned("EC");
        let mut t300 = tokens[i + 1].duplicate();
        t300.pos = s301;
        set_token(tokens, i, t298);
        set_token(tokens, i + 1, t300);
        let _len1 = tokens.len();
        return i + 2;
    }
    i + 1
}

/// Adverbial forms of adjectives analysed as nouns are split: 높이/NNG → 높/VA 이/EC; 낮/NNG 이/JKS → 낮/VA 이/EC.
pub fn apply_p198(tokens: &mut Vec<SejongToken>)
    ensures
        tokens_view(final(tokens)@) == p198(tokens_view(old(tokens)@)),
{
    let ghost orig = tokens_view(tokens@);
    let mut i: usize = 0;
    while i < tokens.len()
        invariant
            i <= tokens@.len() + 1,
            scan(tokens_view(tokens@), i as int, p198_f()) == scan(orig, 0, p198_f()),
        decreases tokens@.len() + 1 - i,
    {
        let ghost before = tokens_view(tokens@);
        assert(before.len() == tokens@.len());
        i = p198_step_exec(tokens, i);
        assert(tokens_view(tokens@).len() == tokens@.len());
    }
}

/// Where rule 0 of [`p190`] applies.
pub open spec fn p190_c0(ts: Seq<TokenView>, i: int) -> bool {
    (((0 <= i < ts.len() && ts[i].surface == "히다"@) && (0 <= i < ts.len() && ts[i].pos == "NNP"@)) && (0 <= i - 1 < ts.len() && ts[i - 1].pos == "VV"@))
}

/// One step of [`p190`] at `i`: the list after it and the next position.
pub open spec fn p190_step(ts: Seq<TokenView>, i: int) -> (Seq<TokenView>, int) {
    if p190_c0(ts, i) {
        (splice(ts, i, 1, seq![plain_view("히"@, "VX"@, ts[i].start_pos, (ts[i].start_pos).saturating_add(encode_utf8("히"@).len() as usize)), plain_view("다"@, "EF"@, (ts[i].start_pos).saturating_add(encode_utf8("히"@).len() as usize), ts[i].end_pos)]), i + 2)
    } else {
        (ts, i + 1)
    }
}

/// [`p190_step`] as a function value.
pub open spec fn p190_f() -> spec_fn(Seq<TokenView>, int) -> (Seq<TokenView>, int) {
    |ts: Seq<TokenView>, i: int| p190_step(ts, i)
}

/// 히다/NNP after a verb is the suffix 히/VX with 다/EF (입히다).
pub open spec fn p190(ts: Seq<TokenView>) -> Seq<TokenView> {
    scan(ts, 0, p190_f())
}

/// Whether rule 0 of [`p190`] applies at `i`.
fn p190_c0_exec(tokens: &Vec<SejongToken>, i: usize) -> (r: bool)
    requires
        i < tokens@.len(),
    ensures
        r == p190_c0(tokens_view(tokens@), i as int),
{
    assert(tokens_view(tokens@).len() == tokens@.len());
    let c302 = surf_is(&tokens[i], "히다");
    let c303 = pos_is(&tokens[i], "NNP");
    let c304 = (i >= 1) && pos_is(&tokens[i - 1], "VV");
    ((c302 && c303) && c304)
}

/// One step of [`p190`] at `i`; returns the next position.
fn p190_step_exec(tokens: &mut Vec<SejongToken>, i: usize) -> (next: usize)
    requires
        i < old(tokens)@.len(),
    ensures
        (tokens_view(final(tokens)@), next as int) == p190_step(tokens_view(old(tokens)@), i as int),
        final(tokens)@.len() - next < old(tokens)@.len() - i,
        next <= final(tokens)@.len() + 1,
{
    let len0 = tokens.len();
    assert(tokens_view(tokens@).len() == tokens@.len());
    if p190_c0_exec(tokens, i) {
        let s306 = owned("히");
        let s307 = owned("VX");
        let n308 = tokens[i].start_pos;
        let n310 = tokens[i].start_pos;
        let s311 = owned("히");
        let n309 = n310.saturating_add(s311.as_str().len());
        let t305 = SejongToken::new(s306.as_str(), s307.as_str(), n308, n309);
        let s313 = owned("다");
        let s314 = owned("EF");
        let n316 = tokens[i].start_pos;
        let s317 = owned("히");
        let n315 = n316.saturating_add(s317.as_str().len());
        let n318 = tokens[i].end_pos;
        let t312 = SejongToken::new(s313.as_str(), s314.as_str(), n315, n318);
        let mut nv319: Vec<SejongToken> = Vec::new();
        push_token(&mut nv319, t305);
        push_token(&mut nv319, t312);
        splice_tokens(tokens, i, 1, nv319);
        let _len1 = tokens.len();
        return i + 2;
    }
    i + 1
}

/// 히다/NNP after a verb is the suffix 히/VX with 다/EF (입히다).
pub fn apply_p190(tokens: &mut Vec<SejongToken>)
    ensures
        tokens_view(final(tokens)@) == p190(tokens_view(old(tokens)@)),
{
    let ghost orig = tokens_view(tokens@);
    let mut i: usize = 0;
    while i < tokens.len()
        invariant
            i <= tokens@.len() + 1,
            scan(tokens_view(tokens@), i as int, p190_f()) == scan(orig, 0, p190_f()),
        decreases tokens@.len() + 1 - i,
    {
        let ghost before = tokens_view(tokens@);
        assert(before.len() == tokens@.len());
        i = p190_step_exec(tokens, i);
        assert(tokens_view(tokens@).len() == tokens@.len());
    }
}

/// Merges and splits of compound nouns and morphemes.
pub open spec fn spec_apply_compound_noun_corrections(ts: Seq<TokenView>) -> Seq<TokenView> {
    p190(p198(p202(p197(p196(p200(p192(ts)))))))
}

/// Merges and splits of compound nouns and morphemes.
pub fn apply_compound_noun_corrections(tokens: &mut Vec<SejongToken>)
    ensures
        tokens_view(final(tokens)@) == spec_apply_compound_noun_corrections(tokens_view(old(tokens)@)),
{
    apply_p192(tokens);
    apply_p200(tokens);
    apply_p196(tokens);
    apply_p197(tokens);
    apply_p202(tokens);
    apply_p198(tokens);
    apply_p190(tokens);
}

} // verus!
