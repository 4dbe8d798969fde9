//! Sentence-final and connective endings, verb suffixes and auxiliaries, quotations and negation.

use vstd::prelude::*;
use crate::converter::tokens_view;
use crate::merges::{strip_prefix, strip_prefix_exec, strip_suffix, strip_suffix_exec};
use crate::rewrite::{in_list, lemma_scan_none_bad, lemma_splice_none_bad, lemma_update_none_bad, map_where, none_bad, pos_is, pos_starts, push_token, scan, set_token, splice, splice_tokens, surf_ends, surf_is, surf_starts};
use crate::text::{char_count, concat, is_prefix, is_suffix, owned};
use crate::types::{plain_view, split_view, SejongToken, TokenView};

verus! {

/// Where rule 0 of [`p133`] applies.
pub open spec fn p133_c0(ts: Seq<TokenView>, i: int) -> bool {
    ((0 <= i < ts.len() && ts[i].pos == "NNG"@) && (0 <= i < ts.len() && seq!["하다"@, "가다"@, "오다"@, "보다"@, "사다"@, "주다"@, "타다"@, "서다"@, "나다"@].contains(ts[i].surface)) && (0 <= i < ts.len() && is_suffix("다"@, ts[i].surface)) && (!(0 <= i + 1 < ts.len() && is_prefix("VV"@, ts[i + 1].pos)) && !(0 <= i + 1 < ts.len() && is_prefix("VA"@, ts[i + 1].pos)) && !(0 <= i + 1 < ts.len() && is_prefix("EC"@, ts[i + 1].pos)) && !(0 <= i + 1 < ts.len() && is_prefix("EF"@, ts[i + 1].pos)) && !(0 <= i + 1 < ts.len() && is_prefix("EP"@, ts[i + 1].pos))))
}

/// One step of [`p133`] at `i`: the list after it and the next position.
pub open spec fn p133_step(ts: Seq<TokenView>, i: int) -> (Seq<TokenView>, int) {
    if p133_c0(ts, i) {
        (splice(ts, i, 1, seq![TokenView { surface: strip_suffix(ts[i].surface, "다"@), pos: "VV"@, ..ts[i] }, plain_view("다"@, "EF"@, ts[i].start_pos, ts[i].end_pos)]), i + 2)
    } else {
        (ts, i + 1)
    }
}

/// [`p133_step`] as a function value.
pub open spec fn p133_f() -> spec_fn(Seq<TokenView>, int) -> (Seq<TokenView>, int) {
    |ts: Seq<TokenView>, i: int| p133_step(ts, i)
}

/// The dictionary form of a common verb analysed as a noun and not followed by a verb or an ending is the stem and 다/EF (하다/NNG → 하/VV 다/EF).
pub open spec fn p133(ts: Seq<TokenView>) -> Seq<TokenView> {
    scan(ts, 0, p133_f())
}

/// Whether rule 0 of [`p133`] applies at `i`.
fn p133_c0_exec(tokens: &Vec<SejongToken>, i: usize) -> (r: bool)
    requires
        i < tokens@.len(),
    ensures
        r == p133_c0(tokens_view(tokens@), i as int),
{
    assert(tokens_view(tokens@).len() == tokens@.len());
    let c0 = pos_is(&tokens[i], "NNG");
    let l2: [&str; 9] = ["하다", "가다", "오다", "보다", "사다", "주다", "타다", "서다", "나다"];
    assert(crate::tag_map::strs_view(l2@) =~= seq!["하다"@, "가다"@, "오다"@, "보다"@, "사다"@, "주다"@, "타다"@, "서다"@, "나다"@]);
    let c1 = in_list(&l2, tokens[i].surface.as_str());
    let c3 = surf_ends(&tokens[i], "다");
    let c4 = (tokens.len() - i > 1) && pos_starts(&tokens[i + 1], "VV");
    let c5 = (tokens.len() - i > 1) && pos_starts(&tokens[i + 1], "VA");
    let c6 = (tokens.len() - i > 1) && pos_starts(&tokens[i + 1], "EC");
    let c7 = (tokens.len() - i > 1) && pos_starts(&tokens[i + 1], "EF");
    let c8 = (tokens.len() - i > 1) && pos_starts(&tokens[i + 1], "EP");
    (c0 && c1 && c3 && (!c4 && !c5 && !c6 && !c7 && !c8))
}

/// One step of [`p133`] at `i`; returns the next position.
fn p133_step_exec(tokens: &mut Vec<SejongToken>, i: usize) -> (next: usize)
    requires
        i < old(tokens)@.len(),
    ensures
        (tokens_view(final(tokens)@), next as int) == p133_step(tokens_view(old(tokens)@), i as int),
        final(tokens)@.len() - next < old(tokens)@.len() - i,
        next <= final(tokens)@.len() + 1,
{
    let len0 = tokens.len();
    assert(tokens_view(tokens@).len() == tokens@.len());
    if p133_c0_exec(tokens, i) {
        let s11 = tokens[i].surface.clone();
        let s10 = strip_suffix_exec(s11.as_str(), "다");
        let s12 = owned("VV");
        let mut t9 = tokens[i].duplicate();
        t9.surface = s10;
        t9.pos = s12;
        let s14 = owned("다");
        let s15 = owned("EF");
        let n16 = tokens[i].start_pos;
        let n17 = tokens[i].end_pos;
        let t13 = SejongToken::new(s14.as_str(), s15.as_str(), n16, n17);
        let mut nv18: Vec<SejongToken> = Vec::new();
        push_token(&mut nv18, t9);
        push_token(&mut nv18, t13);
        splice_tokens(tokens, i, 1, nv18);
        let _len1 = tokens.len();
        return i + 2;
    }
    i + 1
}

/// The dictionary form of a common verb analysed as a noun and not followed by a verb or an ending is the stem and 다/EF (하다/NNG → 하/VV 다/EF).
pub fn apply_p133(tokens: &mut Vec<SejongToken>)
    ensures
        tokens_view(final(tokens)@) == p133(tokens_view(old(tokens)@)),
{
    let ghost orig = tokens_view(tokens@);
    let mut i: usize = 0;
    while i < tokens.len()
        invariant
            i <= tokens@.len() + 1,
            scan(tokens_view(tokens@), i as int, p133_f()) == scan(orig, 0, p133_f()),
        decreases tokens@.len() + 1 - i,
    {
        let ghost before = tokens_view(tokens@);
        assert(before.len() == tokens@.len());
        i = p133_step_exec(tokens, i);
        assert(tokens_view(tokens@).len() == tokens@.len());
    }
}

/// Where [`p135`] changes a token.
pub open spec fn p135_c(ts: Seq<TokenView>, i: int) -> bool {
    ((0 <= i - 2 < ts.len() && true) && (0 <= i - 1 < ts.len() && ts[i - 1].pos == "EF"@) && ((0 <= i < ts.len() && ts[i].surface == "하"@) && (0 <= i < ts.len() && ts[i].pos == "XSV"@)))
}

/// The token [`p135`] puts at `i`.
pub open spec fn p135_t(ts: Seq<TokenView>, i: int) -> TokenView {
    TokenView { pos: "VV"@, ..ts[i] }
}

/// 하/XSV right after a final ending (not first or second in the sentence) is the verb 하/VV.
pub open spec fn p135(ts: Seq<TokenView>) -> Seq<TokenView> {
    map_where(ts, |ts: Seq<TokenView>, i: int| p135_c(ts, i), |ts: Seq<TokenView>, i: int| p135_t(ts, i))
}

/// Whether [`p135`] changes the token at `i`.
fn p135_c_exec(tokens: &Vec<SejongToken>, i: usize) -> (r: bool)
    requires
        i < tokens@.len(),
    ensures
        r == p135_c(tokens_view(tokens@), i as int),
{
    assert(tokens_view(tokens@).len() == tokens@.len());
    let c19 = (i >= 2) && true;
    let c20 = (i >= 1) && pos_is(&tokens[i - 1], "EF");
    let c21 = surf_is(&tokens[i], "하");
    let c22 = pos_is(&tokens[i], "XSV");
    (c19 && c20 && (c21 && c22))
}

/// The token [`p135`] puts at `i`.
fn p135_t_exec(tokens: &Vec<SejongToken>, i: usize) -> (t: SejongToken)
    requires
        i < tokens@.len(),
        p135_c(tokens_view(tokens@), i as int),
    ensures
        t@ == p135_t(tokens_view(tokens@), i as int),
{
    assert(tokens_view(tokens@).len() == tokens@.len());
    let s24 = owned("VV");
    let mut t23 = tokens[i].duplicate();
    t23.pos = s24;
    t23
}

/// 하/XSV right after a final ending (not first or second in the sentence) is the verb 하/VV.
pub fn apply_p135(tokens: &mut Vec<SejongToken>)
    ensures
        tokens_view(final(tokens)@) == p135(tokens_view(old(tokens)@)),
{
    let ghost orig = tokens_view(tokens@);
    let mut out: Vec<SejongToken> = Vec::new();
    let mut k: usize = 0;
    while k < tokens.len()
        invariant
            k <= tokens@.len(),
            orig == tokens_view(tokens@),
            tokens_view(out@) == p135(orig).take(k as int),
        decreases tokens@.len() - k,
    {
        let t = if p135_c_exec(tokens, k) { p135_t_exec(tokens, k) } else { tokens[k].duplicate() };
        push_token(&mut out, t);
        k += 1;
        assert(tokens_view(out@) =~= p135(orig).take(k as int));
    }
    assert(p135(orig).take(k as int) =~= p135(orig));
    *tokens = out;
}

/// Where rule 0 of [`p136`] applies.
pub open spec fn p136_c0(ts: Seq<TokenView>, i: int) -> bool {
    ((0 <= i < ts.len() && ts[i].pos == "VV"@) && (0 <= i < ts.len() && is_suffix("세"@, ts[i].surface)) && (0 <= i < ts.len() && ts[i].surface.len() >= 2) && ((0 <= i + 1 < ts.len() && ts[i + 1].surface == "아요"@) && (0 <= i + 1 < ts.len() && ts[i + 1].pos == "EF"@)))
}

/// One step of [`p136`] at `i`: the list after it and the next position.
pub open spec fn p136_step(ts: Seq<TokenView>, i: int) -> (Seq<TokenView>, int) {
    if p136_c0(ts, i) {
        (ts.update(i, TokenView { surface: strip_suffix(ts[i].surface, "세"@), ..ts[i] }).update(i + 1, TokenView { surface: "세요"@, start_pos: ts[i].start_pos, ..ts[i + 1] }), i + 2)
    } else {
        (ts, i + 1)
    }
}

/// [`p136_step`] as a function value.
pub open spec fn p136_f() -> spec_fn(Seq<TokenView>, int) -> (Seq<TokenView>, int) {
    |ts: Seq<TokenView>, i: int| p136_step(ts, i)
}

/// A verb in 세 before 아요/EF gives its 세 to the ending (오세/VV 아요/EF → 오/VV 세요/EF).
pub open spec fn p136(ts: Seq<TokenView>) -> Seq<TokenView> {
    scan(ts, 0, p136_f())
}

/// Whether rule 0 of [`p136`] applies at `i`.
fn p136_c0_exec(tokens: &Vec<SejongToken>, i: usize) -> (r: bool)
    requires
        i < tokens@.len(),
    ensures
        r == p136_c0(tokens_view(tokens@), i as int),
{
    assert(tokens_view(tokens@).len() == tokens@.len());
    let c25 = pos_is(&tokens[i], "VV");
    let c26 = surf_ends(&tokens[i], "세");
    let c27 = char_count(tokens[i].surface.as_str()) >= 2;
    let c28 = (tokens.len() - i > 1) && surf_is(&tokens[i + 1], "아요");
    let c29 = (tokens.len() - i > 1) && pos_is(&tokens[i + 1], "EF");
    (c25 && c26 && c27 && (c28 && c29))
}

/// One step of [`p136`] at `i`; returns the next position.
fn p136_step_exec(tokens: &mut Vec<SejongToken>, i: usize) -> (next: usize)
    requires
        i < old(tokens)@.len(),
    ensures
        (tokens_view(final(tokens)@), next as int) == p136_step(tokens_view(old(tokens)@), i as int),
        final(tokens)@.len() - next < old(tokens)@.len() - i,
        next <= final(tokens)@.len() + 1,
{
    let len0 = tokens.len();
    assert(tokens_view(tokens@).len() == tokens@.len());
    if p136_c0_exec(tokens, i) {
        let s32 = tokens[i].surface.clone();
        let s31 = strip_suffix_exec(s32.as_str(), "세");
        let mut t30 = tokens[i].duplicate();
        t30.surface = s31;
        let s34 = owned("세요");
        let n35 = tokens[i].start_pos;
        let mut t33 = tokens[i + 1].duplicate();
        t33.surface = s34;
        t33.start_pos = n35;
        set_token(tokens, i, t30);
        set_token(tokens, i + 1, t33);
        let _len1 = tokens.len();
        return i + 2;
    }
    i + 1
}

/// A verb in 세 before 아요/EF gives its 세 to the ending (오세/VV 아요/EF → 오/VV 세요/EF).
pub fn apply_p136(tokens: &mut Vec<SejongToken>)
    ensures
        tokens_view(final(tokens)@) == p136(tokens_view(old(tokens)@)),
{
    let ghost orig = tokens_view(tokens@);
    let mut i: usize = 0;
    while i < tokens.len()
        invariant
            i <= tokens@.len() + 1,
            scan(tokens_view(tokens@), i as int, p136_f()) == scan(orig, 0, p136_f()),
        decreases tokens@.len() + 1 - i,
    {
        let ghost before = tokens_view(tokens@);
        assert(before.len() == tokens@.len());
        i = p136_step_exec(tokens, i);
        assert(tokens_view(tokens@).len() == tokens@.len());
    }
}

/// Where rule 0 of [`p137`] applies.
pub open spec fn p137_c0(ts: Seq<TokenView>, i: int) -> bool {
    ((0 <= i < ts.len() && ts[i].pos == "VV"@) && (0 <= i < ts.len() && ts[i].surface.len() == 2) && (0 <= i < ts.len() && is_prefix("안"@, ts[i].surface)))
}

/// Where rule 1 of [`p137`] applies.
pub open spec fn p137_c1(ts: Seq<TokenView>, i: int) -> bool {
    ((0 <= i < ts.len() && ts[i].pos == "VV"@) && (0 <= i < ts.len() && ts[i].surface.len() == 2) && (0 <= i < ts.len() && is_prefix("못"@, ts[i].surface)))
}

/// One step of [`p137`] at `i`: the list after it and the next position.
pub open spec fn p137_step(ts: Seq<TokenView>, i: int) -> (Seq<TokenView>, int) {
    if p137_c0(ts, i) {
        (splice(ts, i, 1, seq![TokenView { surface: "안"@, pos: "MAG"@, end_pos: ts[i].start_pos, ..ts[i] }, split_view(strip_prefix(ts[i].surface, "안"@), "VV"@, ts[i].start_pos, ts[i].end_pos, strip_prefix(ts[i].surface, "안"@), "VV"@)]), i + 2)
    } else if p137_c1(ts, i) {
        (splice(ts, i, 1, seq![TokenView { surface: "못"@, pos: "MAG"@, end_pos: ts[i].start_pos, ..ts[i] }, split_view(strip_prefix(ts[i].surface, "못"@), "VV"@, ts[i].start_pos, ts[i].end_pos, strip_prefix(ts[i].surface, "못"@), "VV"@)]), i + 2)
    } else {
        (ts, i + 1)
    }
}

/// [`p137_step`] as a function value.
pub open spec fn p137_f() -> spec_fn(Seq<TokenView>, int) -> (Seq<TokenView>, int) {
    |ts: Seq<TokenView>, i: int| p137_step(ts, i)
}

/// A two-syllable verb starting with 안 or 못 is the negative adverb and the verb (안가/VV → 안/MAG 가/VV).
pub open spec fn p137(ts: Seq<TokenView>) -> Seq<TokenView> {
    scan(ts, 0, p137_f())
}

/// Whether rule 0 of [`p137`] applies at `i`.
fn p137_c0_exec(tokens: &Vec<SejongToken>, i: usize) -> (r: bool)
    requires
        i < tokens@.len(),
    ensures
        r == p137_c0(tokens_view(tokens@), i as int),
{
    assert(tokens_view(tokens@).len() == tokens@.len());
    let c36 = pos_is(&tokens[i], "VV");
    let c37 = char_count(tokens[i].surface.as_str()) == 2;
    let c38 = surf_starts(&tokens[i], "안");
    (c36 && c37 && c38)
}

/// Whether rule 1 of [`p137`] applies at `i`.
fn p137_c1_exec(tokens: &Vec<SejongToken>, i: usize) -> (r: bool)
    requires
        i < tokens@.len(),
    ensures
        r == p137_c1(tokens_view(tokens@), i as int),
{
    assert(tokens_view(tokens@).len() == tokens@.len());
    let c39 = pos_is(&tokens[i], "VV");
    let c40 = char_count(tokens[i].surface.as_str()) == 2;
    let c41 = surf_starts(&tokens[i], "못");
    (c39 && c40 && c41)
}

/// One step of [`p137`] at `i`; returns the next position.
fn p137_step_exec(tokens: &mut Vec<SejongToken>, i: usize) -> (next: usize)
    requires
        i < old(tokens)@.len(),
    ensures
        (tokens_view(final(tokens)@), next as int) == p137_step(tokens_view(old(tokens)@), i as int),
        final(tokens)@.len() - next < old(tokens)@.len() - i,
        next <= final(tokens)@.len() + 1,
{
    let len0 = tokens.len();
    assert(tokens_view(tokens@).len() == tokens@.len());
    if p137_c0_exec(tokens, i) {
        let s43 = owned("안");
        let s44 = owned("MAG");
        let n45 = tokens[i].start_pos;
        let mut t42 = tokens[i].duplicate();
        t42.surface = s43;
        t42.pos = s44;
        t42.end_pos = n45;
        let s48 = tokens[i].surface.clone();
        let s47 = strip_prefix_exec(s48.as_str(), "안");
        let s49 = owned("VV");
        let n50 = tokens[i].start_pos;
        let n51 = tokens[i].end_pos;
        let s53 = tokens[i].surface.clone();
        let s52 = strip_prefix_exec(s53.as_str(), "안");
        let s54 = owned("VV");
        let t46 = SejongToken::from_split(s47.as_str(), s49.as_str(), n50, n51, s52.as_str(), s54.as_str());
        let mut nv55: Vec<SejongToken> = Vec::new();
        push_token(&mut nv55, t42);
        push_token(&mut nv55, t46);
        splice_tokens(tokens, i, 1, nv55);
        let _len1 = tokens.len();
        return i + 2;
    }
    if p137_c1_exec(tokens, i) {
        let s57 = owned("못");
        let s58 = owned("MAG");
        let n59 = tokens[i].start_pos;
        let mut t56 = tokens[i].duplicate();
        t56.surface = s57;
        t56.pos = s58;
        t56.end_pos = n59;
        let s62 = tokens[i].surface.clone();
        let s61 = strip_prefix_exec(s62.as_str(), "못");
        let s63 = owned("VV");
        let n64 = tokens[i].start_pos;
        let n65 = tokens[i].end_pos;
        let s67 = tokens[i].surface.clone();
        let s66 = strip_prefix_exec(s67.as_str(), "못");
        let s68 = owned("VV");
        let t60 = SejongToken::from_split(s61.as_str(), s63.as_str(), n64, n65, s66.as_str(), s68.as_str());
        let mut nv69: Vec<SejongToken> = Vec::new();
        push_token(&mut nv69, t56);
        push_token(&mut nv69, t60);
        splice_tokens(tokens, i, 1, nv69);
        let _len1 = tokens.len();
        return i + 2;
    }
    i + 1
}

/// A two-syllable verb starting with 안 or 못 is the negative adverb and the verb (안가/VV → 안/MAG 가/VV).
pub fn apply_p137(tokens: &mut Vec<SejongToken>)
    ensures
        tokens_view(final(tokens)@) == p137(tokens_view(old(tokens)@)),
{
    let ghost orig = tokens_view(tokens@);
    let mut i: usize = 0;
    while i < tokens.len()
        invariant
            i <= tokens@.len() + 1,
            scan(tokens_view(tokens@), i as int, p137_f()) == scan(orig, 0, p137_f()),
        decreases tokens@.len() + 1 - i,
    {
        let ghost before = tokens_view(tokens@);
        assert(before.len() == tokens@.len());
        i = p137_step_exec(tokens, i);
        assert(tokens_view(tokens@).len() == tokens@.len());
    }
}

/// Where rule 0 of [`p138`] applies.
pub open spec fn p138_c0(ts: Seq<TokenView>, i: int) -> bool {
    (((0 <= i < ts.len() && ts[i].surface == "자"@) && (0 <= i < ts.len() && ts[i].pos == "EF"@)) && ((0 <= i + 1 < ts.len() && ts[i + 1].surface == "이"@) && (0 <= i + 1 < ts.len() && ts[i + 1].pos == "VCP"@)) && ((0 <= i + 2 < ts.len() && ts[i + 2].surface == "고"@) && (0 <= i + 2 < ts.len() && ts[i + 2].pos == "EC"@)))
}

/// One step of [`p138`] at `i`: the list after it and the next position.
pub open spec fn p138_step(ts: Seq<TokenView>, i: int) -> (Seq<TokenView>, int) {
    if p138_c0(ts, i) {
        (splice(ts, i, 3, seq![TokenView { surface: "자고"@, pos: "EC"@, ..ts[i] }]), i + 1)
    } else {
        (ts, i + 1)
    }
}

/// [`p138_step`] as a function value.
pub open spec fn p138_f() -> spec_fn(Seq<TokenView>, int) -> (Seq<TokenView>, int) {
    |ts: Seq<TokenView>, i: int| p138_step(ts, i)
}

/// 자/EF 이/VCP 고/EC is the quotative connective ending 자고/EC.
pub open spec fn p138(ts: Seq<TokenView>) -> Seq<TokenView> {
    scan(ts, 0, p138_f())
}

/// Whether rule 0 of [`p138`] applies at `i`.
fn p138_c0_exec(tokens: &Vec<SejongToken>, i: usize) -> (r: bool)
    requires
        i < tokens@.len(),
    ensures
        r == p138_c0(tokens_view(tokens@), i as int),
{
    assert(tokens_view(tokens@).len() == tokens@.len());
    let c70 = surf_is(&tokens[i], "자");
    let c71 = pos_is(&tokens[i], "EF");
    let c72 = (tokens.len() - i > 1) && surf_is(&tokens[i + 1], "이");
    let c73 = (tokens.len() - i > 1) && pos_is(&tokens[i + 1], "VCP");
    let c74 = (tokens.len() - i > 2) && surf_is(&tokens[i + 2], "고");
    let c75 = (tokens.len() - i > 2) && pos_is(&tokens[i + 2], "EC");
    ((c70 && c71) && (c72 && c73) && (c74 && c75))
}

/// One step of [`p138`] at `i`; returns the next position.
fn p138_step_exec(tokens: &mut Vec<SejongToken>, i: usize) -> (next: usize)
    requires
        i < old(tokens)@.len(),
    ensures
        (tokens_view(final(tokens)@), next as int) == p138_step(tokens_view(old(tokens)@), i as int),
        final(tokens)@.len() - next < old(tokens)@.len() - i,
        next <= final(tokens)@.len() + 1,
{
    let len0 = tokens.len();
    assert(tokens_view(tokens@).len() == tokens@.len());
    if p138_c0_exec(tokens, i) {
        let s77 = owned("자고");
        let s78 = owned("EC");
        let mut t76 = tokens[i].duplicate();
        t76.surface = s77;
        t76.pos = s78;
        let mut nv79: Vec<SejongToken> = Vec::new();
        push_token(&mut nv79, t76);
        splice_tokens(tokens, i, 3, nv79);
        let _len1 = tokens.len();
        return i + 1;
    }
    i + 1
}

/// 자/EF 이/VCP 고/EC is the quotative connective ending 자고/EC.
pub fn apply_p138(tokens: &mut Vec<SejongToken>)
    ensures
        tokens_view(final(tokens)@) == p138(tokens_view(old(tokens)@)),
{
    let ghost orig = tokens_view(tokens@);
    let mut i: usize = 0;
    while i < tokens.len()
        invariant
            i <= tokens@.len() + 1,
            scan(tokens_view(tokens@), i as int, p138_f()) == scan(orig, 0, p138_f()),
        decreases tokens@.len() + 1 - i,
    {
        let ghost before = tokens_view(tokens@);
        assert(before.len() == tokens@.len());
        i = p138_step_exec(tokens, i);
        assert(tokens_view(tokens@).len() == tokens@.len());
    }
}

/// Where rule 0 of [`p138b`] applies.
pub open spec fn p138b_c0(ts: Seq<TokenView>, i: int) -> bool {
    (((0 <= i < ts.len() && ts[i].surface == "고하"@) && (0 <= i < ts.len() && ts[i].pos == "VV"@)) && ((0 <= i - 1 < ts.len() && ts[i - 1].surface == "다"@) && (0 <= i - 1 < ts.len() && ts[i - 1].pos == "EF"@)))
}

/// One step of [`p138b`] at `i`: the list after it and the next position.
pub open spec fn p138b_step(ts: Seq<TokenView>, i: int) -> (Seq<TokenView>, int) {
    if p138b_c0(ts, i) {
        (ts.update(i - 1, TokenView { surface: "다고"@, pos: "EC"@, ..ts[i - 1] }).update(i, TokenView { surface: "하"@, ..ts[i] }), i + 1)
    } else {
        (ts, i + 1)
    }
}

/// [`p138b_step`] as a function value.
pub open spec fn p138b_f() -> spec_fn(Seq<TokenView>, int) -> (Seq<TokenView>, int) {
    |ts: Seq<TokenView>, i: int| p138b_step(ts, i)
}

/// 다/EF 고하/VV is 다고/EC 하/VV.
pub open spec fn p138b(ts: Seq<TokenView>) -> Seq<TokenView> {
    scan(ts, 0, p138b_f())
}

/// Whether rule 0 of [`p138b`] applies at `i`.
fn p138b_c0_exec(tokens: &Vec<SejongToken>, i: usize) -> (r: bool)
    requires
        i < tokens@.len(),
    ensures
        r == p138b_c0(tokens_view(tokens@), i as int),
{
    assert(tokens_view(tokens@).len() == tokens@.len());
    let c80 = surf_is(&tokens[i], "고하");
    let c81 = pos_is(&tokens[i], "VV");
    let c82 = (i >= 1) && surf_is(&tokens[i - 1], "다");
    let c83 = (i >= 1) && pos_is(&tokens[i - 1], "EF");
    ((c80 && c81) && (c82 && c83))
}

/// One step of [`p138b`] at `i`; returns the next position.
fn p138b_step_exec(tokens: &mut Vec<SejongToken>, i: usize) -> (next: usize)
    requires
        i < old(tokens)@.len(),
    ensures
        (tokens_view(final(tokens)@), next as int) == p138b_step(tokens_view(old(tokens)@), i as int),
        final(tokens)@.len() - next < old(tokens)@.len() - i,
        next <= final(tokens)@.len() + 1,
{
    let len0 = tokens.len();
    assert(tokens_view(tokens@).len() == tokens@.len());
    if p138b_c0_exec(tokens, i) {
        let s85 = owned("다고");
        let s86 = owned("EC");
        let mut t84 = tokens[i - 1].duplicate();
        t84.surface = s85;
        t84.pos = s86;
        let s88 = owned("하");
        let mut t87 = tokens[i].duplicate();
        t87.surface = s88;
        set_token(tokens, i - 1, t84);
        set_token(tokens, i, t87);
        let _len1 = tokens.len();
        return i + 1;
    }
    i + 1
}

/// 다/EF 고하/VV is 다고/EC 하/VV.
pub fn apply_p138b(tokens: &mut Vec<SejongToken>)
    ensures
        tokens_view(final(tokens)@) == p138b(tokens_view(old(tokens)@)),
{
    let ghost orig = tokens_view(tokens@);
    let mut i: usize = 0;
    while i < tokens.len()
        invariant
            i <= tokens@.len() + 1,
            scan(tokens_view(tokens@), i as int, p138b_f()) == scan(orig, 0, p138b_f()),
        decreases tokens@.len() + 1 - i,
    {
        let ghost before = tokens_view(tokens@);
        assert(before.len() == tokens@.len());
        i = p138b_step_exec(tokens, i);
        assert(tokens_view(tokens@).len() == tokens@.len());
    }
}

/// Where [`p139`] changes a token.
pub open spec fn p139_c(ts: Seq<TokenView>, i: int) -> bool {
    ((0 <= i < ts.len() && ts[i].pos == "VX"@) && (0 <= i < ts.len() && seq!["보"@, "하"@, "가"@, "오"@].contains(ts[i].surface)) && (0 <= i - 1 < ts.len() && ts[i - 1].pos == "EC"@) && !(0 <= i - 1 < ts.len() && seq!["어"@, "아"@].contains(ts[i - 1].surface)))
}

/// The token [`p139`] puts at `i`.
pub open spec fn p139_t(ts: Seq<TokenView>, i: int) -> TokenView {
    TokenView { pos: "VV"@, ..ts[i] }
}

/// 보, 하, 가, 오 tagged VX after a connective ending other than 어 or 아 are verbs (VV).
pub open spec fn p139(ts: Seq<TokenView>) -> Seq<TokenView> {
    map_where(ts, |ts: Seq<TokenView>, i: int| p139_c(ts, i), |ts: Seq<TokenView>, i: int| p139_t(ts, i))
}

/// Whether [`p139`] changes the token at `i`.
fn p139_c_exec(tokens: &Vec<SejongToken>, i: usize) -> (r: bool)
    requires
        i < tokens@.len(),
    ensures
        r == p139_c(tokens_view(tokens@), i as int),
{
    assert(tokens_view(tokens@).len() == tokens@.len());
    let c89 = pos_is(&tokens[i], "VX");
    let l91: [&str; 4] = ["보", "하", "가", "오"];
    assert(crate::tag_map::strs_view(l91@) =~= seq!["보"@, "하"@, "가"@, "오"@]);
    let c90 = in_list(&l91, tokens[i].surface.as_str());
    let c92 = (i >= 1) && pos_is(&tokens[i - 1], "EC");
    let l94: [&str; 2] = ["어", "아"];
    assert(crate::tag_map::strs_view(l94@) =~= seq!["어"@, "아"@]);
    let c93 = (i >= 1) && in_list(&l94, tokens[i - 1].surface.as_str());
    (c89 && c90 && c92 && !c93)
}

/// The token [`p139`] puts at `i`.
fn p139_t_exec(tokens: &Vec<SejongToken>, i: usize) -> (t: SejongToken)
    requires
        i < tokens@.len(),
        p139_c(tokens_view(tokens@), i as int),
    ensures
        t@ == p139_t(tokens_view(tokens@), i as int),
{
    assert(tokens_view(tokens@).len() == tokens@.len());
    let s96 = owned("VV");
    let mut t95 = tokens[i].duplicate();
    t95.pos = s96;
    t95
}

/// 보, 하, 가, 오 tagged VX after a connective ending other than 어 or 아 are verbs (VV).
pub fn apply_p139(tokens: &mut Vec<SejongToken>)
    ensures
        tokens_view(final(tokens)@) == p139(tokens_view(old(tokens)@)),
{
    let ghost orig = tokens_view(tokens@);
    let mut out: Vec<SejongToken> = Vec::new();
    let mut k: usize = 0;
    while k < tokens.len()
        invariant
            k <= tokens@.len(),
            orig == tokens_view(tokens@),
            tokens_view(out@) == p139(orig).take(k as int),
        decreases tokens@.len() - k,
    {
        let t = if p139_c_exec(tokens, k) { p139_t_exec(tokens, k) } else { tokens[k].duplicate() };
        push_token(&mut out, t);
        k += 1;
        assert(tokens_view(out@) =~= p139(orig).take(k as int));
    }
    assert(p139(orig).take(k as int) =~= p139(orig));
    *tokens = out;
}

/// Where rule 0 of [`p140`] applies.
pub open spec fn p140_c0(ts: Seq<TokenView>, i: int) -> bool {
    (((0 <= i < ts.len() && ts[i].surface == "시"@) && (0 <= i < ts.len() && ts[i].pos == "EP"@)) && (0 <= i + 1 < ts.len() && seq!["니까"@, "면"@, "니"@, "으니까"@, "으면"@, "으니"@].contains(ts[i + 1].surface)))
}

/// One step of [`p140`] at `i`: the list after it and the next position.
pub open spec fn p140_step(ts: Seq<TokenView>, i: int) -> (Seq<TokenView>, int) {
    if p140_c0(ts, i) {
        (splice(ts, i, 1, seq![]), i + 1)
    } else {
        (ts, i + 1)
    }
}

/// [`p140_step`] as a function value.
pub open spec fn p140_f() -> spec_fn(Seq<TokenView>, int) -> (Seq<TokenView>, int) {
    |ts: Seq<TokenView>, i: int| p140_step(ts, i)
}

/// 시/EP before 니까, 면, 니, 으니까, 으면 or 으니 is dropped.
pub open spec fn p140(ts: Seq<TokenView>) -> Seq<TokenView> {
    scan(ts, 0, p140_f())
}

/// Whether rule 0 of [`p140`] applies at `i`.
fn p140_c0_exec(tokens: &Vec<SejongToken>, i: usize) -> (r: bool)
    requires
        i < tokens@.len(),
    ensures
        r == p140_c0(tokens_view(tokens@), i as int),
{
    assert(tokens_view(tokens@).len() == tokens@.len());
    let c97 = surf_is(&tokens[i], "시");
    let c98 = pos_is(&tokens[i], "EP");
    let l100: [&str; 6] = ["니까", "면", "니", "으니까", "으면", "으니"];
    assert(crate::tag_map::strs_view(l100@) =~= seq!["니까"@, "면"@, "니"@, "으니까"@, "으면"@, "으니"@]);
    let c99 = (tokens.len() - i > 1) && in_list(&l100, tokens[i + 1].surface.as_str());
    ((c97 && c98) && c99)
}

/// One step of [`p140`] at `i`; returns the next position.
fn p140_step_exec(tokens: &mut Vec<SejongToken>, i: usize) -> (next: usize)
    requires
        i < old(tokens)@.len(),
    ensures
        (tokens_view(final(tokens)@), next as int) == p140_step(tokens_view(old(tokens)@), i as int),
        final(tokens)@.len() - next < old(tokens)@.len() - i,
        next <= final(tokens)@.len() + 1,
{
    let len0 = tokens.len();
    assert(tokens_view(tokens@).len() == tokens@.len());
    if p140_c0_exec(tokens, i) {
        let mut nv101: Vec<SejongToken> = Vec::new();
        splice_tokens(tokens, i, 1, nv101);
        let _len1 = tokens.len();
        return i + 1;
    }
    i + 1
}

/// 시/EP before 니까, 면, 니, 으니까, 으면 or 으니 is dropped.
pub fn apply_p140(tokens: &mut Vec<SejongToken>)
    ensures
        tokens_view(final(tokens)@) == p140(tokens_view(old(tokens)@)),
{
    let ghost orig = tokens_view(tokens@);
    let mut i: usize = 0;
    while i < tokens.len()
        invariant
            i <= tokens@.len() + 1,
            scan(tokens_view(tokens@), i as int, p140_f()) == scan(orig, 0, p140_f()),
        decreases tokens@.len() + 1 - i,
    {
        let ghost before = tokens_view(tokens@);
        assert(before.len() == tokens@.len());
        i = p140_step_exec(tokens, i);
        assert(tokens_view(tokens@).len() == tokens@.len());
    }
}

/// Where rule 0 of [`p146`] applies.
pub open spec fn p146_c0(ts: Seq<TokenView>, i: int) -> bool {
    (((0 <= i < ts.len() && ts[i].surface == "또"@) && (0 <= i < ts.len() && ts[i].pos == "MAG"@)) && ((0 <= i + 1 < ts.len() && ts[i + 1].surface == "하"@) && (0 <= i + 1 < ts.len() && ts[i + 1].pos == "VV"@)) && ((0 <= i + 2 < ts.len() && ts[i + 2].surface == "ㄴ"@) && (0 <= i + 2 < ts.len() && ts[i + 2].pos == "ETM"@)))
}

/// One step of [`p146`] at `i`: the list after it and the next position.
pub open spec fn p146_step(ts: Seq<TokenView>, i: int) -> (Seq<TokenView>, int) {
    if p146_c0(ts, i) {
        (splice(ts, i, 3, seq![plain_view("또한"@, "MAG"@, ts[i].start_pos, ts[i + 2].end_pos)]), i + 1)
    } else {
        (ts, i + 1)
    }
}

/// [`p146_step`] as a function value.
pub open spec fn p146_f() -> spec_fn(Seq<TokenView>, int) -> (Seq<TokenView>, int) {
    |ts: Seq<TokenView>, i: int| p146_step(ts, i)
}

/// 또/MAG 하/VV ㄴ/ETM is the adverb 또한/MAG.
pub open spec fn p146(ts: Seq<TokenView>) -> Seq<TokenView> {
    scan(ts, 0, p146_f())
}

/// Whether rule 0 of [`p146`] applies at `i`.
fn p146_c0_exec(tokens: &Vec<SejongToken>, i: usize) -> (r: bool)
    requires
        i < tokens@.len(),
    ensures
        r == p146_c0(tokens_view(tokens@), i as int),
{
    assert(tokens_view(tokens@).len() == tokens@.len());
    let c102 = surf_is(&tokens[i], "또");
    let c103 = pos_is(&tokens[i], "MAG");
    let c104 = (tokens.len() - i > 1) && surf_is(&tokens[i + 1], "하");
    let c105 = (tokens.len() - i > 1) && pos_is(&tokens[i + 1], "VV");
    let c106 = (tokens.len() - i > 2) && surf_is(&tokens[i + 2], "ㄴ");
    let c107 = (tokens.len() - i > 2) && pos_is(&tokens[i + 2], "ETM");
    ((c102 && c103) && (c104 && c105) && (c106 && c107))
}

/// One step of [`p146`] at `i`; returns the next position.
fn p146_step_exec(tokens: &mut Vec<SejongToken>, i: usize) -> (next: usize)
    requires
        i < old(tokens)@.len(),
    ensures
        (tokens_view(final(tokens)@), next as int) == p146_step(tokens_view(old(tokens)@), i as int),
        final(tokens)@.len() - next < old(tokens)@.len() - i,
        next <= final(tokens)@.len() + 1,
{
    let len0 = tokens.len();
    assert(tokens_view(tokens@).len() == tokens@.len());
    if p146_c0_exec(tokens, i) {
        let s109 = owned("또한");
        let s110 = owned("MAG");
        let n111 = tokens[i].start_pos;
        let n112 = tokens[i + 2].end_pos;
        let t108 = SejongToken::new(s109.as_str(), s110.as_str(), n111, n112);
        let mut nv113: Vec<SejongToken> = Vec::new();
        push_token(&mut nv113, t108);
        splice_tokens(tokens, i, 3, nv113);
        let _len1 = tokens.len();
        return i + 1;
    }
    i + 1
}

/// 또/MAG 하/VV ㄴ/ETM is the adverb 또한/MAG.
pub fn apply_p146(tokens: &mut Vec<SejongToken>)
    ensures
        tokens_view(final(tokens)@) == p146(tokens_view(old(tokens)@)),
{
    let ghost orig = tokens_view(tokens@);
    let mut i: usize = 0;
    while i < tokens.len()
        invariant
            i <= tokens@.len() + 1,
            scan(tokens_view(tokens@), i as int, p146_f()) == scan(orig, 0, p146_f()),
        decreases tokens@.len() + 1 - i,
    {
        let ghost before = tokens_view(tokens@);
        assert(before.len() == tokens@.len());
        i = p146_step_exec(tokens, i);
        assert(tokens_view(tokens@).len() == tokens@.len());
    }
}

/// Where rule 0 of [`p146b`] applies.
pub open spec fn p146b_c0(ts: Seq<TokenView>, i: int) -> bool {
    ((((0 <= i < ts.len() && ts[i].surface == "하"@) && (0 <= i < ts.len() && ts[i].pos == "VV"@)) && ((0 <= i + 1 < ts.len() && ts[i + 1].surface == "ㄴ"@) && (0 <= i + 1 < ts.len() && ts[i + 1].pos == "ETM"@))) && ((0 <= i + 2 < ts.len() && ts[i + 2].surface == "국"@) && (0 <= i + 2 < ts.len() && ts[i + 2].pos == "NNG"@)))
}

/// Where rule 1 of [`p146b`] applies.
pub open spec fn p146b_c1(ts: Seq<TokenView>, i: int) -> bool {
    ((((0 <= i < ts.len() && ts[i].surface == "하"@) && (0 <= i < ts.len() && ts[i].pos == "VV"@)) && ((0 <= i + 1 < ts.len() && ts[i + 1].surface == "ㄴ"@) && (0 <= i + 1 < ts.len() && ts[i + 1].pos == "ETM"@))) && ((0 <= i + 2 < ts.len() && ts[i + 2].surface == "국의"@) && (0 <= i + 2 < ts.len() && ts[i + 2].pos == "NNG"@)))
}

/// Where rule 2 of [`p146b`] applies.
pub open spec fn p146b_c2(ts: Seq<TokenView>, i: int) -> bool {
    ((((0 <= i < ts.len() && ts[i].surface == "하"@) && (0 <= i < ts.len() && ts[i].pos == "VV"@)) && ((0 <= i + 1 < ts.len() && ts[i + 1].surface == "ㄴ"@) && (0 <= i + 1 < ts.len() && ts[i + 1].pos == "ETM"@))) && ((0 <= i + 2 < ts.len() && ts[i + 2].surface == "국어"@) && (0 <= i + 2 < ts.len() && ts[i + 2].pos == "NNG"@)))
}

/// Where rule 3 of [`p146b`] applies.
pub open spec fn p146b_c3(ts: Seq<TokenView>, i: int) -> bool {
    ((((0 <= i < ts.len() && ts[i].surface == "하"@) && (0 <= i < ts.len() && ts[i].pos == "VV"@)) && ((0 <= i + 1 < ts.len() && ts[i + 1].surface == "ㄴ"@) && (0 <= i + 1 < ts.len() && ts[i + 1].pos == "ETM"@))) && ((0 <= i + 2 < ts.len() && ts[i + 2].surface == "국인"@) && (0 <= i + 2 < ts.len() && ts[i + 2].pos == "NNG"@)))
}

/// One step of [`p146b`] at `i`: the list after it and the next position.
pub open spec fn p146b_step(ts: Seq<TokenView>, i: int) -> (Seq<TokenView>, int) {
    if p146b_c0(ts, i) {
        (splice(ts, i, 3, seq![plain_view("한국"@, "NNP"@, ts[i].start_pos, ts[i + 2].end_pos)]), i + 1)
    } else if p146b_c1(ts, i) {
        (splice(ts, i, 3, seq![plain_view("한국"@, "NNP"@, ts[i].start_pos, (ts[i].start_pos).saturating_add(2)), plain_view("의"@, "JKG"@, (ts[i].start_pos).saturating_add(2), ts[i + 2].end_pos)]), i + 1)
    } else if p146b_c2(ts, i) {
        (splice(ts, i, 3, seq![plain_view("한국어"@, "NNP"@, ts[i].start_pos, ts[i + 2].end_pos)]), i + 1)
    } else if p146b_c3(ts, i) {
        (splice(ts, i, 3, seq![plain_view("한국인"@, "NNP"@, ts[i].start_pos, ts[i + 2].end_pos)]), i + 1)
    } else {
        (ts, i + 1)
    }
}

/// [`p146b_step`] as a function value.
pub open spec fn p146b_f() -> spec_fn(Seq<TokenView>, int) -> (Seq<TokenView>, int) {
    |ts: Seq<TokenView>, i: int| p146b_step(ts, i)
}

/// 하/VV ㄴ/ETM with 국, 국어, 국인 is 한국/NNP, 한국어/NNP, 한국인/NNP; with 국의 it is 한국/NNP 의/JKG.
pub open spec fn p146b(ts: Seq<TokenView>) -> Seq<TokenView> {
    scan(ts, 0, p146b_f())
}

/// Whether rule 0 of [`p146b`] applies at `i`.
fn p146b_c0_exec(tokens: &Vec<SejongToken>, i: usize) -> (r: bool)
    requires
        i < tokens@.len(),
    ensures
        r == p146b_c0(tokens_view(tokens@), i as int),
{
    assert(tokens_view(tokens@).len() == tokens@.len());
    let c114 = surf_is(&tokens[i], "하");
    let c115 = pos_is(&tokens[i], "VV");
    let c116 = (tokens.len() - i > 1) && surf_is(&tokens[i + 1], "ㄴ");
    let c117 = (tokens.len() - i > 1) && pos_is(&tokens[i + 1], "ETM");
    let c118 = (tokens.len() - i > 2) && surf_is(&tokens[i + 2], "국");
    let c119 = (tokens.len() - i > 2) && pos_is(&tokens[i + 2], "NNG");
    (((c114 && c115) && (c116 && c117)) && (c118 && c119))
}

/// Whether rule 1 of [`p146b`] applies at `i`.
fn p146b_c1_exec(tokens: &Vec<SejongToken>, i: usize) -> (r: bool)
    requires
        i < tokens@.len(),
    ensures
        r == p146b_c1(tokens_view(tokens@), i as int),
{
    assert(tokens_view(tokens@).len() == tokens@.len());
    let c120 = surf_is(&tokens[i], "하");
    let c121 = pos_is(&tokens[i], "VV");
    let c122 = (tokens.len() - i > 1) && surf_is(&tokens[i + 1], "ㄴ");
    let c123 = (tokens.len() - i > 1) && pos_is(&tokens[i + 1], "ETM");
    let c124 = (tokens.len() - i > 2) && surf_is(&tokens[i + 2], "국의");
    let c125 = (tokens.len() - i > 2) && pos_is(&tokens[i + 2], "NNG");
    (((c120 && c121) && (c122 && c123)) && (c124 && c125))
}

/// Whether rule 2 of [`p146b`] applies at `i`.
fn p146b_c2_exec(tokens: &Vec<SejongToken>, i: usize) -> (r: bool)
    requires
        i < tokens@.len(),
    ensures
        r == p146b_c2(tokens_view(tokens@), i as int),
{
    assert(tokens_view(tokens@).len() == tokens@.len());
    let c126 = surf_is(&tokens[i], "하");
    let c127 = pos_is(&tokens[i], "VV");
    let c128 = (tokens.len() - i > 1) && surf_is(&tokens[i + 1], "ㄴ");
    let c129 = (tokens.len() - i > 1) && pos_is(&tokens[i + 1], "ETM");
    let c130 = (tokens.len() - i > 2) && surf_is(&tokens[i + 2], "국어");
    let c131 = (tokens.len() - i > 2) && pos_is(&tokens[i + 2], "NNG");
    (((c126 && c127) && (c128 && c129)) && (c130 && c131))
}

/// Whether rule 3 of [`p146b`] applies at `i`.
fn p146b_c3_exec(tokens: &Vec<SejongToken>, i: usize) -> (r: bool)
    requires
        i < tokens@.len(),
    ensures
        r == p146b_c3(tokens_view(tokens@), i as int),
{
    assert(tokens_view(tokens@).len() == tokens@.len());
    let c132 = surf_is(&tokens[i], "하");
    let c133 = pos_is(&tokens[i], "VV");
    let c134 = (tokens.len() - i > 1) && surf_is(&tokens[i + 1], "ㄴ");
    let c135 = (tokens.len() - i > 1) && pos_is(&tokens[i + 1], "ETM");
    let c136 = (tokens.len() - i > 2) && surf_is(&tokens[i + 2], "국인");
    let c137 = (tokens.len() - i > 2) && pos_is(&tokens[i + 2], "NNG");
    (((c132 && c133) && (c134 && c135)) && (c136 && c137))
}

/// One step of [`p146b`] at `i`; returns the next position.
fn p146b_step_exec(tokens: &mut Vec<SejongToken>, i: usize) -> (next: usize)
    requires
        i < old(tokens)@.len(),
    ensures
        (tokens_view(final(tokens)@), next as int) == p146b_step(tokens_view(old(tokens)@), i as int),
        final(tokens)@.len() - next < old(tokens)@.len() - i,
        next <= final(tokens)@.len() + 1,
{
    let len0 = tokens.len();
    assert(tokens_view(tokens@).len() == tokens@.len());
    if p146b_c0_exec(tokens, i) {
        let s139 = owned("한국");
        let s140 = owned("NNP");
        let n141 = tokens[i].start_pos;
        let n142 = tokens[i + 2].end_pos;
        let t138 = SejongToken::new(s139.as_str(), s140.as_str(), n141, n142);
        let mut nv143: Vec<SejongToken> = Vec::new();
        push_token(&mut nv143, t138);
        splice_tokens(tokens, i, 3, nv143);
        let _len1 = tokens.len();
        return i + 1;
    }
    if p146b_c1_exec(tokens, i) {
        let s145 = owned("한국");
        let s146 = owned("NNP");
        let n147 = tokens[i].start_pos;
        let n149 = tokens[i].start_pos;
        let n148 = n149.saturating_add(2);
        let t144 = SejongToken::new(s145.as_str(), s146.as_str(), n147, n148);
        let s151 = owned("의");
        let s152 = owned("JKG");
        let n154 = tokens[i].start_pos;
        let n153 = n154.saturating_add(2);
        let n155 = tokens[i + 2].end_pos;
        let t150 = SejongToken::new(s151.as_str(), s152.as_str(), n153, n155);
        let mut nv156: Vec<SejongToken> = Vec::new();
        push_token(&mut nv156, t144);
        push_token(&mut nv156, t150);
        splice_tokens(tokens, i, 3, nv156);
        let _len1 = tokens.len();
        return i + 1;
    }
    if p146b_c2_exec(tokens, i) {
        let s158 = owned("한국어");
        let s159 = owned("NNP");
        let n160 = tokens[i].start_pos;
        let n161 = tokens[i + 2].end_pos;
        let t157 = SejongToken::new(s158.as_str(), s159.as_str(), n160, n161);
        let mut nv162: Vec<SejongToken> = Vec::new();
        push_token(&mut nv162, t157);
        splice_tokens(tokens, i, 3, nv162);
        let _len1 = tokens.len();
        return i + 1;
    }
    if p146b_c3_exec(tokens, i) {
        let s164 = owned("한국인");
        let s165 = owned("NNP");
        let n166 = tokens[i].start_pos;
        let n167 = tokens[i + 2].end_pos;
        let t163 = SejongToken::new(s164.as_str(), s165.as_str(), n166, n167);
        let mut nv168: Vec<SejongToken> = Vec::new();
        push_token(&mut nv168, t163);
        splice_tokens(tokens, i, 3, nv168);
        let _len1 = tokens.len();
        return i + 1;
    }
    i + 1
}

/// 하/VV ㄴ/ETM with 국, 국어, 국인 is 한국/NNP, 한국어/NNP, 한국인/NNP; with 국의 it is 한국/NNP 의/JKG.
pub fn apply_p146b(tokens: &mut Vec<SejongToken>)
    ensures
        tokens_view(final(tokens)@) == p146b(tokens_view(old(tokens)@)),
{
    let ghost orig = tokens_view(tokens@);
    let mut i: usize = 0;
    while i < tokens.len()
        invariant
            i <= tokens@.len() + 1,
            scan(tokens_view(tokens@), i as int, p146b_f()) == scan(orig, 0, p146b_f()),
        decreases tokens@.len() + 1 - i,
    {
        let ghost before = tokens_view(tokens@);
        assert(before.len() == tokens@.len());
        i = p146b_step_exec(tokens, i);
        assert(tokens_view(tokens@).len() == tokens@.len());
    }
}

/// Where [`p146c`] changes a token.
pub open spec fn p146c_c(ts: Seq<TokenView>, i: int) -> bool {
    (((0 <= i < ts.len() && ts[i].surface == "자"@) && (0 <= i < ts.len() && ts[i].pos == "NNG"@)) && !(0 <= i + 1 < ts.len() && true) && (0 <= i - 1 < ts.len() && ts[i - 1].pos == "VV"@))
}

/// The token [`p146c`] puts at `i`.
pub open spec fn p146c_t(ts: Seq<TokenView>, i: int) -> TokenView {
    TokenView { pos: "EF"@, ..ts[i] }
}

/// A final 자/NNG after a verb is the hortative ending 자/EF.
pub open spec fn p146c(ts: Seq<TokenView>) -> Seq<TokenView> {
    map_where(ts, |ts: Seq<TokenView>, i: int| p146c_c(ts, i), |ts: Seq<TokenView>, i: int| p146c_t(ts, i))
}

/// Whether [`p146c`] changes the token at `i`.
fn p146c_c_exec(tokens: &Vec<SejongToken>, i: usize) -> (r: bool)
    requires
        i < tokens@.len(),
    ensures
        r == p146c_c(tokens_view(tokens@), i as int),
{
    assert(tokens_view(tokens@).len() == tokens@.len());
    let c169 = surf_is(&tokens[i], "자");
    let c170 = pos_is(&tokens[i], "NNG");
    let c171 = (tokens.len() - i > 1) && true;
    let c172 = (i >= 1) && pos_is(&tokens[i - 1], "VV");
    ((c169 && c170) && !c171 && c172)
}

/// The token [`p146c`] puts at `i`.
fn p146c_t_exec(tokens: &Vec<SejongToken>, i: usize) -> (t: SejongToken)
    requires
        i < tokens@.len(),
        p146c_c(tokens_view(tokens@), i as int),
    ensures
        t@ == p146c_t(tokens_view(tokens@), i as int),
{
    assert(tokens_view(tokens@).len() == tokens@.len());
    let s174 = owned("EF");
    let mut t173 = tokens[i].duplicate();
    t173.pos = s174;
    t173
}

/// A final 자/NNG after a verb is the hortative ending 자/EF.
pub fn apply_p146c(tokens: &mut Vec<SejongToken>)
    ensures
        tokens_view(final(tokens)@) == p146c(tokens_view(old(tokens)@)),
{
    let ghost orig = tokens_view(tokens@);
    let mut out: Vec<SejongToken> = Vec::new();
    let mut k: usize = 0;
    while k < tokens.len()
        invariant
            k <= tokens@.len(),
            orig == tokens_view(tokens@),
            tokens_view(out@) == p146c(orig).take(k as int),
        decreases tokens@.len() - k,
    {
        let t = if p146c_c_exec(tokens, k) { p146c_t_exec(tokens, k) } else { tokens[k].duplicate() };
        push_token(&mut out, t);
        k += 1;
        assert(tokens_view(out@) =~= p146c(orig).take(k as int));
    }
    assert(p146c(orig).take(k as int) =~= p146c(orig));
    *tokens = out;
}

/// Where rule 0 of [`p147`] applies.
pub open spec fn p147_c0(ts: Seq<TokenView>, i: int) -> bool {
    (((0 <= i < ts.len() && ts[i].surface == "아버"@) && (0 <= i < ts.len() && ts[i].pos == "NNP"@)) && ((0 <= i + 1 < ts.len() && ts[i + 1].surface == "지"@) && (0 <= i + 1 < ts.len() && ts[i + 1].pos == "VX"@)))
}

/// One step of [`p147`] at `i`: the list after it and the next position.
pub open spec fn p147_step(ts: Seq<TokenView>, i: int) -> (Seq<TokenView>, int) {
    if p147_c0(ts, i) {
        (splice(ts, i, 2, seq![plain_view("아버지"@, "NNG"@, ts[i].start_pos, ts[i + 1].end_pos)]), i + 1)
    } else {
        (ts, i + 1)
    }
}

/// [`p147_step`] as a function value.
pub open spec fn p147_f() -> spec_fn(Seq<TokenView>, int) -> (Seq<TokenView>, int) {
    |ts: Seq<TokenView>, i: int| p147_step(ts, i)
}

/// 아버/NNP 지/VX is the noun 아버지/NNG.
pub open spec fn p147(ts: Seq<TokenView>) -> Seq<TokenView> {
    scan(ts, 0, p147_f())
}

/// Whether rule 0 of [`p147`] applies at `i`.
fn p147_c0_exec(tokens: &Vec<SejongToken>, i: usize) -> (r: bool)
    requires
        i < tokens@.len(),
    ensures
        r == p147_c0(tokens_view(tokens@), i as int),
{
    assert(tokens_view(tokens@).len() == tokens@.len());
    let c175 = surf_is(&tokens[i], "아버");
    let c176 = pos_is(&tokens[i], "NNP");
    let c177 = (tokens.len() - i > 1) && surf_is(&tokens[i + 1], "지");
    let c178 = (tokens.len() - i > 1) && pos_is(&tokens[i + 1], "VX");
    ((c175 && c176) && (c177 && c178))
}

/// One step of [`p147`] at `i`; returns the next position.
fn p147_step_exec(tokens: &mut Vec<SejongToken>, i: usize) -> (next: usize)
    requires
        i < old(tokens)@.len(),
    ensures
        (tokens_view(final(tokens)@), next as int) == p147_step(tokens_view(old(tokens)@), i as int),
        final(tokens)@.len() - next < old(tokens)@.len() - i,
        next <= final(tokens)@.len() + 1,
{
    let len0 = tokens.len();
    assert(tokens_view(tokens@).len() == tokens@.len());
    if p147_c0_exec(tokens, i) {
        let s180 = owned("아버지");
        let s181 = owned("NNG");
        let n182 = tokens[i].start_pos;
        let n183 = tokens[i + 1].end_pos;
        let t179 = SejongToken::new(s180.as_str(), s181.as_str(), n182, n183);
        let mut nv184: Vec<SejongToken> = Vec::new();
        push_token(&mut nv184, t179);
        splice_tokens(tokens, i, 2, nv184);
        let _len1 = tokens.len();
        return i + 1;
    }
    i + 1
}

/// 아버/NNP 지/VX is the noun 아버지/NNG.
pub fn apply_p147(tokens: &mut Vec<SejongToken>)
    ensures
        tokens_view(final(tokens)@) == p147(tokens_view(old(tokens)@)),
{
    let ghost orig = tokens_view(tokens@);
    let mut i: usize = 0;
    while i < tokens.len()
        invariant
            i <= tokens@.len() + 1,
            scan(tokens_view(tokens@), i as int, p147_f()) == scan(orig, 0, p147_f()),
        decreases tokens@.len() + 1 - i,
    {
        let ghost before = tokens_view(tokens@);
        assert(before.len() == tokens@.len());
        i = p147_step_exec(tokens, i);
        assert(tokens_view(tokens@).len() == tokens@.len());
    }
}

/// Where rule 0 of [`p147b`] applies.
pub open spec fn p147b_c0(ts: Seq<TokenView>, i: int) -> bool {
    (((0 <= i < ts.len() && ts[i].surface == "어머"@) && (0 <= i < ts.len() && ts[i].pos == "IC"@)) && ((0 <= i + 1 < ts.len() && ts[i + 1].surface == "나"@) && (0 <= i + 1 < ts.len() && ts[i + 1].pos == "NP"@)))
}

/// One step of [`p147b`] at `i`: the list after it and the next position.
pub open spec fn p147b_step(ts: Seq<TokenView>, i: int) -> (Seq<TokenView>, int) {
    if p147b_c0(ts, i) {
        (splice(ts, i, 2, seq![plain_view("어머나"@, "IC"@, ts[i].start_pos, ts[i + 1].end_pos)]), i + 1)
    } else {
        (ts, i + 1)
    }
}

/// [`p147b_step`] as a function value.
pub open spec fn p147b_f() -> spec_fn(Seq<TokenView>, int) -> (Seq<TokenView>, int) {
    |ts: Seq<TokenView>, i: int| p147b_step(ts, i)
}

/// 어머/IC 나/NP is the interjection 어머나/IC.
pub open spec fn p147b(ts: Seq<TokenView>) -> Seq<TokenView> {
    scan(ts, 0, p147b_f())
}

/// Whether rule 0 of [`p147b`] applies at `i`.
fn p147b_c0_exec(tokens: &Vec<SejongToken>, i: usize) -> (r: bool)
    requires
        i < tokens@.len(),
    ensures
        r == p147b_c0(tokens_view(tokens@), i as int),
{
    assert(tokens_view(tokens@).len() == tokens@.len());
    let c185 = surf_is(&tokens[i], "어머");
    let c186 = pos_is(&tokens[i], "IC");
    let c187 = (tokens.len() - i > 1) && surf_is(&tokens[i + 1], "나");
    let c188 = (tokens.len() - i > 1) && pos_is(&tokens[i + 1], "NP");
    ((c185 && c186) && (c187 && c188))
}

/// One step of [`p147b`] at `i`; returns the next position.
fn p147b_step_exec(tokens: &mut Vec<SejongToken>, i: usize) -> (next: usize)
    requires
        i < old(tokens)@.len(),
    ensures
        (tokens_view(final(tokens)@), next as int) == p147b_step(tokens_view(old(tokens)@), i as int),
        final(tokens)@.len() - next < old(tokens)@.len() - i,
        next <= final(tokens)@.len() + 1,
{
    let len0 = tokens.len();
    assert(tokens_view(tokens@).len() == tokens@.len());
    if p147b_c0_exec(tokens, i) {
        let s190 = owned("어머나");
        let s191 = owned("IC");
        let n192 = tokens[i].start_pos;
        let n193 = tokens[i + 1].end_pos;
        let t189 = SejongToken::new(s190.as_str(), s191.as_str(), n192, n193);
        let mut nv194: Vec<SejongToken> = Vec::new();
        push_token(&mut nv194, t189);
        splice_tokens(tokens, i, 2, nv194);
        let _len1 = tokens.len();
        return i + 1;
    }
    i + 1
}

/// 어머/IC 나/NP is the interjection 어머나/IC.
pub fn apply_p147b(tokens: &mut Vec<SejongToken>)
    ensures
        tokens_view(final(tokens)@) == p147b(tokens_view(old(tokens)@)),
{
    let ghost orig = tokens_view(tokens@);
    let mut i: usize = 0;
    while i < tokens.len()
        invariant
            i <= tokens@.len() + 1,
            scan(tokens_view(tokens@), i as int, p147b_f()) == scan(orig, 0, p147b_f()),
        decreases tokens@.len() + 1 - i,
    {
        let ghost before = tokens_view(tokens@);
        assert(before.len() == tokens@.len());
        i = p147b_step_exec(tokens, i);
        assert(tokens_view(tokens@).len() == tokens@.len());
    }
}

/// Where rule 0 of [`p148`] applies.
pub open spec fn p148_c0(ts: Seq<TokenView>, i: int) -> bool {
    ((0 <= i < ts.len() && ts[i].pos == "EF"@) && ((0 <= i + 1 < ts.len() && ts[i + 1].surface == "고"@) && (0 <= i + 1 < ts.len() && ts[i + 1].pos == "NNG"@)) && ((0 <= i + 2 < ts.len() && ts[i + 2].surface == "하"@) && (0 <= i + 2 < ts.len() && ts[i + 2].pos == "XSV"@)))
}

/// One step of [`p148`] at `i`: the list after it and the next position.
pub open spec fn p148_step(ts: Seq<TokenView>, i: int) -> (Seq<TokenView>, int) {
    if p148_c0(ts, i) {
        (splice(ts, i, 3, seq![plain_view((ts[i].surface + "고"@), "EC"@, ts[i].start_pos, ts[i + 1].end_pos), TokenView { pos: "VV"@, ..ts[i + 2] }]), i + 2)
    } else {
        (ts, i + 1)
    }
}

/// [`p148_step`] as a function value.
pub open spec fn p148_f() -> spec_fn(Seq<TokenView>, int) -> (Seq<TokenView>, int) {
    |ts: Seq<TokenView>, i: int| p148_step(ts, i)
}

/// A final ending with 고/NNG before 하/XSV is a quotative connective ending, and 하 is the verb (다/EF 고/NNG 하/XSV → 다고/EC 하/VV).
pub open spec fn p148(ts: Seq<TokenView>) -> Seq<TokenView> {
    scan(ts, 0, p148_f())
}

/// Whether rule 0 of [`p148`] applies at `i`.
fn p148_c0_exec(tokens: &Vec<SejongToken>, i: usize) -> (r: bool)
    requires
        i < tokens@.len(),
    ensures
        r == p148_c0(tokens_view(tokens@), i as int),
{
    assert(tokens_view(tokens@).len() == tokens@.len());
    let c195 = pos_is(&tokens[i], "EF");
    let c196 = (tokens.len() - i > 1) && surf_is(&tokens[i + 1], "고");
    let c197 = (tokens.len() - i > 1) && pos_is(&tokens[i + 1], "NNG");
    let c198 = (tokens.len() - i > 2) && surf_is(&tokens[i + 2], "하");
    let c199 = (tokens.len() - i > 2) && pos_is(&tokens[i + 2], "XSV");
    (c195 && (c196 && c197) && (c198 && c199))
}

/// One step of [`p148`] at `i`; returns the next position.
fn p148_step_exec(tokens: &mut Vec<SejongToken>, i: usize) -> (next: usize)
    requires
        i < old(tokens)@.len(),
    ensures
        (tokens_view(final(tokens)@), next as int) == p148_step(tokens_view(old(tokens)@), i as int),
        final(tokens)@.len() - next < old(tokens)@.len() - i,
        next <= final(tokens)@.len() + 1,
{
    let len0 = tokens.len();
    assert(tokens_view(tokens@).len() == tokens@.len());
    if p148_c0_exec(tokens, i) {
        let s202 = tokens[i].surface.clone();
        let s203 = owned("고");
        let s201 = concat(s202.as_str(), s203.as_str());
        let s204 = owned("EC");
        let n205 = tokens[i].start_pos;
        let n206 = tokens[i + 1].end_pos;
        let t200 = SejongToken::new(s201.as_str(), s204.as_str(), n205, n206);
        let s208 = owned("VV");
        let mut t207 = tokens[i + 2].duplicate();
        t207.pos = s208;
        let mut nv209: Vec<SejongToken> = Vec::new();
        push_token(&mut nv209, t200);
        push_token(&mut nv209, t207);
        splice_tokens(tokens, i, 3, nv209);
        let _len1 = tokens.len();
        return i + 2;
    }
    i + 1
}

/// A final ending with 고/NNG before 하/XSV is a quotative connective ending, and 하 is the verb (다/EF 고/NNG 하/XSV → 다고/EC 하/VV).
pub fn apply_p148(tokens: &mut Vec<SejongToken>)
    ensures
        tokens_view(final(tokens)@) == p148(tokens_view(old(tokens)@)),
{
    let ghost orig = tokens_view(tokens@);
    let mut i: usize = 0;
    while i < tokens.len()
        invariant
            i <= tokens@.len() + 1,
            scan(tokens_view(tokens@), i as int, p148_f()) == scan(orig, 0, p148_f()),
        decreases tokens@.len() + 1 - i,
    {
        let ghost before = tokens_view(tokens@);
        assert(before.len() == tokens@.len());
        i = p148_step_exec(tokens, i);
        assert(tokens_view(tokens@).len() == tokens@.len());
    }
}

/// Sentence-final and connective endings, verb suffixes and auxiliaries, quotations and negation.
pub open spec fn spec_apply_sentence_final_corrections(ts: Seq<TokenView>) -> Seq<TokenView> {
    crate::corrections::sentence_final_endings::spec_apply_sentence_final_endings_corrections(p148(p147b(p147(p146c(p146b(p146(p140(p139(p138b(p138(p137(p136(p135(p133(crate::corrections::xsv_morpheme_split::spec_apply_xsv_morpheme_split_corrections(crate::corrections::xsv_and_ec_ef::spec_apply_xsv_and_ec_ef_corrections(ts)))))))))))))))))
}

/// Sentence-final and connective endings, verb suffixes and auxiliaries, quotations and negation.
pub fn apply_sentence_final_corrections(tokens: &mut Vec<SejongToken>)
    ensures
        tokens_view(final(tokens)@) == spec_apply_sentence_final_corrections(tokens_view(old(tokens)@)),
{
    crate::corrections::xsv_and_ec_ef::apply_xsv_and_ec_ef_corrections(tokens);
    crate::corrections::xsv_morpheme_split::apply_xsv_morpheme_split_corrections(tokens);
    apply_p133(tokens);
    apply_p135(tokens);
    apply_p136(tokens);
    apply_p137(tokens);
    apply_p138(tokens);
    apply_p138b(tokens);
    apply_p139(tokens);
    apply_p140(tokens);
    apply_p146(tokens);
    apply_p146b(tokens);
    apply_p146c(tokens);
    apply_p147(tokens);
    apply_p147b(tokens);
    apply_p148(tokens);
    crate::corrections::sentence_final_endings::apply_sentence_final_endings_corrections(tokens);
}

/// The token is 는다, ㄴ다 or ᆫ다 tagged as a connective ending.
pub open spec fn is_nda_ec(t: TokenView) -> bool {
    &&& t.surface.len() == 2
    &&& (t.surface[0] == '는' || t.surface[0] == 'ㄴ' || t.surface[0] == 'ᆫ')
    &&& t.surface[1] == '다'
    &&& t.pos.len() == 2
    &&& t.pos[0] == 'E'
    &&& t.pos[1] == 'C'
}

/// [`is_nda_ec`] says what it says of the surfaces and the tag as strings.
pub proof fn lemma_is_nda_ec_literal(t: TokenView)
    ensures
        is_nda_ec(t) <==> ((t.surface == "는다"@ || t.surface == "ㄴ다"@ || t.surface == "ᆫ다"@) && t.pos == "EC"@),
{
    reveal_strlit("는다");
    reveal_strlit("ㄴ다");
    reveal_strlit("ᆫ다");
    reveal_strlit("EC");
    if is_nda_ec(t) {
        assert(t.pos =~= "EC"@);
        if t.surface[0] == '는' {
            assert(t.surface =~= "는다"@);
        } else if t.surface[0] == 'ㄴ' {
            assert(t.surface =~= "ㄴ다"@);
        } else {
            assert(t.surface =~= "ᆫ다"@);
        }
    }
}

/// [`is_nda_ec`] as a function value.
pub open spec fn nda_ec() -> spec_fn(TokenView) -> bool {
    |t: TokenView| is_nda_ec(t)
}

/// [`p133`] leaves a list with no 는다, ㄴ다 or ᆫ다 tagged EC without one.
pub proof fn p133_keeps(ts0: Seq<TokenView>)
    requires
        none_bad(ts0, crate::corrections::sentence_final::nda_ec()),
    ensures
        none_bad(p133(ts0), crate::corrections::sentence_final::nda_ec()),
{
    assert forall|ts: Seq<TokenView>, i: int| 0 <= i < ts.len() && none_bad(ts, crate::corrections::sentence_final::nda_ec()) implies
        none_bad((#[trigger] p133_f()(ts, i)).0, crate::corrections::sentence_final::nda_ec()) by {
        reveal_strlit("EC");
        reveal_strlit("EF");
        reveal_strlit("EP");
        reveal_strlit("NNG");
        reveal_strlit("VA");
        reveal_strlit("VV");
        reveal_strlit("ᆫ다");
        reveal_strlit("ㄴ다");
        reveal_strlit("가다");
        reveal_strlit("나다");
        reveal_strlit("는다");
        reveal_strlit("다");
        reveal_strlit("보다");
        reveal_strlit("사다");
        reveal_strlit("서다");
        reveal_strlit("오다");
        reveal_strlit("주다");
        reveal_strlit("타다");
        reveal_strlit("하다");
        assert(p133_f()(ts, i) == p133_step(ts, i));
        if p133_c0(ts, i) {
                let nw0 = seq![TokenView { surface: strip_suffix(ts[i].surface, "다"@), pos: "VV"@, ..ts[i] }, plain_view("다"@, "EF"@, ts[i].start_pos, ts[i].end_pos)];
                assert forall|k: int| 0 <= k < nw0.len() implies !crate::corrections::sentence_final::nda_ec()(#[trigger] nw0[k]) by { if k == 0 { assert(nw0[0] == TokenView { surface: strip_suffix(ts[i].surface, "다"@), pos: "VV"@, ..ts[i] }); assert(!crate::corrections::sentence_final::is_nda_ec(TokenView { surface: strip_suffix(ts[i].surface, "다"@), pos: "VV"@, ..ts[i] })); } else if k == 1 { assert(nw0[1] == plain_view("다"@, "EF"@, ts[i].start_pos, ts[i].end_pos)); assert(!crate::corrections::sentence_final::is_nda_ec(plain_view("다"@, "EF"@, ts[i].start_pos, ts[i].end_pos))); } }
                let s0 = splice(ts, i, 1, nw0);
                lemma_splice_none_bad(ts, i, 1, nw0, crate::corrections::sentence_final::nda_ec());
            }
    }
    lemma_scan_none_bad(ts0, 0, p133_f(), crate::corrections::sentence_final::nda_ec());
}

/// [`p135`] leaves a list with no 는다, ㄴ다 or ᆫ다 tagged EC without one.
pub proof fn p135_keeps(ts: Seq<TokenView>)
    requires
        none_bad(ts, crate::corrections::sentence_final::nda_ec()),
    ensures
        none_bad(p135(ts), crate::corrections::sentence_final::nda_ec()),
{
    assert forall|j: int| 0 <= j < p135(ts).len() implies !crate::corrections::sentence_final::nda_ec()(#[trigger] p135(ts)[j]) by {
        reveal_strlit("EC");
        reveal_strlit("EF");
        reveal_strlit("VV");
        reveal_strlit("XSV");
        reveal_strlit("ᆫ다");
        reveal_strlit("ㄴ다");
        reveal_strlit("는다");
        reveal_strlit("하");
        assert(p135(ts)[j] == (if p135_c(ts, j) { p135_t(ts, j) } else { ts[j] }));
        if p135_c(ts, j) {
            assert(!crate::corrections::sentence_final::is_nda_ec(p135_t(ts, j)));
        } else {
            assert(!crate::corrections::sentence_final::nda_ec()(ts[j]));
        }
    }
}

/// [`p136`] leaves a list with no 는다, ㄴ다 or ᆫ다 tagged EC without one.
pub proof fn p136_keeps(ts0: Seq<TokenView>)
    requires
        none_bad(ts0, crate::corrections::sentence_final::nda_ec()),
    ensures
        none_bad(p136(ts0), crate::corrections::sentence_final::nda_ec()),
{
    assert forall|ts: Seq<TokenView>, i: int| 0 <= i < ts.len() && none_bad(ts, crate::corrections::sentence_final::nda_ec()) implies
        none_bad((#[trigger] p136_f()(ts, i)).0, crate::corrections::sentence_final::nda_ec()) by {
        reveal_strlit("EC");
        reveal_strlit("EF");
        reveal_strlit("VV");
        reveal_strlit("ᆫ다");
        reveal_strlit("ㄴ다");
        reveal_strlit("는다");
        reveal_strlit("세");
        reveal_strlit("세요");
        reveal_strlit("아요");
        assert(p136_f()(ts, i) == p136_step(ts, i));
        if p136_c0(ts, i) {
                assert(!crate::corrections::sentence_final::is_nda_ec(TokenView { surface: strip_suffix(ts[i].surface, "세"@), ..ts[i] }));
                let s0 = ts.update(i, TokenView { surface: strip_suffix(ts[i].surface, "세"@), ..ts[i] });
                lemma_update_none_bad(ts, i, TokenView { surface: strip_suffix(ts[i].surface, "세"@), ..ts[i] }, crate::corrections::sentence_final::nda_ec());
                assert(!crate::corrections::sentence_final::is_nda_ec(TokenView { surface: "세요"@, start_pos: ts[i].start_pos, ..ts[i + 1] }));
                let s1 = s0.update(i + 1, TokenView { surface: "세요"@, start_pos: ts[i].start_pos, ..ts[i + 1] });
                lemma_update_none_bad(s0, i + 1, TokenView { surface: "세요"@, start_pos: ts[i].start_pos, ..ts[i + 1] }, crate::corrections::sentence_final::nda_ec());
            }
    }
    lemma_scan_none_bad(ts0, 0, p136_f(), crate::corrections::sentence_final::nda_ec());
}

/// [`p137`] leaves a list with no 는다, ㄴ다 or ᆫ다 tagged EC without one.
pub proof fn p137_keeps(ts0: Seq<TokenView>)
    requires
        none_bad(ts0, crate::corrections::sentence_final::nda_ec()),
    ensures
        none_bad(p137(ts0), crate::corrections::sentence_final::nda_ec()),
{
    assert forall|ts: Seq<TokenView>, i: int| 0 <= i < ts.len() && none_bad(ts, crate::corrections::sentence_final::nda_ec()) implies
        none_bad((#[trigger] p137_f()(ts, i)).0, crate::corrections::sentence_final::nda_ec()) by {
        reveal_strlit("EC");
        reveal_strlit("MAG");
        reveal_strlit("VV");
        reveal_strlit("ᆫ다");
        reveal_strlit("ㄴ다");
        reveal_strlit("는다");
        reveal_strlit("못");
        reveal_strlit("안");
        assert(p137_f()(ts, i) == p137_step(ts, i));
        if p137_c0(ts, i) {
                let nw0 = seq![TokenView { surface: "안"@, pos: "MAG"@, end_pos: ts[i].start_pos, ..ts[i] }, split_view(strip_prefix(ts[i].surface, "안"@), "VV"@, ts[i].start_pos, ts[i].end_pos, strip_prefix(ts[i].surface, "안"@), "VV"@)];
                assert forall|k: int| 0 <= k < nw0.len() implies !crate::corrections::sentence_final::nda_ec()(#[trigger] nw0[k]) by { if k == 0 { assert(nw0[0] == TokenView { surface: "안"@, pos: "MAG"@, end_pos: ts[i].start_pos, ..ts[i] }); assert(!crate::corrections::sentence_final::is_nda_ec(TokenView { surface: "안"@, pos: "MAG"@, end_pos: ts[i].start_pos, ..ts[i] })); } else if k == 1 { assert(nw0[1] == split_view(strip_prefix(ts[i].surface, "안"@), "VV"@, ts[i].start_pos, ts[i].end_pos, strip_prefix(ts[i].surface, "안"@), "VV"@)); assert(!crate::corrections::sentence_final::is_nda_ec(split_view(strip_prefix(ts[i].surface, "안"@), "VV"@, ts[i].start_pos, ts[i].end_pos, strip_prefix(ts[i].surface, "안"@), "VV"@))); } }
                let s0 = splice(ts, i, 1, nw0);
                lemma_splice_none_bad(ts, i, 1, nw0, crate::corrections::sentence_final::nda_ec());
            } else if p137_c1(ts, i) {
                let nw0 = seq![TokenView { surface: "못"@, pos: "MAG"@, end_pos: ts[i].start_pos, ..ts[i] }, split_view(strip_prefix(ts[i].surface, "못"@), "VV"@, ts[i].start_pos, ts[i].end_pos, strip_prefix(ts[i].surface, "못"@), "VV"@)];
                assert forall|k: int| 0 <= k < nw0.len() implies !crate::corrections::sentence_final::nda_ec()(#[trigger] nw0[k]) by { if k == 0 { assert(nw0[0] == TokenView { surface: "못"@, pos: "MAG"@, end_pos: ts[i].start_pos, ..ts[i] }); assert(!crate::corrections::sentence_final::is_nda_ec(TokenView { surface: "못"@, pos: "MAG"@, end_pos: ts[i].start_pos, ..ts[i] })); } else if k == 1 { assert(nw0[1] == split_view(strip_prefix(ts[i].surface, "못"@), "VV"@, ts[i].start_pos, ts[i].end_pos, strip_prefix(ts[i].surface, "못"@), "VV"@)); assert(!crate::corrections::sentence_final::is_nda_ec(split_view(strip_prefix(ts[i].surface, "못"@), "VV"@, ts[i].start_pos, ts[i].end_pos, strip_prefix(ts[i].surface, "못"@), "VV"@))); } }
                let s0 = splice(ts, i, 1, nw0);
                lemma_splice_none_bad(ts, i, 1, nw0, crate::corrections::sentence_final::nda_ec());
            }
    }
    lemma_scan_none_bad(ts0, 0, p137_f(), crate::corrections::sentence_final::nda_ec());
}

/// [`p138`] leaves a list with no 는다, ㄴ다 or ᆫ다 tagged EC without one.
pub proof fn p138_keeps(ts0: Seq<TokenView>)
    requires
        none_bad(ts0, crate::corrections::sentence_final::nda_ec()),
    ensures
        none_bad(p138(ts0), crate::corrections::sentence_final::nda_ec()),
{
    assert forall|ts: Seq<TokenView>, i: int| 0 <= i < ts.len() && none_bad(ts, crate::corrections::sentence_final::nda_ec()) implies
        none_bad((#[trigger] p138_f()(ts, i)).0, crate::corrections::sentence_final::nda_ec()) by {
        reveal_strlit("EC");
        reveal_strlit("EF");
        reveal_strlit("VCP");
        reveal_strlit("ᆫ다");
        reveal_strlit("ㄴ다");
        reveal_strlit("고");
        reveal_strlit("는다");
        reveal_strlit("이");
        reveal_strlit("자");
        reveal_strlit("자고");
        assert(p138_f()(ts, i) == p138_step(ts, i));
        if p138_c0(ts, i) {
                let nw0 = seq![TokenView { surface: "자고"@, pos: "EC"@, ..ts[i] }];
                assert forall|k: int| 0 <= k < nw0.len() implies !crate::corrections::sentence_final::nda_ec()(#[trigger] nw0[k]) by { if k == 0 { assert(nw0[0] == TokenView { surface: "자고"@, pos: "EC"@, ..ts[i] }); assert(!crate::corrections::sentence_final::is_nda_ec(TokenView { surface: "자고"@, pos: "EC"@, ..ts[i] })); } }
                let s0 = splice(ts, i, 3, nw0);
                lemma_splice_none_bad(ts, i, 3, nw0, crate::corrections::sentence_final::nda_ec());
            }
    }
    lemma_scan_none_bad(ts0, 0, p138_f(), crate::corrections::sentence_final::nda_ec());
}

/// [`p138b`] leaves a list with no 는다, ㄴ다 or ᆫ다 tagged EC without one.
pub proof fn p138b_keeps(ts0: Seq<TokenView>)
    requires
        none_bad(ts0, crate::corrections::sentence_final::nda_ec()),
    ensures
        none_bad(p138b(ts0), crate::corrections::sentence_final::nda_ec()),
{
    assert forall|ts: Seq<TokenView>, i: int| 0 <= i < ts.len() && none_bad(ts, crate::corrections::sentence_final::nda_ec()) implies
        none_bad((#[trigger] p138b_f()(ts, i)).0, crate::corrections::sentence_final::nda_ec()) by {
        reveal_strlit("EC");
        reveal_strlit("EF");
        reveal_strlit("VV");
        reveal_strlit("ᆫ다");
        reveal_strlit("ㄴ다");
        reveal_strlit("고하");
        reveal_strlit("는다");
        reveal_strlit("다");
        reveal_strlit("다고");
        reveal_strlit("하");
        assert(p138b_f()(ts, i) == p138b_step(ts, i));
        if p138b_c0(ts, i) {
                assert(!crate::corrections::sentence_final::is_nda_ec(TokenView { surface: "다고"@, pos: "EC"@, ..ts[i - 1] }));
                let s0 = ts.update(i - 1, TokenView { surface: "다고"@, pos: "EC"@, ..ts[i - 1] });
                lemma_update_none_bad(ts, i - 1, TokenView { surface: "다고"@, pos: "EC"@, ..ts[i - 1] }, crate::corrections::sentence_final::nda_ec());
                assert(!crate::corrections::sentence_final::is_nda_ec(TokenView { surface: "하"@, ..ts[i] }));
                let s1 = s0.update(i, TokenView { surface: "하"@, ..ts[i] });
                lemma_update_none_bad(s0, i, TokenView { surface: "하"@, ..ts[i] }, crate::corrections::sentence_final::nda_ec());
            }
    }
    lemma_scan_none_bad(ts0, 0, p138b_f(), crate::corrections::sentence_final::nda_ec());
}

/// [`p139`] leaves a list with no 는다, ㄴ다 or ᆫ다 tagged EC without one.
pub proof fn p139_keeps(ts: Seq<TokenView>)
    requires
        none_bad(ts, crate::corrections::sentence_final::nda_ec()),
    ensures
        none_bad(p139(ts), crate::corrections::sentence_final::nda_ec()),
{
    assert forall|j: int| 0 <= j < p139(ts).len() implies !crate::corrections::sentence_final::nda_ec()(#[trigger] p139(ts)[j]) by {
        reveal_strlit("EC");
        reveal_strlit("VV");
        reveal_strlit("VX");
        reveal_strlit("ᆫ다");
        reveal_strlit("ㄴ다");
        reveal_strlit("가");
        reveal_strlit("는다");
        reveal_strlit("보");
        reveal_strlit("아");
        reveal_strlit("어");
        reveal_strlit("오");
        reveal_strlit("하");
        assert(p139(ts)[j] == (if p139_c(ts, j) { p139_t(ts, j) } else { ts[j] }));
        if p139_c(ts, j) {
            assert(!crate::corrections::sentence_final::is_nda_ec(p139_t(ts, j)));
        } else {
            assert(!crate::corrections::sentence_final::nda_ec()(ts[j]));
        }
    }
}

/// [`p140`] leaves a list with no 는다, ㄴ다 or ᆫ다 tagged EC without one.
pub proof fn p140_keeps(ts0: Seq<TokenView>)
    requires
        none_bad(ts0, crate::corrections::sentence_final::nda_ec()),
    ensures
        none_bad(p140(ts0), crate::corrections::sentence_final::nda_ec()),
{
    assert forall|ts: Seq<TokenView>, i: int| 0 <= i < ts.len() && none_bad(ts, crate::corrections::sentence_final::nda_ec()) implies
        none_bad((#[trigger] p140_f()(ts, i)).0, crate::corrections::sentence_final::nda_ec()) by {
        reveal_strlit("EC");
        reveal_strlit("EP");
        reveal_strlit("ᆫ다");
        reveal_strlit("ㄴ다");
        reveal_strlit("는다");
        reveal_strlit("니");
        reveal_strlit("니까");
        reveal_strlit("면");
        reveal_strlit("시");
        reveal_strlit("으니");
        reveal_strlit("으니까");
        reveal_strlit("으면");
        assert(p140_f()(ts, i) == p140_step(ts, i));
        if p140_c0(ts, i) {
                let nw0 = seq![];
                assert(nw0.len() == 0);
                let s0 = splice(ts, i, 1, nw0);
                lemma_splice_none_bad(ts, i, 1, nw0, crate::corrections::sentence_final::nda_ec());
            }
    }
    lemma_scan_none_bad(ts0, 0, p140_f(), crate::corrections::sentence_final::nda_ec());
}

/// [`p146`] leaves a list with no 는다, ㄴ다 or ᆫ다 tagged EC without one.
pub proof fn p146_keeps(ts0: Seq<TokenView>)
    requires
        none_bad(ts0, crate::corrections::sentence_final::nda_ec()),
    ensures
        none_bad(p146(ts0), crate::corrections::sentence_final::nda_ec()),
{
    assert forall|ts: Seq<TokenView>, i: int| 0 <= i < ts.len() && none_bad(ts, crate::corrections::sentence_final::nda_ec()) implies
        none_bad((#[trigger] p146_f()(ts, i)).0, crate::corrections::sentence_final::nda_ec()) by {
        reveal_strlit("EC");
        reveal_strlit("ETM");
        reveal_strlit("MAG");
        reveal_strlit("VV");
        reveal_strlit("ᆫ다");
        reveal_strlit("ㄴ");
        reveal_strlit("ㄴ다");
        reveal_strlit("는다");
        reveal_strlit("또");
        reveal_strlit("또한");
        reveal_strlit("하");
        assert(p146_f()(ts, i) == p146_step(ts, i));
        if p146_c0(ts, i) {
                let nw0 = seq![plain_view("또한"@, "MAG"@, ts[i].start_pos, ts[i + 2].end_pos)];
                assert forall|k: int| 0 <= k < nw0.len() implies !crate::corrections::sentence_final::nda_ec()(#[trigger] nw0[k]) by { if k == 0 { assert(nw0[0] == plain_view("또한"@, "MAG"@, ts[i].start_pos, ts[i + 2].end_pos)); assert(!crate::corrections::sentence_final::is_nda_ec(plain_view("또한"@, "MAG"@, ts[i].start_pos, ts[i + 2].end_pos))); } }
                let s0 = splice(ts, i, 3, nw0);
                lemma_splice_none_bad(ts, i, 3, nw0, crate::corrections::sentence_final::nda_ec());
            }
    }
    lemma_scan_none_bad(ts0, 0, p146_f(), crate::corrections::sentence_final::nda_ec());
}

/// [`p146b`] leaves a list with no 는다, ㄴ다 or ᆫ다 tagged EC without one.
pub proof fn p146b_keeps(ts0: Seq<TokenView>)
    requires
        none_bad(ts0, crate::corrections::sentence_final::nda_ec()),
    ensures
        none_bad(p146b(ts0), crate::corrections::sentence_final::nda_ec()),
{
    assert forall|ts: Seq<TokenView>, i: int| 0 <= i < ts.len() && none_bad(ts, crate::corrections::sentence_final::nda_ec()) implies
        none_bad((#[trigger] p146b_f()(ts, i)).0, crate::corrections::sentence_final::nda_ec()) by {
        reveal_strlit("EC");
        reveal_strlit("ETM");
        reveal_strlit("JKG");
        reveal_strlit("NNG");
        reveal_strlit("NNP");
        reveal_strlit("VV");
        reveal_strlit("ᆫ다");
        reveal_strlit("ㄴ");
        reveal_strlit("ㄴ다");
        reveal_strlit("국");
        reveal_strlit("국어");
        reveal_strlit("국의");
        reveal_strlit("국인");
        reveal_strlit("는다");
        reveal_strlit("의");
        reveal_strlit("하");
        reveal_strlit("한국");
        reveal_strlit("한국어");
        reveal_strlit("한국인");
        assert(p146b_f()(ts, i) == p146b_step(ts, i));
        if p146b_c0(ts, i) {
                let nw0 = seq![plain_view("한국"@, "NNP"@, ts[i].start_pos, ts[i + 2].end_pos)];
                assert forall|k: int| 0 <= k < nw0.len() implies !crate::corrections::sentence_final::nda_ec()(#[trigger] nw0[k]) by { if k == 0 { assert(nw0[0] == plain_view("한국"@, "NNP"@, ts[i].start_pos, ts[i + 2].end_pos)); assert(!crate::corrections::sentence_final::is_nda_ec(plain_view("한국"@, "NNP"@, ts[i].start_pos, ts[i + 2].end_pos))); } }
                let s0 = splice(ts, i, 3, nw0);
                lemma_splice_none_bad(ts, i, 3, nw0, crate::corrections::sentence_final::nda_ec());
            } else if p146b_c1(ts, i) {
                let nw0 = seq![plain_view("한국"@, "NNP"@, ts[i].start_pos, (ts[i].start_pos).saturating_add(2)), plain_view("의"@, "JKG"@, (ts[i].start_pos).saturating_add(2), ts[i + 2].end_pos)];
                assert forall|k: int| 0 <= k < nw0.len() implies !crate::corrections::sentence_final::nda_ec()(#[trigger] nw0[k]) by { if k == 0 { assert(nw0[0] == plain_view("한국"@, "NNP"@, ts[i].start_pos, (ts[i].start_pos).saturating_add(2))); assert(!crate::corrections::sentence_final::is_nda_ec(plain_view("한국"@, "NNP"@, ts[i].start_pos, (ts[i].start_pos).saturating_add(2)))); } else if k == 1 { assert(nw0[1] == plain_view("의"@, "JKG"@, (ts[i].start_pos).saturating_add(2), ts[i + 2].end_pos)); assert(!crate::corrections::sentence_final::is_nda_ec(plain_view("의"@, "JKG"@, (ts[i].start_pos).saturating_add(2), ts[i + 2].end_pos))); } }
                let s0 = splice(ts, i, 3, nw0);
                lemma_splice_none_bad(ts, i, 3, nw0, crate::corrections::sentence_final::nda_ec());
            } else if p146b_c2(ts, i) {
                let nw0 = seq![plain_view("한국어"@, "NNP"@, ts[i].start_pos, ts[i + 2].end_pos)];
                assert forall|k: int| 0 <= k < nw0.len() implies !crate::corrections::sentence_final::nda_ec()(#[trigger] nw0[k]) by { if k == 0 { assert(nw0[0] == plain_view("한국어"@, "NNP"@, ts[i].start_pos, ts[i + 2].end_pos)); assert(!crate::corrections::sentence_final::is_nda_ec(plain_view("한국어"@, "NNP"@, ts[i].start_pos, ts[i + 2].end_pos))); } }
                let s0 = splice(ts, i, 3, nw0);
                lemma_splice_none_bad(ts, i, 3, nw0, crate::corrections::sentence_final::nda_ec());
            } else if p146b_c3(ts, i) {
                let nw0 = seq![plain_view("한국인"@, "NNP"@, ts[i].start_pos, ts[i + 2].end_pos)];
                assert forall|k: int| 0 <= k < nw0.len() implies !crate::corrections::sentence_final::nda_ec()(#[trigger] nw0[k]) by { if k == 0 { assert(nw0[0] == plain_view("한국인"@, "NNP"@, ts[i].start_pos, ts[i + 2].end_pos)); assert(!crate::corrections::sentence_final::is_nda_ec(plain_view("한국인"@, "NNP"@, ts[i].start_pos, ts[i + 2].end_pos))); } }
                let s0 = splice(ts, i, 3, nw0);
                lemma_splice_none_bad(ts, i, 3, nw0, crate::corrections::sentence_final::nda_ec());
            }
    }
    lemma_scan_none_bad(ts0, 0, p146b_f(), crate::corrections::sentence_final::nda_ec());
}

/// [`p146c`] leaves a list with no 는다, ㄴ다 or ᆫ다 tagged EC without one.
pub proof fn p146c_keeps(ts: Seq<TokenView>)
    requires
        none_bad(ts, crate::corrections::sentence_final::nda_ec()),
    ensures
        none_bad(p146c(ts), crate::corrections::sentence_final::nda_ec()),
{
    assert forall|j: int| 0 <= j < p146c(ts).len() implies !crate::corrections::sentence_final::nda_ec()(#[trigger] p146c(ts)[j]) by {
        reveal_strlit("EC");
        reveal_strlit("EF");
        reveal_strlit("NNG");
        reveal_strlit("VV");
        reveal_strlit("ᆫ다");
        reveal_strlit("ㄴ다");
        reveal_strlit("는다");
        reveal_strlit("자");
        assert(p146c(ts)[j] == (if p146c_c(ts, j) { p146c_t(ts, j) } else { ts[j] }));
        if p146c_c(ts, j) {
            assert(!crate::corrections::sentence_final::is_nda_ec(p146c_t(ts, j)));
        } else {
            assert(!crate::corrections::sentence_final::nda_ec()(ts[j]));
        }
    }
}

/// [`p147`] leaves a list with no 는다, ㄴ다 or ᆫ다 tagged EC without one.
pub proof fn p147_keeps(ts0: Seq<TokenView>)
    requires
        none_bad(ts0, crate::corrections::sentence_final::nda_ec()),
    ensures
        none_bad(p147(ts0), crate::corrections::sentence_final::nda_ec()),
{
    assert forall|ts: Seq<TokenView>, i: int| 0 <= i < ts.len() && none_bad(ts, crate::corrections::sentence_final::nda_ec()) implies
        none_bad((#[trigger] p147_f()(ts, i)).0, crate::corrections::sentence_final::nda_ec()) by {
        reveal_strlit("EC");
        reveal_strlit("NNG");
        reveal_strlit("NNP");
        reveal_strlit("VX");
        reveal_strlit("ᆫ다");
        reveal_strlit("ㄴ다");
        reveal_strlit("는다");
        reveal_strlit("아버");
        reveal_strlit("아버지");
        reveal_strlit("지");
        assert(p147_f()(ts, i) == p147_step(ts, i));
        if p147_c0(ts, i) {
                let nw0 = seq![plain_view("아버지"@, "NNG"@, ts[i].start_pos, ts[i + 1].end_pos)];
                assert forall|k: int| 0 <= k < nw0.len() implies !crate::corrections::sentence_final::nda_ec()(#[trigger] nw0[k]) by { if k == 0 { assert(nw0[0] == plain_view("아버지"@, "NNG"@, ts[i].start_pos, ts[i + 1].end_pos)); assert(!crate::corrections::sentence_final::is_nda_ec(plain_view("아버지"@, "NNG"@, ts[i].start_pos, ts[i + 1].end_pos))); } }
                let s0 = splice(ts, i, 2, nw0);
                lemma_splice_none_bad(ts, i, 2, nw0, crate::corrections::sentence_final::nda_ec());
            }
    }
    lemma_scan_none_bad(ts0, 0, p147_f(), crate::corrections::sentence_final::nda_ec());
}

/// [`p147b`] leaves a list with no 는다, ㄴ다 or ᆫ다 tagged EC without one.
pub proof fn p147b_keeps(ts0: Seq<TokenView>)
    requires
        none_bad(ts0, crate::corrections::sentence_final::nda_ec()),
    ensures
        none_bad(p147b(ts0), crate::corrections::sentence_final::nda_ec()),
{
    assert forall|ts: Seq<TokenView>, i: int| 0 <= i < ts.len() && none_bad(ts, crate::corrections::sentence_final::nda_ec()) implies
        none_bad((#[trigger] p147b_f()(ts, i)).0, crate::corrections::sentence_final::nda_ec()) by {
        reveal_strlit("EC");
        reveal_strlit("IC");
        reveal_strlit("NP");
        reveal_strlit("ᆫ다");
        reveal_strlit("ㄴ다");
        reveal_strlit("나");
        reveal_strlit("는다");
        reveal_strlit("어머");
        reveal_strlit("어머나");
        assert(p147b_f()(ts, i) == p147b_step(ts, i));
        if p147b_c0(ts, i) {
                let nw0 = seq![plain_view("어머나"@, "IC"@, ts[i].start_pos, ts[i + 1].end_pos)];
                assert forall|k: int| 0 <= k < nw0.len() implies !crate::corrections::sentence_final::nda_ec()(#[trigger] nw0[k]) by { if k == 0 { assert(nw0[0] == plain_view("어머나"@, "IC"@, ts[i].start_pos, ts[i + 1].end_pos)); assert(!crate::corrections::sentence_final::is_nda_ec(plain_view("어머나"@, "IC"@, ts[i].start_pos, ts[i + 1].end_pos))); } }
                let s0 = splice(ts, i, 2, nw0);
                lemma_splice_none_bad(ts, i, 2, nw0, crate::corrections::sentence_final::nda_ec());
            }
    }
    lemma_scan_none_bad(ts0, 0, p147b_f(), crate::corrections::sentence_final::nda_ec());
}

/// [`p148`] leaves a list with no 는다, ㄴ다 or ᆫ다 tagged EC without one.
pub proof fn p148_keeps(ts0: Seq<TokenView>)
    requires
        none_bad(ts0, crate::corrections::sentence_final::nda_ec()),
    ensures
        none_bad(p148(ts0), crate::corrections::sentence_final::nda_ec()),
{
    assert forall|ts: Seq<TokenView>, i: int| 0 <= i < ts.len() && none_bad(ts, crate::corrections::sentence_final::nda_ec()) implies
        none_bad((#[trigger] p148_f()(ts, i)).0, crate::corrections::sentence_final::nda_ec()) by {
        reveal_strlit("EC");
        reveal_strlit("EF");
        reveal_strlit("NNG");
        reveal_strlit("VV");
        reveal_strlit("XSV");
        reveal_strlit("ᆫ다");
        reveal_strlit("ㄴ다");
        reveal_strlit("고");
        reveal_strlit("는다");
        reveal_strlit("하");
        assert(p148_f()(ts, i) == p148_step(ts, i));
        if p148_c0(ts, i) {
                let nw0 = seq![plain_view((ts[i].surface + "고"@), "EC"@, ts[i].start_pos, ts[i + 1].end_pos), TokenView { pos: "VV"@, ..ts[i + 2] }];
                assert forall|k: int| 0 <= k < nw0.len() implies !crate::corrections::sentence_final::nda_ec()(#[trigger] nw0[k]) by { if k == 0 { assert(nw0[0] == plain_view((ts[i].surface + "고"@), "EC"@, ts[i].start_pos, ts[i + 1].end_pos)); assert(!crate::corrections::sentence_final::is_nda_ec(plain_view((ts[i].surface + "고"@), "EC"@, ts[i].start_pos, ts[i + 1].end_pos))); } else if k == 1 { assert(nw0[1] == TokenView { pos: "VV"@, ..ts[i + 2] }); assert(!crate::corrections::sentence_final::is_nda_ec(TokenView { pos: "VV"@, ..ts[i + 2] })); } }
                let s0 = splice(ts, i, 3, nw0);
                lemma_splice_none_bad(ts, i, 3, nw0, crate::corrections::sentence_final::nda_ec());
            }
    }
    lemma_scan_none_bad(ts0, 0, p148_f(), crate::corrections::sentence_final::nda_ec());
}

/// After the sentence-final corrections no 는다, ㄴ다 or ᆫ다 is left tagged EC: they are always final endings.
pub proof fn lemma_no_nda_ec_after_sentence_final(ts: Seq<TokenView>)
    ensures
        none_bad(spec_apply_sentence_final_corrections(ts), crate::corrections::sentence_final::nda_ec()),
{
    crate::corrections::xsv_and_ec_ef::lemma_xsv_and_ec_ef_clears(ts);
    let t0 = crate::corrections::xsv_and_ec_ef::spec_apply_xsv_and_ec_ef_corrections(ts);
    crate::corrections::xsv_morpheme_split::lemma_xsv_morpheme_split_keeps(t0);
    let t1 = crate::corrections::xsv_morpheme_split::spec_apply_xsv_morpheme_split_corrections(t0);
    p133_keeps(t1);
    let t2 = p133(t1);
    p135_keeps(t2);
    let t3 = p135(t2);
    p136_keeps(t3);
    let t4 = p136(t3);
    p137_keeps(t4);
    let t5 = p137(t4);
    p138_keeps(t5);
    let t6 = p138(t5);
    p138b_keeps(t6);
    let t7 = p138b(t6);
    p139_keeps(t7);
    let t8 = p139(t7);
    p140_keeps(t8);
    let t9 = p140(t8);
    p146_keeps(t9);
    let t10 = p146(t9);
    p146b_keeps(t10);
    let t11 = p146b(t10);
    p146c_keeps(t11);
    let t12 = p146c(t11);
    p147_keeps(t12);
    let t13 = p147(t12);
    p147b_keeps(t13);
    let t14 = p147b(t13);
    p148_keeps(t14);
    let t15 = p148(t14);
    crate::corrections::sentence_final_endings::lemma_sentence_final_endings_keeps(t15);
    let t16 = crate::corrections::sentence_final_endings::spec_apply_sentence_final_endings_corrections(t15);
}

} // verus!
