//! Corrections that follow the conjugation corrections.

use vstd::prelude::*;
use crate::converter::tokens_view;
use crate::rewrite::{in_list, map_where, pos_is, push_token, scan, splice, splice_tokens, surf_is};
use crate::text::owned;
use crate::types::{plain_view, SejongToken, TokenView};

verus! {

/// Where rule 0 of [`p220`] applies.
pub open spec fn p220_c0(ts: Seq<TokenView>, i: int) -> bool {
    (((0 <= i < ts.len() && ts[i].surface == "ㄹ"@) && (0 <= i < ts.len() && ts[i].pos == "ETM"@)) && (0 <= i + 1 < ts.len() && ts[i + 1].surface == "지"@) && ((0 <= i + 1 < ts.len() && ts[i + 1].pos == "NNB"@) || (0 <= i + 1 < ts.len() && ts[i + 1].pos == "VX"@)))
}

/// One step of [`p220`] at `i`: the list after it and the next position.
pub open spec fn p220_step(ts: Seq<TokenView>, i: int) -> (Seq<TokenView>, int) {
    if p220_c0(ts, i) {
        (splice(ts, i, 2, seq![plain_view("ㄹ지"@, "EC"@, ts[i].start_pos, ts[i + 1].end_pos)]), i + 1)
    } else {
        (ts, i + 1)
    }
}

/// [`p220_step`] as a function value.
pub open spec fn p220_f() -> spec_fn(Seq<TokenView>, int) -> (Seq<TokenView>, int) {
    |ts: Seq<TokenView>, i: int| p220_step(ts, i)
}

/// ㄹ/ETM 지/NNB|VX is the connective ending ㄹ지/EC.
pub open spec fn p220(ts: Seq<TokenView>) -> Seq<TokenView> {
    scan(ts, 0, p220_f())
}

/// Whether rule 0 of [`p220`] applies at `i`.
fn p220_c0_exec(tokens: &Vec<SejongToken>, i: usize) -> (r: bool)
    requires
        i < tokens@.len(),
    ensures
        r == p220_c0(tokens_view(tokens@), i as int),
{
    assert(tokens_view(tokens@).len() == tokens@.len());
    let c0 = surf_is(&tokens[i], "ㄹ");
    let c1 = pos_is(&tokens[i], "ETM");
    let c2 = (tokens.len() - i > 1) && surf_is(&tokens[i + 1], "지");
    let c3 = (tokens.len() - i > 1) && pos_is(&tokens[i + 1], "NNB");
    let c4 = (tokens.len() - i > 1) && pos_is(&tokens[i + 1], "VX");
    ((c0 && c1) && c2 && (c3 || c4))
}

/// One step of [`p220`] at `i`; returns the next position.
fn p220_step_exec(tokens: &mut Vec<SejongToken>, i: usize) -> (next: usize)
    requires
        i < old(tokens)@.len(),
    ensures
        (tokens_view(final(tokens)@), next as int) == p220_step(tokens_view(old(tokens)@), i as int),
        final(tokens)@.len() - next < old(tokens)@.len() - i,
        next <= final(tokens)@.len() + 1,
{
    let len0 = tokens.len();
    assert(tokens_view(tokens@).len() == tokens@.len());
    if p220_c0_exec(tokens, i) {
        let s6 = owned("ㄹ지");
        let s7 = owned("EC");
        let n8 = tokens[i].start_pos;
        let n9 = tokens[i + 1].end_pos;
        let t5 = SejongToken::new(s6.as_str(), s7.as_str(), n8, n9);
        let mut nv10: Vec<SejongToken> = Vec::new();
        push_token(&mut nv10, t5);
        splice_tokens(tokens, i, 2, nv10);
        let _len1 = tokens.len();
        return i + 1;
    }
    i + 1
}

/// ㄹ/ETM 지/NNB|VX is the connective ending ㄹ지/EC.
pub fn apply_p220(tokens: &mut Vec<SejongToken>)
    ensures
        tokens_view(final(tokens)@) == p220(tokens_view(old(tokens)@)),
{
    let ghost orig = tokens_view(tokens@);
    let mut i: usize = 0;
    while i < tokens.len()
        invariant
            i <= tokens@.len() + 1,
            scan(tokens_view(tokens@), i as int, p220_f()) == scan(orig, 0, p220_f()),
        decreases tokens@.len() + 1 - i,
    {
        let ghost before = tokens_view(tokens@);
        assert(before.len() == tokens@.len());
        i = p220_step_exec(tokens, i);
        assert(tokens_view(tokens@).len() == tokens@.len());
    }
}

/// Where rule 0 of [`p86`] applies.
pub open spec fn p86_c0(ts: Seq<TokenView>, i: int) -> bool {
    (((0 <= i < ts.len() && ts[i].surface == "ㄴ"@) && (0 <= i < ts.len() && ts[i].pos == "ETM"@)) && (0 <= i + 1 < ts.len() && ts[i + 1].surface == "다"@) && ((0 <= i + 1 < ts.len() && ts[i + 1].pos == "EF"@) || ((0 <= i + 1 < ts.len() && ts[i + 1].pos == "NNG"@) && !(0 <= i + 2 < ts.len() && true))))
}

/// Where rule 1 of [`p86`] applies.
pub open spec fn p86_c1(ts: Seq<TokenView>, i: int) -> bool {
    (((0 <= i < ts.len() && ts[i].surface == "는"@) && (0 <= i < ts.len() && ts[i].pos == "ETM"@)) && (0 <= i + 1 < ts.len() && ts[i + 1].surface == "다"@) && ((0 <= i + 1 < ts.len() && ts[i + 1].pos == "EF"@) || ((0 <= i + 1 < ts.len() && ts[i + 1].pos == "NNG"@) && !(0 <= i + 2 < ts.len() && true))))
}

/// One step of [`p86`] at `i`: the list after it and the next position.
pub open spec fn p86_step(ts: Seq<TokenView>, i: int) -> (Seq<TokenView>, int) {
    if p86_c0(ts, i) {
        (splice(ts, i, 2, seq![plain_view("ㄴ다"@, "EF"@, ts[i].start_pos, ts[i + 1].end_pos)]), i + 1)
    } else if p86_c1(ts, i) {
        (splice(ts, i, 2, seq![plain_view("는다"@, "EF"@, ts[i].start_pos, ts[i + 1].end_pos)]), i + 1)
    } else {
        (ts, i + 1)
    }
}

/// [`p86_step`] as a function value.
pub open spec fn p86_f() -> spec_fn(Seq<TokenView>, int) -> (Seq<TokenView>, int) {
    |ts: Seq<TokenView>, i: int| p86_step(ts, i)
}

/// ㄴ/ETM or 는/ETM before 다/EF (or a final 다/NNG) is one ending ㄴ다/EF or 는다/EF.
pub open spec fn p86(ts: Seq<TokenView>) -> Seq<TokenView> {
    scan(ts, 0, p86_f())
}

/// Whether rule 0 of [`p86`] applies at `i`.
fn p86_c0_exec(tokens: &Vec<SejongToken>, i: usize) -> (r: bool)
    requires
        i < tokens@.len(),
    ensures
        r == p86_c0(tokens_view(tokens@), i as int),
{
    assert(tokens_view(tokens@).len() == tokens@.len());
    let c11 = surf_is(&tokens[i], "ㄴ");
    let c12 = pos_is(&tokens[i], "ETM");
    let c13 = (tokens.len() - i > 1) && surf_is(&tokens[i + 1], "다");
    let c14 = (tokens.len() - i > 1) && pos_is(&tokens[i + 1], "EF");
    let c15 = (tokens.len() - i > 1) && pos_is(&tokens[i + 1], "NNG");
    let c16 = (tokens.len() - i > 2) && true;
    ((c11 && c12) && c13 && (c14 || (c15 && !c16)))
}

/// Whether rule 1 of [`p86`] applies at `i`.
fn p86_c1_exec(tokens: &Vec<SejongToken>, i: usize) -> (r: bool)
    requires
        i < tokens@.len(),
    ensures
        r == p86_c1(tokens_view(tokens@), i as int),
{
    assert(tokens_view(tokens@).len() == tokens@.len());
    let c17 = surf_is(&tokens[i], "는");
    let c18 = pos_is(&tokens[i], "ETM");
    let c19 = (tokens.len() - i > 1) && surf_is(&tokens[i + 1], "다");
    let c20 = (tokens.len() - i > 1) && pos_is(&tokens[i + 1], "EF");
    let c21 = (tokens.len() - i > 1) && pos_is(&tokens[i + 1], "NNG");
    let c22 = (tokens.len() - i > 2) && true;
    ((c17 && c18) && c19 && (c20 || (c21 && !c22)))
}

/// One step of [`p86`] at `i`; returns the next position.
fn p86_step_exec(tokens: &mut Vec<SejongToken>, i: usize) -> (next: usize)
    requires
        i < old(tokens)@.len(),
    ensures
        (tokens_view(final(tokens)@), next as int) == p86_step(tokens_view(old(tokens)@), i as int),
        final(tokens)@.len() - next < old(tokens)@.len() - i,
        next <= final(tokens)@.len() + 1,
{
    let len0 = tokens.len();
    assert(tokens_view(tokens@).len() == tokens@.len());
    if p86_c0_exec(tokens, i) {
        let s24 = owned("ㄴ다");
        let s25 = owned("EF");
        let n26 = tokens[i].start_pos;
        let n27 = tokens[i + 1].end_pos;
        let t23 = SejongToken::new(s24.as_str(), s25.as_str(), n26, n27);
        let mut nv28: Vec<SejongToken> = Vec::new();
        push_token(&mut nv28, t23);
        splice_tokens(tokens, i, 2, nv28);
        let _len1 = tokens.len();
        return i + 1;
    }
    if p86_c1_exec(tokens, i) {
        let s30 = owned("는다");
        let s31 = owned("EF");
        let n32 = tokens[i].start_pos;
        let n33 = tokens[i + 1].end_pos;
        let t29 = SejongToken::new(s30.as_str(), s31.as_str(), n32, n33);
        let mut nv34: Vec<SejongToken> = Vec::new();
        push_token(&mut nv34, t29);
        splice_tokens(tokens, i, 2, nv34);
        let _len1 = tokens.len();
        return i + 1;
    }
    i + 1
}

/// ㄴ/ETM or 는/ETM before 다/EF (or a final 다/NNG) is one ending ㄴ다/EF or 는다/EF.
pub fn apply_p86(tokens: &mut Vec<SejongToken>)
    ensures
        tokens_view(final(tokens)@) == p86(tokens_view(old(tokens)@)),
{
    let ghost orig = tokens_view(tokens@);
    let mut i: usize = 0;
    while i < tokens.len()
        invariant
            i <= tokens@.len() + 1,
            scan(tokens_view(tokens@), i as int, p86_f()) == scan(orig, 0, p86_f()),
        decreases tokens@.len() + 1 - i,
    {
        let ghost before = tokens_view(tokens@);
        assert(before.len() == tokens@.len());
        i = p86_step_exec(tokens, i);
        assert(tokens_view(tokens@).len() == tokens@.len());
    }
}

/// Where [`p87`] changes a token.
pub open spec fn p87_c(ts: Seq<TokenView>, i: int) -> bool {
    ((0 <= i < ts.len() && ts[i].pos == "VV"@) && (0 <= i < ts.len() && seq!["보"@, "주"@, "버리"@, "내"@, "놓"@, "두"@, "가"@].contains(ts[i].surface)) && (0 <= i - 1 < ts.len() && ts[i - 1].pos == "EC"@))
}

/// The token [`p87`] puts at `i`.
pub open spec fn p87_t(ts: Seq<TokenView>, i: int) -> TokenView {
    TokenView { pos: "VX"@, ..ts[i] }
}

/// An auxiliary verb after a connective ending is tagged VX (먹/VV 어/EC 버리/VX).
pub open spec fn p87(ts: Seq<TokenView>) -> Seq<TokenView> {
    map_where(ts, |ts: Seq<TokenView>, i: int| p87_c(ts, i), |ts: Seq<TokenView>, i: int| p87_t(ts, i))
}

/// Whether [`p87`] changes the token at `i`.
fn p87_c_exec(tokens: &Vec<SejongToken>, i: usize) -> (r: bool)
    requires
        i < tokens@.len(),
    ensures
        r == p87_c(tokens_view(tokens@), i as int),
{
    assert(tokens_view(tokens@).len() == tokens@.len());
    let c35 = pos_is(&tokens[i], "VV");
    let l37: [&str; 7] = ["보", "주", "버리", "내", "놓", "두", "가"];
    assert(crate::tag_map::strs_view(l37@) =~= seq!["보"@, "주"@, "버리"@, "내"@, "놓"@, "두"@, "가"@]);
    let c36 = in_list(&l37, tokens[i].surface.as_str());
    let c38 = (i >= 1) && pos_is(&tokens[i - 1], "EC");
    (c35 && c36 && c38)
}

/// The token [`p87`] puts at `i`.
fn p87_t_exec(tokens: &Vec<SejongToken>, i: usize) -> (t: SejongToken)
    requires
        i < tokens@.len(),
        p87_c(tokens_view(tokens@), i as int),
    ensures
        t@ == p87_t(tokens_view(tokens@), i as int),
{
    assert(tokens_view(tokens@).len() == tokens@.len());
    let s40 = owned("VX");
    let mut t39 = tokens[i].duplicate();
    t39.pos = s40;
    t39
}

/// An auxiliary verb after a connective ending is tagged VX (먹/VV 어/EC 버리/VX).
pub fn apply_p87(tokens: &mut Vec<SejongToken>)
    ensures
        tokens_view(final(tokens)@) == p87(tokens_view(old(tokens)@)),
{
    let ghost orig = tokens_view(tokens@);
    let mut out: Vec<SejongToken> = Vec::new();
    let mut k: usize = 0;
    while k < tokens.len()
        invariant
            k <= tokens@.len(),
            orig == tokens_view(tokens@),
            tokens_view(out@) == p87(orig).take(k as int),
        decreases tokens@.len() - k,
    {
        let t = if p87_c_exec(tokens, k) { p87_t_exec(tokens, k) } else { tokens[k].duplicate() };
        push_token(&mut out, t);
        k += 1;
        assert(tokens_view(out@) =~= p87(orig).take(k as int));
    }
    assert(p87(orig).take(k as int) =~= p87(orig));
    *tokens = out;
}

/// Where [`p87b`] changes a token.
pub open spec fn p87b_c(ts: Seq<TokenView>, i: int) -> bool {
    ((0 <= i < ts.len() && ts[i].pos == "VV"@) && (0 <= i < ts.len() && seq!["싶"@, "않"@].contains(ts[i].surface)) && ((0 <= i - 1 < ts.len() && ts[i - 1].surface == "고"@) && (0 <= i - 1 < ts.len() && ts[i - 1].pos == "EC"@)))
}

/// The token [`p87b`] puts at `i`.
pub open spec fn p87b_t(ts: Seq<TokenView>, i: int) -> TokenView {
    TokenView { pos: "VX"@, ..ts[i] }
}

/// 싶 and 않 after 고/EC are auxiliary verbs (읽/VV 고/EC 싶/VX).
pub open spec fn p87b(ts: Seq<TokenView>) -> Seq<TokenView> {
    map_where(ts, |ts: Seq<TokenView>, i: int| p87b_c(ts, i), |ts: Seq<TokenView>, i: int| p87b_t(ts, i))
}

/// Whether [`p87b`] changes the token at `i`.
fn p87b_c_exec(tokens: &Vec<SejongToken>, i: usize) -> (r: bool)
    requires
        i < tokens@.len(),
    ensures
        r == p87b_c(tokens_view(tokens@), i as int),
{
    assert(tokens_view(tokens@).len() == tokens@.len());
    let c41 = pos_is(&tokens[i], "VV");
    let l43: [&str; 2] = ["싶", "않"];
    assert(crate::tag_map::strs_view(l43@) =~= seq!["싶"@, "않"@]);
    let c42 = in_list(&l43, tokens[i].surface.as_str());
    let c44 = (i >= 1) && surf_is(&tokens[i - 1], "고");
    let c45 = (i >= 1) && pos_is(&tokens[i - 1], "EC");
    (c41 && c42 && (c44 && c45))
}

/// The token [`p87b`] puts at `i`.
fn p87b_t_exec(tokens: &Vec<SejongToken>, i: usize) -> (t: SejongToken)
    requires
        i < tokens@.len(),
        p87b_c(tokens_view(tokens@), i as int),
    ensures
        t@ == p87b_t(tokens_view(tokens@), i as int),
{
    assert(tokens_view(tokens@).len() == tokens@.len());
    let s47 = owned("VX");
    let mut t46 = tokens[i].duplicate();
    t46.pos = s47;
    t46
}

/// 싶 and 않 after 고/EC are auxiliary verbs (읽/VV 고/EC 싶/VX).
pub fn apply_p87b(tokens: &mut Vec<SejongToken>)
    ensures
        tokens_view(final(tokens)@) == p87b(tokens_view(old(tokens)@)),
{
    let ghost orig = tokens_view(tokens@);
    let mut out: Vec<SejongToken> = Vec::new();
    let mut k: usize = 0;
    while k < tokens.len()
        invariant
            k <= tokens@.len(),
            orig == tokens_view(tokens@),
            tokens_view(out@) == p87b(orig).take(k as int),
        decreases tokens@.len() - k,
    {
        let t = if p87b_c_exec(tokens, k) { p87b_t_exec(tokens, k) } else { tokens[k].duplicate() };
        push_token(&mut out, t);
        k += 1;
        assert(tokens_view(out@) =~= p87b(orig).take(k as int));
    }
    assert(p87b(orig).take(k as int) =~= p87b(orig));
    *tokens = out;
}

/// Where [`p88`] changes a token.
pub open spec fn p88_c(ts: Seq<TokenView>, i: int) -> bool {
    (((0 <= i < ts.len() && ts[i].surface == "되"@) && (0 <= i < ts.len() && ts[i].pos == "VV"@)) && (0 <= i - 1 < ts.len() && ts[i - 1].pos == "NNG"@))
}

/// The token [`p88`] puts at `i`.
pub open spec fn p88_t(ts: Seq<TokenView>, i: int) -> TokenView {
    TokenView { pos: "XSV"@, ..ts[i] }
}

/// 되/VV after a common noun is the suffix 되/XSV (공개/NNG 되/XSV).
pub open spec fn p88(ts: Seq<TokenView>) -> Seq<TokenView> {
    map_where(ts, |ts: Seq<TokenView>, i: int| p88_c(ts, i), |ts: Seq<TokenView>, i: int| p88_t(ts, i))
}

/// Whether [`p88`] changes the token at `i`.
fn p88_c_exec(tokens: &Vec<SejongToken>, i: usize) -> (r: bool)
    requires
        i < tokens@.len(),
    ensures
        r == p88_c(tokens_view(tokens@), i as int),
{
    assert(tokens_view(tokens@).len() == tokens@.len());
    let c48 = surf_is(&tokens[i], "되");
    let c49 = pos_is(&tokens[i], "VV");
    let c50 = (i >= 1) && pos_is(&tokens[i - 1], "NNG");
    ((c48 && c49) && c50)
}

/// The token [`p88`] puts at `i`.
fn p88_t_exec(tokens: &Vec<SejongToken>, i: usize) -> (t: SejongToken)
    requires
        i < tokens@.len(),
        p88_c(tokens_view(tokens@), i as int),
    ensures
        t@ == p88_t(tokens_view(tokens@), i as int),
{
    assert(tokens_view(tokens@).len() == tokens@.len());
    let s52 = owned("XSV");
    let mut t51 = tokens[i].duplicate();
    t51.pos = s52;
    t51
}

/// 되/VV after a common noun is the suffix 되/XSV (공개/NNG 되/XSV).
pub fn apply_p88(tokens: &mut Vec<SejongToken>)
    ensures
        tokens_view(final(tokens)@) == p88(tokens_view(old(tokens)@)),
{
    let ghost orig = tokens_view(tokens@);
    let mut out: Vec<SejongToken> = Vec::new();
    let mut k: usize = 0;
    while k < tokens.len()
        invariant
            k <= tokens@.len(),
            orig == tokens_view(tokens@),
            tokens_view(out@) == p88(orig).take(k as int),
        decreases tokens@.len() - k,
    {
        let t = if p88_c_exec(tokens, k) { p88_t_exec(tokens, k) } else { tokens[k].duplicate() };
        push_token(&mut out, t);
        k += 1;
        assert(tokens_view(out@) =~= p88(orig).take(k as int));
    }
    assert(p88(orig).take(k as int) =~= p88(orig));
    *tokens = out;
}

/// Where [`p205`] changes a token.
pub open spec fn p205_c(ts: Seq<TokenView>, i: int) -> bool {
    (((0 <= i < ts.len() && ts[i].surface == "되"@) && (0 <= i < ts.len() && ts[i].pos == "XSV"@)) && (0 <= i - 1 < ts.len() && ts[i - 1].pos == "NNP"@))
}

/// The token [`p205`] puts at `i`.
pub open spec fn p205_t(ts: Seq<TokenView>, i: int) -> TokenView {
    TokenView { pos: "VV"@, ..ts[i] }
}

/// 되/XSV after a proper noun is the verb 되/VV.
pub open spec fn p205(ts: Seq<TokenView>) -> Seq<TokenView> {
    map_where(ts, |ts: Seq<TokenView>, i: int| p205_c(ts, i), |ts: Seq<TokenView>, i: int| p205_t(ts, i))
}

/// Whether [`p205`] changes the token at `i`.
fn p205_c_exec(tokens: &Vec<SejongToken>, i: usize) -> (r: bool)
    requires
        i < tokens@.len(),
    ensures
        r == p205_c(tokens_view(tokens@), i as int),
{
    assert(tokens_view(tokens@).len() == tokens@.len());
    let c53 = surf_is(&tokens[i], "되");
    let c54 = pos_is(&tokens[i], "XSV");
    let c55 = (i >= 1) && pos_is(&tokens[i - 1], "NNP");
    ((c53 && c54) && c55)
}

/// The token [`p205`] puts at `i`.
fn p205_t_exec(tokens: &Vec<SejongToken>, i: usize) -> (t: SejongToken)
    requires
        i < tokens@.len(),
        p205_c(tokens_view(tokens@), i as int),
    ensures
        t@ == p205_t(tokens_view(tokens@), i as int),
{
    assert(tokens_view(tokens@).len() == tokens@.len());
    let s57 = owned("VV");
    let mut t56 = tokens[i].duplicate();
    t56.pos = s57;
    t56
}

/// 되/XSV after a proper noun is the verb 되/VV.
pub fn apply_p205(tokens: &mut Vec<SejongToken>)
    ensures
        tokens_view(final(tokens)@) == p205(tokens_view(old(tokens)@)),
{
    let ghost orig = tokens_view(tokens@);
    let mut out: Vec<SejongToken> = Vec::new();
    let mut k: usize = 0;
    while k < tokens.len()
        invariant
            k <= tokens@.len(),
            orig == tokens_view(tokens@),
            tokens_view(out@) == p205(orig).take(k as int),
        decreases tokens@.len() - k,
    {
        let t = if p205_c_exec(tokens, k) { p205_t_exec(tokens, k) } else { tokens[k].duplicate() };
        push_token(&mut out, t);
        k += 1;
        assert(tokens_view(out@) =~= p205(orig).take(k as int));
    }
    assert(p205(orig).take(k as int) =~= p205(orig));
    *tokens = out;
}

/// Corrections that follow the conjugation corrections.
pub open spec fn spec_apply_post_conjugation_corrections(ts: Seq<TokenView>) -> Seq<TokenView> {
    p205(p88(p87b(p87(p86(p220(ts))))))
}

/// Corrections that follow the conjugation corrections.
pub fn apply_post_conjugation_corrections(tokens: &mut Vec<SejongToken>)
    ensures
        tokens_view(final(tokens)@) == spec_apply_post_conjugation_corrections(tokens_view(old(tokens)@)),
{
    apply_p220(tokens);
    apply_p86(tokens);
    apply_p87(tokens);
    apply_p87b(tokens);
    apply_p88(tokens);
    apply_p205(tokens);
}

} // verus!
