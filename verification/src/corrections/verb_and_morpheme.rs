//! Verb splitting, ending normalisation, prefixes and bound nouns.

use vstd::prelude::*;
use crate::converter::tokens_view;
use crate::merges::{strip_suffix, strip_suffix_exec};
use crate::rewrite::{append_tokens, expand_pieces, expand_where, in_list, map_where, pos_is, pos_starts, push_token, scan, set_token, splice, splice_tokens, surf_ends, surf_is};
use crate::text::{char_count, concat, is_prefix, is_suffix, owned};
use crate::types::{plain_view, SejongToken, TokenView};

verus! {

/// Where rule 0 of [`p45`] applies.
pub open spec fn p45_c0(ts: Seq<TokenView>, i: int) -> bool {
    ((0 <= i < ts.len() && ts[i].pos == "EC"@) && (0 <= i < ts.len() && ts[i].surface.len() == 1) && (0 <= i + 1 < ts.len() && ts[i + 1].pos == "EC"@) && (0 <= i + 1 < ts.len() && seq!["면서"@, "아서"@, "어서"@, "니까"@, "으니까"@, "지만"@, "거나"@, "더니"@, "고나서"@, "자마자"@, "더라도"@, "으므로"@, "든지"@, "든가"@, "기에"@, "길래"@, "거든"@, "다면"@, "어도"@, "아도"@, "도록"@, "듯이"@, "데도"@, "므로"@, "다가"@, "는데"@, "ㄴ데"@].contains(ts[i + 1].surface)))
}

/// One step of [`p45`] at `i`: the list after it and the next position.
pub open spec fn p45_step(ts: Seq<TokenView>, i: int) -> (Seq<TokenView>, int) {
    if p45_c0(ts, i) {
        (splice(ts, i, 1, seq![]), i + 1)
    } else {
        (ts, i + 1)
    }
}

/// [`p45_step`] as a function value.
pub open spec fn p45_f() -> spec_fn(Seq<TokenView>, int) -> (Seq<TokenView>, int) {
    |ts: Seq<TokenView>, i: int| p45_step(ts, i)
}

/// A one-character connective ending before a longer connective ending is dropped (아/EC 면서/EC → 면서/EC).
pub open spec fn p45(ts: Seq<TokenView>) -> Seq<TokenView> {
    scan(ts, 0, p45_f())
}

/// Whether rule 0 of [`p45`] applies at `i`.
fn p45_c0_exec(tokens: &Vec<SejongToken>, i: usize) -> (r: bool)
    requires
        i < tokens@.len(),
    ensures
        r == p45_c0(tokens_view(tokens@), i as int),
{
    assert(tokens_view(tokens@).len() == tokens@.len());
    let c0 = pos_is(&tokens[i], "EC");
    let c1 = char_count(tokens[i].surface.as_str()) == 1;
    let c2 = (tokens.len() - i > 1) && pos_is(&tokens[i + 1], "EC");
    let l4: [&str; 27] = ["면서", "아서", "어서", "니까", "으니까", "지만", "거나", "더니", "고나서", "자마자", "더라도", "으므로", "든지", "든가", "기에", "길래", "거든", "다면", "어도", "아도", "도록", "듯이", "데도", "므로", "다가", "는데", "ㄴ데"];
    assert(crate::tag_map::strs_view(l4@) =~= seq!["면서"@, "아서"@, "어서"@, "니까"@, "으니까"@, "지만"@, "거나"@, "더니"@, "고나서"@, "자마자"@, "더라도"@, "으므로"@, "든지"@, "든가"@, "기에"@, "길래"@, "거든"@, "다면"@, "어도"@, "아도"@, "도록"@, "듯이"@, "데도"@, "므로"@, "다가"@, "는데"@, "ㄴ데"@]);
    let c3 = (tokens.len() - i > 1) && in_list(&l4, tokens[i + 1].surface.as_str());
    (c0 && c1 && c2 && c3)
}

/// One step of [`p45`] at `i`; returns the next position.
fn p45_step_exec(tokens: &mut Vec<SejongToken>, i: usize) -> (next: usize)
    requires
        i < old(tokens)@.len(),
    ensures
        (tokens_view(final(tokens)@), next as int) == p45_step(tokens_view(old(tokens)@), i as int),
        final(tokens)@.len() - next < old(tokens)@.len() - i,
        next <= final(tokens)@.len() + 1,
{
    let len0 = tokens.len();
    assert(tokens_view(tokens@).len() == tokens@.len());
    if p45_c0_exec(tokens, i) {
        let mut nv5: Vec<SejongToken> = Vec::new();
        splice_tokens(tokens, i, 1, nv5);
        let _len1 = tokens.len();
        return i + 1;
    }
    i + 1
}

/// A one-character connective ending before a longer connective ending is dropped (아/EC 면서/EC → 면서/EC).
pub fn apply_p45(tokens: &mut Vec<SejongToken>)
    ensures
        tokens_view(final(tokens)@) == p45(tokens_view(old(tokens)@)),
{
    let ghost orig = tokens_view(tokens@);
    let mut i: usize = 0;
    while i < tokens.len()
        invariant
            i <= tokens@.len() + 1,
            scan(tokens_view(tokens@), i as int, p45_f()) == scan(orig, 0, p45_f()),
        decreases tokens@.len() + 1 - i,
    {
        let ghost before = tokens_view(tokens@);
        assert(before.len() == tokens@.len());
        i = p45_step_exec(tokens, i);
        assert(tokens_view(tokens@).len() == tokens@.len());
    }
}

/// Where rule 0 of [`p46`] applies.
pub open spec fn p46_c0(ts: Seq<TokenView>, i: int) -> bool {
    ((0 <= i < ts.len() && ts[i].pos == "IC"@) && (0 <= i < ts.len() && seq!["으"@, "아"@, "어"@].contains(ts[i].surface)) && (0 <= i + 1 < ts.len() && ts[i + 1].pos == "EC"@))
}

/// One step of [`p46`] at `i`: the list after it and the next position.
pub open spec fn p46_step(ts: Seq<TokenView>, i: int) -> (Seq<TokenView>, int) {
    if p46_c0(ts, i) {
        (splice(ts, i, 2, seq![plain_view((ts[i].surface + ts[i + 1].surface), "EC"@, ts[i].start_pos, ts[i + 1].end_pos)]), i + 1)
    } else {
        (ts, i + 1)
    }
}

/// [`p46_step`] as a function value.
pub open spec fn p46_f() -> spec_fn(Seq<TokenView>, int) -> (Seq<TokenView>, int) {
    |ts: Seq<TokenView>, i: int| p46_step(ts, i)
}

/// 으, 아 or 어 tagged IC before a connective ending joins it (으/IC 면/EC → 으면/EC).
pub open spec fn p46(ts: Seq<TokenView>) -> Seq<TokenView> {
    scan(ts, 0, p46_f())
}

/// Whether rule 0 of [`p46`] applies at `i`.
fn p46_c0_exec(tokens: &Vec<SejongToken>, i: usize) -> (r: bool)
    requires
        i < tokens@.len(),
    ensures
        r == p46_c0(tokens_view(tokens@), i as int),
{
    assert(tokens_view(tokens@).len() == tokens@.len());
    let c6 = pos_is(&tokens[i], "IC");
    let l8: [&str; 3] = ["으", "아", "어"];
    assert(crate::tag_map::strs_view(l8@) =~= seq!["으"@, "아"@, "어"@]);
    let c7 = in_list(&l8, tokens[i].surface.as_str());
    let c9 = (tokens.len() - i > 1) && pos_is(&tokens[i + 1], "EC");
    (c6 && c7 && c9)
}

/// One step of [`p46`] at `i`; returns the next position.
fn p46_step_exec(tokens: &mut Vec<SejongToken>, i: usize) -> (next: usize)
    requires
        i < old(tokens)@.len(),
    ensures
        (tokens_view(final(tokens)@), next as int) == p46_step(tokens_view(old(tokens)@), i as int),
        final(tokens)@.len() - next < old(tokens)@.len() - i,
        next <= final(tokens)@.len() + 1,
{
    let len0 = tokens.len();
    assert(tokens_view(tokens@).len() == tokens@.len());
    if p46_c0_exec(tokens, i) {
        let s12 = tokens[i].surface.clone();
        let s13 = tokens[i + 1].surface.clone();
        let s11 = concat(s12.as_str(), s13.as_str());
        let s14 = owned("EC");
        let n15 = tokens[i].start_pos;
        let n16 = tokens[i + 1].end_pos;
        let t10 = SejongToken::new(s11.as_str(), s14.as_str(), n15, n16);
        let mut nv17: Vec<SejongToken> = Vec::new();
        push_token(&mut nv17, t10);
        splice_tokens(tokens, i, 2, nv17);
        let _len1 = tokens.len();
        return i + 1;
    }
    i + 1
}

/// 으, 아 or 어 tagged IC before a connective ending joins it (으/IC 면/EC → 으면/EC).
pub fn apply_p46(tokens: &mut Vec<SejongToken>)
    ensures
        tokens_view(final(tokens)@) == p46(tokens_view(old(tokens)@)),
{
    let ghost orig = tokens_view(tokens@);
    let mut i: usize = 0;
    while i < tokens.len()
        invariant
            i <= tokens@.len() + 1,
            scan(tokens_view(tokens@), i as int, p46_f()) == scan(orig, 0, p46_f()),
        decreases tokens@.len() + 1 - i,
    {
        let ghost before = tokens_view(tokens@);
        assert(before.len() == tokens@.len());
        i = p46_step_exec(tokens, i);
        assert(tokens_view(tokens@).len() == tokens@.len());
    }
}

/// Where rule 0 of [`p47`] applies.
pub open spec fn p47_c0(ts: Seq<TokenView>, i: int) -> bool {
    (((0 <= i < ts.len() && ts[i].surface == "으"@) && (0 <= i < ts.len() && ts[i].pos == "EF"@)) && (0 <= i + 1 < ts.len() && ts[i + 1].pos == "EC"@) && (0 <= i + 1 < ts.len() && seq!["면서"@, "니까"@, "으니까"@, "지만"@, "거나"@, "더니"@, "자마자"@, "더라도"@, "으므로"@, "든지"@, "든가"@, "기에"@, "길래"@, "거든"@, "다면"@, "어도"@, "아도"@, "도록"@, "듯이"@, "데도"@, "므로"@, "다가"@].contains(ts[i + 1].surface)))
}

/// One step of [`p47`] at `i`: the list after it and the next position.
pub open spec fn p47_step(ts: Seq<TokenView>, i: int) -> (Seq<TokenView>, int) {
    if p47_c0(ts, i) {
        (splice(ts, i, 2, seq![plain_view((ts[i].surface + ts[i + 1].surface), "EC"@, ts[i].start_pos, ts[i + 1].end_pos)]), i + 1)
    } else {
        (ts, i + 1)
    }
}

/// [`p47_step`] as a function value.
pub open spec fn p47_f() -> spec_fn(Seq<TokenView>, int) -> (Seq<TokenView>, int) {
    |ts: Seq<TokenView>, i: int| p47_step(ts, i)
}

/// 으/EF before a connective ending joins it (으/EF 면서/EC → 으면서/EC).
pub open spec fn p47(ts: Seq<TokenView>) -> Seq<TokenView> {
    scan(ts, 0, p47_f())
}

/// Whether rule 0 of [`p47`] applies at `i`.
fn p47_c0_exec(tokens: &Vec<SejongToken>, i: usize) -> (r: bool)
    requires
        i < tokens@.len(),
    ensures
        r == p47_c0(tokens_view(tokens@), i as int),
{
    assert(tokens_view(tokens@).len() == tokens@.len());
    let c18 = surf_is(&tokens[i], "으");
    let c19 = pos_is(&tokens[i], "EF");
    let c20 = (tokens.len() - i > 1) && pos_is(&tokens[i + 1], "EC");
    let l22: [&str; 22] = ["면서", "니까", "으니까", "지만", "거나", "더니", "자마자", "더라도", "으므로", "든지", "든가", "기에", "길래", "거든", "다면", "어도", "아도", "도록", "듯이", "데도", "므로", "다가"];
    assert(crate::tag_map::strs_view(l22@) =~= seq!["면서"@, "니까"@, "으니까"@, "지만"@, "거나"@, "더니"@, "자마자"@, "더라도"@, "으므로"@, "든지"@, "든가"@, "기에"@, "길래"@, "거든"@, "다면"@, "어도"@, "아도"@, "도록"@, "듯이"@, "데도"@, "므로"@, "다가"@]);
    let c21 = (tokens.len() - i > 1) && in_list(&l22, tokens[i + 1].surface.as_str());
    ((c18 && c19) && c20 && c21)
}

/// One step of [`p47`] at `i`; returns the next position.
fn p47_step_exec(tokens: &mut Vec<SejongToken>, i: usize) -> (next: usize)
    requires
        i < old(tokens)@.len(),
    ensures
        (tokens_view(final(tokens)@), next as int) == p47_step(tokens_view(old(tokens)@), i as int),
        final(tokens)@.len() - next < old(tokens)@.len() - i,
        next <= final(tokens)@.len() + 1,
{
    let len0 = tokens.len();
    assert(tokens_view(tokens@).len() == tokens@.len());
    if p47_c0_exec(tokens, i) {
        let s25 = tokens[i].surface.clone();
        let s26 = tokens[i + 1].surface.clone();
        let s24 = concat(s25.as_str(), s26.as_str());
        let s27 = owned("EC");
        let n28 = tokens[i].start_pos;
        let n29 = tokens[i + 1].end_pos;
        let t23 = SejongToken::new(s24.as_str(), s27.as_str(), n28, n29);
        let mut nv30: Vec<SejongToken> = Vec::new();
        push_token(&mut nv30, t23);
        splice_tokens(tokens, i, 2, nv30);
        let _len1 = tokens.len();
        return i + 1;
    }
    i + 1
}

/// 으/EF before a connective ending joins it (으/EF 면서/EC → 으면서/EC).
pub fn apply_p47(tokens: &mut Vec<SejongToken>)
    ensures
        tokens_view(final(tokens)@) == p47(tokens_view(old(tokens)@)),
{
    let ghost orig = tokens_view(tokens@);
    let mut i: usize = 0;
    while i < tokens.len()
        invariant
            i <= tokens@.len() + 1,
            scan(tokens_view(tokens@), i as int, p47_f()) == scan(orig, 0, p47_f()),
        decreases tokens@.len() + 1 - i,
    {
        let ghost before = tokens_view(tokens@);
        assert(before.len() == tokens@.len());
        i = p47_step_exec(tokens, i);
        assert(tokens_view(tokens@).len() == tokens@.len());
    }
}

/// Where rule 0 of [`p48`] applies.
pub open spec fn p48_c0(ts: Seq<TokenView>, i: int) -> bool {
    ((0 <= i < ts.len() && seq!["VV"@, "VA"@, "VX"@].contains(ts[i].pos)) && (0 <= i < ts.len() && ts[i].surface.len() >= 2) && (0 <= i + 1 < ts.len() && ts[i + 1].pos == "EC"@) && (0 <= i + 1 < ts.len() && seq!["면"@, "니"@, "니까"@, "서"@, "지만"@, "도"@, "거나"@, "다가"@, "더니"@].contains(ts[i + 1].surface)) && (is_suffix("으"@, ts[i].surface) && crate::hangul::ends_in_jongseong(strip_suffix(ts[i].surface, "으"@))))
}

/// One step of [`p48`] at `i`: the list after it and the next position.
pub open spec fn p48_step(ts: Seq<TokenView>, i: int) -> (Seq<TokenView>, int) {
    if p48_c0(ts, i) {
        (ts.update(i, plain_view(strip_suffix(ts[i].surface, "으"@), ts[i].pos, ts[i].start_pos, (ts[i].start_pos).saturating_add(strip_suffix(ts[i].surface, "으"@).len() as usize))).update(i + 1, plain_view(("으"@ + ts[i + 1].surface), "EC"@, (ts[i].start_pos).saturating_add(strip_suffix(ts[i].surface, "으"@).len() as usize), ts[i + 1].end_pos)), i + 2)
    } else {
        (ts, i + 1)
    }
}

/// [`p48_step`] as a function value.
pub open spec fn p48_f() -> spec_fn(Seq<TokenView>, int) -> (Seq<TokenView>, int) {
    |ts: Seq<TokenView>, i: int| p48_step(ts, i)
}

/// A stem ending in 으 after a final consonant gives its 으 to a following short connective ending (먹으/VV 면/EC → 먹/VV 으면/EC).
pub open spec fn p48(ts: Seq<TokenView>) -> Seq<TokenView> {
    scan(ts, 0, p48_f())
}

/// Whether rule 0 of [`p48`] applies at `i`.
fn p48_c0_exec(tokens: &Vec<SejongToken>, i: usize) -> (r: bool)
    requires
        i < tokens@.len(),
    ensures
        r == p48_c0(tokens_view(tokens@), i as int),
{
    assert(tokens_view(tokens@).len() == tokens@.len());
    let l32: [&str; 3] = ["VV", "VA", "VX"];
    assert(crate::tag_map::strs_view(l32@) =~= seq!["VV"@, "VA"@, "VX"@]);
    let c31 = in_list(&l32, tokens[i].pos.as_str());
    let c33 = char_count(tokens[i].surface.as_str()) >= 2;
    let c34 = (tokens.len() - i > 1) && pos_is(&tokens[i + 1], "EC");
    let l36: [&str; 9] = ["면", "니", "니까", "서", "지만", "도", "거나", "다가", "더니"];
    assert(crate::tag_map::strs_view(l36@) =~= seq!["면"@, "니"@, "니까"@, "서"@, "지만"@, "도"@, "거나"@, "다가"@, "더니"@]);
    let c35 = (tokens.len() - i > 1) && in_list(&l36, tokens[i + 1].surface.as_str());
    let c37 = surf_ends(&tokens[i], "으") && crate::hangul::last_has_jongseong(strip_suffix_exec(tokens[i].surface.as_str(), "으").as_str()) == Some(true);
    (c31 && c33 && c34 && c35 && c37)
}

/// One step of [`p48`] at `i`; returns the next position.
fn p48_step_exec(tokens: &mut Vec<SejongToken>, i: usize) -> (next: usize)
    requires
        i < old(tokens)@.len(),
    ensures
        (tokens_view(final(tokens)@), next as int) == p48_step(tokens_view(old(tokens)@), i as int),
        final(tokens)@.len() - next < old(tokens)@.len() - i,
        next <= final(tokens)@.len() + 1,
{
    let len0 = tokens.len();
    assert(tokens_view(tokens@).len() == tokens@.len());
    if p48_c0_exec(tokens, i) {
        let s40 = tokens[i].surface.clone();
        let s39 = strip_suffix_exec(s40.as_str(), "으");
        let s41 = tokens[i].pos.clone();
        let n42 = tokens[i].start_pos;
        let n44 = tokens[i].start_pos;
        let s46 = tokens[i].surface.clone();
        let s45 = strip_suffix_exec(s46.as_str(), "으");
        let n43 = n44.saturating_add(s45.unicode_len());
        let t38 = SejongToken::new(s39.as_str(), s41.as_str(), n42, n43);
        let s49 = owned("으");
        let s50 = tokens[i + 1].surface.clone();
        let s48 = concat(s49.as_str(), s50.as_str());
        let s51 = owned("EC");
        let n53 = tokens[i].start_pos;
        let s55 = tokens[i].surface.clone();
        let s54 = strip_suffix_exec(s55.as_str(), "으");
        let n52 = n53.saturating_add(s54.unicode_len());
        let n56 = tokens[i + 1].end_pos;
        let t47 = SejongToken::new(s48.as_str(), s51.as_str(), n52, n56);
        set_token(tokens, i, t38);
        set_token(tokens, i + 1, t47);
        let _len1 = tokens.len();
        return i + 2;
    }
    i + 1
}

/// A stem ending in 으 after a final consonant gives its 으 to a following short connective ending (먹으/VV 면/EC → 먹/VV 으면/EC).
pub fn apply_p48(tokens: &mut Vec<SejongToken>)
    ensures
        tokens_view(final(tokens)@) == p48(tokens_view(old(tokens)@)),
{
    let ghost orig = tokens_view(tokens@);
    let mut i: usize = 0;
    while i < tokens.len()
        invariant
            i <= tokens@.len() + 1,
            scan(tokens_view(tokens@), i as int, p48_f()) == scan(orig, 0, p48_f()),
        decreases tokens@.len() + 1 - i,
    {
        let ghost before = tokens_view(tokens@);
        assert(before.len() == tokens@.len());
        i = p48_step_exec(tokens, i);
        assert(tokens_view(tokens@).len() == tokens@.len());
    }
}

/// Where [`p49`] changes a token.
pub open spec fn p49_c(ts: Seq<TokenView>, i: int) -> bool {
    ((0 <= i - 1 < ts.len() && seq!["VV"@, "VA"@, "VX"@].contains(ts[i - 1].pos)) && (((0 <= i < ts.len() && ts[i].surface == "기"@) && (0 <= i < ts.len() && ts[i].pos == "NNG"@)) || ((0 <= i < ts.len() && ts[i].surface == "음"@) && (0 <= i < ts.len() && seq!["IC"@, "NNG"@].contains(ts[i].pos))) || ((0 <= i < ts.len() && ts[i].surface == "ㅁ"@) && (0 <= i < ts.len() && seq!["NNG"@, "IC"@].contains(ts[i].pos)))))
}

/// The token [`p49`] puts at `i`.
pub open spec fn p49_t(ts: Seq<TokenView>, i: int) -> TokenView {
    TokenView { pos: "ETN"@, ..ts[i] }
}

/// 기/NNG, 음/IC|NNG and ㅁ/NNG|IC after a verb, adjective or auxiliary are nominal endings (ETN).
pub open spec fn p49(ts: Seq<TokenView>) -> Seq<TokenView> {
    map_where(ts, |ts: Seq<TokenView>, i: int| p49_c(ts, i), |ts: Seq<TokenView>, i: int| p49_t(ts, i))
}

/// Whether [`p49`] changes the token at `i`.
fn p49_c_exec(tokens: &Vec<SejongToken>, i: usize) -> (r: bool)
    requires
        i < tokens@.len(),
    ensures
        r == p49_c(tokens_view(tokens@), i as int),
{
    assert(tokens_view(tokens@).len() == tokens@.len());
    let l58: [&str; 3] = ["VV", "VA", "VX"];
    assert(crate::tag_map::strs_view(l58@) =~= seq!["VV"@, "VA"@, "VX"@]);
    let c57 = (i >= 1) && in_list(&l58, tokens[i - 1].pos.as_str());
    let c59 = surf_is(&tokens[i], "기");
    let c60 = pos_is(&tokens[i], "NNG");
    let c61 = surf_is(&tokens[i], "음");
    let l63: [&str; 2] = ["IC", "NNG"];
    assert(crate::tag_map::strs_view(l63@) =~= seq!["IC"@, "NNG"@]);
    let c62 = in_list(&l63, tokens[i].pos.as_str());
    let c64 = surf_is(&tokens[i], "ㅁ");
    let l66: [&str; 2] = ["NNG", "IC"];
    assert(crate::tag_map::strs_view(l66@) =~= seq!["NNG"@, "IC"@]);
    let c65 = in_list(&l66, tokens[i].pos.as_str());
    (c57 && ((c59 && c60) || (c61 && c62) || (c64 && c65)))
}

/// The token [`p49`] puts at `i`.
fn p49_t_exec(tokens: &Vec<SejongToken>, i: usize) -> (t: SejongToken)
    requires
        i < tokens@.len(),
        p49_c(tokens_view(tokens@), i as int),
    ensures
        t@ == p49_t(tokens_view(tokens@), i as int),
{
    assert(tokens_view(tokens@).len() == tokens@.len());
    let s68 = owned("ETN");
    let mut t67 = tokens[i].duplicate();
    t67.pos = s68;
    t67
}

/// 기/NNG, 음/IC|NNG and ㅁ/NNG|IC after a verb, adjective or auxiliary are nominal endings (ETN).
pub fn apply_p49(tokens: &mut Vec<SejongToken>)
    ensures
        tokens_view(final(tokens)@) == p49(tokens_view(old(tokens)@)),
{
    let ghost orig = tokens_view(tokens@);
    let mut out: Vec<SejongToken> = Vec::new();
    let mut k: usize = 0;
    while k < tokens.len()
        invariant
            k <= tokens@.len(),
            orig == tokens_view(tokens@),
            tokens_view(out@) == p49(orig).take(k as int),
        decreases tokens@.len() - k,
    {
        let t = if p49_c_exec(tokens, k) { p49_t_exec(tokens, k) } else { tokens[k].duplicate() };
        push_token(&mut out, t);
        k += 1;
        assert(tokens_view(out@) =~= p49(orig).take(k as int));
    }
    assert(p49(orig).take(k as int) =~= p49(orig));
    *tokens = out;
}

/// Where [`p50`] changes a token.
pub open spec fn p50_c(ts: Seq<TokenView>, i: int) -> bool {
    ((0 <= i + 1 < ts.len() && seq!["NNG"@, "NNP"@].contains(ts[i + 1].pos)) && (((0 <= i < ts.len() && ts[i].pos == "MM"@) && (0 <= i < ts.len() && seq!["전"@, "현"@, "신"@, "구"@, "친"@, "총"@, "부"@, "대"@, "새"@, "첫"@, "맨"@, "헛"@, "옛"@, "순"@].contains(ts[i].surface))) || ((0 <= i < ts.len() && ts[i].surface == "구"@) && (0 <= i < ts.len() && ts[i].pos == "NR"@)) || ((0 <= i < ts.len() && ts[i].surface == "신"@) && (0 <= i < ts.len() && ts[i].pos == "VV"@)) || ((0 <= i < ts.len() && ts[i].pos == "VA"@) && (0 <= i < ts.len() && seq!["큰"@, "작"@].contains(ts[i].surface)))))
}

/// The token [`p50`] puts at `i`.
pub open spec fn p50_t(ts: Seq<TokenView>, i: int) -> TokenView {
    TokenView { pos: "XPN"@, ..ts[i] }
}

/// A prefix tagged MM, 구/NR, 신/VV, or 큰/작 tagged VA, before a noun is a prefix (XPN).
pub open spec fn p50(ts: Seq<TokenView>) -> Seq<TokenView> {
    map_where(ts, |ts: Seq<TokenView>, i: int| p50_c(ts, i), |ts: Seq<TokenView>, i: int| p50_t(ts, i))
}

/// Whether [`p50`] changes the token at `i`.
fn p50_c_exec(tokens: &Vec<SejongToken>, i: usize) -> (r: bool)
    requires
        i < tokens@.len(),
    ensures
        r == p50_c(tokens_view(tokens@), i as int),
{
    assert(tokens_view(tokens@).len() == tokens@.len());
    let l70: [&str; 2] = ["NNG", "NNP"];
    assert(crate::tag_map::strs_view(l70@) =~= seq!["NNG"@, "NNP"@]);
    let c69 = (tokens.len() - i > 1) && in_list(&l70, tokens[i + 1].pos.as_str());
    let c71 = pos_is(&tokens[i], "MM");
    let l73: [&str; 14] = ["전", "현", "신", "구", "친", "총", "부", "대", "새", "첫", "맨", "헛", "옛", "순"];
    assert(crate::tag_map::strs_view(l73@) =~= seq!["전"@, "현"@, "신"@, "구"@, "친"@, "총"@, "부"@, "대"@, "새"@, "첫"@, "맨"@, "헛"@, "옛"@, "순"@]);
    let c72 = in_list(&l73, tokens[i].surface.as_str());
    let c74 = surf_is(&tokens[i], "구");
    let c75 = pos_is(&tokens[i], "NR");
    let c76 = surf_is(&tokens[i], "신");
    let c77 = pos_is(&tokens[i], "VV");
    let c78 = pos_is(&tokens[i], "VA");
    let l80: [&str; 2] = ["큰", "작"];
    assert(crate::tag_map::strs_view(l80@) =~= seq!["큰"@, "작"@]);
    let c79 = in_list(&l80, tokens[i].surface.as_str());
    (c69 && ((c71 && c72) || (c74 && c75) || (c76 && c77) || (c78 && c79)))
}

/// The token [`p50`] puts at `i`.
fn p50_t_exec(tokens: &Vec<SejongToken>, i: usize) -> (t: SejongToken)
    requires
        i < tokens@.len(),
        p50_c(tokens_view(tokens@), i as int),
    ensures
        t@ == p50_t(tokens_view(tokens@), i as int),
{
    assert(tokens_view(tokens@).len() == tokens@.len());
    let s82 = owned("XPN");
    let mut t81 = tokens[i].duplicate();
    t81.pos = s82;
    t81
}

/// A prefix tagged MM, 구/NR, 신/VV, or 큰/작 tagged VA, before a noun is a prefix (XPN).
pub fn apply_p50(tokens: &mut Vec<SejongToken>)
    ensures
        tokens_view(final(tokens)@) == p50(tokens_view(old(tokens)@)),
{
    let ghost orig = tokens_view(tokens@);
    let mut out: Vec<SejongToken> = Vec::new();
    let mut k: usize = 0;
    while k < tokens.len()
        invariant
            k <= tokens@.len(),
            orig == tokens_view(tokens@),
            tokens_view(out@) == p50(orig).take(k as int),
        decreases tokens@.len() - k,
    {
        let t = if p50_c_exec(tokens, k) { p50_t_exec(tokens, k) } else { tokens[k].duplicate() };
        push_token(&mut out, t);
        k += 1;
        assert(tokens_view(out@) =~= p50(orig).take(k as int));
    }
    assert(p50(orig).take(k as int) =~= p50(orig));
    *tokens = out;
}

/// Where [`p54`] changes a token.
pub open spec fn p54_c(ts: Seq<TokenView>, i: int) -> bool {
    (((0 <= i < ts.len() && ts[i].surface == "있"@) && (0 <= i < ts.len() && ts[i].pos == "VX"@)) && !((0 <= i - 1 < ts.len() && ts[i - 1].surface == "고"@) && (0 <= i - 1 < ts.len() && ts[i - 1].pos == "EC"@)))
}

/// The token [`p54`] puts at `i`.
pub open spec fn p54_t(ts: Seq<TokenView>, i: int) -> TokenView {
    TokenView { pos: "VV"@, ..ts[i] }
}

/// 있/VX not after 고/EC is the verb 있/VV.
pub open spec fn p54(ts: Seq<TokenView>) -> Seq<TokenView> {
    map_where(ts, |ts: Seq<TokenView>, i: int| p54_c(ts, i), |ts: Seq<TokenView>, i: int| p54_t(ts, i))
}

/// Whether [`p54`] changes the token at `i`.
fn p54_c_exec(tokens: &Vec<SejongToken>, i: usize) -> (r: bool)
    requires
        i < tokens@.len(),
    ensures
        r == p54_c(tokens_view(tokens@), i as int),
{
    assert(tokens_view(tokens@).len() == tokens@.len());
    let c83 = surf_is(&tokens[i], "있");
    let c84 = pos_is(&tokens[i], "VX");
    let c85 = (i >= 1) && surf_is(&tokens[i - 1], "고");
    let c86 = (i >= 1) && pos_is(&tokens[i - 1], "EC");
    ((c83 && c84) && !(c85 && c86))
}

/// The token [`p54`] puts at `i`.
fn p54_t_exec(tokens: &Vec<SejongToken>, i: usize) -> (t: SejongToken)
    requires
        i < tokens@.len(),
        p54_c(tokens_view(tokens@), i as int),
    ensures
        t@ == p54_t(tokens_view(tokens@), i as int),
{
    assert(tokens_view(tokens@).len() == tokens@.len());
    let s88 = owned("VV");
    let mut t87 = tokens[i].duplicate();
    t87.pos = s88;
    t87
}

/// 있/VX not after 고/EC is the verb 있/VV.
pub fn apply_p54(tokens: &mut Vec<SejongToken>)
    ensures
        tokens_view(final(tokens)@) == p54(tokens_view(old(tokens)@)),
{
    let ghost orig = tokens_view(tokens@);
    let mut out: Vec<SejongToken> = Vec::new();
    let mut k: usize = 0;
    while k < tokens.len()
        invariant
            k <= tokens@.len(),
            orig == tokens_view(tokens@),
            tokens_view(out@) == p54(orig).take(k as int),
        decreases tokens@.len() - k,
    {
        let t = if p54_c_exec(tokens, k) { p54_t_exec(tokens, k) } else { tokens[k].duplicate() };
        push_token(&mut out, t);
        k += 1;
        assert(tokens_view(out@) =~= p54(orig).take(k as int));
    }
    assert(p54(orig).take(k as int) =~= p54(orig));
    *tokens = out;
}

/// Where rule 0 of [`p55`] applies.
pub open spec fn p55_c0(ts: Seq<TokenView>, i: int) -> bool {
    (((0 <= i < ts.len() && ts[i].surface == "하"@) && (0 <= i < ts.len() && ts[i].pos == "VV"@)) && ((0 <= i + 1 < ts.len() && ts[i + 1].surface == "ㅂ니다"@) && (0 <= i + 1 < ts.len() && ts[i + 1].pos == "EF"@)) && (0 <= i - 1 < ts.len() && ts[i - 1].pos == "EC"@))
}

/// Where rule 1 of [`p55`] applies.
pub open spec fn p55_c1(ts: Seq<TokenView>, i: int) -> bool {
    (((0 <= i < ts.len() && ts[i].surface == "가"@) && (0 <= i < ts.len() && ts[i].pos == "VV"@)) && ((0 <= i + 1 < ts.len() && ts[i + 1].surface == "ㅂ니다"@) && (0 <= i + 1 < ts.len() && ts[i + 1].pos == "EF"@)) && (0 <= i - 1 < ts.len() && ts[i - 1].pos == "EC"@))
}

/// Where rule 2 of [`p55`] applies.
pub open spec fn p55_c2(ts: Seq<TokenView>, i: int) -> bool {
    (((0 <= i < ts.len() && ts[i].surface == "오"@) && (0 <= i < ts.len() && ts[i].pos == "VV"@)) && ((0 <= i + 1 < ts.len() && ts[i + 1].surface == "ㅂ니다"@) && (0 <= i + 1 < ts.len() && ts[i + 1].pos == "EF"@)) && (0 <= i - 1 < ts.len() && ts[i - 1].pos == "EC"@))
}

/// One step of [`p55`] at `i`: the list after it and the next position.
pub open spec fn p55_step(ts: Seq<TokenView>, i: int) -> (Seq<TokenView>, int) {
    if p55_c0(ts, i) {
        (splice(ts, i, 2, seq![TokenView { surface: "합니다"@, pos: "EF"@, ..ts[i] }]), i + 1)
    } else if p55_c1(ts, i) {
        (splice(ts, i, 2, seq![TokenView { surface: "갑니다"@, pos: "EF"@, ..ts[i] }]), i + 1)
    } else if p55_c2(ts, i) {
        (splice(ts, i, 2, seq![TokenView { surface: "옵니다"@, pos: "EF"@, ..ts[i] }]), i + 1)
    } else {
        (ts, i + 1)
    }
}

/// [`p55_step`] as a function value.
pub open spec fn p55_f() -> spec_fn(Seq<TokenView>, int) -> (Seq<TokenView>, int) {
    |ts: Seq<TokenView>, i: int| p55_step(ts, i)
}

/// 하, 가 or 오 tagged VV with ㅂ니다/EF after a connective ending is one final ending (합니다/EF, 갑니다/EF, 옵니다/EF).
pub open spec fn p55(ts: Seq<TokenView>) -> Seq<TokenView> {
    scan(ts, 0, p55_f())
}

/// Whether rule 0 of [`p55`] applies at `i`.
fn p55_c0_exec(tokens: &Vec<SejongToken>, i: usize) -> (r: bool)
    requires
        i < tokens@.len(),
    ensures
        r == p55_c0(tokens_view(tokens@), i as int),
{
    assert(tokens_view(tokens@).len() == tokens@.len());
    let c89 = surf_is(&tokens[i], "하");
    let c90 = pos_is(&tokens[i], "VV");
    let c91 = (tokens.len() - i > 1) && surf_is(&tokens[i + 1], "ㅂ니다");
    let c92 = (tokens.len() - i > 1) && pos_is(&tokens[i + 1], "EF");
    let c93 = (i >= 1) && pos_is(&tokens[i - 1], "EC");
    ((c89 && c90) && (c91 && c92) && c93)
}

/// Whether rule 1 of [`p55`] applies at `i`.
fn p55_c1_exec(tokens: &Vec<SejongToken>, i: usize) -> (r: bool)
    requires
        i < tokens@.len(),
    ensures
        r == p55_c1(tokens_view(tokens@), i as int),
{
    assert(tokens_view(tokens@).len() == tokens@.len());
    let c94 = surf_is(&tokens[i], "가");
    let c95 = pos_is(&tokens[i], "VV");
    let c96 = (tokens.len() - i > 1) && surf_is(&tokens[i + 1], "ㅂ니다");
    let c97 = (tokens.len() - i > 1) && pos_is(&tokens[i + 1], "EF");
    let c98 = (i >= 1) && pos_is(&tokens[i - 1], "EC");
    ((c94 && c95) && (c96 && c97) && c98)
}

/// Whether rule 2 of [`p55`] applies at `i`.
fn p55_c2_exec(tokens: &Vec<SejongToken>, i: usize) -> (r: bool)
    requires
        i < tokens@.len(),
    ensures
        r == p55_c2(tokens_view(tokens@), i as int),
{
    assert(tokens_view(tokens@).len() == tokens@.len());
    let c99 = surf_is(&tokens[i], "오");
    let c100 = pos_is(&tokens[i], "VV");
    let c101 = (tokens.len() - i > 1) && surf_is(&tokens[i + 1], "ㅂ니다");
    let c102 = (tokens.len() - i > 1) && pos_is(&tokens[i + 1], "EF");
    let c103 = (i >= 1) && pos_is(&tokens[i - 1], "EC");
    ((c99 && c100) && (c101 && c102) && c103)
}

/// One step of [`p55`] at `i`; returns the next position.
fn p55_step_exec(tokens: &mut Vec<SejongToken>, i: usize) -> (next: usize)
    requires
        i < old(tokens)@.len(),
    ensures
        (tokens_view(final(tokens)@), next as int) == p55_step(tokens_view(old(tokens)@), i as int),
        final(tokens)@.len() - next < old(tokens)@.len() - i,
        next <= final(tokens)@.len() + 1,
{
    let len0 = tokens.len();
    assert(tokens_view(tokens@).len() == tokens@.len());
    if p55_c0_exec(tokens, i) {
        let s105 = owned("합니다");
        let s106 = owned("EF");
        let mut t104 = tokens[i].duplicate();
        t104.surface = s105;
        t104.pos = s106;
        let mut nv107: Vec<SejongToken> = Vec::new();
        push_token(&mut nv107, t104);
        splice_tokens(tokens, i, 2, nv107);
        let _len1 = tokens.len();
        return i + 1;
    }
    if p55_c1_exec(tokens, i) {
        let s109 = owned("갑니다");
        let s110 = owned("EF");
        let mut t108 = tokens[i].duplicate();
        t108.surface = s109;
        t108.pos = s110;
        let mut nv111: Vec<SejongToken> = Vec::new();
        push_token(&mut nv111, t108);
        splice_tokens(tokens, i, 2, nv111);
        let _len1 = tokens.len();
        return i + 1;
    }
    if p55_c2_exec(tokens, i) {
        let s113 = owned("옵니다");
        let s114 = owned("EF");
        let mut t112 = tokens[i].duplicate();
        t112.surface = s113;
        t112.pos = s114;
        let mut nv115: Vec<SejongToken> = Vec::new();
        push_token(&mut nv115, t112);
        splice_tokens(tokens, i, 2, nv115);
        let _len1 = tokens.len();
        return i + 1;
    }
    i + 1
}

/// 하, 가 or 오 tagged VV with ㅂ니다/EF after a connective ending is one final ending (합니다/EF, 갑니다/EF, 옵니다/EF).
pub fn apply_p55(tokens: &mut Vec<SejongToken>)
    ensures
        tokens_view(final(tokens)@) == p55(tokens_view(old(tokens)@)),
{
    let ghost orig = tokens_view(tokens@);
    let mut i: usize = 0;
    while i < tokens.len()
        invariant
            i <= tokens@.len() + 1,
            scan(tokens_view(tokens@), i as int, p55_f()) == scan(orig, 0, p55_f()),
        decreases tokens@.len() + 1 - i,
    {
        let ghost before = tokens_view(tokens@);
        assert(before.len() == tokens@.len());
        i = p55_step_exec(tokens, i);
        assert(tokens_view(tokens@).len() == tokens@.len());
    }
}

/// Where rule 0 of [`p57`] applies.
pub open spec fn p57_c0(ts: Seq<TokenView>, i: int) -> bool {
    (((0 <= i < ts.len() && ts[i].surface == "감"@) && (0 <= i < ts.len() && ts[i].pos == "NNG"@)) && ((!(0 <= i - 1 < ts.len() && ts[i - 1].pos == "NNG"@) || ((0 <= i - 1 < ts.len() && ts[i - 1].pos == "NNG"@) && (0 <= i - 1 < ts.len() && seq!["감"@, "봄"@, "함"@, "섬"@, "삶"@, "앎"@, "죽음"@].contains(ts[i - 1].surface)))) && (((0 <= i + 1 < ts.len() && is_prefix("JK"@, ts[i + 1].pos)) || (0 <= i + 1 < ts.len() && seq!["JX"@, "JC"@].contains(ts[i + 1].pos))) || !(0 <= i + 1 < ts.len() && true) || ((0 <= i + 1 < ts.len() && ts[i + 1].pos == "NNG"@) && (0 <= i + 1 < ts.len() && seq!["감"@, "봄"@, "함"@, "섬"@, "삶"@, "앎"@, "죽음"@].contains(ts[i + 1].surface))) || ((0 <= i - 1 < ts.len() && ts[i - 1].pos == "NNG"@) && (0 <= i - 1 < ts.len() && seq!["감"@, "봄"@, "함"@, "섬"@, "삶"@, "앎"@, "죽음"@].contains(ts[i - 1].surface))))))
}

/// Where rule 1 of [`p57`] applies.
pub open spec fn p57_c1(ts: Seq<TokenView>, i: int) -> bool {
    (((0 <= i < ts.len() && ts[i].surface == "봄"@) && (0 <= i < ts.len() && ts[i].pos == "NNG"@)) && ((!(0 <= i - 1 < ts.len() && ts[i - 1].pos == "NNG"@) || ((0 <= i - 1 < ts.len() && ts[i - 1].pos == "NNG"@) && (0 <= i - 1 < ts.len() && seq!["감"@, "봄"@, "함"@, "섬"@, "삶"@, "앎"@, "죽음"@].contains(ts[i - 1].surface)))) && (((0 <= i + 1 < ts.len() && is_prefix("JK"@, ts[i + 1].pos)) || (0 <= i + 1 < ts.len() && seq!["JX"@, "JC"@].contains(ts[i + 1].pos))) || !(0 <= i + 1 < ts.len() && true) || ((0 <= i + 1 < ts.len() && ts[i + 1].pos == "NNG"@) && (0 <= i + 1 < ts.len() && seq!["감"@, "봄"@, "함"@, "섬"@, "삶"@, "앎"@, "죽음"@].contains(ts[i + 1].surface))) || ((0 <= i - 1 < ts.len() && ts[i - 1].pos == "NNG"@) && (0 <= i - 1 < ts.len() && seq!["감"@, "봄"@, "함"@, "섬"@, "삶"@, "앎"@, "죽음"@].contains(ts[i - 1].surface))))))
}

/// Where rule 2 of [`p57`] applies.
pub open spec fn p57_c2(ts: Seq<TokenView>, i: int) -> bool {
    (((0 <= i < ts.len() && ts[i].surface == "함"@) && (0 <= i < ts.len() && ts[i].pos == "NNG"@)) && ((!(0 <= i - 1 < ts.len() && ts[i - 1].pos == "NNG"@) || ((0 <= i - 1 < ts.len() && ts[i - 1].pos == "NNG"@) && (0 <= i - 1 < ts.len() && seq!["감"@, "봄"@, "함"@, "섬"@, "삶"@, "앎"@, "죽음"@].contains(ts[i - 1].surface)))) && (((0 <= i + 1 < ts.len() && is_prefix("JK"@, ts[i + 1].pos)) || (0 <= i + 1 < ts.len() && seq!["JX"@, "JC"@].contains(ts[i + 1].pos))) || !(0 <= i + 1 < ts.len() && true) || ((0 <= i + 1 < ts.len() && ts[i + 1].pos == "NNG"@) && (0 <= i + 1 < ts.len() && seq!["감"@, "봄"@, "함"@, "섬"@, "삶"@, "앎"@, "죽음"@].contains(ts[i + 1].surface))) || ((0 <= i - 1 < ts.len() && ts[i - 1].pos == "NNG"@) && (0 <= i - 1 < ts.len() && seq!["감"@, "봄"@, "함"@, "섬"@, "삶"@, "앎"@, "죽음"@].contains(ts[i - 1].surface))))))
}

/// Where rule 3 of [`p57`] applies.
pub open spec fn p57_c3(ts: Seq<TokenView>, i: int) -> bool {
    (((0 <= i < ts.len() && ts[i].surface == "섬"@) && (0 <= i < ts.len() && ts[i].pos == "NNG"@)) && ((!(0 <= i - 1 < ts.len() && ts[i - 1].pos == "NNG"@) || ((0 <= i - 1 < ts.len() && ts[i - 1].pos == "NNG"@) && (0 <= i - 1 < ts.len() && seq!["감"@, "봄"@, "함"@, "섬"@, "삶"@, "앎"@, "죽음"@].contains(ts[i - 1].surface)))) && (((0 <= i + 1 < ts.len() && is_prefix("JK"@, ts[i + 1].pos)) || (0 <= i + 1 < ts.len() && seq!["JX"@, "JC"@].contains(ts[i + 1].pos))) || !(0 <= i + 1 < ts.len() && true) || ((0 <= i + 1 < ts.len() && ts[i + 1].pos == "NNG"@) && (0 <= i + 1 < ts.len() && seq!["감"@, "봄"@, "함"@, "섬"@, "삶"@, "앎"@, "죽음"@].contains(ts[i + 1].surface))) || ((0 <= i - 1 < ts.len() && ts[i - 1].pos == "NNG"@) && (0 <= i - 1 < ts.len() && seq!["감"@, "봄"@, "함"@, "섬"@, "삶"@, "앎"@, "죽음"@].contains(ts[i - 1].surface))))))
}

/// Where rule 4 of [`p57`] applies.
pub open spec fn p57_c4(ts: Seq<TokenView>, i: int) -> bool {
    (((0 <= i < ts.len() && ts[i].surface == "삶"@) && (0 <= i < ts.len() && ts[i].pos == "NNG"@)) && ((!(0 <= i - 1 < ts.len() && ts[i - 1].pos == "NNG"@) || ((0 <= i - 1 < ts.len() && ts[i - 1].pos == "NNG"@) && (0 <= i - 1 < ts.len() && seq!["감"@, "봄"@, "함"@, "섬"@, "삶"@, "앎"@, "죽음"@].contains(ts[i - 1].surface)))) && (((0 <= i + 1 < ts.len() && is_prefix("JK"@, ts[i + 1].pos)) || (0 <= i + 1 < ts.len() && seq!["JX"@, "JC"@].contains(ts[i + 1].pos))) || !(0 <= i + 1 < ts.len() && true) || ((0 <= i + 1 < ts.len() && ts[i + 1].pos == "NNG"@) && (0 <= i + 1 < ts.len() && seq!["감"@, "봄"@, "함"@, "섬"@, "삶"@, "앎"@, "죽음"@].contains(ts[i + 1].surface))) || ((0 <= i - 1 < ts.len() && ts[i - 1].pos == "NNG"@) && (0 <= i - 1 < ts.len() && seq!["감"@, "봄"@, "함"@, "섬"@, "삶"@, "앎"@, "죽음"@].contains(ts[i - 1].surface))))))
}

/// Where rule 5 of [`p57`] applies.
pub open spec fn p57_c5(ts: Seq<TokenView>, i: int) -> bool {
    (((0 <= i < ts.len() && ts[i].surface == "앎"@) && (0 <= i < ts.len() && ts[i].pos == "NNG"@)) && ((!(0 <= i - 1 < ts.len() && ts[i - 1].pos == "NNG"@) || ((0 <= i - 1 < ts.len() && ts[i - 1].pos == "NNG"@) && (0 <= i - 1 < ts.len() && seq!["감"@, "봄"@, "함"@, "섬"@, "삶"@, "앎"@, "죽음"@].contains(ts[i - 1].surface)))) && (((0 <= i + 1 < ts.len() && is_prefix("JK"@, ts[i + 1].pos)) || (0 <= i + 1 < ts.len() && seq!["JX"@, "JC"@].contains(ts[i + 1].pos))) || !(0 <= i + 1 < ts.len() && true) || ((0 <= i + 1 < ts.len() && ts[i + 1].pos == "NNG"@) && (0 <= i + 1 < ts.len() && seq!["감"@, "봄"@, "함"@, "섬"@, "삶"@, "앎"@, "죽음"@].contains(ts[i + 1].surface))) || ((0 <= i - 1 < ts.len() && ts[i - 1].pos == "NNG"@) && (0 <= i - 1 < ts.len() && seq!["감"@, "봄"@, "함"@, "섬"@, "삶"@, "앎"@, "죽음"@].contains(ts[i - 1].surface))))))
}

/// Where rule 6 of [`p57`] applies.
pub open spec fn p57_c6(ts: Seq<TokenView>, i: int) -> bool {
    (((0 <= i < ts.len() && ts[i].surface == "죽음"@) && (0 <= i < ts.len() && ts[i].pos == "NNG"@)) && ((!(0 <= i - 1 < ts.len() && ts[i - 1].pos == "NNG"@) || ((0 <= i - 1 < ts.len() && ts[i - 1].pos == "NNG"@) && (0 <= i - 1 < ts.len() && seq!["감"@, "봄"@, "함"@, "섬"@, "삶"@, "앎"@, "죽음"@].contains(ts[i - 1].surface)))) && (((0 <= i + 1 < ts.len() && is_prefix("JK"@, ts[i + 1].pos)) || (0 <= i + 1 < ts.len() && seq!["JX"@, "JC"@].contains(ts[i + 1].pos))) || !(0 <= i + 1 < ts.len() && true) || ((0 <= i + 1 < ts.len() && ts[i + 1].pos == "NNG"@) && (0 <= i + 1 < ts.len() && seq!["감"@, "봄"@, "함"@, "섬"@, "삶"@, "앎"@, "죽음"@].contains(ts[i + 1].surface))) || ((0 <= i - 1 < ts.len() && ts[i - 1].pos == "NNG"@) && (0 <= i - 1 < ts.len() && seq!["감"@, "봄"@, "함"@, "섬"@, "삶"@, "앎"@, "죽음"@].contains(ts[i - 1].surface))))))
}

/// Where [`p57`] replaces a token.
pub open spec fn p57_c(ts: Seq<TokenView>, i: int) -> bool {
    p57_c0(ts, i) || p57_c1(ts, i) || p57_c2(ts, i) || p57_c3(ts, i) || p57_c4(ts, i) || p57_c5(ts, i) || p57_c6(ts, i)
}

/// The tokens [`p57`] puts in place of the token at `i`.
pub open spec fn p57_t(ts: Seq<TokenView>, i: int) -> Seq<TokenView> {
    if p57_c0(ts, i) {
        seq![plain_view("가"@, "VV"@, ts[i].start_pos, (ts[i].start_pos).saturating_add(1)), plain_view("ㅁ"@, "ETN"@, (ts[i].start_pos).saturating_add(1), ts[i].end_pos)]
    } else if p57_c1(ts, i) {
        seq![plain_view("보"@, "VV"@, ts[i].start_pos, (ts[i].start_pos).saturating_add(1)), plain_view("ㅁ"@, "ETN"@, (ts[i].start_pos).saturating_add(1), ts[i].end_pos)]
    } else if p57_c2(ts, i) {
        seq![plain_view("하"@, "VV"@, ts[i].start_pos, (ts[i].start_pos).saturating_add(1)), plain_view("ㅁ"@, "ETN"@, (ts[i].start_pos).saturating_add(1), ts[i].end_pos)]
    } else if p57_c3(ts, i) {
        seq![plain_view("서"@, "VV"@, ts[i].start_pos, (ts[i].start_pos).saturating_add(1)), plain_view("ㅁ"@, "ETN"@, (ts[i].start_pos).saturating_add(1), ts[i].end_pos)]
    } else if p57_c4(ts, i) {
        seq![plain_view("살"@, "VV"@, ts[i].start_pos, (ts[i].start_pos).saturating_add(1)), plain_view("ㅁ"@, "ETN"@, (ts[i].start_pos).saturating_add(1), ts[i].end_pos)]
    } else if p57_c5(ts, i) {
        seq![plain_view("알"@, "VV"@, ts[i].start_pos, (ts[i].start_pos).saturating_add(1)), plain_view("ㅁ"@, "ETN"@, (ts[i].start_pos).saturating_add(1), ts[i].end_pos)]
    } else if p57_c6(ts, i) {
        seq![plain_view("죽"@, "VV"@, ts[i].start_pos, (ts[i].start_pos).saturating_add(1)), plain_view("음"@, "ETN"@, (ts[i].start_pos).saturating_add(1), ts[i].end_pos)]
    } else {
        seq![]
    }
}

/// [`p57_c`] as a function value.
pub open spec fn p57_cf() -> spec_fn(Seq<TokenView>, int) -> bool {
    |ts: Seq<TokenView>, i: int| p57_c(ts, i)
}

/// [`p57_t`] as a function value.
pub open spec fn p57_tf() -> spec_fn(Seq<TokenView>, int) -> Seq<TokenView> {
    |ts: Seq<TokenView>, i: int| p57_t(ts, i)
}

/// A noun that is a nominalised verb (감, 봄, 함, 섬, 삶, 앎, 죽음) is split into the stem and ㅁ/ETN or 음/ETN when it stands alone, before a particle, or beside another such noun, and not after another common noun.
pub open spec fn p57(ts: Seq<TokenView>) -> Seq<TokenView> {
    expand_where(ts, p57_cf(), p57_tf())
}

/// Whether rule 0 of [`p57`] applies at `i`.
fn p57_c0_exec(tokens: &Vec<SejongToken>, i: usize) -> (r: bool)
    requires
        i < tokens@.len(),
    ensures
        r == p57_c0(tokens_view(tokens@), i as int),
{
    assert(tokens_view(tokens@).len() == tokens@.len());
    let c116 = surf_is(&tokens[i], "감");
    let c117 = pos_is(&tokens[i], "NNG");
    let c118 = (i >= 1) && pos_is(&tokens[i - 1], "NNG");
    let c119 = (i >= 1) && pos_is(&tokens[i - 1], "NNG");
    let l121: [&str; 7] = ["감", "봄", "함", "섬", "삶", "앎", "죽음"];
    assert(crate::tag_map::strs_view(l121@) =~= seq!["감"@, "봄"@, "함"@, "섬"@, "삶"@, "앎"@, "죽음"@]);
    let c120 = (i >= 1) && in_list(&l121, tokens[i - 1].surface.as_str());
    let c122 = (tokens.len() - i > 1) && pos_starts(&tokens[i + 1], "JK");
    let l124: [&str; 2] = ["JX", "JC"];
    assert(crate::tag_map::strs_view(l124@) =~= seq!["JX"@, "JC"@]);
    let c123 = (tokens.len() - i > 1) && in_list(&l124, tokens[i + 1].pos.as_str());
    let c125 = (tokens.len() - i > 1) && true;
    let c126 = (tokens.len() - i > 1) && pos_is(&tokens[i + 1], "NNG");
    let l128: [&str; 7] = ["감", "봄", "함", "섬", "삶", "앎", "죽음"];
    assert(crate::tag_map::strs_view(l128@) =~= seq!["감"@, "봄"@, "함"@, "섬"@, "삶"@, "앎"@, "죽음"@]);
    let c127 = (tokens.len() - i > 1) && in_list(&l128, tokens[i + 1].surface.as_str());
    let c129 = (i >= 1) && pos_is(&tokens[i - 1], "NNG");
    let l131: [&str; 7] = ["감", "봄", "함", "섬", "삶", "앎", "죽음"];
    assert(crate::tag_map::strs_view(l131@) =~= seq!["감"@, "봄"@, "함"@, "섬"@, "삶"@, "앎"@, "죽음"@]);
    let c130 = (i >= 1) && in_list(&l131, tokens[i - 1].surface.as_str());
    ((c116 && c117) && ((!c118 || (c119 && c120)) && ((c122 || c123) || !c125 || (c126 && c127) || (c129 && c130))))
}

/// Whether rule 1 of [`p57`] applies at `i`.
fn p57_c1_exec(tokens: &Vec<SejongToken>, i: usize) -> (r: bool)
    requires
        i < tokens@.len(),
    ensures
        r == p57_c1(tokens_view(tokens@), i as int),
{
    assert(tokens_view(tokens@).len() == tokens@.len());
    let c132 = surf_is(&tokens[i], "봄");
    let c133 = pos_is(&tokens[i], "NNG");
    let c134 = (i >= 1) && pos_is(&tokens[i - 1], "NNG");
    let c135 = (i >= 1) && pos_is(&tokens[i - 1], "NNG");
    let l137: [&str; 7] = ["감", "봄", "함", "섬", "삶", "앎", "죽음"];
    assert(crate::tag_map::strs_view(l137@) =~= seq!["감"@, "봄"@, "함"@, "섬"@, "삶"@, "앎"@, "죽음"@]);
    let c136 = (i >= 1) && in_list(&l137, tokens[i - 1].surface.as_str());
    let c138 = (tokens.len() - i > 1) && pos_starts(&tokens[i + 1], "JK");
    let l140: [&str; 2] = ["JX", "JC"];
    assert(crate::tag_map::strs_view(l140@) =~= seq!["JX"@, "JC"@]);
    let c139 = (tokens.len() - i > 1) && in_list(&l140, tokens[i + 1].pos.as_str());
    let c141 = (tokens.len() - i > 1) && true;
    let c142 = (tokens.len() - i > 1) && pos_is(&tokens[i + 1], "NNG");
    let l144: [&str; 7] = ["감", "봄", "함", "섬", "삶", "앎", "죽음"];
    assert(crate::tag_map::strs_view(l144@) =~= seq!["감"@, "봄"@, "함"@, "섬"@, "삶"@, "앎"@, "죽음"@]);
    let c143 = (tokens.len() - i > 1) && in_list(&l144, tokens[i + 1].surface.as_str());
    let c145 = (i >= 1) && pos_is(&tokens[i - 1], "NNG");
    let l147: [&str; 7] = ["감", "봄", "함", "섬", "삶", "앎", "죽음"];
    assert(crate::tag_map::strs_view(l147@) =~= seq!["감"@, "봄"@, "함"@, "섬"@, "삶"@, "앎"@, "죽음"@]);
    let c146 = (i >= 1) && in_list(&l147, tokens[i - 1].surface.as_str());
    ((c132 && c133) && ((!c134 || (c135 && c136)) && ((c138 || c139) || !c141 || (c142 && c143) || (c145 && c146))))
}

/// Whether rule 2 of [`p57`] applies at `i`.
fn p57_c2_exec(tokens: &Vec<SejongToken>, i: usize) -> (r: bool)
    requires
        i < tokens@.len(),
    ensures
        r == p57_c2(tokens_view(tokens@), i as int),
{
    assert(tokens_view(tokens@).len() == tokens@.len());
    let c148 = surf_is(&tokens[i], "함");
    let c149 = pos_is(&tokens[i], "NNG");
    let c150 = (i >= 1) && pos_is(&tokens[i - 1], "NNG");
    let c151 = (i >= 1) && pos_is(&tokens[i - 1], "NNG");
    let l153: [&str; 7] = ["감", "봄", "함", "섬", "삶", "앎", "죽음"];
    assert(crate::tag_map::strs_view(l153@) =~= seq!["감"@, "봄"@, "함"@, "섬"@, "삶"@, "앎"@, "죽음"@]);
    let c152 = (i >= 1) && in_list(&l153, tokens[i - 1].surface.as_str());
    let c154 = (tokens.len() - i > 1) && pos_starts(&tokens[i + 1], "JK");
    let l156: [&str; 2] = ["JX", "JC"];
    assert(crate::tag_map::strs_view(l156@) =~= seq!["JX"@, "JC"@]);
    let c155 = (tokens.len() - i > 1) && in_list(&l156, tokens[i + 1].pos.as_str());
    let c157 = (tokens.len() - i > 1) && true;
    let c158 = (tokens.len() - i > 1) && pos_is(&tokens[i + 1], "NNG");
    let l160: [&str; 7] = ["감", "봄", "함", "섬", "삶", "앎", "죽음"];
    assert(crate::tag_map::strs_view(l160@) =~= seq!["감"@, "봄"@, "함"@, "섬"@, "삶"@, "앎"@, "죽음"@]);
    let c159 = (tokens.len() - i > 1) && in_list(&l160, tokens[i + 1].surface.as_str());
    let c161 = (i >= 1) && pos_is(&tokens[i - 1], "NNG");
    let l163: [&str; 7] = ["감", "봄", "함", "섬", "삶", "앎", "죽음"];
    assert(crate::tag_map::strs_view(l163@) =~= seq!["감"@, "봄"@, "함"@, "섬"@, "삶"@, "앎"@, "죽음"@]);
    let c162 = (i >= 1) && in_list(&l163, tokens[i - 1].surface.as_str());
    ((c148 && c149) && ((!c150 || (c151 && c152)) && ((c154 || c155) || !c157 || (c158 && c159) || (c161 && c162))))
}

/// Whether rule 3 of [`p57`] applies at `i`.
fn p57_c3_exec(tokens: &Vec<SejongToken>, i: usize) -> (r: bool)
    requires
        i < tokens@.len(),
    ensures
        r == p57_c3(tokens_view(tokens@), i as int),
{
    assert(tokens_view(tokens@).len() == tokens@.len());
    let c164 = surf_is(&tokens[i], "섬");
    let c165 = pos_is(&tokens[i], "NNG");
    let c166 = (i >= 1) && pos_is(&tokens[i - 1], "NNG");
    let c167 = (i >= 1) && pos_is(&tokens[i - 1], "NNG");
    let l169: [&str; 7] = ["감", "봄", "함", "섬", "삶", "앎", "죽음"];
    assert(crate::tag_map::strs_view(l169@) =~= seq!["감"@, "봄"@, "함"@, "섬"@, "삶"@, "앎"@, "죽음"@]);
    let c168 = (i >= 1) && in_list(&l169, tokens[i - 1].surface.as_str());
    let c170 = (tokens.len() - i > 1) && pos_starts(&tokens[i + 1], "JK");
    let l172: [&str; 2] = ["JX", "JC"];
    assert(crate::tag_map::strs_view(l172@) =~= seq!["JX"@, "JC"@]);
    let c171 = (tokens.len() - i > 1) && in_list(&l172, tokens[i + 1].pos.as_str());
    let c173 = (tokens.len() - i > 1) && true;
    let c174 = (tokens.len() - i > 1) && pos_is(&tokens[i + 1], "NNG");
    let l176: [&str; 7] = ["감", "봄", "함", "섬", "삶", "앎", "죽음"];
    assert(crate::tag_map::strs_view(l176@) =~= seq!["감"@, "봄"@, "함"@, "섬"@, "삶"@, "앎"@, "죽음"@]);
    let c175 = (tokens.len() - i > 1) && in_list(&l176, tokens[i + 1].surface.as_str());
    let c177 = (i >= 1) && pos_is(&tokens[i - 1], "NNG");
    let l179: [&str; 7] = ["감", "봄", "함", "섬", "삶", "앎", "죽음"];
    assert(crate::tag_map::strs_view(l179@) =~= seq!["감"@, "봄"@, "함"@, "섬"@, "삶"@, "앎"@, "죽음"@]);
    let c178 = (i >= 1) && in_list(&l179, tokens[i - 1].surface.as_str());
    ((c164 && c165) && ((!c166 || (c167 && c168)) && ((c170 || c171) || !c173 || (c174 && c175) || (c177 && c178))))
}

/// Whether rule 4 of [`p57`] applies at `i`.
fn p57_c4_exec(tokens: &Vec<SejongToken>, i: usize) -> (r: bool)
    requires
        i < tokens@.len(),
    ensures
        r == p57_c4(tokens_view(tokens@), i as int),
{
    assert(tokens_view(tokens@).len() == tokens@.len());
    let c180 = surf_is(&tokens[i], "삶");
    let c181 = pos_is(&tokens[i], "NNG");
    let c182 = (i >= 1) && pos_is(&tokens[i - 1], "NNG");
    let c183 = (i >= 1) && pos_is(&tokens[i - 1], "NNG");
    let l185: [&str; 7] = ["감", "봄", "함", "섬", "삶", "앎", "죽음"];
    assert(crate::tag_map::strs_view(l185@) =~= seq!["감"@, "봄"@, "함"@, "섬"@, "삶"@, "앎"@, "죽음"@]);
    let c184 = (i >= 1) && in_list(&l185, tokens[i - 1].surface.as_str());
    let c186 = (tokens.len() - i > 1) && pos_starts(&tokens[i + 1], "JK");
    let l188: [&str; 2] = ["JX", "JC"];
    assert(crate::tag_map::strs_view(l188@) =~= seq!["JX"@, "JC"@]);
    let c187 = (tokens.len() - i > 1) && in_list(&l188, tokens[i + 1].pos.as_str());
    let c189 = (tokens.len() - i > 1) && true;
    let c190 = (tokens.len() - i > 1) && pos_is(&tokens[i + 1], "NNG");
    let l192: [&str; 7] = ["감", "봄", "함", "섬", "삶", "앎", "죽음"];
    assert(crate::tag_map::strs_view(l192@) =~= seq!["감"@, "봄"@, "함"@, "섬"@, "삶"@, "앎"@, "죽음"@]);
    let c191 = (tokens.len() - i > 1) && in_list(&l192, tokens[i + 1].surface.as_str());
    let c193 = (i >= 1) && pos_is(&tokens[i - 1], "NNG");
    let l195: [&str; 7] = ["감", "봄", "함", "섬", "삶", "앎", "죽음"];
    assert(crate::tag_map::strs_view(l195@) =~= seq!["감"@, "봄"@, "함"@, "섬"@, "삶"@, "앎"@, "죽음"@]);
    let c194 = (i >= 1) && in_list(&l195, tokens[i - 1].surface.as_str());
    ((c180 && c181) && ((!c182 || (c183 && c184)) && ((c186 || c187) || !c189 || (c190 && c191) || (c193 && c194))))
}

/// Whether rule 5 of [`p57`] applies at `i`.
fn p57_c5_exec(tokens: &Vec<SejongToken>, i: usize) -> (r: bool)
    requires
        i < tokens@.len(),
    ensures
        r == p57_c5(tokens_view(tokens@), i as int),
{
    assert(tokens_view(tokens@).len() == tokens@.len());
    let c196 = surf_is(&tokens[i], "앎");
    let c197 = pos_is(&tokens[i], "NNG");
    let c198 = (i >= 1) && pos_is(&tokens[i - 1], "NNG");
    let c199 = (i >= 1) && pos_is(&tokens[i - 1], "NNG");
    let l201: [&str; 7] = ["감", "봄", "함", "섬", "삶", "앎", "죽음"];
    assert(crate::tag_map::strs_view(l201@) =~= seq!["감"@, "봄"@, "함"@, "섬"@, "삶"@, "앎"@, "죽음"@]);
    let c200 = (i >= 1) && in_list(&l201, tokens[i - 1].surface.as_str());
    let c202 = (tokens.len() - i > 1) && pos_starts(&tokens[i + 1], "JK");
    let l204: [&str; 2] = ["JX", "JC"];
    assert(crate::tag_map::strs_view(l204@) =~= seq!["JX"@, "JC"@]);
    let c203 = (tokens.len() - i > 1) && in_list(&l204, tokens[i + 1].pos.as_str());
    let c205 = (tokens.len() - i > 1) && true;
    let c206 = (tokens.len() - i > 1) && pos_is(&tokens[i + 1], "NNG");
    let l208: [&str; 7] = ["감", "봄", "함", "섬", "삶", "앎", "죽음"];
    assert(crate::tag_map::strs_view(l208@) =~= seq!["감"@, "봄"@, "함"@, "섬"@, "삶"@, "앎"@, "죽음"@]);
    let c207 = (tokens.len() - i > 1) && in_list(&l208, tokens[i + 1].surface.as_str());
    let c209 = (i >= 1) && pos_is(&tokens[i - 1], "NNG");
    let l211: [&str; 7] = ["감", "봄", "함", "섬", "삶", "앎", "죽음"];
    assert(crate::tag_map::strs_view(l211@) =~= seq!["감"@, "봄"@, "함"@, "섬"@, "삶"@, "앎"@, "죽음"@]);
    let c210 = (i >= 1) && in_list(&l211, tokens[i - 1].surface.as_str());
    ((c196 && c197) && ((!c198 || (c199 && c200)) && ((c202 || c203) || !c205 || (c206 && c207) || (c209 && c210))))
}

/// Whether rule 6 of [`p57`] applies at `i`.
fn p57_c6_exec(tokens: &Vec<SejongToken>, i: usize) -> (r: bool)
    requires
        i < tokens@.len(),
    ensures
        r == p57_c6(tokens_view(tokens@), i as int),
{
    assert(tokens_view(tokens@).len() == tokens@.len());
    let c212 = surf_is(&tokens[i], "죽음");
    let c213 = pos_is(&tokens[i], "NNG");
    let c214 = (i >= 1) && pos_is(&tokens[i - 1], "NNG");
    let c215 = (i >= 1) && pos_is(&tokens[i - 1], "NNG");
    let l217: [&str; 7] = ["감", "봄", "함", "섬", "삶", "앎", "죽음"];
    assert(crate::tag_map::strs_view(l217@) =~= seq!["감"@, "봄"@, "함"@, "섬"@, "삶"@, "앎"@, "죽음"@]);
    let c216 = (i >= 1) && in_list(&l217, tokens[i - 1].surface.as_str());
    let c218 = (tokens.len() - i > 1) && pos_starts(&tokens[i + 1], "JK");
    let l220: [&str; 2] = ["JX", "JC"];
    assert(crate::tag_map::strs_view(l220@) =~= seq!["JX"@, "JC"@]);
    let c219 = (tokens.len() - i > 1) && in_list(&l220, tokens[i + 1].pos.as_str());
    let c221 = (tokens.len() - i > 1) && true;
    let c222 = (tokens.len() - i > 1) && pos_is(&tokens[i + 1], "NNG");
    let l224: [&str; 7] = ["감", "봄", "함", "섬", "삶", "앎", "죽음"];
    assert(crate::tag_map::strs_view(l224@) =~= seq!["감"@, "봄"@, "함"@, "섬"@, "삶"@, "앎"@, "죽음"@]);
    let c223 = (tokens.len() - i > 1) && in_list(&l224, tokens[i + 1].surface.as_str());
    let c225 = (i >= 1) && pos_is(&tokens[i - 1], "NNG");
    let l227: [&str; 7] = ["감", "봄", "함", "섬", "삶", "앎", "죽음"];
    assert(crate::tag_map::strs_view(l227@) =~= seq!["감"@, "봄"@, "함"@, "섬"@, "삶"@, "앎"@, "죽음"@]);
    let c226 = (i >= 1) && in_list(&l227, tokens[i - 1].surface.as_str());
    ((c212 && c213) && ((!c214 || (c215 && c216)) && ((c218 || c219) || !c221 || (c222 && c223) || (c225 && c226))))
}

/// The tokens [`p57`] puts in place of the token at `i`.
fn p57_t_exec(tokens: &Vec<SejongToken>, i: usize) -> (v: Vec<SejongToken>)
    requires
        i < tokens@.len(),
    ensures
        tokens_view(v@) == p57_t(tokens_view(tokens@), i as int),
{
    assert(tokens_view(tokens@).len() == tokens@.len());
    if p57_c0_exec(tokens, i) {
        let s229 = owned("가");
        let s230 = owned("VV");
        let n231 = tokens[i].start_pos;
        let n233 = tokens[i].start_pos;
        let n232 = n233.saturating_add(1);
        let t228 = SejongToken::new(s229.as_str(), s230.as_str(), n231, n232);
        let s235 = owned("ㅁ");
        let s236 = owned("ETN");
        let n238 = tokens[i].start_pos;
        let n237 = n238.saturating_add(1);
        let n239 = tokens[i].end_pos;
        let t234 = SejongToken::new(s235.as_str(), s236.as_str(), n237, n239);
        let mut nv240: Vec<SejongToken> = Vec::new();
        push_token(&mut nv240, t228);
        push_token(&mut nv240, t234);
        return nv240;
    }
    if p57_c1_exec(tokens, i) {
        let s242 = owned("보");
        let s243 = owned("VV");
        let n244 = tokens[i].start_pos;
        let n246 = tokens[i].start_pos;
        let n245 = n246.saturating_add(1);
        let t241 = SejongToken::new(s242.as_str(), s243.as_str(), n244, n245);
        let s248 = owned("ㅁ");
        let s249 = owned("ETN");
        let n251 = tokens[i].start_pos;
        let n250 = n251.saturating_add(1);
        let n252 = tokens[i].end_pos;
        let t247 = SejongToken::new(s248.as_str(), s249.as_str(), n250, n252);
        let mut nv253: Vec<SejongToken> = Vec::new();
        push_token(&mut nv253, t241);
        push_token(&mut nv253, t247);
        return nv253;
    }
    if p57_c2_exec(tokens, i) {
        let s255 = owned("하");
        let s256 = owned("VV");
        let n257 = tokens[i].start_pos;
        let n259 = tokens[i].start_pos;
        let n258 = n259.saturating_add(1);
        let t254 = SejongToken::new(s255.as_str(), s256.as_str(), n257, n258);
        let s261 = owned("ㅁ");
        let s262 = owned("ETN");
        let n264 = tokens[i].start_pos;
        let n263 = n264.saturating_add(1);
        let n265 = tokens[i].end_pos;
        let t260 = SejongToken::new(s261.as_str(), s262.as_str(), n263, n265);
        let mut nv266: Vec<SejongToken> = Vec::new();
        push_token(&mut nv266, t254);
        push_token(&mut nv266, t260);
        return nv266;
    }
    if p57_c3_exec(tokens, i) {
        let s268 = owned("서");
        let s269 = owned("VV");
        let n270 = tokens[i].start_pos;
        let n272 = tokens[i].start_pos;
        let n271 = n272.saturating_add(1);
        let t267 = SejongToken::new(s268.as_str(), s269.as_str(), n270, n271);
        let s274 = owned("ㅁ");
        let s275 = owned("ETN");
        let n277 = tokens[i].start_pos;
        let n276 = n277.saturating_add(1);
        let n278 = tokens[i].end_pos;
        let t273 = SejongToken::new(s274.as_str(), s275.as_str(), n276, n278);
        let mut nv279: Vec<SejongToken> = Vec::new();
        push_token(&mut nv279, t267);
        push_token(&mut nv279, t273);
        return nv279;
    }
    if p57_c4_exec(tokens, i) {
        let s281 = owned("살");
        let s282 = owned("VV");
        let n283 = tokens[i].start_pos;
        let n285 = tokens[i].start_pos;
        let n284 = n285.saturating_add(1);
        let t280 = SejongToken::new(s281.as_str(), s282.as_str(), n283, n284);
        let s287 = owned("ㅁ");
        let s288 = owned("ETN");
        let n290 = tokens[i].start_pos;
        let n289 = n290.saturating_add(1);
        let n291 = tokens[i].end_pos;
        let t286 = SejongToken::new(s287.as_str(), s288.as_str(), n289, n291);
        let mut nv292: Vec<SejongToken> = Vec::new();
        push_token(&mut nv292, t280);
        push_token(&mut nv292, t286);
        return nv292;
    }
    if p57_c5_exec(tokens, i) {
        let s294 = owned("알");
        let s295 = owned("VV");
        let n296 = tokens[i].start_pos;
        let n298 = tokens[i].start_pos;
        let n297 = n298.saturating_add(1);
        let t293 = SejongToken::new(s294.as_str(), s295.as_str(), n296, n297);
        let s300 = owned("ㅁ");
        let s301 = owned("ETN");
        let n303 = tokens[i].start_pos;
        let n302 = n303.saturating_add(1);
        let n304 = tokens[i].end_pos;
        let t299 = SejongToken::new(s300.as_str(), s301.as_str(), n302, n304);
        let mut nv305: Vec<SejongToken> = Vec::new();
        push_token(&mut nv305, t293);
        push_token(&mut nv305, t299);
        return nv305;
    }
    if p57_c6_exec(tokens, i) {
        let s307 = owned("죽");
        let s308 = owned("VV");
        let n309 = tokens[i].start_pos;
        let n311 = tokens[i].start_pos;
        let n310 = n311.saturating_add(1);
        let t306 = SejongToken::new(s307.as_str(), s308.as_str(), n309, n310);
        let s313 = owned("음");
        let s314 = owned("ETN");
        let n316 = tokens[i].start_pos;
        let n315 = n316.saturating_add(1);
        let n317 = tokens[i].end_pos;
        let t312 = SejongToken::new(s313.as_str(), s314.as_str(), n315, n317);
        let mut nv318: Vec<SejongToken> = Vec::new();
        push_token(&mut nv318, t306);
        push_token(&mut nv318, t312);
        return nv318;
    }
    Vec::new()
}

/// A noun that is a nominalised verb (감, 봄, 함, 섬, 삶, 앎, 죽음) is split into the stem and ㅁ/ETN or 음/ETN when it stands alone, before a particle, or beside another such noun, and not after another common noun.
pub fn apply_p57(tokens: &mut Vec<SejongToken>)
    ensures
        tokens_view(final(tokens)@) == p57(tokens_view(old(tokens)@)),
{
    let ghost orig = tokens_view(tokens@);
    let ghost pieces = expand_pieces(orig, p57_cf(), p57_tf());
    let mut out: Vec<SejongToken> = Vec::new();
    let mut k: usize = 0;
    while k < tokens.len()
        invariant
            k <= tokens@.len(),
            orig == tokens_view(tokens@),
            pieces == expand_pieces(orig, p57_cf(), p57_tf()),
            tokens_view(out@) == pieces.take(k as int).flatten(),
        decreases tokens@.len() - k,
    {
        proof {
            assert(pieces.take(k + 1) =~= pieces.take(k as int).push(pieces[k as int]));
            pieces.take(k as int).lemma_flatten_push(pieces[k as int]);
        }
        if p57_c0_exec(tokens, k) || p57_c1_exec(tokens, k) || p57_c2_exec(tokens, k) || p57_c3_exec(tokens, k) || p57_c4_exec(tokens, k) || p57_c5_exec(tokens, k) || p57_c6_exec(tokens, k) {
            let v = p57_t_exec(tokens, k);
            append_tokens(&mut out, v);
        } else {
            push_token(&mut out, tokens[k].duplicate());
            assert(seq![orig[k as int]] =~= pieces[k as int]);
            assert(tokens_view(out@) =~= pieces.take(k as int).flatten() + pieces[k as int]);
        }
        k += 1;
    }
    assert(pieces.take(k as int) =~= pieces);
    *tokens = out;
}

/// Where [`p58`] changes a token.
pub open spec fn p58_c(ts: Seq<TokenView>, i: int) -> bool {
    ((0 <= i < ts.len() && ts[i].pos == "VV"@) && (0 <= i < ts.len() && seq!["갈"@, "올"@, "볼"@, "할"@, "살"@, "알"@].contains(ts[i].surface)) && ((0 <= i + 1 < ts.len() && ts[i + 1].surface == "기"@) && (0 <= i + 1 < ts.len() && ts[i + 1].pos == "ETN"@)))
}

/// The token [`p58`] puts at `i`.
pub open spec fn p58_t(ts: Seq<TokenView>, i: int) -> TokenView {
    TokenView { surface: (if (0 <= i < ts.len() && ts[i].surface == "갈"@) { "가"@ } else { (if (0 <= i < ts.len() && ts[i].surface == "올"@) { "오"@ } else { (if (0 <= i < ts.len() && ts[i].surface == "볼"@) { "보"@ } else { (if (0 <= i < ts.len() && ts[i].surface == "할"@) { "하"@ } else { (if (0 <= i < ts.len() && ts[i].surface == "살"@) { "사"@ } else { "아"@ }) }) }) }) }), ..ts[i] }
}

/// A stem in ㄹ before 기/ETN drops the ㄹ (갈/VV 기/ETN → 가/VV 기/ETN).
pub open spec fn p58(ts: Seq<TokenView>) -> Seq<TokenView> {
    map_where(ts, |ts: Seq<TokenView>, i: int| p58_c(ts, i), |ts: Seq<TokenView>, i: int| p58_t(ts, i))
}

/// Whether [`p58`] changes the token at `i`.
fn p58_c_exec(tokens: &Vec<SejongToken>, i: usize) -> (r: bool)
    requires
        i < tokens@.len(),
    ensures
        r == p58_c(tokens_view(tokens@), i as int),
{
    assert(tokens_view(tokens@).len() == tokens@.len());
    let c319 = pos_is(&tokens[i], "VV");
    let l321: [&str; 6] = ["갈", "올", "볼", "할", "살", "알"];
    assert(crate::tag_map::strs_view(l321@) =~= seq!["갈"@, "올"@, "볼"@, "할"@, "살"@, "알"@]);
    let c320 = in_list(&l321, tokens[i].surface.as_str());
    let c322 = (tokens.len() - i > 1) && surf_is(&tokens[i + 1], "기");
    let c323 = (tokens.len() - i > 1) && pos_is(&tokens[i + 1], "ETN");
    (c319 && c320 && (c322 && c323))
}

/// The token [`p58`] puts at `i`.
fn p58_t_exec(tokens: &Vec<SejongToken>, i: usize) -> (t: SejongToken)
    requires
        i < tokens@.len(),
        p58_c(tokens_view(tokens@), i as int),
    ensures
        t@ == p58_t(tokens_view(tokens@), i as int),
{
    assert(tokens_view(tokens@).len() == tokens@.len());
    let c325 = surf_is(&tokens[i], "갈");
    let c326 = surf_is(&tokens[i], "올");
    let c327 = surf_is(&tokens[i], "볼");
    let c328 = surf_is(&tokens[i], "할");
    let c329 = surf_is(&tokens[i], "살");
    let s330 = if c325 { let s331 = owned("가"); s331 } else if c326 { let s332 = owned("오"); s332 } else if c327 { let s333 = owned("보"); s333 } else if c328 { let s334 = owned("하"); s334 } else if c329 { let s335 = owned("사"); s335 } else { let s336 = owned("아"); s336 };
    let mut t324 = tokens[i].duplicate();
    t324.surface = s330;
    t324
}

/// A stem in ㄹ before 기/ETN drops the ㄹ (갈/VV 기/ETN → 가/VV 기/ETN).
pub fn apply_p58(tokens: &mut Vec<SejongToken>)
    ensures
        tokens_view(final(tokens)@) == p58(tokens_view(old(tokens)@)),
{
    let ghost orig = tokens_view(tokens@);
    let mut out: Vec<SejongToken> = Vec::new();
    let mut k: usize = 0;
    while k < tokens.len()
        invariant
            k <= tokens@.len(),
            orig == tokens_view(tokens@),
            tokens_view(out@) == p58(orig).take(k as int),
        decreases tokens@.len() - k,
    {
        let t = if p58_c_exec(tokens, k) { p58_t_exec(tokens, k) } else { tokens[k].duplicate() };
        push_token(&mut out, t);
        k += 1;
        assert(tokens_view(out@) =~= p58(orig).take(k as int));
    }
    assert(p58(orig).take(k as int) =~= p58(orig));
    *tokens = out;
}

/// Where rule 0 of [`p59`] applies.
pub open spec fn p59_c0(ts: Seq<TokenView>, i: int) -> bool {
    ((0 <= i < ts.len() && ts[i].surface == "구시대"@) && (0 <= i < ts.len() && ts[i].pos == "NNG"@))
}

/// Where rule 1 of [`p59`] applies.
pub open spec fn p59_c1(ts: Seq<TokenView>, i: int) -> bool {
    ((0 <= i < ts.len() && ts[i].surface == "신시대"@) && (0 <= i < ts.len() && ts[i].pos == "NNG"@))
}

/// Where rule 2 of [`p59`] applies.
pub open spec fn p59_c2(ts: Seq<TokenView>, i: int) -> bool {
    ((0 <= i < ts.len() && ts[i].surface == "불합격"@) && (0 <= i < ts.len() && ts[i].pos == "NNG"@))
}

/// Where rule 3 of [`p59`] applies.
pub open spec fn p59_c3(ts: Seq<TokenView>, i: int) -> bool {
    ((0 <= i < ts.len() && ts[i].surface == "불가능"@) && (0 <= i < ts.len() && ts[i].pos == "NNG"@))
}

/// Where rule 4 of [`p59`] applies.
pub open spec fn p59_c4(ts: Seq<TokenView>, i: int) -> bool {
    ((0 <= i < ts.len() && ts[i].surface == "불필요"@) && (0 <= i < ts.len() && ts[i].pos == "NNG"@))
}

/// Where rule 5 of [`p59`] applies.
pub open spec fn p59_c5(ts: Seq<TokenView>, i: int) -> bool {
    ((0 <= i < ts.len() && ts[i].surface == "초고속"@) && (0 <= i < ts.len() && ts[i].pos == "NNG"@))
}

/// Where rule 6 of [`p59`] applies.
pub open spec fn p59_c6(ts: Seq<TokenView>, i: int) -> bool {
    ((0 <= i < ts.len() && ts[i].surface == "초대형"@) && (0 <= i < ts.len() && ts[i].pos == "NNG"@))
}

/// Where rule 7 of [`p59`] applies.
pub open spec fn p59_c7(ts: Seq<TokenView>, i: int) -> bool {
    ((0 <= i < ts.len() && ts[i].surface == "재검토"@) && (0 <= i < ts.len() && ts[i].pos == "NNG"@))
}

/// Where rule 8 of [`p59`] applies.
pub open spec fn p59_c8(ts: Seq<TokenView>, i: int) -> bool {
    ((0 <= i < ts.len() && ts[i].surface == "재확인"@) && (0 <= i < ts.len() && ts[i].pos == "NNG"@))
}

/// Where rule 9 of [`p59`] applies.
pub open spec fn p59_c9(ts: Seq<TokenView>, i: int) -> bool {
    ((0 <= i < ts.len() && ts[i].surface == "새해"@) && (0 <= i < ts.len() && ts[i].pos == "NNG"@))
}

/// Where rule 10 of [`p59`] applies.
pub open spec fn p59_c10(ts: Seq<TokenView>, i: int) -> bool {
    ((0 <= i < ts.len() && ts[i].surface == "새봄"@) && (0 <= i < ts.len() && ts[i].pos == "NNG"@))
}

/// Where rule 11 of [`p59`] applies.
pub open spec fn p59_c11(ts: Seq<TokenView>, i: int) -> bool {
    ((0 <= i < ts.len() && ts[i].surface == "새벽"@) && (0 <= i < ts.len() && ts[i].pos == "NNG"@))
}

/// Where rule 12 of [`p59`] applies.
pub open spec fn p59_c12(ts: Seq<TokenView>, i: int) -> bool {
    ((0 <= i < ts.len() && ts[i].surface == "새집"@) && (0 <= i < ts.len() && ts[i].pos == "NNG"@))
}

/// Where rule 13 of [`p59`] applies.
pub open spec fn p59_c13(ts: Seq<TokenView>, i: int) -> bool {
    ((0 <= i < ts.len() && ts[i].surface == "새옷"@) && (0 <= i < ts.len() && ts[i].pos == "NNG"@))
}

/// Where rule 14 of [`p59`] applies.
pub open spec fn p59_c14(ts: Seq<TokenView>, i: int) -> bool {
    ((0 <= i < ts.len() && ts[i].surface == "첫눈"@) && (0 <= i < ts.len() && ts[i].pos == "NNG"@))
}

/// Where rule 15 of [`p59`] applies.
pub open spec fn p59_c15(ts: Seq<TokenView>, i: int) -> bool {
    ((0 <= i < ts.len() && ts[i].surface == "첫날"@) && (0 <= i < ts.len() && ts[i].pos == "NNG"@))
}

/// Where rule 16 of [`p59`] applies.
pub open spec fn p59_c16(ts: Seq<TokenView>, i: int) -> bool {
    ((0 <= i < ts.len() && ts[i].surface == "첫사랑"@) && (0 <= i < ts.len() && ts[i].pos == "NNG"@))
}

/// Where rule 17 of [`p59`] applies.
pub open spec fn p59_c17(ts: Seq<TokenView>, i: int) -> bool {
    ((0 <= i < ts.len() && ts[i].surface == "첫걸음"@) && (0 <= i < ts.len() && ts[i].pos == "NNG"@))
}

/// Where rule 18 of [`p59`] applies.
pub open spec fn p59_c18(ts: Seq<TokenView>, i: int) -> bool {
    ((0 <= i < ts.len() && ts[i].surface == "큰집"@) && (0 <= i < ts.len() && ts[i].pos == "NNG"@))
}

/// Where rule 19 of [`p59`] applies.
pub open spec fn p59_c19(ts: Seq<TokenView>, i: int) -> bool {
    ((0 <= i < ts.len() && ts[i].surface == "큰아버지"@) && (0 <= i < ts.len() && ts[i].pos == "NNG"@))
}

/// Where rule 20 of [`p59`] applies.
pub open spec fn p59_c20(ts: Seq<TokenView>, i: int) -> bool {
    ((0 <= i < ts.len() && ts[i].surface == "큰어머니"@) && (0 <= i < ts.len() && ts[i].pos == "NNG"@))
}

/// Where rule 21 of [`p59`] applies.
pub open spec fn p59_c21(ts: Seq<TokenView>, i: int) -> bool {
    ((0 <= i < ts.len() && ts[i].surface == "순우리말"@) && (0 <= i < ts.len() && ts[i].pos == "NNG"@))
}

/// Where rule 22 of [`p59`] applies.
pub open spec fn p59_c22(ts: Seq<TokenView>, i: int) -> bool {
    ((0 <= i < ts.len() && ts[i].surface == "순이익"@) && (0 <= i < ts.len() && ts[i].pos == "NNG"@))
}

/// Where rule 23 of [`p59`] applies.
pub open spec fn p59_c23(ts: Seq<TokenView>, i: int) -> bool {
    ((0 <= i < ts.len() && ts[i].surface == "옛날"@) && (0 <= i < ts.len() && ts[i].pos == "NNG"@))
}

/// Where rule 24 of [`p59`] applies.
pub open spec fn p59_c24(ts: Seq<TokenView>, i: int) -> bool {
    ((0 <= i < ts.len() && ts[i].surface == "옛사람"@) && (0 <= i < ts.len() && ts[i].pos == "NNG"@))
}

/// Where rule 25 of [`p59`] applies.
pub open spec fn p59_c25(ts: Seq<TokenView>, i: int) -> bool {
    ((0 <= i < ts.len() && ts[i].surface == "헛소리"@) && (0 <= i < ts.len() && ts[i].pos == "NNG"@))
}

/// Where rule 26 of [`p59`] applies.
pub open spec fn p59_c26(ts: Seq<TokenView>, i: int) -> bool {
    ((0 <= i < ts.len() && ts[i].surface == "헛수고"@) && (0 <= i < ts.len() && ts[i].pos == "NNG"@))
}

/// One step of [`p59`] at `i`: the list after it and the next position.
pub open spec fn p59_step(ts: Seq<TokenView>, i: int) -> (Seq<TokenView>, int) {
    if p59_c0(ts, i) {
        (splice(ts, i, 1, seq![plain_view("구"@, "XPN"@, ts[i].start_pos, (ts[i].start_pos).saturating_add(1)), plain_view("시대"@, "NNG"@, (ts[i].start_pos).saturating_add(1), ts[i].end_pos)]), i + 2)
    } else if p59_c1(ts, i) {
        (splice(ts, i, 1, seq![plain_view("신"@, "XPN"@, ts[i].start_pos, (ts[i].start_pos).saturating_add(1)), plain_view("시대"@, "NNG"@, (ts[i].start_pos).saturating_add(1), ts[i].end_pos)]), i + 2)
    } else if p59_c2(ts, i) {
        (splice(ts, i, 1, seq![plain_view("불"@, "XPN"@, ts[i].start_pos, (ts[i].start_pos).saturating_add(1)), plain_view("합격"@, "NNG"@, (ts[i].start_pos).saturating_add(1), ts[i].end_pos)]), i + 2)
    } else if p59_c3(ts, i) {
        (splice(ts, i, 1, seq![plain_view("불"@, "XPN"@, ts[i].start_pos, (ts[i].start_pos).saturating_add(1)), plain_view("가능"@, "NNG"@, (ts[i].start_pos).saturating_add(1), ts[i].end_pos)]), i + 2)
    } else if p59_c4(ts, i) {
        (splice(ts, i, 1, seq![plain_view("불"@, "XPN"@, ts[i].start_pos, (ts[i].start_pos).saturating_add(1)), plain_view("필요"@, "NNG"@, (ts[i].start_pos).saturating_add(1), ts[i].end_pos)]), i + 2)
    } else if p59_c5(ts, i) {
        (splice(ts, i, 1, seq![plain_view("초"@, "XPN"@, ts[i].start_pos, (ts[i].start_pos).saturating_add(1)), plain_view("고속"@, "NNG"@, (ts[i].start_pos).saturating_add(1), ts[i].end_pos)]), i + 2)
    } else if p59_c6(ts, i) {
        (splice(ts, i, 1, seq![plain_view("초"@, "XPN"@, ts[i].start_pos, (ts[i].start_pos).saturating_add(1)), plain_view("대형"@, "NNG"@, (ts[i].start_pos).saturating_add(1), ts[i].end_pos)]), i + 2)
    } else if p59_c7(ts, i) {
        (splice(ts, i, 1, seq![plain_view("재"@, "XPN"@, ts[i].start_pos, (ts[i].start_pos).saturating_add(1)), plain_view("검토"@, "NNG"@, (ts[i].start_pos).saturating_add(1), ts[i].end_pos)]), i + 2)
    } else if p59_c8(ts, i) {
        (splice(ts, i, 1, seq![plain_view("재"@, "XPN"@, ts[i].start_pos, (ts[i].start_pos).saturating_add(1)), plain_view("확인"@, "NNG"@, (ts[i].start_pos).saturating_add(1), ts[i].end_pos)]), i + 2)
    } else if p59_c9(ts, i) {
        (splice(ts, i, 1, seq![plain_view("새"@, "XPN"@, ts[i].start_pos, (ts[i].start_pos).saturating_add(1)), plain_view("해"@, "NNG"@, (ts[i].start_pos).saturating_add(1), ts[i].end_pos)]), i + 2)
    } else if p59_c10(ts, i) {
        (splice(ts, i, 1, seq![plain_view("새"@, "XPN"@, ts[i].start_pos, (ts[i].start_pos).saturating_add(1)), plain_view("봄"@, "NNG"@, (ts[i].start_pos).saturating_add(1), ts[i].end_pos)]), i + 2)
    } else if p59_c11(ts, i) {
        (splice(ts, i, 1, seq![plain_view("새"@, "XPN"@, ts[i].start_pos, (ts[i].start_pos).saturating_add(1)), plain_view("벽"@, "NNG"@, (ts[i].start_pos).saturating_add(1), ts[i].end_pos)]), i + 2)
    } else if p59_c12(ts, i) {
        (splice(ts, i, 1, seq![plain_view("새"@, "XPN"@, ts[i].start_pos, (ts[i].start_pos).saturating_add(1)), plain_view("집"@, "NNG"@, (ts[i].start_pos).saturating_add(1), ts[i].end_pos)]), i + 2)
    } else if p59_c13(ts, i) {
        (splice(ts, i, 1, seq![plain_view("새"@, "XPN"@, ts[i].start_pos, (ts[i].start_pos).saturating_add(1)), plain_view("옷"@, "NNG"@, (ts[i].start_pos).saturating_add(1), ts[i].end_pos)]), i + 2)
    } else if p59_c14(ts, i) {
        (splice(ts, i, 1, seq![plain_view("첫"@, "XPN"@, ts[i].start_pos, (ts[i].start_pos).saturating_add(1)), plain_view("눈"@, "NNG"@, (ts[i].start_pos).saturating_add(1), ts[i].end_pos)]), i + 2)
    } else if p59_c15(ts, i) {
        (splice(ts, i, 1, seq![plain_view("첫"@, "XPN"@, ts[i].start_pos, (ts[i].start_pos).saturating_add(1)), plain_view("날"@, "NNG"@, (ts[i].start_pos).saturating_add(1), ts[i].end_pos)]), i + 2)
    } else if p59_c16(ts, i) {
        (splice(ts, i, 1, seq![plain_view("첫"@, "XPN"@, ts[i].start_pos, (ts[i].start_pos).saturating_add(1)), plain_view("사랑"@, "NNG"@, (ts[i].start_pos).saturating_add(1), ts[i].end_pos)]), i + 2)
    } else if p59_c17(ts, i) {
        (splice(ts, i, 1, seq![plain_view("첫"@, "XPN"@, ts[i].start_pos, (ts[i].start_pos).saturating_add(1)), plain_view("걸음"@, "NNG"@, (ts[i].start_pos).saturating_add(1), ts[i].end_pos)]), i + 2)
    } else if p59_c18(ts, i) {
        (splice(ts, i, 1, seq![plain_view("큰"@, "XPN"@, ts[i].start_pos, (ts[i].start_pos).saturating_add(1)), plain_view("집"@, "NNG"@, (ts[i].start_pos).saturating_add(1), ts[i].end_pos)]), i + 2)
    } else if p59_c19(ts, i) {
        (splice(ts, i, 1, seq![plain_view("큰"@, "XPN"@, ts[i].start_pos, (ts[i].start_pos).saturating_add(1)), plain_view("아버지"@, "NNG"@, (ts[i].start_pos).saturating_add(1), ts[i].end_pos)]), i + 2)
    } else if p59_c20(ts, i) {
        (splice(ts, i, 1, seq![plain_view("큰"@, "XPN"@, ts[i].start_pos, (ts[i].start_pos).saturating_add(1)), plain_view("어머니"@, "NNG"@, (ts[i].start_pos).saturating_add(1), ts[i].end_pos)]), i + 2)
    } else if p59_c21(ts, i) {
        (splice(ts, i, 1, seq![plain_view("순"@, "XPN"@, ts[i].start_pos, (ts[i].start_pos).saturating_add(1)), plain_view("우리말"@, "NNG"@, (ts[i].start_pos).saturating_add(1), ts[i].end_pos)]), i + 2)
    } else if p59_c22(ts, i) {
        (splice(ts, i, 1, seq![plain_view("순"@, "XPN"@, ts[i].start_pos, (ts[i].start_pos).saturating_add(1)), plain_view("이익"@, "NNG"@, (ts[i].start_pos).saturating_add(1), ts[i].end_pos)]), i + 2)
    } else if p59_c23(ts, i) {
        (splice(ts, i, 1, seq![plain_view("옛"@, "XPN"@, ts[i].start_pos, (ts[i].start_pos).saturating_add(1)), plain_view("날"@, "NNG"@, (ts[i].start_pos).saturating_add(1), ts[i].end_pos)]), i + 2)
    } else if p59_c24(ts, i) {
        (splice(ts, i, 1, seq![plain_view("옛"@, "XPN"@, ts[i].start_pos, (ts[i].start_pos).saturating_add(1)), plain_view("사람"@, "NNG"@, (ts[i].start_pos).saturating_add(1), ts[i].end_pos)]), i + 2)
    } else if p59_c25(ts, i) {
        (splice(ts, i, 1, seq![plain_view("헛"@, "XPN"@, ts[i].start_pos, (ts[i].start_pos).saturating_add(1)), plain_view("소리"@, "NNG"@, (ts[i].start_pos).saturating_add(1), ts[i].end_pos)]), i + 2)
    } else if p59_c26(ts, i) {
        (splice(ts, i, 1, seq![plain_view("헛"@, "XPN"@, ts[i].start_pos, (ts[i].start_pos).saturating_add(1)), plain_view("수고"@, "NNG"@, (ts[i].start_pos).saturating_add(1), ts[i].end_pos)]), i + 2)
    } else {
        (ts, i + 1)
    }
}

/// [`p59_step`] as a function value.
pub open spec fn p59_f() -> spec_fn(Seq<TokenView>, int) -> (Seq<TokenView>, int) {
    |ts: Seq<TokenView>, i: int| p59_step(ts, i)
}

/// A compound noun with a prefix is split (구시대/NNG → 구/XPN 시대/NNG).
pub open spec fn p59(ts: Seq<TokenView>) -> Seq<TokenView> {
    scan(ts, 0, p59_f())
}

/// Whether rule 0 of [`p59`] applies at `i`.
fn p59_c0_exec(tokens: &Vec<SejongToken>, i: usize) -> (r: bool)
    requires
        i < tokens@.len(),
    ensures
        r == p59_c0(tokens_view(tokens@), i as int),
{
    assert(tokens_view(tokens@).len() == tokens@.len());
    let c337 = surf_is(&tokens[i], "구시대");
    let c338 = pos_is(&tokens[i], "NNG");
    (c337 && c338)
}

/// Whether rule 1 of [`p59`] applies at `i`.
fn p59_c1_exec(tokens: &Vec<SejongToken>, i: usize) -> (r: bool)
    requires
        i < tokens@.len(),
    ensures
        r == p59_c1(tokens_view(tokens@), i as int),
{
    assert(tokens_view(tokens@).len() == tokens@.len());
    let c339 = surf_is(&tokens[i], "신시대");
    let c340 = pos_is(&tokens[i], "NNG");
    (c339 && c340)
}

/// Whether rule 2 of [`p59`] applies at `i`.
fn p59_c2_exec(tokens: &Vec<SejongToken>, i: usize) -> (r: bool)
    requires
        i < tokens@.len(),
    ensures
        r == p59_c2(tokens_view(tokens@), i as int),
{
    assert(tokens_view(tokens@).len() == tokens@.len());
    let c341 = surf_is(&tokens[i], "불합격");
    let c342 = pos_is(&tokens[i], "NNG");
    (c341 && c342)
}

/// Whether rule 3 of [`p59`] applies at `i`.
fn p59_c3_exec(tokens: &Vec<SejongToken>, i: usize) -> (r: bool)
    requires
        i < tokens@.len(),
    ensures
        r == p59_c3(tokens_view(tokens@), i as int),
{
    assert(tokens_view(tokens@).len() == tokens@.len());
    let c343 = surf_is(&tokens[i], "불가능");
    let c344 = pos_is(&tokens[i], "NNG");
    (c343 && c344)
}

/// Whether rule 4 of [`p59`] applies at `i`.
fn p59_c4_exec(tokens: &Vec<SejongToken>, i: usize) -> (r: bool)
    requires
        i < tokens@.len(),
    ensures
        r == p59_c4(tokens_view(tokens@), i as int),
{
    assert(tokens_view(tokens@).len() == tokens@.len());
    let c345 = surf_is(&tokens[i], "불필요");
    let c346 = pos_is(&tokens[i], "NNG");
    (c345 && c346)
}

/// Whether rule 5 of [`p59`] applies at `i`.
fn p59_c5_exec(tokens: &Vec<SejongToken>, i: usize) -> (r: bool)
    requires
        i < tokens@.len(),
    ensures
        r == p59_c5(tokens_view(tokens@), i as int),
{
    assert(tokens_view(tokens@).len() == tokens@.len());
    let c347 = surf_is(&tokens[i], "초고속");
    let c348 = pos_is(&tokens[i], "NNG");
    (c347 && c348)
}

/// Whether rule 6 of [`p59`] applies at `i`.
fn p59_c6_exec(tokens: &Vec<SejongToken>, i: usize) -> (r: bool)
    requires
        i < tokens@.len(),
    ensures
        r == p59_c6(tokens_view(tokens@), i as int),
{
    assert(tokens_view(tokens@).len() == tokens@.len());
    let c349 = surf_is(&tokens[i], "초대형");
    let c350 = pos_is(&tokens[i], "NNG");
    (c349 && c350)
}

/// Whether rule 7 of [`p59`] applies at `i`.
fn p59_c7_exec(tokens: &Vec<SejongToken>, i: usize) -> (r: bool)
    requires
        i < tokens@.len(),
    ensures
        r == p59_c7(tokens_view(tokens@), i as int),
{
    assert(tokens_view(tokens@).len() == tokens@.len());
    let c351 = surf_is(&tokens[i], "재검토");
    let c352 = pos_is(&tokens[i], "NNG");
    (c351 && c352)
}

/// Whether rule 8 of [`p59`] applies at `i`.
fn p59_c8_exec(tokens: &Vec<SejongToken>, i: usize) -> (r: bool)
    requires
        i < tokens@.len(),
    ensures
        r == p59_c8(tokens_view(tokens@), i as int),
{
    assert(tokens_view(tokens@).len() == tokens@.len());
    let c353 = surf_is(&tokens[i], "재확인");
    let c354 = pos_is(&tokens[i], "NNG");
    (c353 && c354)
}

/// Whether rule 9 of [`p59`] applies at `i`.
fn p59_c9_exec(tokens: &Vec<SejongToken>, i: usize) -> (r: bool)
    requires
        i < tokens@.len(),
    ensures
        r == p59_c9(tokens_view(tokens@), i as int),
{
    assert(tokens_view(tokens@).len() == tokens@.len());
    let c355 = surf_is(&tokens[i], "새해");
    let c356 = pos_is(&tokens[i], "NNG");
    (c355 && c356)
}

/// Whether rule 10 of [`p59`] applies at `i`.
fn p59_c10_exec(tokens: &Vec<SejongToken>, i: usize) -> (r: bool)
    requires
        i < tokens@.len(),
    ensures
        r == p59_c10(tokens_view(tokens@), i as int),
{
    assert(tokens_view(tokens@).len() == tokens@.len());
    let c357 = surf_is(&tokens[i], "새봄");
    let c358 = pos_is(&tokens[i], "NNG");
    (c357 && c358)
}

/// Whether rule 11 of [`p59`] applies at `i`.
fn p59_c11_exec(tokens: &Vec<SejongToken>, i: usize) -> (r: bool)
    requires
        i < tokens@.len(),
    ensures
        r == p59_c11(tokens_view(tokens@), i as int),
{
    assert(tokens_view(tokens@).len() == tokens@.len());
    let c359 = surf_is(&tokens[i], "새벽");
    let c360 = pos_is(&tokens[i], "NNG");
    (c359 && c360)
}

/// Whether rule 12 of [`p59`] applies at `i`.
fn p59_c12_exec(tokens: &Vec<SejongToken>, i: usize) -> (r: bool)
    requires
        i < tokens@.len(),
    ensures
        r == p59_c12(tokens_view(tokens@), i as int),
{
    assert(tokens_view(tokens@).len() == tokens@.len());
    let c361 = surf_is(&tokens[i], "새집");
    let c362 = pos_is(&tokens[i], "NNG");
    (c361 && c362)
}

/// Whether rule 13 of [`p59`] applies at `i`.
fn p59_c13_exec(tokens: &Vec<SejongToken>, i: usize) -> (r: bool)
    requires
        i < tokens@.len(),
    ensures
        r == p59_c13(tokens_view(tokens@), i as int),
{
    assert(tokens_view(tokens@).len() == tokens@.len());
    let c363 = surf_is(&tokens[i], "새옷");
    let c364 = pos_is(&tokens[i], "NNG");
    (c363 && c364)
}

/// Whether rule 14 of [`p59`] applies at `i`.
fn p59_c14_exec(tokens: &Vec<SejongToken>, i: usize) -> (r: bool)
    requires
        i < tokens@.len(),
    ensures
        r == p59_c14(tokens_view(tokens@), i as int),
{
    assert(tokens_view(tokens@).len() == tokens@.len());
    let c365 = surf_is(&tokens[i], "첫눈");
    let c366 = pos_is(&tokens[i], "NNG");
    (c365 && c366)
}

/// Whether rule 15 of [`p59`] applies at `i`.
fn p59_c15_exec(tokens: &Vec<SejongToken>, i: usize) -> (r: bool)
    requires
        i < tokens@.len(),
    ensures
        r == p59_c15(tokens_view(tokens@), i as int),
{
    assert(tokens_view(tokens@).len() == tokens@.len());
    let c367 = surf_is(&tokens[i], "첫날");
    let c368 = pos_is(&tokens[i], "NNG");
    (c367 && c368)
}

/// Whether rule 16 of [`p59`] applies at `i`.
fn p59_c16_exec(tokens: &Vec<SejongToken>, i: usize) -> (r: bool)
    requires
        i < tokens@.len(),
    ensures
        r == p59_c16(tokens_view(tokens@), i as int),
{
    assert(tokens_view(tokens@).len() == tokens@.len());
    let c369 = surf_is(&tokens[i], "첫사랑");
    let c370 = pos_is(&tokens[i], "NNG");
    (c369 && c370)
}

/// Whether rule 17 of [`p59`] applies at `i`.
fn p59_c17_exec(tokens: &Vec<SejongToken>, i: usize) -> (r: bool)
    requires
        i < tokens@.len(),
    ensures
        r == p59_c17(tokens_view(tokens@), i as int),
{
    assert(tokens_view(tokens@).len() == tokens@.len());
    let c371 = surf_is(&tokens[i], "첫걸음");
    let c372 = pos_is(&tokens[i], "NNG");
    (c371 && c372)
}

/// Whether rule 18 of [`p59`] applies at `i`.
fn p59_c18_exec(tokens: &Vec<SejongToken>, i: usize) -> (r: bool)
    requires
        i < tokens@.len(),
    ensures
        r == p59_c18(tokens_view(tokens@), i as int),
{
    assert(tokens_view(tokens@).len() == tokens@.len());
    let c373 = surf_is(&tokens[i], "큰집");
    let c374 = pos_is(&tokens[i], "NNG");
    (c373 && c374)
}

/// Whether rule 19 of [`p59`] applies at `i`.
fn p59_c19_exec(tokens: &Vec<SejongToken>, i: usize) -> (r: bool)
    requires
        i < tokens@.len(),
    ensures
        r == p59_c19(tokens_view(tokens@), i as int),
{
    assert(tokens_view(tokens@).len() == tokens@.len());
    let c375 = surf_is(&tokens[i], "큰아버지");
    let c376 = pos_is(&tokens[i], "NNG");
    (c375 && c376)
}

/// Whether rule 20 of [`p59`] applies at `i`.
fn p59_c20_exec(tokens: &Vec<SejongToken>, i: usize) -> (r: bool)
    requires
        i < tokens@.len(),
    ensures
        r == p59_c20(tokens_view(tokens@), i as int),
{
    assert(tokens_view(tokens@).len() == tokens@.len());
    let c377 = surf_is(&tokens[i], "큰어머니");
    let c378 = pos_is(&tokens[i], "NNG");
    (c377 && c378)
}

/// Whether rule 21 of [`p59`] applies at `i`.
fn p59_c21_exec(tokens: &Vec<SejongToken>, i: usize) -> (r: bool)
    requires
        i < tokens@.len(),
    ensures
        r == p59_c21(tokens_view(tokens@), i as int),
{
    assert(tokens_view(tokens@).len() == tokens@.len());
    let c379 = surf_is(&tokens[i], "순우리말");
    let c380 = pos_is(&tokens[i], "NNG");
    (c379 && c380)
}

/// Whether rule 22 of [`p59`] applies at `i`.
fn p59_c22_exec(tokens: &Vec<SejongToken>, i: usize) -> (r: bool)
    requires
        i < tokens@.len(),
    ensures
        r == p59_c22(tokens_view(tokens@), i as int),
{
    assert(tokens_view(tokens@).len() == tokens@.len());
    let c381 = surf_is(&tokens[i], "순이익");
    let c382 = pos_is(&tokens[i], "NNG");
    (c381 && c382)
}

/// Whether rule 23 of [`p59`] applies at `i`.
fn p59_c23_exec(tokens: &Vec<SejongToken>, i: usize) -> (r: bool)
    requires
        i < tokens@.len(),
    ensures
        r == p59_c23(tokens_view(tokens@), i as int),
{
    assert(tokens_view(tokens@).len() == tokens@.len());
    let c383 = surf_is(&tokens[i], "옛날");
    let c384 = pos_is(&tokens[i], "NNG");
    (c383 && c384)
}

/// Whether rule 24 of [`p59`] applies at `i`.
fn p59_c24_exec(tokens: &Vec<SejongToken>, i: usize) -> (r: bool)
    requires
        i < tokens@.len(),
    ensures
        r == p59_c24(tokens_view(tokens@), i as int),
{
    assert(tokens_view(tokens@).len() == tokens@.len());
    let c385 = surf_is(&tokens[i], "옛사람");
    let c386 = pos_is(&tokens[i], "NNG");
    (c385 && c386)
}

/// Whether rule 25 of [`p59`] applies at `i`.
fn p59_c25_exec(tokens: &Vec<SejongToken>, i: usize) -> (r: bool)
    requires
        i < tokens@.len(),
    ensures
        r == p59_c25(tokens_view(tokens@), i as int),
{
    assert(tokens_view(tokens@).len() == tokens@.len());
    let c387 = surf_is(&tokens[i], "헛소리");
    let c388 = pos_is(&tokens[i], "NNG");
    (c387 && c388)
}

/// Whether rule 26 of [`p59`] applies at `i`.
fn p59_c26_exec(tokens: &Vec<SejongToken>, i: usize) -> (r: bool)
    requires
        i < tokens@.len(),
    ensures
        r == p59_c26(tokens_view(tokens@), i as int),
{
    assert(tokens_view(tokens@).len() == tokens@.len());
    let c389 = surf_is(&tokens[i], "헛수고");
    let c390 = pos_is(&tokens[i], "NNG");
    (c389 && c390)
}

/// One step of [`p59`] at `i`; returns the next position.
#[verifier::rlimit(50)]
fn p59_step_exec(tokens: &mut Vec<SejongToken>, i: usize) -> (next: usize)
    requires
        i < old(tokens)@.len(),
    ensures
        (tokens_view(final(tokens)@), next as int) == p59_step(tokens_view(old(tokens)@), i as int),
        final(tokens)@.len() - next < old(tokens)@.len() - i,
        next <= final(tokens)@.len() + 1,
{
    let len0 = tokens.len();
    assert(tokens_view(tokens@).len() == tokens@.len());
    if p59_c0_exec(tokens, i) {
        let s392 = owned("구");
        let s393 = owned("XPN");
        let n394 = tokens[i].start_pos;
        let n396 = tokens[i].start_pos;
        let n395 = n396.saturating_add(1);
        let t391 = SejongToken::new(s392.as_str(), s393.as_str(), n394, n395);
        let s398 = owned("시대");
        let s399 = owned("NNG");
        let n401 = tokens[i].start_pos;
        let n400 = n401.saturating_add(1);
        let n402 = tokens[i].end_pos;
        let t397 = SejongToken::new(s398.as_str(), s399.as_str(), n400, n402);
        let mut nv403: Vec<SejongToken> = Vec::new();
        push_token(&mut nv403, t391);
        push_token(&mut nv403, t397);
        splice_tokens(tokens, i, 1, nv403);
        let _len1 = tokens.len();
        return i + 2;
    }
    if p59_c1_exec(tokens, i) {
        let s405 = owned("신");
        let s406 = owned("XPN");
        let n407 = tokens[i].start_pos;
        let n409 = tokens[i].start_pos;
        let n408 = n409.saturating_add(1);
        let t404 = SejongToken::new(s405.as_str(), s406.as_str(), n407, n408);
        let s411 = owned("시대");
        let s412 = owned("NNG");
        let n414 = tokens[i].start_pos;
        let n413 = n414.saturating_add(1);
        let n415 = tokens[i].end_pos;
        let t410 = SejongToken::new(s411.as_str(), s412.as_str(), n413, n415);
        let mut nv416: Vec<SejongToken> = Vec::new();
        push_token(&mut nv416, t404);
        push_token(&mut nv416, t410);
        splice_tokens(tokens, i, 1, nv416);
        let _len1 = tokens.len();
        return i + 2;
    }
    if p59_c2_exec(tokens, i) {
        let s418 = owned("불");
        let s419 = owned("XPN");
        let n420 = tokens[i].start_pos;
        let n422 = tokens[i].start_pos;
        let n421 = n422.saturating_add(1);
        let t417 = SejongToken::new(s418.as_str(), s419.as_str(), n420, n421);
        let s424 = owned("합격");
        let s425 = owned("NNG");
        let n427 = tokens[i].start_pos;
        let n426 = n427.saturating_add(1);
        let n428 = tokens[i].end_pos;
        let t423 = SejongToken::new(s424.as_str(), s425.as_str(), n426, n428);
        let mut nv429: Vec<SejongToken> = Vec::new();
        push_token(&mut nv429, t417);
        push_token(&mut nv429, t423);
        splice_tokens(tokens, i, 1, nv429);
        let _len1 = tokens.len();
        return i + 2;
    }
    if p59_c3_exec(tokens, i) {
        let s431 = owned("불");
        let s432 = owned("XPN");
        let n433 = tokens[i].start_pos;
        let n435 = tokens[i].start_pos;
        let n434 = n435.saturating_add(1);
        let t430 = SejongToken::new(s431.as_str(), s432.as_str(), n433, n434);
        let s437 = owned("가능");
        let s438 = owned("NNG");
        let n440 = tokens[i].start_pos;
        let n439 = n440.saturating_add(1);
        let n441 = tokens[i].end_pos;
        let t436 = SejongToken::new(s437.as_str(), s438.as_str(), n439, n441);
        let mut nv442: Vec<SejongToken> = Vec::new();
        push_token(&mut nv442, t430);
        push_token(&mut nv442, t436);
        splice_tokens(tokens, i, 1, nv442);
        let _len1 = tokens.len();
        return i + 2;
    }
    if p59_c4_exec(tokens, i) {
        let s444 = owned("불");
        let s445 = owned("XPN");
        let n446 = tokens[i].start_pos;
        let n448 = tokens[i].start_pos;
        let n447 = n448.saturating_add(1);
        let t443 = SejongToken::new(s444.as_str(), s445.as_str(), n446, n447);
        let s450 = owned("필요");
        let s451 = owned("NNG");
        let n453 = tokens[i].start_pos;
        let n452 = n453.saturating_add(1);
        let n454 = tokens[i].end_pos;
        let t449 = SejongToken::new(s450.as_str(), s451.as_str(), n452, n454);
        let mut nv455: Vec<SejongToken> = Vec::new();
        push_token(&mut nv455, t443);
        push_token(&mut nv455, t449);
        splice_tokens(tokens, i, 1, nv455);
        let _len1 = tokens.len();
        return i + 2;
    }
    if p59_c5_exec(tokens, i) {
        let s457 = owned("초");
        let s458 = owned("XPN");
        let n459 = tokens[i].start_pos;
        let n461 = tokens[i].start_pos;
        let n460 = n461.saturating_add(1);
        let t456 = SejongToken::new(s457.as_str(), s458.as_str(), n459, n460);
        let s463 = owned("고속");
        let s464 = owned("NNG");
        let n466 = tokens[i].start_pos;
        let n465 = n466.saturating_add(1);
        let n467 = tokens[i].end_pos;
        let t462 = SejongToken::new(s463.as_str(), s464.as_str(), n465, n467);
        let mut nv468: Vec<SejongToken> = Vec::new();
        push_token(&mut nv468, t456);
        push_token(&mut nv468, t462);
        splice_tokens(tokens, i, 1, nv468);
        let _len1 = tokens.len();
        return i + 2;
    }
    if p59_c6_exec(tokens, i) {
        let s470 = owned("초");
        let s471 = owned("XPN");
        let n472 = tokens[i].start_pos;
        let n474 = tokens[i].start_pos;
        let n473 = n474.saturating_add(1);
        let t469 = SejongToken::new(s470.as_str(), s471.as_str(), n472, n473);
        let s476 = owned("대형");
        let s477 = owned("NNG");
        let n479 = tokens[i].start_pos;
        let n478 = n479.saturating_add(1);
        let n480 = tokens[i].end_pos;
        let t475 = SejongToken::new(s476.as_str(), s477.as_str(), n478, n480);
        let mut nv481: Vec<SejongToken> = Vec::new();
        push_token(&mut nv481, t469);
        push_token(&mut nv481, t475);
        splice_tokens(tokens, i, 1, nv481);
        let _len1 = tokens.len();
        return i + 2;
    }
    if p59_c7_exec(tokens, i) {
        let s483 = owned("재");
        let s484 = owned("XPN");
        let n485 = tokens[i].start_pos;
        let n487 = tokens[i].start_pos;
        let n486 = n487.saturating_add(1);
        let t482 = SejongToken::new(s483.as_str(), s484.as_str(), n485, n486);
        let s489 = owned("검토");
        let s490 = owned("NNG");
        let n492 = tokens[i].start_pos;
        let n491 = n492.saturating_add(1);
        let n493 = tokens[i].end_pos;
        let t488 = SejongToken::new(s489.as_str(), s490.as_str(), n491, n493);
        let mut nv494: Vec<SejongToken> = Vec::new();
        push_token(&mut nv494, t482);
        push_token(&mut nv494, t488);
        splice_tokens(tokens, i, 1, nv494);
        let _len1 = tokens.len();
        return i + 2;
    }
    if p59_c8_exec(tokens, i) {
        let s496 = owned("재");
        let s497 = owned("XPN");
        let n498 = tokens[i].start_pos;
        let n500 = tokens[i].start_pos;
        let n499 = n500.saturating_add(1);
        let t495 = SejongToken::new(s496.as_str(), s497.as_str(), n498, n499);
        let s502 = owned("확인");
        let s503 = owned("NNG");
        let n505 = tokens[i].start_pos;
        let n504 = n505.saturating_add(1);
        let n506 = tokens[i].end_pos;
        let t501 = SejongToken::new(s502.as_str(), s503.as_str(), n504, n506);
        let mut nv507: Vec<SejongToken> = Vec::new();
        push_token(&mut nv507, t495);
        push_token(&mut nv507, t501);
        splice_tokens(tokens, i, 1, nv507);
        let _len1 = tokens.len();
        return i + 2;
    }
    if p59_c9_exec(tokens, i) {
        let s509 = owned("새");
        let s510 = owned("XPN");
        let n511 = tokens[i].start_pos;
        let n513 = tokens[i].start_pos;
        let n512 = n513.saturating_add(1);
        let t508 = SejongToken::new(s509.as_str(), s510.as_str(), n511, n512);
        let s515 = owned("해");
        let s516 = owned("NNG");
        let n518 = tokens[i].start_pos;
        let n517 = n518.saturating_add(1);
        let n519 = tokens[i].end_pos;
        let t514 = SejongToken::new(s515.as_str(), s516.as_str(), n517, n519);
        let mut nv520: Vec<SejongToken> = Vec::new();
        push_token(&mut nv520, t508);
        push_token(&mut nv520, t514);
        splice_tokens(tokens, i, 1, nv520);
        let _len1 = tokens.len();
        return i + 2;
    }
    if p59_c10_exec(tokens, i) {
        let s522 = owned("새");
        let s523 = owned("XPN");
        let n524 = tokens[i].start_pos;
        let n526 = tokens[i].start_pos;
        let n525 = n526.saturating_add(1);
        let t521 = SejongToken::new(s522.as_str(), s523.as_str(), n524, n525);
        let s528 = owned("봄");
        let s529 = owned("NNG");
        let n531 = tokens[i].start_pos;
        let n530 = n531.saturating_add(1);
        let n532 = tokens[i].end_pos;
        let t527 = SejongToken::new(s528.as_str(), s529.as_str(), n530, n532);
        let mut nv533: Vec<SejongToken> = Vec::new();
        push_token(&mut nv533, t521);
        push_token(&mut nv533, t527);
        splice_tokens(tokens, i, 1, nv533);
        let _len1 = tokens.len();
        return i + 2;
    }
    if p59_c11_exec(tokens, i) {
        let s535 = owned("새");
        let s536 = owned("XPN");
        let n537 = tokens[i].start_pos;
        let n539 = tokens[i].start_pos;
        let n538 = n539.saturating_add(1);
        let t534 = SejongToken::new(s535.as_str(), s536.as_str(), n537, n538);
        let s541 = owned("벽");
        let s542 = owned("NNG");
        let n544 = tokens[i].start_pos;
        let n543 = n544.saturating_add(1);
        let n545 = tokens[i].end_pos;
        let t540 = SejongToken::new(s541.as_str(), s542.as_str(), n543, n545);
        let mut nv546: Vec<SejongToken> = Vec::new();
        push_token(&mut nv546, t534);
        push_token(&mut nv546, t540);
        splice_tokens(tokens, i, 1, nv546);
        let _len1 = tokens.len();
        return i + 2;
    }
    if p59_c12_exec(tokens, i) {
        let s548 = owned("새");
        let s549 = owned("XPN");
        let n550 = tokens[i].start_pos;
        let n552 = tokens[i].start_pos;
        let n551 = n552.saturating_add(1);
        let t547 = SejongToken::new(s548.as_str(), s549.as_str(), n550, n551);
        let s554 = owned("집");
        let s555 = owned("NNG");
        let n557 = tokens[i].start_pos;
        let n556 = n557.saturating_add(1);
        let n558 = tokens[i].end_pos;
        let t553 = SejongToken::new(s554.as_str(), s555.as_str(), n556, n558);
        let mut nv559: Vec<SejongToken> = Vec::new();
        push_token(&mut nv559, t547);
        push_token(&mut nv559, t553);
        splice_tokens(tokens, i, 1, nv559);
        let _len1 = tokens.len();
        return i + 2;
    }
    if p59_c13_exec(tokens, i) {
        let s561 = owned("새");
        let s562 = owned("XPN");
        let n563 = tokens[i].start_pos;
        let n565 = tokens[i].start_pos;
        let n564 = n565.saturating_add(1);
        let t560 = SejongToken::new(s561.as_str(), s562.as_str(), n563, n564);
        let s567 = owned("옷");
        let s568 = owned("NNG");
        let n570 = tokens[i].start_pos;
        let n569 = n570.saturating_add(1);
        let n571 = tokens[i].end_pos;
        let t566 = SejongToken::new(s567.as_str(), s568.as_str(), n569, n571);
        let mut nv572: Vec<SejongToken> = Vec::new();
        push_token(&mut nv572, t560);
        push_token(&mut nv572, t566);
        splice_tokens(tokens, i, 1, nv572);
        let _len1 = tokens.len();
        return i + 2;
    }
    if p59_c14_exec(tokens, i) {
        let s574 = owned("첫");
        let s575 = owned("XPN");
        let n576 = tokens[i].start_pos;
        let n578 = tokens[i].start_pos;
        let n577 = n578.saturating_add(1);
        let t573 = SejongToken::new(s574.as_str(), s575.as_str(), n576, n577);
        let s580 = owned("눈");
        let s581 = owned("NNG");
        let n583 = tokens[i].start_pos;
        let n582 = n583.saturating_add(1);
        let n584 = tokens[i].end_pos;
        let t579 = SejongToken::new(s580.as_str(), s581.as_str(), n582, n584);
        let mut nv585: Vec<SejongToken> = Vec::new();
        push_token(&mut nv585, t573);
        push_token(&mut nv585, t579);
        splice_tokens(tokens, i, 1, nv585);
        let _len1 = tokens.len();
        return i + 2;
    }
    if p59_c15_exec(tokens, i) {
        let s587 = owned("첫");
        let s588 = owned("XPN");
        let n589 = tokens[i].start_pos;
        let n591 = tokens[i].start_pos;
        let n590 = n591.saturating_add(1);
        let t586 = SejongToken::new(s587.as_str(), s588.as_str(), n589, n590);
        let s593 = owned("날");
        let s594 = owned("NNG");
        let n596 = tokens[i].start_pos;
        let n595 = n596.saturating_add(1);
        let n597 = tokens[i].end_pos;
        let t592 = SejongToken::new(s593.as_str(), s594.as_str(), n595, n597);
        let mut nv598: Vec<SejongToken> = Vec::new();
        push_token(&mut nv598, t586);
        push_token(&mut nv598, t592);
        splice_tokens(tokens, i, 1, nv598);
        let _len1 = tokens.len();
        return i + 2;
    }
    if p59_c16_exec(tokens, i) {
        let s600 = owned("첫");
        let s601 = owned("XPN");
        let n602 = tokens[i].start_pos;
        let n604 = tokens[i].start_pos;
        let n603 = n604.saturating_add(1);
        let t599 = SejongToken::new(s600.as_str(), s601.as_str(), n602, n603);
        let s606 = owned("사랑");
        let s607 = owned("NNG");
        let n609 = tokens[i].start_pos;
        let n608 = n609.saturating_add(1);
        let n610 = tokens[i].end_pos;
        let t605 = SejongToken::new(s606.as_str(), s607.as_str(), n608, n610);
        let mut nv611: Vec<SejongToken> = Vec::new();
        push_token(&mut nv611, t599);
        push_token(&mut nv611, t605);
        splice_tokens(tokens, i, 1, nv611);
        let _len1 = tokens.len();
        return i + 2;
    }
    if p59_c17_exec(tokens, i) {
        let s613 = owned("첫");
        let s614 = owned("XPN");
        let n615 = tokens[i].start_pos;
        let n617 = tokens[i].start_pos;
        let n616 = n617.saturating_add(1);
        let t612 = SejongToken::new(s613.as_str(), s614.as_str(), n615, n616);
        let s619 = owned("걸음");
        let s620 = owned("NNG");
        let n622 = tokens[i].start_pos;
        let n621 = n622.saturating_add(1);
        let n623 = tokens[i].end_pos;
        let t618 = SejongToken::new(s619.as_str(), s620.as_str(), n621, n623);
        let mut nv624: Vec<SejongToken> = Vec::new();
        push_token(&mut nv624, t612);
        push_token(&mut nv624, t618);
        splice_tokens(tokens, i, 1, nv624);
        let _len1 = tokens.len();
        return i + 2;
    }
    if p59_c18_exec(tokens, i) {
        let s626 = owned("큰");
        let s627 = owned("XPN");
        let n628 = tokens[i].start_pos;
        let n630 = tokens[i].start_pos;
        let n629 = n630.saturating_add(1);
        let t625 = SejongToken::new(s626.as_str(), s627.as_str(), n628, n629);
        let s632 = owned("집");
        let s633 = owned("NNG");
        let n635 = tokens[i].start_pos;
        let n634 = n635.saturating_add(1);
        let n636 = tokens[i].end_pos;
        let t631 = SejongToken::new(s632.as_str(), s633.as_str(), n634, n636);
        let mut nv637: Vec<SejongToken> = Vec::new();
        push_token(&mut nv637, t625);
        push_token(&mut nv637, t631);
        splice_tokens(tokens, i, 1, nv637);
        let _len1 = tokens.len();
        return i + 2;
    }
    if p59_c19_exec(tokens, i) {
        let s639 = owned("큰");
        let s640 = owned("XPN");
        let n641 = tokens[i].start_pos;
        let n643 = tokens[i].start_pos;
        let n642 = n643.saturating_add(1);
        let t638 = SejongToken::new(s639.as_str(), s640.as_str(), n641, n642);
        let s645 = owned("아버지");
        let s646 = owned("NNG");
        let n648 = tokens[i].start_pos;
        let n647 = n648.saturating_add(1);
        let n649 = tokens[i].end_pos;
        let t644 = SejongToken::new(s645.as_str(), s646.as_str(), n647, n649);
        let mut nv650: Vec<SejongToken> = Vec::new();
        push_token(&mut nv650, t638);
        push_token(&mut nv650, t644);
        splice_tokens(tokens, i, 1, nv650);
        let _len1 = tokens.len();
        return i + 2;
    }
    if p59_c20_exec(tokens, i) {
        let s652 = owned("큰");
        let s653 = owned("XPN");
        let n654 = tokens[i].start_pos;
        let n656 = tokens[i].start_pos;
        let n655 = n656.saturating_add(1);
        let t651 = SejongToken::new(s652.as_str(), s653.as_str(), n654, n655);
        let s658 = owned("어머니");
        let s659 = owned("NNG");
        let n661 = tokens[i].start_pos;
        let n660 = n661.saturating_add(1);
        let n662 = tokens[i].end_pos;
        let t657 = SejongToken::new(s658.as_str(), s659.as_str(), n660, n662);
        let mut nv663: Vec<SejongToken> = Vec::new();
        push_token(&mut nv663, t651);
        push_token(&mut nv663, t657);
        splice_tokens(tokens, i, 1, nv663);
        let _len1 = tokens.len();
        return i + 2;
    }
    if p59_c21_exec(tokens, i) {
        let s665 = owned("순");
        let s666 = owned("XPN");
        let n667 = tokens[i].start_pos;
        let n669 = tokens[i].start_pos;
        let n668 = n669.saturating_add(1);
        let t664 = SejongToken::new(s665.as_str(), s666.as_str(), n667, n668);
        let s671 = owned("우리말");
        let s672 = owned("NNG");
        let n674 = tokens[i].start_pos;
        let n673 = n674.saturating_add(1);
        let n675 = tokens[i].end_pos;
        let t670 = SejongToken::new(s671.as_str(), s672.as_str(), n673, n675);
        let mut nv676: Vec<SejongToken> = Vec::new();
        push_token(&mut nv676, t664);
        push_token(&mut nv676, t670);
        splice_tokens(tokens, i, 1, nv676);
        let _len1 = tokens.len();
        return i + 2;
    }
    if p59_c22_exec(tokens, i) {
        let s678 = owned("순");
        let s679 = owned("XPN");
        let n680 = tokens[i].start_pos;
        let n682 = tokens[i].start_pos;
        let n681 = n682.saturating_add(1);
        let t677 = SejongToken::new(s678.as_str(), s679.as_str(), n680, n681);
        let s684 = owned("이익");
        let s685 = owned("NNG");
        let n687 = tokens[i].start_pos;
        let n686 = n687.saturating_add(1);
        let n688 = tokens[i].end_pos;
        let t683 = SejongToken::new(s684.as_str(), s685.as_str(), n686, n688);
        let mut nv689: Vec<SejongToken> = Vec::new();
        push_token(&mut nv689, t677);
        push_token(&mut nv689, t683);
        splice_tokens(tokens, i, 1, nv689);
        let _len1 = tokens.len();
        return i + 2;
    }
    if p59_c23_exec(tokens, i) {
        let s691 = owned("옛");
        let s692 = owned("XPN");
        let n693 = tokens[i].start_pos;
        let n695 = tokens[i].start_pos;
        let n694 = n695.saturating_add(1);
        let t690 = SejongToken::new(s691.as_str(), s692.as_str(), n693, n694);
        let s697 = owned("날");
        let s698 = owned("NNG");
        let n700 = tokens[i].start_pos;
        let n699 = n700.saturating_add(1);
        let n701 = tokens[i].end_pos;
        let t696 = SejongToken::new(s697.as_str(), s698.as_str(), n699, n701);
        let mut nv702: Vec<SejongToken> = Vec::new();
        push_token(&mut nv702, t690);
        push_token(&mut nv702, t696);
        splice_tokens(tokens, i, 1, nv702);
        let _len1 = tokens.len();
        return i + 2;
    }
    if p59_c24_exec(tokens, i) {
        let s704 = owned("옛");
        let s705 = owned("XPN");
        let n706 = tokens[i].start_pos;
        let n708 = tokens[i].start_pos;
        let n707 = n708.saturating_add(1);
        let t703 = SejongToken::new(s704.as_str(), s705.as_str(), n706, n707);
        let s710 = owned("사람");
        let s711 = owned("NNG");
        let n713 = tokens[i].start_pos;
        let n712 = n713.saturating_add(1);
        let n714 = tokens[i].end_pos;
        let t709 = SejongToken::new(s710.as_str(), s711.as_str(), n712, n714);
        let mut nv715: Vec<SejongToken> = Vec::new();
        push_token(&mut nv715, t703);
        push_token(&mut nv715, t709);
        splice_tokens(tokens, i, 1, nv715);
        let _len1 = tokens.len();
        return i + 2;
    }
    if p59_c25_exec(tokens, i) {
        let s717 = owned("헛");
        let s718 = owned("XPN");
        let n719 = tokens[i].start_pos;
        let n721 = tokens[i].start_pos;
        let n720 = n721.saturating_add(1);
        let t716 = SejongToken::new(s717.as_str(), s718.as_str(), n719, n720);
        let s723 = owned("소리");
        let s724 = owned("NNG");
        let n726 = tokens[i].start_pos;
        let n725 = n726.saturating_add(1);
        let n727 = tokens[i].end_pos;
        let t722 = SejongToken::new(s723.as_str(), s724.as_str(), n725, n727);
        let mut nv728: Vec<SejongToken> = Vec::new();
        push_token(&mut nv728, t716);
        push_token(&mut nv728, t722);
        splice_tokens(tokens, i, 1, nv728);
        let _len1 = tokens.len();
        return i + 2;
    }
    if p59_c26_exec(tokens, i) {
        let s730 = owned("헛");
        let s731 = owned("XPN");
        let n732 = tokens[i].start_pos;
        let n734 = tokens[i].start_pos;
        let n733 = n734.saturating_add(1);
        let t729 = SejongToken::new(s730.as_str(), s731.as_str(), n732, n733);
        let s736 = owned("수고");
        let s737 = owned("NNG");
        let n739 = tokens[i].start_pos;
        let n738 = n739.saturating_add(1);
        let n740 = tokens[i].end_pos;
        let t735 = SejongToken::new(s736.as_str(), s737.as_str(), n738, n740);
        let mut nv741: Vec<SejongToken> = Vec::new();
        push_token(&mut nv741, t729);
        push_token(&mut nv741, t735);
        splice_tokens(tokens, i, 1, nv741);
        let _len1 = tokens.len();
        return i + 2;
    }
    i + 1
}

/// A compound noun with a prefix is split (구시대/NNG → 구/XPN 시대/NNG).
pub fn apply_p59(tokens: &mut Vec<SejongToken>)
    ensures
        tokens_view(final(tokens)@) == p59(tokens_view(old(tokens)@)),
{
    let ghost orig = tokens_view(tokens@);
    let mut i: usize = 0;
    while i < tokens.len()
        invariant
            i <= tokens@.len() + 1,
            scan(tokens_view(tokens@), i as int, p59_f()) == scan(orig, 0, p59_f()),
        decreases tokens@.len() + 1 - i,
    {
        let ghost before = tokens_view(tokens@);
        assert(before.len() == tokens@.len());
        i = p59_step_exec(tokens, i);
        assert(tokens_view(tokens@).len() == tokens@.len());
    }
}

/// Where [`p60`] changes a token.
pub open spec fn p60_c(ts: Seq<TokenView>, i: int) -> bool {
    ((0 <= i < ts.len() && ts[i].pos == "NNG"@) && (((0 <= i - 1 < ts.len() && ts[i - 1].pos == "ETM"@) && (0 <= i < ts.len() && seq!["것"@, "거"@, "수"@, "데"@, "때"@, "뿐"@, "줄"@, "척"@, "체"@, "만큼"@, "대로"@, "지"@, "채"@, "김"@, "듯"@, "바"@, "양"@, "적"@, "리"@, "이"@, "분"@].contains(ts[i].surface))) || ((0 <= i - 1 < ts.len() && seq!["VV"@, "VA"@, "VX"@].contains(ts[i - 1].pos)) && (0 <= i < ts.len() && seq!["수"@, "것"@, "줄"@, "뿐"@].contains(ts[i].surface)))))
}

/// The token [`p60`] puts at `i`.
pub open spec fn p60_t(ts: Seq<TokenView>, i: int) -> TokenView {
    TokenView { pos: "NNB"@, ..ts[i] }
}

/// A bound noun tagged NNG after an adnominal ending, or 수, 것, 줄, 뿐 after a verb, adjective or auxiliary, is tagged NNB.
pub open spec fn p60(ts: Seq<TokenView>) -> Seq<TokenView> {
    map_where(ts, |ts: Seq<TokenView>, i: int| p60_c(ts, i), |ts: Seq<TokenView>, i: int| p60_t(ts, i))
}

/// Whether [`p60`] changes the token at `i`.
fn p60_c_exec(tokens: &Vec<SejongToken>, i: usize) -> (r: bool)
    requires
        i < tokens@.len(),
    ensures
        r == p60_c(tokens_view(tokens@), i as int),
{
    assert(tokens_view(tokens@).len() == tokens@.len());
    let c742 = pos_is(&tokens[i], "NNG");
    let c743 = (i >= 1) && pos_is(&tokens[i - 1], "ETM");
    let l745: [&str; 21] = ["것", "거", "수", "데", "때", "뿐", "줄", "척", "체", "만큼", "대로", "지", "채", "김", "듯", "바", "양", "적", "리", "이", "분"];
    assert(crate::tag_map::strs_view(l745@) =~= seq!["것"@, "거"@, "수"@, "데"@, "때"@, "뿐"@, "줄"@, "척"@, "체"@, "만큼"@, "대로"@, "지"@, "채"@, "김"@, "듯"@, "바"@, "양"@, "적"@, "리"@, "이"@, "분"@]);
    let c744 = in_list(&l745, tokens[i].surface.as_str());
    let l747: [&str; 3] = ["VV", "VA", "VX"];
    assert(crate::tag_map::strs_view(l747@) =~= seq!["VV"@, "VA"@, "VX"@]);
    let c746 = (i >= 1) && in_list(&l747, tokens[i - 1].pos.as_str());
    let l749: [&str; 4] = ["수", "것", "줄", "뿐"];
    assert(crate::tag_map::strs_view(l749@) =~= seq!["수"@, "것"@, "줄"@, "뿐"@]);
    let c748 = in_list(&l749, tokens[i].surface.as_str());
    (c742 && ((c743 && c744) || (c746 && c748)))
}

/// The token [`p60`] puts at `i`.
fn p60_t_exec(tokens: &Vec<SejongToken>, i: usize) -> (t: SejongToken)
    requires
        i < tokens@.len(),
        p60_c(tokens_view(tokens@), i as int),
    ensures
        t@ == p60_t(tokens_view(tokens@), i as int),
{
    assert(tokens_view(tokens@).len() == tokens@.len());
    let s751 = owned("NNB");
    let mut t750 = tokens[i].duplicate();
    t750.pos = s751;
    t750
}

/// A bound noun tagged NNG after an adnominal ending, or 수, 것, 줄, 뿐 after a verb, adjective or auxiliary, is tagged NNB.
pub fn apply_p60(tokens: &mut Vec<SejongToken>)
    ensures
        tokens_view(final(tokens)@) == p60(tokens_view(old(tokens)@)),
{
    let ghost orig = tokens_view(tokens@);
    let mut out: Vec<SejongToken> = Vec::new();
    let mut k: usize = 0;
    while k < tokens.len()
        invariant
            k <= tokens@.len(),
            orig == tokens_view(tokens@),
            tokens_view(out@) == p60(orig).take(k as int),
        decreases tokens@.len() - k,
    {
        let t = if p60_c_exec(tokens, k) { p60_t_exec(tokens, k) } else { tokens[k].duplicate() };
        push_token(&mut out, t);
        k += 1;
        assert(tokens_view(out@) =~= p60(orig).take(k as int));
    }
    assert(p60(orig).take(k as int) =~= p60(orig));
    *tokens = out;
}

/// Where rule 0 of [`p61`] applies.
pub open spec fn p61_c0(ts: Seq<TokenView>, i: int) -> bool {
    (((0 <= i < ts.len() && ts[i].surface == "가야"@) && (0 <= i < ts.len() && ts[i].pos == "NNG"@)) && (0 <= i + 1 < ts.len() && seq!["합니다"@, "해요"@, "하"@].contains(ts[i + 1].surface)))
}

/// Where rule 1 of [`p61`] applies.
pub open spec fn p61_c1(ts: Seq<TokenView>, i: int) -> bool {
    (((0 <= i < ts.len() && ts[i].surface == "와야"@) && (0 <= i < ts.len() && ts[i].pos == "NNG"@)) && (0 <= i + 1 < ts.len() && seq!["합니다"@, "해요"@, "하"@].contains(ts[i + 1].surface)))
}

/// Where rule 2 of [`p61`] applies.
pub open spec fn p61_c2(ts: Seq<TokenView>, i: int) -> bool {
    (((0 <= i < ts.len() && ts[i].surface == "봐야"@) && (0 <= i < ts.len() && ts[i].pos == "NNG"@)) && (0 <= i + 1 < ts.len() && seq!["합니다"@, "해요"@, "하"@].contains(ts[i + 1].surface)))
}

/// Where rule 3 of [`p61`] applies.
pub open spec fn p61_c3(ts: Seq<TokenView>, i: int) -> bool {
    (((0 <= i < ts.len() && ts[i].surface == "해야"@) && (0 <= i < ts.len() && ts[i].pos == "NNG"@)) && (0 <= i + 1 < ts.len() && seq!["합니다"@, "해요"@, "하"@].contains(ts[i + 1].surface)))
}

/// One step of [`p61`] at `i`: the list after it and the next position.
pub open spec fn p61_step(ts: Seq<TokenView>, i: int) -> (Seq<TokenView>, int) {
    if p61_c0(ts, i) {
        (splice(ts, i, 1, seq![plain_view("가"@, "VV"@, ts[i].start_pos, (ts[i].start_pos).saturating_add(1)), plain_view("아야"@, "EC"@, (ts[i].start_pos).saturating_add(1), ts[i].end_pos)]), i + 2)
    } else if p61_c1(ts, i) {
        (splice(ts, i, 1, seq![plain_view("오"@, "VV"@, ts[i].start_pos, (ts[i].start_pos).saturating_add(1)), plain_view("아야"@, "EC"@, (ts[i].start_pos).saturating_add(1), ts[i].end_pos)]), i + 2)
    } else if p61_c2(ts, i) {
        (splice(ts, i, 1, seq![plain_view("보"@, "VV"@, ts[i].start_pos, (ts[i].start_pos).saturating_add(1)), plain_view("아야"@, "EC"@, (ts[i].start_pos).saturating_add(1), ts[i].end_pos)]), i + 2)
    } else if p61_c3(ts, i) {
        (splice(ts, i, 1, seq![plain_view("하"@, "VV"@, ts[i].start_pos, (ts[i].start_pos).saturating_add(1)), plain_view("아야"@, "EC"@, (ts[i].start_pos).saturating_add(1), ts[i].end_pos)]), i + 2)
    } else {
        (ts, i + 1)
    }
}

/// [`p61_step`] as a function value.
pub open spec fn p61_f() -> spec_fn(Seq<TokenView>, int) -> (Seq<TokenView>, int) {
    |ts: Seq<TokenView>, i: int| p61_step(ts, i)
}

/// 가야, 와야, 봐야, 해야 tagged NNG before 합니다, 해요 or 하 are a stem and 아야/EC.
pub open spec fn p61(ts: Seq<TokenView>) -> Seq<TokenView> {
    scan(ts, 0, p61_f())
}

/// Whether rule 0 of [`p61`] applies at `i`.
fn p61_c0_exec(tokens: &Vec<SejongToken>, i: usize) -> (r: bool)
    requires
        i < tokens@.len(),
    ensures
        r == p61_c0(tokens_view(tokens@), i as int),
{
    assert(tokens_view(tokens@).len() == tokens@.len());
    let c752 = surf_is(&tokens[i], "가야");
    let c753 = pos_is(&tokens[i], "NNG");
    let l755: [&str; 3] = ["합니다", "해요", "하"];
    assert(crate::tag_map::strs_view(l755@) =~= seq!["합니다"@, "해요"@, "하"@]);
    let c754 = (tokens.len() - i > 1) && in_list(&l755, tokens[i + 1].surface.as_str());
    ((c752 && c753) && c754)
}

/// Whether rule 1 of [`p61`] applies at `i`.
fn p61_c1_exec(tokens: &Vec<SejongToken>, i: usize) -> (r: bool)
    requires
        i < tokens@.len(),
    ensures
        r == p61_c1(tokens_view(tokens@), i as int),
{
    assert(tokens_view(tokens@).len() == tokens@.len());
    let c756 = surf_is(&tokens[i], "와야");
    let c757 = pos_is(&tokens[i], "NNG");
    let l759: [&str; 3] = ["합니다", "해요", "하"];
    assert(crate::tag_map::strs_view(l759@) =~= seq!["합니다"@, "해요"@, "하"@]);
    let c758 = (tokens.len() - i > 1) && in_list(&l759, tokens[i + 1].surface.as_str());
    ((c756 && c757) && c758)
}

/// Whether rule 2 of [`p61`] applies at `i`.
fn p61_c2_exec(tokens: &Vec<SejongToken>, i: usize) -> (r: bool)
    requires
        i < tokens@.len(),
    ensures
        r == p61_c2(tokens_view(tokens@), i as int),
{
    assert(tokens_view(tokens@).len() == tokens@.len());
    let c760 = surf_is(&tokens[i], "봐야");
    let c761 = pos_is(&tokens[i], "NNG");
    let l763: [&str; 3] = ["합니다", "해요", "하"];
    assert(crate::tag_map::strs_view(l763@) =~= seq!["합니다"@, "해요"@, "하"@]);
    let c762 = (tokens.len() - i > 1) && in_list(&l763, tokens[i + 1].surface.as_str());
    ((c760 && c761) && c762)
}

/// Whether rule 3 of [`p61`] applies at `i`.
fn p61_c3_exec(tokens: &Vec<SejongToken>, i: usize) -> (r: bool)
    requires
        i < tokens@.len(),
    ensures
        r == p61_c3(tokens_view(tokens@), i as int),
{
    assert(tokens_view(tokens@).len() == tokens@.len());
    let c764 = surf_is(&tokens[i], "해야");
    let c765 = pos_is(&tokens[i], "NNG");
    let l767: [&str; 3] = ["합니다", "해요", "하"];
    assert(crate::tag_map::strs_view(l767@) =~= seq!["합니다"@, "해요"@, "하"@]);
    let c766 = (tokens.len() - i > 1) && in_list(&l767, tokens[i + 1].surface.as_str());
    ((c764 && c765) && c766)
}

/// One step of [`p61`] at `i`; returns the next position.
fn p61_step_exec(tokens: &mut Vec<SejongToken>, i: usize) -> (next: usize)
    requires
        i < old(tokens)@.len(),
    ensures
        (tokens_view(final(tokens)@), next as int) == p61_step(tokens_view(old(tokens)@), i as int),
        final(tokens)@.len() - next < old(tokens)@.len() - i,
        next <= final(tokens)@.len() + 1,
{
    let len0 = tokens.len();
    assert(tokens_view(tokens@).len() == tokens@.len());
    if p61_c0_exec(tokens, i) {
        let s769 = owned("가");
        let s770 = owned("VV");
        let n771 = tokens[i].start_pos;
        let n773 = tokens[i].start_pos;
        let n772 = n773.saturating_add(1);
        let t768 = SejongToken::new(s769.as_str(), s770.as_str(), n771, n772);
        let s775 = owned("아야");
        let s776 = owned("EC");
        let n778 = tokens[i].start_pos;
        let n777 = n778.saturating_add(1);
        let n779 = tokens[i].end_pos;
        let t774 = SejongToken::new(s775.as_str(), s776.as_str(), n777, n779);
        let mut nv780: Vec<SejongToken> = Vec::new();
        push_token(&mut nv780, t768);
        push_token(&mut nv780, t774);
        splice_tokens(tokens, i, 1, nv780);
        let _len1 = tokens.len();
        return i + 2;
    }
    if p61_c1_exec(tokens, i) {
        let s782 = owned("오");
        let s783 = owned("VV");
        let n784 = tokens[i].start_pos;
        let n786 = tokens[i].start_pos;
        let n785 = n786.saturating_add(1);
        let t781 = SejongToken::new(s782.as_str(), s783.as_str(), n784, n785);
        let s788 = owned("아야");
        let s789 = owned("EC");
        let n791 = tokens[i].start_pos;
        let n790 = n791.saturating_add(1);
        let n792 = tokens[i].end_pos;
        let t787 = SejongToken::new(s788.as_str(), s789.as_str(), n790, n792);
        let mut nv793: Vec<SejongToken> = Vec::new();
        push_token(&mut nv793, t781);
        push_token(&mut nv793, t787);
        splice_tokens(tokens, i, 1, nv793);
        let _len1 = tokens.len();
        return i + 2;
    }
    if p61_c2_exec(tokens, i) {
        let s795 = owned("보");
        let s796 = owned("VV");
        let n797 = tokens[i].start_pos;
        let n799 = tokens[i].start_pos;
        let n798 = n799.saturating_add(1);
        let t794 = SejongToken::new(s795.as_str(), s796.as_str(), n797, n798);
        let s801 = owned("아야");
        let s802 = owned("EC");
        let n804 = tokens[i].start_pos;
        let n803 = n804.saturating_add(1);
        let n805 = tokens[i].end_pos;
        let t800 = SejongToken::new(s801.as_str(), s802.as_str(), n803, n805);
        let mut nv806: Vec<SejongToken> = Vec::new();
        push_token(&mut nv806, t794);
        push_token(&mut nv806, t800);
        splice_tokens(tokens, i, 1, nv806);
        let _len1 = tokens.len();
        return i + 2;
    }
    if p61_c3_exec(tokens, i) {
        let s808 = owned("하");
        let s809 = owned("VV");
        let n810 = tokens[i].start_pos;
        let n812 = tokens[i].start_pos;
        let n811 = n812.saturating_add(1);
        let t807 = SejongToken::new(s808.as_str(), s809.as_str(), n810, n811);
        let s814 = owned("아야");
        let s815 = owned("EC");
        let n817 = tokens[i].start_pos;
        let n816 = n817.saturating_add(1);
        let n818 = tokens[i].end_pos;
        let t813 = SejongToken::new(s814.as_str(), s815.as_str(), n816, n818);
        let mut nv819: Vec<SejongToken> = Vec::new();
        push_token(&mut nv819, t807);
        push_token(&mut nv819, t813);
        splice_tokens(tokens, i, 1, nv819);
        let _len1 = tokens.len();
        return i + 2;
    }
    i + 1
}

/// 가야, 와야, 봐야, 해야 tagged NNG before 합니다, 해요 or 하 are a stem and 아야/EC.
pub fn apply_p61(tokens: &mut Vec<SejongToken>)
    ensures
        tokens_view(final(tokens)@) == p61(tokens_view(old(tokens)@)),
{
    let ghost orig = tokens_view(tokens@);
    let mut i: usize = 0;
    while i < tokens.len()
        invariant
            i <= tokens@.len() + 1,
            scan(tokens_view(tokens@), i as int, p61_f()) == scan(orig, 0, p61_f()),
        decreases tokens@.len() + 1 - i,
    {
        let ghost before = tokens_view(tokens@);
        assert(before.len() == tokens@.len());
        i = p61_step_exec(tokens, i);
        assert(tokens_view(tokens@).len() == tokens@.len());
    }
}

/// Where rule 0 of [`p62`] applies.
pub open spec fn p62_c0(ts: Seq<TokenView>, i: int) -> bool {
    (((0 <= i < ts.len() && ts[i].surface == "올"@) && (0 <= i < ts.len() && ts[i].pos == "VV"@)) && ((0 <= i + 1 < ts.len() && ts[i + 1].surface == "해"@) && (0 <= i + 1 < ts.len() && ts[i + 1].pos == "NNG"@)))
}

/// Where rule 1 of [`p62`] applies.
pub open spec fn p62_c1(ts: Seq<TokenView>, i: int) -> bool {
    (((0 <= i < ts.len() && ts[i].surface == "내"@) && (0 <= i < ts.len() && ts[i].pos == "NP"@)) && ((0 <= i + 1 < ts.len() && ts[i + 1].surface == "년"@) && (0 <= i + 1 < ts.len() && ts[i + 1].pos == "NNG"@)))
}

/// Where rule 2 of [`p62`] applies.
pub open spec fn p62_c2(ts: Seq<TokenView>, i: int) -> bool {
    (((0 <= i < ts.len() && ts[i].surface == "작"@) && (0 <= i < ts.len() && ts[i].pos == "VA"@)) && ((0 <= i + 1 < ts.len() && ts[i + 1].surface == "년"@) && (0 <= i + 1 < ts.len() && ts[i + 1].pos == "NNG"@)))
}

/// One step of [`p62`] at `i`: the list after it and the next position.
pub open spec fn p62_step(ts: Seq<TokenView>, i: int) -> (Seq<TokenView>, int) {
    if p62_c0(ts, i) {
        (splice(ts, i, 2, seq![plain_view("올해"@, "NNG"@, ts[i].start_pos, ts[i + 1].end_pos)]), i + 1)
    } else if p62_c1(ts, i) {
        (splice(ts, i, 2, seq![plain_view("내년"@, "NNG"@, ts[i].start_pos, ts[i + 1].end_pos)]), i + 1)
    } else if p62_c2(ts, i) {
        (splice(ts, i, 2, seq![plain_view("작년"@, "NNG"@, ts[i].start_pos, ts[i + 1].end_pos)]), i + 1)
    } else {
        (ts, i + 1)
    }
}

/// [`p62_step`] as a function value.
pub open spec fn p62_f() -> spec_fn(Seq<TokenView>, int) -> (Seq<TokenView>, int) {
    |ts: Seq<TokenView>, i: int| p62_step(ts, i)
}

/// 올/VV 해/NNG, 내/NP 년/NNG and 작/VA 년/NNG are the nouns 올해, 내년, 작년.
pub open spec fn p62(ts: Seq<TokenView>) -> Seq<TokenView> {
    scan(ts, 0, p62_f())
}

/// Whether rule 0 of [`p62`] applies at `i`.
fn p62_c0_exec(tokens: &Vec<SejongToken>, i: usize) -> (r: bool)
    requires
        i < tokens@.len(),
    ensures
        r == p62_c0(tokens_view(tokens@), i as int),
{
    assert(tokens_view(tokens@).len() == tokens@.len());
    let c820 = surf_is(&tokens[i], "올");
    let c821 = pos_is(&tokens[i], "VV");
    let c822 = (tokens.len() - i > 1) && surf_is(&tokens[i + 1], "해");
    let c823 = (tokens.len() - i > 1) && pos_is(&tokens[i + 1], "NNG");
    ((c820 && c821) && (c822 && c823))
}

/// Whether rule 1 of [`p62`] applies at `i`.
fn p62_c1_exec(tokens: &Vec<SejongToken>, i: usize) -> (r: bool)
    requires
        i < tokens@.len(),
    ensures
        r == p62_c1(tokens_view(tokens@), i as int),
{
    assert(tokens_view(tokens@).len() == tokens@.len());
    let c824 = surf_is(&tokens[i], "내");
    let c825 = pos_is(&tokens[i], "NP");
    let c826 = (tokens.len() - i > 1) && surf_is(&tokens[i + 1], "년");
    let c827 = (tokens.len() - i > 1) && pos_is(&tokens[i + 1], "NNG");
    ((c824 && c825) && (c826 && c827))
}

/// Whether rule 2 of [`p62`] applies at `i`.
fn p62_c2_exec(tokens: &Vec<SejongToken>, i: usize) -> (r: bool)
    requires
        i < tokens@.len(),
    ensures
        r == p62_c2(tokens_view(tokens@), i as int),
{
    assert(tokens_view(tokens@).len() == tokens@.len());
    let c828 = surf_is(&tokens[i], "작");
    let c829 = pos_is(&tokens[i], "VA");
    let c830 = (tokens.len() - i > 1) && surf_is(&tokens[i + 1], "년");
    let c831 = (tokens.len() - i > 1) && pos_is(&tokens[i + 1], "NNG");
    ((c828 && c829) && (c830 && c831))
}

/// One step of [`p62`] at `i`; returns the next position.
fn p62_step_exec(tokens: &mut Vec<SejongToken>, i: usize) -> (next: usize)
    requires
        i < old(tokens)@.len(),
    ensures
        (tokens_view(final(tokens)@), next as int) == p62_step(tokens_view(old(tokens)@), i as int),
        final(tokens)@.len() - next < old(tokens)@.len() - i,
        next <= final(tokens)@.len() + 1,
{
    let len0 = tokens.len();
    assert(tokens_view(tokens@).len() == tokens@.len());
    if p62_c0_exec(tokens, i) {
        let s833 = owned("올해");
        let s834 = owned("NNG");
        let n835 = tokens[i].start_pos;
        let n836 = tokens[i + 1].end_pos;
        let t832 = SejongToken::new(s833.as_str(), s834.as_str(), n835, n836);
        let mut nv837: Vec<SejongToken> = Vec::new();
        push_token(&mut nv837, t832);
        splice_tokens(tokens, i, 2, nv837);
        let _len1 = tokens.len();
        return i + 1;
    }
    if p62_c1_exec(tokens, i) {
        let s839 = owned("내년");
        let s840 = owned("NNG");
        let n841 = tokens[i].start_pos;
        let n842 = tokens[i + 1].end_pos;
        let t838 = SejongToken::new(s839.as_str(), s840.as_str(), n841, n842);
        let mut nv843: Vec<SejongToken> = Vec::new();
        push_token(&mut nv843, t838);
        splice_tokens(tokens, i, 2, nv843);
        let _len1 = tokens.len();
        return i + 1;
    }
    if p62_c2_exec(tokens, i) {
        let s845 = owned("작년");
        let s846 = owned("NNG");
        let n847 = tokens[i].start_pos;
        let n848 = tokens[i + 1].end_pos;
        let t844 = SejongToken::new(s845.as_str(), s846.as_str(), n847, n848);
        let mut nv849: Vec<SejongToken> = Vec::new();
        push_token(&mut nv849, t844);
        splice_tokens(tokens, i, 2, nv849);
        let _len1 = tokens.len();
        return i + 1;
    }
    i + 1
}

/// 올/VV 해/NNG, 내/NP 년/NNG and 작/VA 년/NNG are the nouns 올해, 내년, 작년.
pub fn apply_p62(tokens: &mut Vec<SejongToken>)
    ensures
        tokens_view(final(tokens)@) == p62(tokens_view(old(tokens)@)),
{
    let ghost orig = tokens_view(tokens@);
    let mut i: usize = 0;
    while i < tokens.len()
        invariant
            i <= tokens@.len() + 1,
            scan(tokens_view(tokens@), i as int, p62_f()) == scan(orig, 0, p62_f()),
        decreases tokens@.len() + 1 - i,
    {
        let ghost before = tokens_view(tokens@);
        assert(before.len() == tokens@.len());
        i = p62_step_exec(tokens, i);
        assert(tokens_view(tokens@).len() == tokens@.len());
    }
}

/// Where [`p63`] changes a token.
pub open spec fn p63_c(ts: Seq<TokenView>, i: int) -> bool {
    ((0 <= i < ts.len() && ts[i].surface == "합니다"@) && (0 <= i < ts.len() && ts[i].pos == "VV+EF"@))
}

/// The token [`p63`] puts at `i`.
pub open spec fn p63_t(ts: Seq<TokenView>, i: int) -> TokenView {
    TokenView { pos: "EF"@, ..ts[i] }
}

/// 합니다/VV+EF is the final ending 합니다/EF.
pub open spec fn p63(ts: Seq<TokenView>) -> Seq<TokenView> {
    map_where(ts, |ts: Seq<TokenView>, i: int| p63_c(ts, i), |ts: Seq<TokenView>, i: int| p63_t(ts, i))
}

/// Whether [`p63`] changes the token at `i`.
fn p63_c_exec(tokens: &Vec<SejongToken>, i: usize) -> (r: bool)
    requires
        i < tokens@.len(),
    ensures
        r == p63_c(tokens_view(tokens@), i as int),
{
    assert(tokens_view(tokens@).len() == tokens@.len());
    let c850 = surf_is(&tokens[i], "합니다");
    let c851 = pos_is(&tokens[i], "VV+EF");
    (c850 && c851)
}

/// The token [`p63`] puts at `i`.
fn p63_t_exec(tokens: &Vec<SejongToken>, i: usize) -> (t: SejongToken)
    requires
        i < tokens@.len(),
        p63_c(tokens_view(tokens@), i as int),
    ensures
        t@ == p63_t(tokens_view(tokens@), i as int),
{
    assert(tokens_view(tokens@).len() == tokens@.len());
    let s853 = owned("EF");
    let mut t852 = tokens[i].duplicate();
    t852.pos = s853;
    t852
}

/// 합니다/VV+EF is the final ending 합니다/EF.
pub fn apply_p63(tokens: &mut Vec<SejongToken>)
    ensures
        tokens_view(final(tokens)@) == p63(tokens_view(old(tokens)@)),
{
    let ghost orig = tokens_view(tokens@);
    let mut out: Vec<SejongToken> = Vec::new();
    let mut k: usize = 0;
    while k < tokens.len()
        invariant
            k <= tokens@.len(),
            orig == tokens_view(tokens@),
            tokens_view(out@) == p63(orig).take(k as int),
        decreases tokens@.len() - k,
    {
        let t = if p63_c_exec(tokens, k) { p63_t_exec(tokens, k) } else { tokens[k].duplicate() };
        push_token(&mut out, t);
        k += 1;
        assert(tokens_view(out@) =~= p63(orig).take(k as int));
    }
    assert(p63(orig).take(k as int) =~= p63(orig));
    *tokens = out;
}

/// Where rule 0 of [`p67`] applies.
pub open spec fn p67_c0(ts: Seq<TokenView>, i: int) -> bool {
    (((0 <= i < ts.len() && ts[i].surface == "선생"@) && (0 <= i < ts.len() && ts[i].pos == "NNG"@)) && ((0 <= i + 1 < ts.len() && ts[i + 1].surface == "님"@) && (0 <= i + 1 < ts.len() && ts[i + 1].pos == "XSN"@)))
}

/// Where rule 1 of [`p67`] applies.
pub open spec fn p67_c1(ts: Seq<TokenView>, i: int) -> bool {
    (((0 <= i < ts.len() && ts[i].surface == "할머"@) && (0 <= i < ts.len() && ts[i].pos == "NNG"@)) && ((0 <= i + 1 < ts.len() && ts[i + 1].surface == "님"@) && (0 <= i + 1 < ts.len() && ts[i + 1].pos == "XSN"@)))
}

/// Where rule 2 of [`p67`] applies.
pub open spec fn p67_c2(ts: Seq<TokenView>, i: int) -> bool {
    (((0 <= i < ts.len() && ts[i].surface == "할아버"@) && (0 <= i < ts.len() && ts[i].pos == "NNG"@)) && ((0 <= i + 1 < ts.len() && ts[i + 1].surface == "님"@) && (0 <= i + 1 < ts.len() && ts[i + 1].pos == "XSN"@)))
}

/// Where rule 3 of [`p67`] applies.
pub open spec fn p67_c3(ts: Seq<TokenView>, i: int) -> bool {
    (((0 <= i < ts.len() && ts[i].surface == "어머"@) && (0 <= i < ts.len() && ts[i].pos == "NNG"@)) && ((0 <= i + 1 < ts.len() && ts[i + 1].surface == "님"@) && (0 <= i + 1 < ts.len() && ts[i + 1].pos == "XSN"@)))
}

/// Where rule 4 of [`p67`] applies.
pub open spec fn p67_c4(ts: Seq<TokenView>, i: int) -> bool {
    (((0 <= i < ts.len() && ts[i].surface == "아버"@) && (0 <= i < ts.len() && ts[i].pos == "NNG"@)) && ((0 <= i + 1 < ts.len() && ts[i + 1].surface == "님"@) && (0 <= i + 1 < ts.len() && ts[i + 1].pos == "XSN"@)))
}

/// One step of [`p67`] at `i`: the list after it and the next position.
pub open spec fn p67_step(ts: Seq<TokenView>, i: int) -> (Seq<TokenView>, int) {
    if p67_c0(ts, i) {
        (splice(ts, i, 2, seq![plain_view("선생님"@, "NNG"@, ts[i].start_pos, ts[i + 1].end_pos)]), i + 1)
    } else if p67_c1(ts, i) {
        (splice(ts, i, 2, seq![plain_view("할머님"@, "NNG"@, ts[i].start_pos, ts[i + 1].end_pos)]), i + 1)
    } else if p67_c2(ts, i) {
        (splice(ts, i, 2, seq![plain_view("할아버님"@, "NNG"@, ts[i].start_pos, ts[i + 1].end_pos)]), i + 1)
    } else if p67_c3(ts, i) {
        (splice(ts, i, 2, seq![plain_view("어머님"@, "NNG"@, ts[i].start_pos, ts[i + 1].end_pos)]), i + 1)
    } else if p67_c4(ts, i) {
        (splice(ts, i, 2, seq![plain_view("아버님"@, "NNG"@, ts[i].start_pos, ts[i + 1].end_pos)]), i + 1)
    } else {
        (ts, i + 1)
    }
}

/// [`p67_step`] as a function value.
pub open spec fn p67_f() -> spec_fn(Seq<TokenView>, int) -> (Seq<TokenView>, int) {
    |ts: Seq<TokenView>, i: int| p67_step(ts, i)
}

/// 선생, 할머, 할아버, 어머, 아버 with 님/XSN are one noun (선생님/NNG).
pub open spec fn p67(ts: Seq<TokenView>) -> Seq<TokenView> {
    scan(ts, 0, p67_f())
}

/// Whether rule 0 of [`p67`] applies at `i`.
fn p67_c0_exec(tokens: &Vec<SejongToken>, i: usize) -> (r: bool)
    requires
        i < tokens@.len(),
    ensures
        r == p67_c0(tokens_view(tokens@), i as int),
{
    assert(tokens_view(tokens@).len() == tokens@.len());
    let c854 = surf_is(&tokens[i], "선생");
    let c855 = pos_is(&tokens[i], "NNG");
    let c856 = (tokens.len() - i > 1) && surf_is(&tokens[i + 1], "님");
    let c857 = (tokens.len() - i > 1) && pos_is(&tokens[i + 1], "XSN");
    ((c854 && c855) && (c856 && c857))
}

/// Whether rule 1 of [`p67`] applies at `i`.
fn p67_c1_exec(tokens: &Vec<SejongToken>, i: usize) -> (r: bool)
    requires
        i < tokens@.len(),
    ensures
        r == p67_c1(tokens_view(tokens@), i as int),
{
    assert(tokens_view(tokens@).len() == tokens@.len());
    let c858 = surf_is(&tokens[i], "할머");
    let c859 = pos_is(&tokens[i], "NNG");
    let c860 = (tokens.len() - i > 1) && surf_is(&tokens[i + 1], "님");
    let c861 = (tokens.len() - i > 1) && pos_is(&tokens[i + 1], "XSN");
    ((c858 && c859) && (c860 && c861))
}

/// Whether rule 2 of [`p67`] applies at `i`.
fn p67_c2_exec(tokens: &Vec<SejongToken>, i: usize) -> (r: bool)
    requires
        i < tokens@.len(),
    ensures
        r == p67_c2(tokens_view(tokens@), i as int),
{
    assert(tokens_view(tokens@).len() == tokens@.len());
    let c862 = surf_is(&tokens[i], "할아버");
    let c863 = pos_is(&tokens[i], "NNG");
    let c864 = (tokens.len() - i > 1) && surf_is(&tokens[i + 1], "님");
    let c865 = (tokens.len() - i > 1) && pos_is(&tokens[i + 1], "XSN");
    ((c862 && c863) && (c864 && c865))
}

/// Whether rule 3 of [`p67`] applies at `i`.
fn p67_c3_exec(tokens: &Vec<SejongToken>, i: usize) -> (r: bool)
    requires
        i < tokens@.len(),
    ensures
        r == p67_c3(tokens_view(tokens@), i as int),
{
    assert(tokens_view(tokens@).len() == tokens@.len());
    let c866 = surf_is(&tokens[i], "어머");
    let c867 = pos_is(&tokens[i], "NNG");
    let c868 = (tokens.len() - i > 1) && surf_is(&tokens[i + 1], "님");
    let c869 = (tokens.len() - i > 1) && pos_is(&tokens[i + 1], "XSN");
    ((c866 && c867) && (c868 && c869))
}

/// Whether rule 4 of [`p67`] applies at `i`.
fn p67_c4_exec(tokens: &Vec<SejongToken>, i: usize) -> (r: bool)
    requires
        i < tokens@.len(),
    ensures
        r == p67_c4(tokens_view(tokens@), i as int),
{
    assert(tokens_view(tokens@).len() == tokens@.len());
    let c870 = surf_is(&tokens[i], "아버");
    let c871 = pos_is(&tokens[i], "NNG");
    let c872 = (tokens.len() - i > 1) && surf_is(&tokens[i + 1], "님");
    let c873 = (tokens.len() - i > 1) && pos_is(&tokens[i + 1], "XSN");
    ((c870 && c871) && (c872 && c873))
}

/// One step of [`p67`] at `i`; returns the next position.
fn p67_step_exec(tokens: &mut Vec<SejongToken>, i: usize) -> (next: usize)
    requires
        i < old(tokens)@.len(),
    ensures
        (tokens_view(final(tokens)@), next as int) == p67_step(tokens_view(old(tokens)@), i as int),
        final(tokens)@.len() - next < old(tokens)@.len() - i,
        next <= final(tokens)@.len() + 1,
{
    let len0 = tokens.len();
    assert(tokens_view(tokens@).len() == tokens@.len());
    if p67_c0_exec(tokens, i) {
        let s875 = owned("선생님");
        let s876 = owned("NNG");
        let n877 = tokens[i].start_pos;
        let n878 = tokens[i + 1].end_pos;
        let t874 = SejongToken::new(s875.as_str(), s876.as_str(), n877, n878);
        let mut nv879: Vec<SejongToken> = Vec::new();
        push_token(&mut nv879, t874);
        splice_tokens(tokens, i, 2, nv879);
        let _len1 = tokens.len();
        return i + 1;
    }
    if p67_c1_exec(tokens, i) {
        let s881 = owned("할머님");
        let s882 = owned("NNG");
        let n883 = tokens[i].start_pos;
        let n884 = tokens[i + 1].end_pos;
        let t880 = SejongToken::new(s881.as_str(), s882.as_str(), n883, n884);
        let mut nv885: Vec<SejongToken> = Vec::new();
        push_token(&mut nv885, t880);
        splice_tokens(tokens, i, 2, nv885);
        let _len1 = tokens.len();
        return i + 1;
    }
    if p67_c2_exec(tokens, i) {
        let s887 = owned("할아버님");
        let s888 = owned("NNG");
        let n889 = tokens[i].start_pos;
        let n890 = tokens[i + 1].end_pos;
        let t886 = SejongToken::new(s887.as_str(), s888.as_str(), n889, n890);
        let mut nv891: Vec<SejongToken> = Vec::new();
        push_token(&mut nv891, t886);
        splice_tokens(tokens, i, 2, nv891);
        let _len1 = tokens.len();
        return i + 1;
    }
    if p67_c3_exec(tokens, i) {
        let s893 = owned("어머님");
        let s894 = owned("NNG");
        let n895 = tokens[i].start_pos;
        let n896 = tokens[i + 1].end_pos;
        let t892 = SejongToken::new(s893.as_str(), s894.as_str(), n895, n896);
        let mut nv897: Vec<SejongToken> = Vec::new();
        push_token(&mut nv897, t892);
        splice_tokens(tokens, i, 2, nv897);
        let _len1 = tokens.len();
        return i + 1;
    }
    if p67_c4_exec(tokens, i) {
        let s899 = owned("아버님");
        let s900 = owned("NNG");
        let n901 = tokens[i].start_pos;
        let n902 = tokens[i + 1].end_pos;
        let t898 = SejongToken::new(s899.as_str(), s900.as_str(), n901, n902);
        let mut nv903: Vec<SejongToken> = Vec::new();
        push_token(&mut nv903, t898);
        splice_tokens(tokens, i, 2, nv903);
        let _len1 = tokens.len();
        return i + 1;
    }
    i + 1
}

/// 선생, 할머, 할아버, 어머, 아버 with 님/XSN are one noun (선생님/NNG).
pub fn apply_p67(tokens: &mut Vec<SejongToken>)
    ensures
        tokens_view(final(tokens)@) == p67(tokens_view(old(tokens)@)),
{
    let ghost orig = tokens_view(tokens@);
    let mut i: usize = 0;
    while i < tokens.len()
        invariant
            i <= tokens@.len() + 1,
            scan(tokens_view(tokens@), i as int, p67_f()) == scan(orig, 0, p67_f()),
        decreases tokens@.len() + 1 - i,
    {
        let ghost before = tokens_view(tokens@);
        assert(before.len() == tokens@.len());
        i = p67_step_exec(tokens, i);
        assert(tokens_view(tokens@).len() == tokens@.len());
    }
}

/// Verb splitting, ending normalisation, prefixes and bound nouns.
pub open spec fn spec_apply_verb_and_morpheme_corrections(ts: Seq<TokenView>) -> Seq<TokenView> {
    p67(p63(p62(p61(p60(p59(p58(p57(p55(p54(p50(p49(p48(p47(p46(p45(crate::corrections::verb_splitting::spec_apply_verb_splitting_corrections(ts)))))))))))))))))
}

/// Verb splitting, ending normalisation, prefixes and bound nouns.
pub fn apply_verb_and_morpheme_corrections(tokens: &mut Vec<SejongToken>)
    ensures
        tokens_view(final(tokens)@) == spec_apply_verb_and_morpheme_corrections(tokens_view(old(tokens)@)),
{
    crate::corrections::verb_splitting::apply_verb_splitting_corrections(tokens);
    apply_p45(tokens);
    apply_p46(tokens);
    apply_p47(tokens);
    apply_p48(tokens);
    apply_p49(tokens);
    apply_p50(tokens);
    apply_p54(tokens);
    apply_p55(tokens);
    apply_p57(tokens);
    apply_p58(tokens);
    apply_p59(tokens);
    apply_p60(tokens);
    apply_p61(tokens);
    apply_p62(tokens);
    apply_p63(tokens);
    apply_p67(tokens);
}

} // verus!
