//! Compound connective endings, final endings, split proper nouns, hortative and interrogative forms.

use vstd::prelude::*;
use crate::converter::tokens_view;
use crate::merges::{strip_prefix, strip_prefix_exec, strip_suffix, strip_suffix_exec};
use crate::rewrite::{append_tokens, expand_pieces, expand_where, in_list, lemma_expand_where_none_bad, lemma_scan_none_bad, lemma_splice_none_bad, lemma_update_none_bad, map_where, none_bad, pos_is, pos_starts, push_token, scan, set_token, splice, splice_tokens, surf_ends, surf_is, surf_starts};
use crate::text::{char_count, is_prefix, is_suffix, owned};
use crate::types::{plain_view, SejongToken, TokenView};

verus! {

/// Where rule 0 of [`p113`] applies.
pub open spec fn p113_c0(ts: Seq<TokenView>, i: int) -> bool {
    (((0 <= i < ts.len() && ts[i].surface == "고"@) && (0 <= i < ts.len() && ts[i].pos == "EC"@)) && (0 <= i + 1 < ts.len() && ts[i + 1].surface == "나"@) && (0 <= i + 1 < ts.len() && seq!["NP"@, "VV"@].contains(ts[i + 1].pos)) && (0 <= i + 2 < ts.len() && ts[i + 2].surface == "서"@) && (0 <= i + 2 < ts.len() && seq!["JKB"@, "EC"@].contains(ts[i + 2].pos)))
}

/// One step of [`p113`] at `i`: the list after it and the next position.
pub open spec fn p113_step(ts: Seq<TokenView>, i: int) -> (Seq<TokenView>, int) {
    if p113_c0(ts, i) {
        (splice(ts, i, 3, seq![plain_view("고나서"@, "EC"@, ts[i].start_pos, ts[i + 2].end_pos)]), i + 1)
    } else {
        (ts, i + 1)
    }
}

/// [`p113_step`] as a function value.
pub open spec fn p113_f() -> spec_fn(Seq<TokenView>, int) -> (Seq<TokenView>, int) {
    |ts: Seq<TokenView>, i: int| p113_step(ts, i)
}

/// 고/EC 나/NP|VV 서/JKB|EC is the connective ending 고나서/EC.
pub open spec fn p113(ts: Seq<TokenView>) -> Seq<TokenView> {
    scan(ts, 0, p113_f())
}

/// Whether rule 0 of [`p113`] applies at `i`.
fn p113_c0_exec(tokens: &Vec<SejongToken>, i: usize) -> (r: bool)
    requires
        i < tokens@.len(),
    ensures
        r == p113_c0(tokens_view(tokens@), i as int),
{
    assert(tokens_view(tokens@).len() == tokens@.len());
    let c438 = surf_is(&tokens[i], "고");
    let c439 = pos_is(&tokens[i], "EC");
    let c440 = (tokens.len() - i > 1) && surf_is(&tokens[i + 1], "나");
    let l442: [&str; 2] = ["NP", "VV"];
    assert(crate::tag_map::strs_view(l442@) =~= seq!["NP"@, "VV"@]);
    let c441 = (tokens.len() - i > 1) && in_list(&l442, tokens[i + 1].pos.as_str());
    let c443 = (tokens.len() - i > 2) && surf_is(&tokens[i + 2], "서");
    let l445: [&str; 2] = ["JKB", "EC"];
    assert(crate::tag_map::strs_view(l445@) =~= seq!["JKB"@, "EC"@]);
    let c444 = (tokens.len() - i > 2) && in_list(&l445, tokens[i + 2].pos.as_str());
    ((c438 && c439) && c440 && c441 && c443 && c444)
}

/// One step of [`p113`] at `i`; returns the next position.
fn p113_step_exec(tokens: &mut Vec<SejongToken>, i: usize) -> (next: usize)
    requires
        i < old(tokens)@.len(),
    ensures
        (tokens_view(final(tokens)@), next as int) == p113_step(tokens_view(old(tokens)@), i as int),
        final(tokens)@.len() - next < old(tokens)@.len() - i,
        next <= final(tokens)@.len() + 1,
{
    let len0 = tokens.len();
    assert(tokens_view(tokens@).len() == tokens@.len());
    if p113_c0_exec(tokens, i) {
        let s447 = owned("고나서");
        let s448 = owned("EC");
        let n449 = tokens[i].start_pos;
        let n450 = tokens[i + 2].end_pos;
        let t446 = SejongToken::new(s447.as_str(), s448.as_str(), n449, n450);
        let mut nv451: Vec<SejongToken> = Vec::new();
        push_token(&mut nv451, t446);
        splice_tokens(tokens, i, 3, nv451);
        let _len1 = tokens.len();
        return i + 1;
    }
    i + 1
}

/// 고/EC 나/NP|VV 서/JKB|EC is the connective ending 고나서/EC.
pub fn apply_p113(tokens: &mut Vec<SejongToken>)
    ensures
        tokens_view(final(tokens)@) == p113(tokens_view(old(tokens)@)),
{
    let ghost orig = tokens_view(tokens@);
    let mut i: usize = 0;
    while i < tokens.len()
        invariant
            i <= tokens@.len() + 1,
            scan(tokens_view(tokens@), i as int, p113_f()) == scan(orig, 0, p113_f()),
        decreases tokens@.len() + 1 - i,
    {
        let ghost before = tokens_view(tokens@);
        assert(before.len() == tokens@.len());
        i = p113_step_exec(tokens, i);
        assert(tokens_view(tokens@).len() == tokens@.len());
    }
}

/// Where [`p114`] changes a token.
pub open spec fn p114_c(ts: Seq<TokenView>, i: int) -> bool {
    ((0 <= i < ts.len() && ts[i].pos == "EF"@) && (0 <= i < ts.len() && seq!["으면서"@, "면서"@, "으며"@, "며"@, "아서"@, "어서"@, "니까"@, "으니까"@, "니"@, "으니"@].contains(ts[i].surface)) && (0 <= i + 1 < ts.len() && true))
}

/// The token [`p114`] puts at `i`.
pub open spec fn p114_t(ts: Seq<TokenView>, i: int) -> TokenView {
    TokenView { pos: "EC"@, ..ts[i] }
}

/// 으면서, 면서, 으며, 며, 아서, 어서, 니까, 으니까, 니, 으니 tagged EF inside the sentence are connective endings (EC).
pub open spec fn p114(ts: Seq<TokenView>) -> Seq<TokenView> {
    map_where(ts, |ts: Seq<TokenView>, i: int| p114_c(ts, i), |ts: Seq<TokenView>, i: int| p114_t(ts, i))
}

/// Whether [`p114`] changes the token at `i`.
fn p114_c_exec(tokens: &Vec<SejongToken>, i: usize) -> (r: bool)
    requires
        i < tokens@.len(),
    ensures
        r == p114_c(tokens_view(tokens@), i as int),
{
    assert(tokens_view(tokens@).len() == tokens@.len());
    let c452 = pos_is(&tokens[i], "EF");
    let l454: [&str; 10] = ["으면서", "면서", "으며", "며", "아서", "어서", "니까", "으니까", "니", "으니"];
    assert(crate::tag_map::strs_view(l454@) =~= seq!["으면서"@, "면서"@, "으며"@, "며"@, "아서"@, "어서"@, "니까"@, "으니까"@, "니"@, "으니"@]);
    let c453 = in_list(&l454, tokens[i].surface.as_str());
    let c455 = (tokens.len() - i > 1) && true;
    (c452 && c453 && c455)
}

/// The token [`p114`] puts at `i`.
fn p114_t_exec(tokens: &Vec<SejongToken>, i: usize) -> (t: SejongToken)
    requires
        i < tokens@.len(),
        p114_c(tokens_view(tokens@), i as int),
    ensures
        t@ == p114_t(tokens_view(tokens@), i as int),
{
    assert(tokens_view(tokens@).len() == tokens@.len());
    let s457 = owned("EC");
    let mut t456 = tokens[i].duplicate();
    t456.pos = s457;
    t456
}

/// 으면서, 면서, 으며, 며, 아서, 어서, 니까, 으니까, 니, 으니 tagged EF inside the sentence are connective endings (EC).
pub fn apply_p114(tokens: &mut Vec<SejongToken>)
    ensures
        tokens_view(final(tokens)@) == p114(tokens_view(old(tokens)@)),
{
    let ghost orig = tokens_view(tokens@);
    let mut out: Vec<SejongToken> = Vec::new();
    let mut k: usize = 0;
    while k < tokens.len()
        invariant
            k <= tokens@.len(),
            orig == tokens_view(tokens@),
            tokens_view(out@) == p114(orig).take(k as int),
        decreases tokens@.len() - k,
    {
        let t = if p114_c_exec(tokens, k) { p114_t_exec(tokens, k) } else { tokens[k].duplicate() };
        push_token(&mut out, t);
        k += 1;
        assert(tokens_view(out@) =~= p114(orig).take(k as int));
    }
    assert(p114(orig).take(k as int) =~= p114(orig));
    *tokens = out;
}

/// Where [`p126`] changes a token.
pub open spec fn p126_c(ts: Seq<TokenView>, i: int) -> bool {
    ((0 <= i < ts.len() && ts[i].pos == "EF"@) && (0 <= i < ts.len() && seq!["어"@, "아"@, "여"@].contains(ts[i].surface)) && (0 <= i + 1 < ts.len() && ts[i + 1].pos == "VX"@))
}

/// The token [`p126`] puts at `i`.
pub open spec fn p126_t(ts: Seq<TokenView>, i: int) -> TokenView {
    TokenView { pos: "EC"@, ..ts[i] }
}

/// 어, 아 or 여 tagged EF before an auxiliary is a connective ending (EC).
pub open spec fn p126(ts: Seq<TokenView>) -> Seq<TokenView> {
    map_where(ts, |ts: Seq<TokenView>, i: int| p126_c(ts, i), |ts: Seq<TokenView>, i: int| p126_t(ts, i))
}

/// Whether [`p126`] changes the token at `i`.
fn p126_c_exec(tokens: &Vec<SejongToken>, i: usize) -> (r: bool)
    requires
        i < tokens@.len(),
    ensures
        r == p126_c(tokens_view(tokens@), i as int),
{
    assert(tokens_view(tokens@).len() == tokens@.len());
    let c458 = pos_is(&tokens[i], "EF");
    let l460: [&str; 3] = ["어", "아", "여"];
    assert(crate::tag_map::strs_view(l460@) =~= seq!["어"@, "아"@, "여"@]);
    let c459 = in_list(&l460, tokens[i].surface.as_str());
    let c461 = (tokens.len() - i > 1) && pos_is(&tokens[i + 1], "VX");
    (c458 && c459 && c461)
}

/// The token [`p126`] puts at `i`.
fn p126_t_exec(tokens: &Vec<SejongToken>, i: usize) -> (t: SejongToken)
    requires
        i < tokens@.len(),
        p126_c(tokens_view(tokens@), i as int),
    ensures
        t@ == p126_t(tokens_view(tokens@), i as int),
{
    assert(tokens_view(tokens@).len() == tokens@.len());
    let s463 = owned("EC");
    let mut t462 = tokens[i].duplicate();
    t462.pos = s463;
    t462
}

/// 어, 아 or 여 tagged EF before an auxiliary is a connective ending (EC).
pub fn apply_p126(tokens: &mut Vec<SejongToken>)
    ensures
        tokens_view(final(tokens)@) == p126(tokens_view(old(tokens)@)),
{
    let ghost orig = tokens_view(tokens@);
    let mut out: Vec<SejongToken> = Vec::new();
    let mut k: usize = 0;
    while k < tokens.len()
        invariant
            k <= tokens@.len(),
            orig == tokens_view(tokens@),
            tokens_view(out@) == p126(orig).take(k as int),
        decreases tokens@.len() - k,
    {
        let t = if p126_c_exec(tokens, k) { p126_t_exec(tokens, k) } else { tokens[k].duplicate() };
        push_token(&mut out, t);
        k += 1;
        assert(tokens_view(out@) =~= p126(orig).take(k as int));
    }
    assert(p126(orig).take(k as int) =~= p126(orig));
    *tokens = out;
}

/// Where rule 0 of [`p115`] applies.
pub open spec fn p115_c0(ts: Seq<TokenView>, i: int) -> bool {
    ((0 <= i < ts.len() && ts[i].pos == "NNG"@) && (0 <= i < ts.len() && seq!["보이"@, "들이"@, "붙이"@, "놓이"@, "쓰이"@, "덮이"@, "갈이"@, "꺾이"@].contains(ts[i].surface)) && ((0 <= i + 1 < ts.len() && ts[i + 1].surface == "이"@) && (0 <= i + 1 < ts.len() && ts[i + 1].pos == "VCP"@)) && (0 <= i + 2 < ts.len() && ts[i + 2].pos == "EC"@))
}

/// One step of [`p115`] at `i`: the list after it and the next position.
pub open spec fn p115_step(ts: Seq<TokenView>, i: int) -> (Seq<TokenView>, int) {
    if p115_c0(ts, i) {
        (splice(ts, i, 2, seq![TokenView { pos: "VV"@, ..ts[i] }]), i + 1)
    } else {
        (ts, i + 1)
    }
}

/// [`p115_step`] as a function value.
pub open spec fn p115_f() -> spec_fn(Seq<TokenView>, int) -> (Seq<TokenView>, int) {
    |ts: Seq<TokenView>, i: int| p115_step(ts, i)
}

/// A verb stem in 이 analysed as a noun before 이/VCP and a connective ending is a verb, and the copula is dropped (보이/VV 고/EC).
pub open spec fn p115(ts: Seq<TokenView>) -> Seq<TokenView> {
    scan(ts, 0, p115_f())
}

/// Whether rule 0 of [`p115`] applies at `i`.
fn p115_c0_exec(tokens: &Vec<SejongToken>, i: usize) -> (r: bool)
    requires
        i < tokens@.len(),
    ensures
        r == p115_c0(tokens_view(tokens@), i as int),
{
    assert(tokens_view(tokens@).len() == tokens@.len());
    let c464 = pos_is(&tokens[i], "NNG");
    let l466: [&str; 8] = ["보이", "들이", "붙이", "놓이", "쓰이", "덮이", "갈이", "꺾이"];
    assert(crate::tag_map::strs_view(l466@) =~= seq!["보이"@, "들이"@, "붙이"@, "놓이"@, "쓰이"@, "덮이"@, "갈이"@, "꺾이"@]);
    let c465 = in_list(&l466, tokens[i].surface.as_str());
    let c467 = (tokens.len() - i > 1) && surf_is(&tokens[i + 1], "이");
    let c468 = (tokens.len() - i > 1) && pos_is(&tokens[i + 1], "VCP");
    let c469 = (tokens.len() - i > 2) && pos_is(&tokens[i + 2], "EC");
    (c464 && c465 && (c467 && c468) && c469)
}

/// One step of [`p115`] at `i`; returns the next position.
fn p115_step_exec(tokens: &mut Vec<SejongToken>, i: usize) -> (next: usize)
    requires
        i < old(tokens)@.len(),
    ensures
        (tokens_view(final(tokens)@), next as int) == p115_step(tokens_view(old(tokens)@), i as int),
        final(tokens)@.len() - next < old(tokens)@.len() - i,
        next <= final(tokens)@.len() + 1,
{
    let len0 = tokens.len();
    assert(tokens_view(tokens@).len() == tokens@.len());
    if p115_c0_exec(tokens, i) {
        let s471 = owned("VV");
        let mut t470 = tokens[i].duplicate();
        t470.pos = s471;
        let mut nv472: Vec<SejongToken> = Vec::new();
        push_token(&mut nv472, t470);
        splice_tokens(tokens, i, 2, nv472);
        let _len1 = tokens.len();
        return i + 1;
    }
    i + 1
}

/// A verb stem in 이 analysed as a noun before 이/VCP and a connective ending is a verb, and the copula is dropped (보이/VV 고/EC).
pub fn apply_p115(tokens: &mut Vec<SejongToken>)
    ensures
        tokens_view(final(tokens)@) == p115(tokens_view(old(tokens)@)),
{
    let ghost orig = tokens_view(tokens@);
    let mut i: usize = 0;
    while i < tokens.len()
        invariant
            i <= tokens@.len() + 1,
            scan(tokens_view(tokens@), i as int, p115_f()) == scan(orig, 0, p115_f()),
        decreases tokens@.len() + 1 - i,
    {
        let ghost before = tokens_view(tokens@);
        assert(before.len() == tokens@.len());
        i = p115_step_exec(tokens, i);
        assert(tokens_view(tokens@).len() == tokens@.len());
    }
}

/// Where [`p116`] changes a token.
pub open spec fn p116_c(ts: Seq<TokenView>, i: int) -> bool {
    ((0 <= i - 1 < ts.len() && ts[i - 1].pos == "EC"@) && (0 <= i < ts.len() && ts[i].surface == "준"@) && ((0 <= i < ts.len() && ts[i].pos == "VV"@) || (0 <= i < ts.len() && is_prefix("VV+"@, ts[i].pos))))
}

/// The token [`p116`] puts at `i`.
pub open spec fn p116_t(ts: Seq<TokenView>, i: int) -> TokenView {
    TokenView { surface: "주"@, pos: "VX"@, ..ts[i] }
}

/// 준 tagged VV or VV+... after a connective ending is the auxiliary 주/VX.
pub open spec fn p116(ts: Seq<TokenView>) -> Seq<TokenView> {
    map_where(ts, |ts: Seq<TokenView>, i: int| p116_c(ts, i), |ts: Seq<TokenView>, i: int| p116_t(ts, i))
}

/// Whether [`p116`] changes the token at `i`.
fn p116_c_exec(tokens: &Vec<SejongToken>, i: usize) -> (r: bool)
    requires
        i < tokens@.len(),
    ensures
        r == p116_c(tokens_view(tokens@), i as int),
{
    assert(tokens_view(tokens@).len() == tokens@.len());
    let c473 = (i >= 1) && pos_is(&tokens[i - 1], "EC");
    let c474 = surf_is(&tokens[i], "준");
    let c475 = pos_is(&tokens[i], "VV");
    let c476 = pos_starts(&tokens[i], "VV+");
    (c473 && c474 && (c475 || c476))
}

/// The token [`p116`] puts at `i`.
fn p116_t_exec(tokens: &Vec<SejongToken>, i: usize) -> (t: SejongToken)
    requires
        i < tokens@.len(),
        p116_c(tokens_view(tokens@), i as int),
    ensures
        t@ == p116_t(tokens_view(tokens@), i as int),
{
    assert(tokens_view(tokens@).len() == tokens@.len());
    let s478 = owned("주");
    let s479 = owned("VX");
    let mut t477 = tokens[i].duplicate();
    t477.surface = s478;
    t477.pos = s479;
    t477
}

/// 준 tagged VV or VV+... after a connective ending is the auxiliary 주/VX.
pub fn apply_p116(tokens: &mut Vec<SejongToken>)
    ensures
        tokens_view(final(tokens)@) == p116(tokens_view(old(tokens)@)),
{
    let ghost orig = tokens_view(tokens@);
    let mut out: Vec<SejongToken> = Vec::new();
    let mut k: usize = 0;
    while k < tokens.len()
        invariant
            k <= tokens@.len(),
            orig == tokens_view(tokens@),
            tokens_view(out@) == p116(orig).take(k as int),
        decreases tokens@.len() - k,
    {
        let t = if p116_c_exec(tokens, k) { p116_t_exec(tokens, k) } else { tokens[k].duplicate() };
        push_token(&mut out, t);
        k += 1;
        assert(tokens_view(out@) =~= p116(orig).take(k as int));
    }
    assert(p116(orig).take(k as int) =~= p116(orig));
    *tokens = out;
}

/// Where rule 0 of [`p119`] applies.
pub open spec fn p119_c0(ts: Seq<TokenView>, i: int) -> bool {
    ((0 <= i - 1 < ts.len() && seq!["NNG"@, "NNP"@].contains(ts[i - 1].pos)) && ((0 <= i < ts.len() && ts[i].surface == "다"@) && (0 <= i < ts.len() && ts[i].pos == "NNG"@)) && ((0 <= i - 1 < ts.len()) && crate::hangul::ends_in_open_syllable(ts[i - 1].surface)))
}

/// Where [`p119`] replaces a token.
pub open spec fn p119_c(ts: Seq<TokenView>, i: int) -> bool {
    p119_c0(ts, i)
}

/// The tokens [`p119`] puts in place of the token at `i`.
pub open spec fn p119_t(ts: Seq<TokenView>, i: int) -> Seq<TokenView> {
    if p119_c0(ts, i) {
        seq![plain_view("이"@, "VCP"@, ts[i].start_pos, ts[i].start_pos), plain_view("다"@, "EF"@, ts[i].start_pos, ts[i].start_pos)]
    } else {
        seq![]
    }
}

/// [`p119_c`] as a function value.
pub open spec fn p119_cf() -> spec_fn(Seq<TokenView>, int) -> bool {
    |ts: Seq<TokenView>, i: int| p119_c(ts, i)
}

/// [`p119_t`] as a function value.
pub open spec fn p119_tf() -> spec_fn(Seq<TokenView>, int) -> Seq<TokenView> {
    |ts: Seq<TokenView>, i: int| p119_t(ts, i)
}

/// 다/NNG after a noun ending in an open syllable is the copula and the final ending (레게노/NNG 이/VCP 다/EF).
pub open spec fn p119(ts: Seq<TokenView>) -> Seq<TokenView> {
    expand_where(ts, p119_cf(), p119_tf())
}

/// Whether rule 0 of [`p119`] applies at `i`.
fn p119_c0_exec(tokens: &Vec<SejongToken>, i: usize) -> (r: bool)
    requires
        i < tokens@.len(),
    ensures
        r == p119_c0(tokens_view(tokens@), i as int),
{
    assert(tokens_view(tokens@).len() == tokens@.len());
    let l481: [&str; 2] = ["NNG", "NNP"];
    assert(crate::tag_map::strs_view(l481@) =~= seq!["NNG"@, "NNP"@]);
    let c480 = (i >= 1) && in_list(&l481, tokens[i - 1].pos.as_str());
    let c482 = surf_is(&tokens[i], "다");
    let c483 = pos_is(&tokens[i], "NNG");
    let c484 = (i >= 1) && crate::hangul::last_has_jongseong(tokens[i - 1].surface.as_str()) == Some(false);
    (c480 && (c482 && c483) && c484)
}

/// The tokens [`p119`] puts in place of the token at `i`.
fn p119_t_exec(tokens: &Vec<SejongToken>, i: usize) -> (v: Vec<SejongToken>)
    requires
        i < tokens@.len(),
    ensures
        tokens_view(v@) == p119_t(tokens_view(tokens@), i as int),
{
    assert(tokens_view(tokens@).len() == tokens@.len());
    if p119_c0_exec(tokens, i) {
        let s486 = owned("이");
        let s487 = owned("VCP");
        let n488 = tokens[i].start_pos;
        let n489 = tokens[i].start_pos;
        let t485 = SejongToken::new(s486.as_str(), s487.as_str(), n488, n489);
        let s491 = owned("다");
        let s492 = owned("EF");
        let n493 = tokens[i].start_pos;
        let n494 = tokens[i].start_pos;
        let t490 = SejongToken::new(s491.as_str(), s492.as_str(), n493, n494);
        let mut nv495: Vec<SejongToken> = Vec::new();
        push_token(&mut nv495, t485);
        push_token(&mut nv495, t490);
        return nv495;
    }
    Vec::new()
}

/// 다/NNG after a noun ending in an open syllable is the copula and the final ending (레게노/NNG 이/VCP 다/EF).
pub fn apply_p119(tokens: &mut Vec<SejongToken>)
    ensures
        tokens_view(final(tokens)@) == p119(tokens_view(old(tokens)@)),
{
    let ghost orig = tokens_view(tokens@);
    let ghost pieces = expand_pieces(orig, p119_cf(), p119_tf());
    let mut out: Vec<SejongToken> = Vec::new();
    let mut k: usize = 0;
    while k < tokens.len()
        invariant
            k <= tokens@.len(),
            orig == tokens_view(tokens@),
            pieces == expand_pieces(orig, p119_cf(), p119_tf()),
            tokens_view(out@) == pieces.take(k as int).flatten(),
        decreases tokens@.len() - k,
    {
        proof {
            assert(pieces.take(k + 1) =~= pieces.take(k as int).push(pieces[k as int]));
            pieces.take(k as int).lemma_flatten_push(pieces[k as int]);
        }
        if p119_c0_exec(tokens, k) {
            let v = p119_t_exec(tokens, k);
            append_tokens(&mut out, v);
        } else {
            push_token(&mut out, tokens[k].duplicate());
            assert(seq![orig[k as int]] =~= pieces[k as int]);
            assert(tokens_view(out@) =~= pieces.take(k as int).flatten() + pieces[k as int]);
        }
        k += 1;
    }
    assert(pieces.take(k as int) =~= pieces);
    *tokens = out;
}

/// Where rule 0 of [`p120`] applies.
pub open spec fn p120_c0(ts: Seq<TokenView>, i: int) -> bool {
    (((0 <= i < ts.len() && ts[i].pos == "NNG"@) && ((0 <= i + 1 < ts.len() && ts[i + 1].surface == "이"@) && (0 <= i + 1 < ts.len() && ts[i + 1].pos == "VCP"@)) && ((0 <= i + 2 < ts.len() && ts[i + 2].surface == "오"@) && (0 <= i + 2 < ts.len() && ts[i + 2].pos == "EC"@)) && !(0 <= i + 3 < ts.len() && true)) && (0 <= i < ts.len() && seq!["진짜"@, "정말"@, "별로"@].contains(ts[i].surface)))
}

/// Where rule 1 of [`p120`] applies.
pub open spec fn p120_c1(ts: Seq<TokenView>, i: int) -> bool {
    (((0 <= i < ts.len() && ts[i].pos == "NNG"@) && ((0 <= i + 1 < ts.len() && ts[i + 1].surface == "이"@) && (0 <= i + 1 < ts.len() && ts[i + 1].pos == "VCP"@)) && ((0 <= i + 2 < ts.len() && ts[i + 2].surface == "오"@) && (0 <= i + 2 < ts.len() && ts[i + 2].pos == "EC"@)) && !(0 <= i + 3 < ts.len() && true)) && ((0 <= i < ts.len()) && crate::hangul::ends_in_open_syllable(ts[i].surface)))
}

/// One step of [`p120`] at `i`: the list after it and the next position.
pub open spec fn p120_step(ts: Seq<TokenView>, i: int) -> (Seq<TokenView>, int) {
    if p120_c0(ts, i) {
        let t2 = splice(ts, i + 1, 2, seq![plain_view("요"@, "JX"@, ts[i + 1].start_pos, ts[i + 2].end_pos)]);
        (t2, t2.len() as int)
    } else if p120_c1(ts, i) {
        let t2 = splice(ts, i, 3, seq![TokenView { pos: "VV"@, ..ts[i] }, plain_view("아요"@, "EF"@, ts[i + 1].start_pos, ts[i + 2].end_pos)]);
        (t2, t2.len() as int)
    } else {
        (ts, i + 1)
    }
}

/// [`p120_step`] as a function value.
pub open spec fn p120_f() -> spec_fn(Seq<TokenView>, int) -> (Seq<TokenView>, int) {
    |ts: Seq<TokenView>, i: int| p120_step(ts, i)
}

/// At the end of the sentence, a noun with 이/VCP 오/EC is a verb with 아요/EF when it ends in an open syllable; after 진짜, 정말, 별로 the copula and ending are the particle 요/JX.
pub open spec fn p120(ts: Seq<TokenView>) -> Seq<TokenView> {
    scan(ts, 0, p120_f())
}

/// Whether rule 0 of [`p120`] applies at `i`.
fn p120_c0_exec(tokens: &Vec<SejongToken>, i: usize) -> (r: bool)
    requires
        i < tokens@.len(),
    ensures
        r == p120_c0(tokens_view(tokens@), i as int),
{
    assert(tokens_view(tokens@).len() == tokens@.len());
    let c496 = pos_is(&tokens[i], "NNG");
    let c497 = (tokens.len() - i > 1) && surf_is(&tokens[i + 1], "이");
    let c498 = (tokens.len() - i > 1) && pos_is(&tokens[i + 1], "VCP");
    let c499 = (tokens.len() - i > 2) && surf_is(&tokens[i + 2], "오");
    let c500 = (tokens.len() - i > 2) && pos_is(&tokens[i + 2], "EC");
    let c501 = (tokens.len() - i > 3) && true;
    let l503: [&str; 3] = ["진짜", "정말", "별로"];
    assert(crate::tag_map::strs_view(l503@) =~= seq!["진짜"@, "정말"@, "별로"@]);
    let c502 = in_list(&l503, tokens[i].surface.as_str());
    ((c496 && (c497 && c498) && (c499 && c500) && !c501) && c502)
}

/// Whether rule 1 of [`p120`] applies at `i`.
fn p120_c1_exec(tokens: &Vec<SejongToken>, i: usize) -> (r: bool)
    requires
        i < tokens@.len(),
    ensures
        r == p120_c1(tokens_view(tokens@), i as int),
{
    assert(tokens_view(tokens@).len() == tokens@.len());
    let c504 = pos_is(&tokens[i], "NNG");
    let c505 = (tokens.len() - i > 1) && surf_is(&tokens[i + 1], "이");
    let c506 = (tokens.len() - i > 1) && pos_is(&tokens[i + 1], "VCP");
    let c507 = (tokens.len() - i > 2) && surf_is(&tokens[i + 2], "오");
    let c508 = (tokens.len() - i > 2) && pos_is(&tokens[i + 2], "EC");
    let c509 = (tokens.len() - i > 3) && true;
    let c510 = true && crate::hangul::last_has_jongseong(tokens[i].surface.as_str()) == Some(false);
    ((c504 && (c505 && c506) && (c507 && c508) && !c509) && c510)
}

/// One step of [`p120`] at `i`; returns the next position.
fn p120_step_exec(tokens: &mut Vec<SejongToken>, i: usize) -> (next: usize)
    requires
        i < old(tokens)@.len(),
    ensures
        (tokens_view(final(tokens)@), next as int) == p120_step(tokens_view(old(tokens)@), i as int),
        final(tokens)@.len() - next < old(tokens)@.len() - i,
        next <= final(tokens)@.len() + 1,
{
    let len0 = tokens.len();
    assert(tokens_view(tokens@).len() == tokens@.len());
    if p120_c0_exec(tokens, i) {
        let s512 = owned("요");
        let s513 = owned("JX");
        let n514 = tokens[i + 1].start_pos;
        let n515 = tokens[i + 2].end_pos;
        let t511 = SejongToken::new(s512.as_str(), s513.as_str(), n514, n515);
        let mut nv516: Vec<SejongToken> = Vec::new();
        push_token(&mut nv516, t511);
        splice_tokens(tokens, i + 1, 2, nv516);
        let _len1 = tokens.len();
        return tokens.len();
    }
    if p120_c1_exec(tokens, i) {
        let s518 = owned("VV");
        let mut t517 = tokens[i].duplicate();
        t517.pos = s518;
        let s520 = owned("아요");
        let s521 = owned("EF");
        let n522 = tokens[i + 1].start_pos;
        let n523 = tokens[i + 2].end_pos;
        let t519 = SejongToken::new(s520.as_str(), s521.as_str(), n522, n523);
        let mut nv524: Vec<SejongToken> = Vec::new();
        push_token(&mut nv524, t517);
        push_token(&mut nv524, t519);
        splice_tokens(tokens, i, 3, nv524);
        let _len1 = tokens.len();
        return tokens.len();
    }
    i + 1
}

/// At the end of the sentence, a noun with 이/VCP 오/EC is a verb with 아요/EF when it ends in an open syllable; after 진짜, 정말, 별로 the copula and ending are the particle 요/JX.
pub fn apply_p120(tokens: &mut Vec<SejongToken>)
    ensures
        tokens_view(final(tokens)@) == p120(tokens_view(old(tokens)@)),
{
    let ghost orig = tokens_view(tokens@);
    let mut i: usize = 0;
    while i < tokens.len()
        invariant
            i <= tokens@.len() + 1,
            scan(tokens_view(tokens@), i as int, p120_f()) == scan(orig, 0, p120_f()),
        decreases tokens@.len() + 1 - i,
    {
        let ghost before = tokens_view(tokens@);
        assert(before.len() == tokens@.len());
        i = p120_step_exec(tokens, i);
        assert(tokens_view(tokens@).len() == tokens@.len());
    }
}

/// Where rule 0 of [`p235`] applies.
pub open spec fn p235_c0(ts: Seq<TokenView>, i: int) -> bool {
    ((0 <= i - 1 < ts.len() && ts[i - 1].pos == "NP"@) && ((0 <= i < ts.len() && ts[i].surface == "예"@) && (0 <= i < ts.len() && ts[i].pos == "VV"@)) && ((0 <= i + 1 < ts.len() && ts[i + 1].surface == "아요"@) && (0 <= i + 1 < ts.len() && ts[i + 1].pos == "EF"@)))
}

/// One step of [`p235`] at `i`: the list after it and the next position.
pub open spec fn p235_step(ts: Seq<TokenView>, i: int) -> (Seq<TokenView>, int) {
    if p235_c0(ts, i) {
        (ts.update(i, plain_view("이"@, "VCP"@, ts[i].start_pos, ts[i].end_pos)).update(i + 1, plain_view("에요"@, "EF"@, ts[i + 1].start_pos, ts[i + 1].end_pos)), i + 2)
    } else {
        (ts, i + 1)
    }
}

/// [`p235_step`] as a function value.
pub open spec fn p235_f() -> spec_fn(Seq<TokenView>, int) -> (Seq<TokenView>, int) {
    |ts: Seq<TokenView>, i: int| p235_step(ts, i)
}

/// 예/VV 아요/EF after a pronoun is 이/VCP 에요/EF.
pub open spec fn p235(ts: Seq<TokenView>) -> Seq<TokenView> {
    scan(ts, 0, p235_f())
}

/// Whether rule 0 of [`p235`] applies at `i`.
fn p235_c0_exec(tokens: &Vec<SejongToken>, i: usize) -> (r: bool)
    requires
        i < tokens@.len(),
    ensures
        r == p235_c0(tokens_view(tokens@), i as int),
{
    assert(tokens_view(tokens@).len() == tokens@.len());
    let c525 = (i >= 1) && pos_is(&tokens[i - 1], "NP");
    let c526 = surf_is(&tokens[i], "예");
    let c527 = pos_is(&tokens[i], "VV");
    let c528 = (tokens.len() - i > 1) && surf_is(&tokens[i + 1], "아요");
    let c529 = (tokens.len() - i > 1) && pos_is(&tokens[i + 1], "EF");
    (c525 && (c526 && c527) && (c528 && c529))
}

/// One step of [`p235`] at `i`; returns the next position.
fn p235_step_exec(tokens: &mut Vec<SejongToken>, i: usize) -> (next: usize)
    requires
        i < old(tokens)@.len(),
    ensures
        (tokens_view(final(tokens)@), next as int) == p235_step(tokens_view(old(tokens)@), i as int),
        final(tokens)@.len() - next < old(tokens)@.len() - i,
        next <= final(tokens)@.len() + 1,
{
    let len0 = tokens.len();
    assert(tokens_view(tokens@).len() == tokens@.len());
    if p235_c0_exec(tokens, i) {
        let s531 = owned("이");
        let s532 = owned("VCP");
        let n533 = tokens[i].start_pos;
        let n534 = tokens[i].end_pos;
        let t530 = SejongToken::new(s531.as_str(), s532.as_str(), n533, n534);
        let s536 = owned("에요");
        let s537 = owned("EF");
        let n538 = tokens[i + 1].start_pos;
        let n539 = tokens[i + 1].end_pos;
        let t535 = SejongToken::new(s536.as_str(), s537.as_str(), n538, n539);
        set_token(tokens, i, t530);
        set_token(tokens, i + 1, t535);
        let _len1 = tokens.len();
        return i + 2;
    }
    i + 1
}

/// 예/VV 아요/EF after a pronoun is 이/VCP 에요/EF.
pub fn apply_p235(tokens: &mut Vec<SejongToken>)
    ensures
        tokens_view(final(tokens)@) == p235(tokens_view(old(tokens)@)),
{
    let ghost orig = tokens_view(tokens@);
    let mut i: usize = 0;
    while i < tokens.len()
        invariant
            i <= tokens@.len() + 1,
            scan(tokens_view(tokens@), i as int, p235_f()) == scan(orig, 0, p235_f()),
        decreases tokens@.len() + 1 - i,
    {
        let ghost before = tokens_view(tokens@);
        assert(before.len() == tokens@.len());
        i = p235_step_exec(tokens, i);
        assert(tokens_view(tokens@).len() == tokens@.len());
    }
}

/// Where [`p122`] changes a token.
pub open spec fn p122_c(ts: Seq<TokenView>, i: int) -> bool {
    ((0 <= i < ts.len() && seq!["ᆯ래요"@, "ㄹ래요"@].contains(ts[i].surface)) && (0 <= i < ts.len() && ts[i].pos == "EC"@) && !(0 <= i + 1 < ts.len() && true))
}

/// The token [`p122`] puts at `i`.
pub open spec fn p122_t(ts: Seq<TokenView>, i: int) -> TokenView {
    TokenView { pos: "EF"@, ..ts[i] }
}

/// A final ᆯ래요/EC or ㄹ래요/EC is a final ending (EF).
pub open spec fn p122(ts: Seq<TokenView>) -> Seq<TokenView> {
    map_where(ts, |ts: Seq<TokenView>, i: int| p122_c(ts, i), |ts: Seq<TokenView>, i: int| p122_t(ts, i))
}

/// Whether [`p122`] changes the token at `i`.
fn p122_c_exec(tokens: &Vec<SejongToken>, i: usize) -> (r: bool)
    requires
        i < tokens@.len(),
    ensures
        r == p122_c(tokens_view(tokens@), i as int),
{
    assert(tokens_view(tokens@).len() == tokens@.len());
    let l541: [&str; 2] = ["ᆯ래요", "ㄹ래요"];
    assert(crate::tag_map::strs_view(l541@) =~= seq!["ᆯ래요"@, "ㄹ래요"@]);
    let c540 = in_list(&l541, tokens[i].surface.as_str());
    let c542 = pos_is(&tokens[i], "EC");
    let c543 = (tokens.len() - i > 1) && true;
    (c540 && c542 && !c543)
}

/// The token [`p122`] puts at `i`.
fn p122_t_exec(tokens: &Vec<SejongToken>, i: usize) -> (t: SejongToken)
    requires
        i < tokens@.len(),
        p122_c(tokens_view(tokens@), i as int),
    ensures
        t@ == p122_t(tokens_view(tokens@), i as int),
{
    assert(tokens_view(tokens@).len() == tokens@.len());
    let s545 = owned("EF");
    let mut t544 = tokens[i].duplicate();
    t544.pos = s545;
    t544
}

/// A final ᆯ래요/EC or ㄹ래요/EC is a final ending (EF).
pub fn apply_p122(tokens: &mut Vec<SejongToken>)
    ensures
        tokens_view(final(tokens)@) == p122(tokens_view(old(tokens)@)),
{
    let ghost orig = tokens_view(tokens@);
    let mut out: Vec<SejongToken> = Vec::new();
    let mut k: usize = 0;
    while k < tokens.len()
        invariant
            k <= tokens@.len(),
            orig == tokens_view(tokens@),
            tokens_view(out@) == p122(orig).take(k as int),
        decreases tokens@.len() - k,
    {
        let t = if p122_c_exec(tokens, k) { p122_t_exec(tokens, k) } else { tokens[k].duplicate() };
        push_token(&mut out, t);
        k += 1;
        assert(tokens_view(out@) =~= p122(orig).take(k as int));
    }
    assert(p122(orig).take(k as int) =~= p122(orig));
    *tokens = out;
}

/// Where [`p125`] changes a token.
pub open spec fn p125_c(ts: Seq<TokenView>, i: int) -> bool {
    ((0 <= i < ts.len() && seq!["ᆯ까요"@, "ㄹ까요"@].contains(ts[i].surface)) && (0 <= i < ts.len() && ts[i].pos == "EC"@) && !(0 <= i + 1 < ts.len() && true))
}

/// The token [`p125`] puts at `i`.
pub open spec fn p125_t(ts: Seq<TokenView>, i: int) -> TokenView {
    TokenView { pos: "EF"@, ..ts[i] }
}

/// A final ᆯ까요/EC or ㄹ까요/EC is a final ending (EF).
pub open spec fn p125(ts: Seq<TokenView>) -> Seq<TokenView> {
    map_where(ts, |ts: Seq<TokenView>, i: int| p125_c(ts, i), |ts: Seq<TokenView>, i: int| p125_t(ts, i))
}

/// Whether [`p125`] changes the token at `i`.
fn p125_c_exec(tokens: &Vec<SejongToken>, i: usize) -> (r: bool)
    requires
        i < tokens@.len(),
    ensures
        r == p125_c(tokens_view(tokens@), i as int),
{
    assert(tokens_view(tokens@).len() == tokens@.len());
    let l547: [&str; 2] = ["ᆯ까요", "ㄹ까요"];
    assert(crate::tag_map::strs_view(l547@) =~= seq!["ᆯ까요"@, "ㄹ까요"@]);
    let c546 = in_list(&l547, tokens[i].surface.as_str());
    let c548 = pos_is(&tokens[i], "EC");
    let c549 = (tokens.len() - i > 1) && true;
    (c546 && c548 && !c549)
}

/// The token [`p125`] puts at `i`.
fn p125_t_exec(tokens: &Vec<SejongToken>, i: usize) -> (t: SejongToken)
    requires
        i < tokens@.len(),
        p125_c(tokens_view(tokens@), i as int),
    ensures
        t@ == p125_t(tokens_view(tokens@), i as int),
{
    assert(tokens_view(tokens@).len() == tokens@.len());
    let s551 = owned("EF");
    let mut t550 = tokens[i].duplicate();
    t550.pos = s551;
    t550
}

/// A final ᆯ까요/EC or ㄹ까요/EC is a final ending (EF).
pub fn apply_p125(tokens: &mut Vec<SejongToken>)
    ensures
        tokens_view(final(tokens)@) == p125(tokens_view(old(tokens)@)),
{
    let ghost orig = tokens_view(tokens@);
    let mut out: Vec<SejongToken> = Vec::new();
    let mut k: usize = 0;
    while k < tokens.len()
        invariant
            k <= tokens@.len(),
            orig == tokens_view(tokens@),
            tokens_view(out@) == p125(orig).take(k as int),
        decreases tokens@.len() - k,
    {
        let t = if p125_c_exec(tokens, k) { p125_t_exec(tokens, k) } else { tokens[k].duplicate() };
        push_token(&mut out, t);
        k += 1;
        assert(tokens_view(out@) =~= p125(orig).take(k as int));
    }
    assert(p125(orig).take(k as int) =~= p125(orig));
    *tokens = out;
}

/// Where rule 0 of [`p127`] applies.
pub open spec fn p127_c0(ts: Seq<TokenView>, i: int) -> bool {
    ((0 <= i < ts.len() && ts[i].pos == "NNP"@) && (0 <= i < ts.len() && (is_suffix("다"@, ts[i].surface) && seq!["크"@, "작"@, "예쁘"@, "귀엽"@, "멋지"@, "아름답"@, "못생기"@, "높"@, "낮"@, "길"@, "짧"@, "넓"@, "좁"@, "두껍"@, "얇"@, "무겁"@, "가볍"@, "빠르"@, "느리"@, "밝"@, "어두"@, "덥"@, "춥"@, "시원하"@, "따뜻하"@, "뜨겁"@, "차갑"@].contains(strip_suffix(ts[i].surface, "다"@)))))
}

/// One step of [`p127`] at `i`: the list after it and the next position.
pub open spec fn p127_step(ts: Seq<TokenView>, i: int) -> (Seq<TokenView>, int) {
    if p127_c0(ts, i) {
        (splice(ts, i, 1, seq![TokenView { surface: strip_suffix(ts[i].surface, "다"@), pos: "VA"@, ..ts[i] }, plain_view("다"@, "EF"@, ts[i].start_pos, ts[i].end_pos)]), i + 2)
    } else {
        (ts, i + 1)
    }
}

/// [`p127_step`] as a function value.
pub open spec fn p127_f() -> spec_fn(Seq<TokenView>, int) -> (Seq<TokenView>, int) {
    |ts: Seq<TokenView>, i: int| p127_step(ts, i)
}

/// The dictionary form of an adjective analysed as a proper noun is the stem and 다/EF (크다/NNP → 크/VA 다/EF).
pub open spec fn p127(ts: Seq<TokenView>) -> Seq<TokenView> {
    scan(ts, 0, p127_f())
}

/// Whether rule 0 of [`p127`] applies at `i`.
fn p127_c0_exec(tokens: &Vec<SejongToken>, i: usize) -> (r: bool)
    requires
        i < tokens@.len(),
    ensures
        r == p127_c0(tokens_view(tokens@), i as int),
{
    assert(tokens_view(tokens@).len() == tokens@.len());
    let c552 = pos_is(&tokens[i], "NNP");
    let l554: [&str; 27] = ["크", "작", "예쁘", "귀엽", "멋지", "아름답", "못생기", "높", "낮", "길", "짧", "넓", "좁", "두껍", "얇", "무겁", "가볍", "빠르", "느리", "밝", "어두", "덥", "춥", "시원하", "따뜻하", "뜨겁", "차갑"];
    assert(crate::tag_map::strs_view(l554@) =~= seq!["크"@, "작"@, "예쁘"@, "귀엽"@, "멋지"@, "아름답"@, "못생기"@, "높"@, "낮"@, "길"@, "짧"@, "넓"@, "좁"@, "두껍"@, "얇"@, "무겁"@, "가볍"@, "빠르"@, "느리"@, "밝"@, "어두"@, "덥"@, "춥"@, "시원하"@, "따뜻하"@, "뜨겁"@, "차갑"@]);
    let c553 = (surf_ends(&tokens[i], "다") && in_list(&l554, strip_suffix_exec(tokens[i].surface.as_str(), "다").as_str()));
    (c552 && c553)
}

/// One step of [`p127`] at `i`; returns the next position.
fn p127_step_exec(tokens: &mut Vec<SejongToken>, i: usize) -> (next: usize)
    requires
        i < old(tokens)@.len(),
    ensures
        (tokens_view(final(tokens)@), next as int) == p127_step(tokens_view(old(tokens)@), i as int),
        final(tokens)@.len() - next < old(tokens)@.len() - i,
        next <= final(tokens)@.len() + 1,
{
    let len0 = tokens.len();
    assert(tokens_view(tokens@).len() == tokens@.len());
    if p127_c0_exec(tokens, i) {
        let s557 = tokens[i].surface.clone();
        let s556 = strip_suffix_exec(s557.as_str(), "다");
        let s558 = owned("VA");
        let mut t555 = tokens[i].duplicate();
        t555.surface = s556;
        t555.pos = s558;
        let s560 = owned("다");
        let s561 = owned("EF");
        let n562 = tokens[i].start_pos;
        let n563 = tokens[i].end_pos;
        let t559 = SejongToken::new(s560.as_str(), s561.as_str(), n562, n563);
        let mut nv564: Vec<SejongToken> = Vec::new();
        push_token(&mut nv564, t555);
        push_token(&mut nv564, t559);
        splice_tokens(tokens, i, 1, nv564);
        let _len1 = tokens.len();
        return i + 2;
    }
    i + 1
}

/// The dictionary form of an adjective analysed as a proper noun is the stem and 다/EF (크다/NNP → 크/VA 다/EF).
pub fn apply_p127(tokens: &mut Vec<SejongToken>)
    ensures
        tokens_view(final(tokens)@) == p127(tokens_view(old(tokens)@)),
{
    let ghost orig = tokens_view(tokens@);
    let mut i: usize = 0;
    while i < tokens.len()
        invariant
            i <= tokens@.len() + 1,
            scan(tokens_view(tokens@), i as int, p127_f()) == scan(orig, 0, p127_f()),
        decreases tokens@.len() + 1 - i,
    {
        let ghost before = tokens_view(tokens@);
        assert(before.len() == tokens@.len());
        i = p127_step_exec(tokens, i);
        assert(tokens_view(tokens@).len() == tokens@.len());
    }
}

/// Where [`p129`] changes a token.
pub open spec fn p129_c(ts: Seq<TokenView>, i: int) -> bool {
    ((0 <= i < ts.len() && ts[i].pos == "NNP"@) && (0 <= i < ts.len() && seq!["인공지능"@, "머신러닝"@, "딥러닝"@, "빅데이터"@, "클라우드"@, "인터넷"@, "컴퓨터"@, "소프트웨어"@, "하드웨어"@, "프로그램"@, "알고리즘"@, "데이터베이스"@, "네트워크"@, "서버"@, "클라이언트"@].contains(ts[i].surface)))
}

/// The token [`p129`] puts at `i`.
pub open spec fn p129_t(ts: Seq<TokenView>, i: int) -> TokenView {
    TokenView { pos: "NNG"@, ..ts[i] }
}

/// Common nouns analysed as proper nouns are tagged NNG.
pub open spec fn p129(ts: Seq<TokenView>) -> Seq<TokenView> {
    map_where(ts, |ts: Seq<TokenView>, i: int| p129_c(ts, i), |ts: Seq<TokenView>, i: int| p129_t(ts, i))
}

/// Whether [`p129`] changes the token at `i`.
fn p129_c_exec(tokens: &Vec<SejongToken>, i: usize) -> (r: bool)
    requires
        i < tokens@.len(),
    ensures
        r == p129_c(tokens_view(tokens@), i as int),
{
    assert(tokens_view(tokens@).len() == tokens@.len());
    let c565 = pos_is(&tokens[i], "NNP");
    let l567: [&str; 15] = ["인공지능", "머신러닝", "딥러닝", "빅데이터", "클라우드", "인터넷", "컴퓨터", "소프트웨어", "하드웨어", "프로그램", "알고리즘", "데이터베이스", "네트워크", "서버", "클라이언트"];
    assert(crate::tag_map::strs_view(l567@) =~= seq!["인공지능"@, "머신러닝"@, "딥러닝"@, "빅데이터"@, "클라우드"@, "인터넷"@, "컴퓨터"@, "소프트웨어"@, "하드웨어"@, "프로그램"@, "알고리즘"@, "데이터베이스"@, "네트워크"@, "서버"@, "클라이언트"@]);
    let c566 = in_list(&l567, tokens[i].surface.as_str());
    (c565 && c566)
}

/// The token [`p129`] puts at `i`.
fn p129_t_exec(tokens: &Vec<SejongToken>, i: usize) -> (t: SejongToken)
    requires
        i < tokens@.len(),
        p129_c(tokens_view(tokens@), i as int),
    ensures
        t@ == p129_t(tokens_view(tokens@), i as int),
{
    assert(tokens_view(tokens@).len() == tokens@.len());
    let s569 = owned("NNG");
    let mut t568 = tokens[i].duplicate();
    t568.pos = s569;
    t568
}

/// Common nouns analysed as proper nouns are tagged NNG.
pub fn apply_p129(tokens: &mut Vec<SejongToken>)
    ensures
        tokens_view(final(tokens)@) == p129(tokens_view(old(tokens)@)),
{
    let ghost orig = tokens_view(tokens@);
    let mut out: Vec<SejongToken> = Vec::new();
    let mut k: usize = 0;
    while k < tokens.len()
        invariant
            k <= tokens@.len(),
            orig == tokens_view(tokens@),
            tokens_view(out@) == p129(orig).take(k as int),
        decreases tokens@.len() - k,
    {
        let t = if p129_c_exec(tokens, k) { p129_t_exec(tokens, k) } else { tokens[k].duplicate() };
        push_token(&mut out, t);
        k += 1;
        assert(tokens_view(out@) =~= p129(orig).take(k as int));
    }
    assert(p129(orig).take(k as int) =~= p129(orig));
    *tokens = out;
}

/// Where rule 0 of [`p130`] applies.
pub open spec fn p130_c0(ts: Seq<TokenView>, i: int) -> bool {
    ((0 <= i < ts.len() && ts[i].pos == "NP"@) && (0 <= i < ts.len() && seq!["어디"@, "뭐"@, "언제"@, "누구"@, "왜"@, "어떻게"@, "무엇"@, "어느"@].contains(ts[i].surface)) && ((0 <= i + 1 < ts.len() && ts[i + 1].surface == "가"@) && (0 <= i + 1 < ts.len() && ts[i + 1].pos == "JKS"@)) && ((0 <= i + 2 < ts.len() && ts[i + 2].surface == "니"@) && (0 <= i + 2 < ts.len() && ts[i + 2].pos == "NP"@)))
}

/// One step of [`p130`] at `i`: the list after it and the next position.
pub open spec fn p130_step(ts: Seq<TokenView>, i: int) -> (Seq<TokenView>, int) {
    if p130_c0(ts, i) {
        (ts.update(i + 1, TokenView { pos: "VV"@, ..ts[i + 1] }).update(i + 2, TokenView { pos: "EF"@, ..ts[i + 2] }), i + 1)
    } else {
        (ts, i + 1)
    }
}

/// [`p130_step`] as a function value.
pub open spec fn p130_f() -> spec_fn(Seq<TokenView>, int) -> (Seq<TokenView>, int) {
    |ts: Seq<TokenView>, i: int| p130_step(ts, i)
}

/// 가/JKS 니/NP after an interrogative is 가/VV 니/EF.
pub open spec fn p130(ts: Seq<TokenView>) -> Seq<TokenView> {
    scan(ts, 0, p130_f())
}

/// Whether rule 0 of [`p130`] applies at `i`.
fn p130_c0_exec(tokens: &Vec<SejongToken>, i: usize) -> (r: bool)
    requires
        i < tokens@.len(),
    ensures
        r == p130_c0(tokens_view(tokens@), i as int),
{
    assert(tokens_view(tokens@).len() == tokens@.len());
    let c570 = pos_is(&tokens[i], "NP");
    let l572: [&str; 8] = ["어디", "뭐", "언제", "누구", "왜", "어떻게", "무엇", "어느"];
    assert(crate::tag_map::strs_view(l572@) =~= seq!["어디"@, "뭐"@, "언제"@, "누구"@, "왜"@, "어떻게"@, "무엇"@, "어느"@]);
    let c571 = in_list(&l572, tokens[i].surface.as_str());
    let c573 = (tokens.len() - i > 1) && surf_is(&tokens[i + 1], "가");
    let c574 = (tokens.len() - i > 1) && pos_is(&tokens[i + 1], "JKS");
    let c575 = (tokens.len() - i > 2) && surf_is(&tokens[i + 2], "니");
    let c576 = (tokens.len() - i > 2) && pos_is(&tokens[i + 2], "NP");
    (c570 && c571 && (c573 && c574) && (c575 && c576))
}

/// One step of [`p130`] at `i`; returns the next position.
fn p130_step_exec(tokens: &mut Vec<SejongToken>, i: usize) -> (next: usize)
    requires
        i < old(tokens)@.len(),
    ensures
        (tokens_view(final(tokens)@), next as int) == p130_step(tokens_view(old(tokens)@), i as int),
        final(tokens)@.len() - next < old(tokens)@.len() - i,
        next <= final(tokens)@.len() + 1,
{
    let len0 = tokens.len();
    assert(tokens_view(tokens@).len() == tokens@.len());
    if p130_c0_exec(tokens, i) {
        let s578 = owned("VV");
        let mut t577 = tokens[i + 1].duplicate();
        t577.pos = s578;
        let s580 = owned("EF");
        let mut t579 = tokens[i + 2].duplicate();
        t579.pos = s580;
        set_token(tokens, i + 1, t577);
        set_token(tokens, i + 2, t579);
        let _len1 = tokens.len();
        return i + 1;
    }
    i + 1
}

/// 가/JKS 니/NP after an interrogative is 가/VV 니/EF.
pub fn apply_p130(tokens: &mut Vec<SejongToken>)
    ensures
        tokens_view(final(tokens)@) == p130(tokens_view(old(tokens)@)),
{
    let ghost orig = tokens_view(tokens@);
    let mut i: usize = 0;
    while i < tokens.len()
        invariant
            i <= tokens@.len() + 1,
            scan(tokens_view(tokens@), i as int, p130_f()) == scan(orig, 0, p130_f()),
        decreases tokens@.len() + 1 - i,
    {
        let ghost before = tokens_view(tokens@);
        assert(before.len() == tokens@.len());
        i = p130_step_exec(tokens, i);
        assert(tokens_view(tokens@).len() == tokens@.len());
    }
}

/// Where rule 0 of [`p130b`] applies.
pub open spec fn p130b_c0(ts: Seq<TokenView>, i: int) -> bool {
    ((0 <= i < ts.len() && ts[i].pos == "NP"@) && (0 <= i < ts.len() && seq!["어디"@, "뭐"@, "언제"@, "누구"@, "왜"@, "어떻게"@, "무엇"@, "어느"@].contains(ts[i].surface)) && (0 <= i + 1 < ts.len() && seq!["NNG"@, "NNP"@].contains(ts[i + 1].pos)) && (0 <= i + 1 < ts.len() && is_suffix("니"@, ts[i + 1].surface)) && (0 <= i + 1 < ts.len() && ts[i + 1].surface.len() >= 2))
}

/// One step of [`p130b`] at `i`: the list after it and the next position.
pub open spec fn p130b_step(ts: Seq<TokenView>, i: int) -> (Seq<TokenView>, int) {
    if p130b_c0(ts, i) {
        (splice(ts, i + 1, 1, seq![TokenView { surface: strip_suffix(ts[i + 1].surface, "니"@), pos: "VV"@, ..ts[i + 1] }, plain_view("니"@, "EF"@, ts[i + 1].start_pos, ts[i + 1].end_pos)]), i + 3)
    } else {
        (ts, i + 1)
    }
}

/// [`p130b_step`] as a function value.
pub open spec fn p130b_f() -> spec_fn(Seq<TokenView>, int) -> (Seq<TokenView>, int) {
    |ts: Seq<TokenView>, i: int| p130b_step(ts, i)
}

/// A noun in 니 after an interrogative is a verb stem with 니/EF (언제/NP 오니/NNG → 오/VV 니/EF).
pub open spec fn p130b(ts: Seq<TokenView>) -> Seq<TokenView> {
    scan(ts, 0, p130b_f())
}

/// Whether rule 0 of [`p130b`] applies at `i`.
fn p130b_c0_exec(tokens: &Vec<SejongToken>, i: usize) -> (r: bool)
    requires
        i < tokens@.len(),
    ensures
        r == p130b_c0(tokens_view(tokens@), i as int),
{
    assert(tokens_view(tokens@).len() == tokens@.len());
    let c581 = pos_is(&tokens[i], "NP");
    let l583: [&str; 8] = ["어디", "뭐", "언제", "누구", "왜", "어떻게", "무엇", "어느"];
    assert(crate::tag_map::strs_view(l583@) =~= seq!["어디"@, "뭐"@, "언제"@, "누구"@, "왜"@, "어떻게"@, "무엇"@, "어느"@]);
    let c582 = in_list(&l583, tokens[i].surface.as_str());
    let l585: [&str; 2] = ["NNG", "NNP"];
    assert(crate::tag_map::strs_view(l585@) =~= seq!["NNG"@, "NNP"@]);
    let c584 = (tokens.len() - i > 1) && in_list(&l585, tokens[i + 1].pos.as_str());
    let c586 = (tokens.len() - i > 1) && surf_ends(&tokens[i + 1], "니");
    let c587 = (tokens.len() - i > 1) && char_count(tokens[i + 1].surface.as_str()) >= 2;
    (c581 && c582 && c584 && c586 && c587)
}

/// One step of [`p130b`] at `i`; returns the next position.
fn p130b_step_exec(tokens: &mut Vec<SejongToken>, i: usize) -> (next: usize)
    requires
        i < old(tokens)@.len(),
    ensures
        (tokens_view(final(tokens)@), next as int) == p130b_step(tokens_view(old(tokens)@), i as int),
        final(tokens)@.len() - next < old(tokens)@.len() - i,
        next <= final(tokens)@.len() + 1,
{
    let len0 = tokens.len();
    assert(tokens_view(tokens@).len() == tokens@.len());
    if p130b_c0_exec(tokens, i) {
        let s590 = tokens[i + 1].surface.clone();
        let s589 = strip_suffix_exec(s590.as_str(), "니");
        let s591 = owned("VV");
        let mut t588 = tokens[i + 1].duplicate();
        t588.surface = s589;
        t588.pos = s591;
        let s593 = owned("니");
        let s594 = owned("EF");
        let n595 = tokens[i + 1].start_pos;
        let n596 = tokens[i + 1].end_pos;
        let t592 = SejongToken::new(s593.as_str(), s594.as_str(), n595, n596);
        let mut nv597: Vec<SejongToken> = Vec::new();
        push_token(&mut nv597, t588);
        push_token(&mut nv597, t592);
        splice_tokens(tokens, i + 1, 1, nv597);
        let _len1 = tokens.len();
        return i + 3;
    }
    i + 1
}

/// A noun in 니 after an interrogative is a verb stem with 니/EF (언제/NP 오니/NNG → 오/VV 니/EF).
pub fn apply_p130b(tokens: &mut Vec<SejongToken>)
    ensures
        tokens_view(final(tokens)@) == p130b(tokens_view(old(tokens)@)),
{
    let ghost orig = tokens_view(tokens@);
    let mut i: usize = 0;
    while i < tokens.len()
        invariant
            i <= tokens@.len() + 1,
            scan(tokens_view(tokens@), i as int, p130b_f()) == scan(orig, 0, p130b_f()),
        decreases tokens@.len() + 1 - i,
    {
        let ghost before = tokens_view(tokens@);
        assert(before.len() == tokens@.len());
        i = p130b_step_exec(tokens, i);
        assert(tokens_view(tokens@).len() == tokens@.len());
    }
}

/// Where rule 0 of [`p131`] applies.
pub open spec fn p131_c0(ts: Seq<TokenView>, i: int) -> bool {
    ((0 <= i < ts.len() && ts[i].pos == "NNP"@) && (0 <= i < ts.len() && is_suffix("니"@, ts[i].surface)) && (0 <= i < ts.len() && ts[i].surface.len() >= 3) && (0 <= i < ts.len() && is_prefix("뭐"@, ts[i].surface)) && (is_prefix("뭐"@, ts[i].surface) && is_suffix("니"@, strip_prefix(ts[i].surface, "뭐"@))))
}

/// Where rule 1 of [`p131`] applies.
pub open spec fn p131_c1(ts: Seq<TokenView>, i: int) -> bool {
    ((0 <= i < ts.len() && ts[i].pos == "NNP"@) && (0 <= i < ts.len() && is_suffix("니"@, ts[i].surface)) && (0 <= i < ts.len() && ts[i].surface.len() >= 3) && (0 <= i < ts.len() && is_prefix("뭘"@, ts[i].surface)) && (is_prefix("뭘"@, ts[i].surface) && is_suffix("니"@, strip_prefix(ts[i].surface, "뭘"@))))
}

/// Where rule 2 of [`p131`] applies.
pub open spec fn p131_c2(ts: Seq<TokenView>, i: int) -> bool {
    ((0 <= i < ts.len() && ts[i].pos == "NNP"@) && (0 <= i < ts.len() && is_suffix("니"@, ts[i].surface)) && (0 <= i < ts.len() && ts[i].surface.len() >= 4) && (0 <= i < ts.len() && is_prefix("언제"@, ts[i].surface)) && (is_prefix("언제"@, ts[i].surface) && is_suffix("니"@, strip_prefix(ts[i].surface, "언제"@))))
}

/// Where rule 3 of [`p131`] applies.
pub open spec fn p131_c3(ts: Seq<TokenView>, i: int) -> bool {
    ((0 <= i < ts.len() && ts[i].pos == "NNP"@) && (0 <= i < ts.len() && is_suffix("니"@, ts[i].surface)) && (0 <= i < ts.len() && ts[i].surface.len() >= 4) && (0 <= i < ts.len() && is_prefix("어디"@, ts[i].surface)) && (is_prefix("어디"@, ts[i].surface) && is_suffix("니"@, strip_prefix(ts[i].surface, "어디"@))))
}

/// Where rule 4 of [`p131`] applies.
pub open spec fn p131_c4(ts: Seq<TokenView>, i: int) -> bool {
    ((0 <= i < ts.len() && ts[i].pos == "NNP"@) && (0 <= i < ts.len() && is_suffix("니"@, ts[i].surface)) && (0 <= i < ts.len() && ts[i].surface.len() >= 4) && (0 <= i < ts.len() && is_prefix("누가"@, ts[i].surface)) && (is_prefix("누가"@, ts[i].surface) && is_suffix("니"@, strip_prefix(ts[i].surface, "누가"@))))
}

/// Where rule 5 of [`p131`] applies.
pub open spec fn p131_c5(ts: Seq<TokenView>, i: int) -> bool {
    ((0 <= i < ts.len() && ts[i].pos == "NNP"@) && (0 <= i < ts.len() && is_suffix("니"@, ts[i].surface)) && (0 <= i < ts.len() && ts[i].surface.len() >= 4) && (0 <= i < ts.len() && is_prefix("누구"@, ts[i].surface)) && (is_prefix("누구"@, ts[i].surface) && is_suffix("니"@, strip_prefix(ts[i].surface, "누구"@))))
}

/// One step of [`p131`] at `i`: the list after it and the next position.
pub open spec fn p131_step(ts: Seq<TokenView>, i: int) -> (Seq<TokenView>, int) {
    if p131_c0(ts, i) {
        (splice(ts, i, 1, seq![TokenView { surface: "뭐"@, pos: "NP"@, ..ts[i] }, plain_view(strip_suffix(strip_prefix(ts[i].surface, "뭐"@), "니"@), "VV"@, ts[i].start_pos, ts[i].end_pos), plain_view("니"@, "EF"@, ts[i].start_pos, ts[i].end_pos)]), i + 3)
    } else if p131_c1(ts, i) {
        (splice(ts, i, 1, seq![TokenView { surface: "뭘"@, pos: "NP"@, ..ts[i] }, plain_view(strip_suffix(strip_prefix(ts[i].surface, "뭘"@), "니"@), "VV"@, ts[i].start_pos, ts[i].end_pos), plain_view("니"@, "EF"@, ts[i].start_pos, ts[i].end_pos)]), i + 3)
    } else if p131_c2(ts, i) {
        (splice(ts, i, 1, seq![TokenView { surface: "언제"@, pos: "NP"@, ..ts[i] }, plain_view(strip_suffix(strip_prefix(ts[i].surface, "언제"@), "니"@), "VV"@, ts[i].start_pos, ts[i].end_pos), plain_view("니"@, "EF"@, ts[i].start_pos, ts[i].end_pos)]), i + 3)
    } else if p131_c3(ts, i) {
        (splice(ts, i, 1, seq![TokenView { surface: "어디"@, pos: "NP"@, ..ts[i] }, plain_view(strip_suffix(strip_prefix(ts[i].surface, "어디"@), "니"@), "VV"@, ts[i].start_pos, ts[i].end_pos), plain_view("니"@, "EF"@, ts[i].start_pos, ts[i].end_pos)]), i + 3)
    } else if p131_c4(ts, i) {
        (splice(ts, i, 1, seq![TokenView { surface: "누가"@, pos: "NP"@, ..ts[i] }, plain_view(strip_suffix(strip_prefix(ts[i].surface, "누가"@), "니"@), "VV"@, ts[i].start_pos, ts[i].end_pos), plain_view("니"@, "EF"@, ts[i].start_pos, ts[i].end_pos)]), i + 3)
    } else if p131_c5(ts, i) {
        (splice(ts, i, 1, seq![TokenView { surface: "누구"@, pos: "NP"@, ..ts[i] }, plain_view(strip_suffix(strip_prefix(ts[i].surface, "누구"@), "니"@), "VV"@, ts[i].start_pos, ts[i].end_pos), plain_view("니"@, "EF"@, ts[i].start_pos, ts[i].end_pos)]), i + 3)
    } else {
        (ts, i + 1)
    }
}

/// [`p131_step`] as a function value.
pub open spec fn p131_f() -> spec_fn(Seq<TokenView>, int) -> (Seq<TokenView>, int) {
    |ts: Seq<TokenView>, i: int| p131_step(ts, i)
}

/// A proper noun made of an interrogative, a verb stem and 니 is split (뭐하니/NNP → 뭐/NP 하/VV 니/EF).
pub open spec fn p131(ts: Seq<TokenView>) -> Seq<TokenView> {
    scan(ts, 0, p131_f())
}

/// Whether rule 0 of [`p131`] applies at `i`.
fn p131_c0_exec(tokens: &Vec<SejongToken>, i: usize) -> (r: bool)
    requires
        i < tokens@.len(),
    ensures
        r == p131_c0(tokens_view(tokens@), i as int),
{
    assert(tokens_view(tokens@).len() == tokens@.len());
    let c598 = pos_is(&tokens[i], "NNP");
    let c599 = surf_ends(&tokens[i], "니");
    let c600 = char_count(tokens[i].surface.as_str()) >= 3;
    let c601 = surf_starts(&tokens[i], "뭐");
    let c602 = surf_starts(&tokens[i], "뭐") && crate::text::ends_with(strip_prefix_exec(tokens[i].surface.as_str(), "뭐").as_str(), "니");
    (c598 && c599 && c600 && c601 && c602)
}

/// Whether rule 1 of [`p131`] applies at `i`.
fn p131_c1_exec(tokens: &Vec<SejongToken>, i: usize) -> (r: bool)
    requires
        i < tokens@.len(),
    ensures
        r == p131_c1(tokens_view(tokens@), i as int),
{
    assert(tokens_view(tokens@).len() == tokens@.len());
    let c603 = pos_is(&tokens[i], "NNP");
    let c604 = surf_ends(&tokens[i], "니");
    let c605 = char_count(tokens[i].surface.as_str()) >= 3;
    let c606 = surf_starts(&tokens[i], "뭘");
    let c607 = surf_starts(&tokens[i], "뭘") && crate::text::ends_with(strip_prefix_exec(tokens[i].surface.as_str(), "뭘").as_str(), "니");
    (c603 && c604 && c605 && c606 && c607)
}

/// Whether rule 2 of [`p131`] applies at `i`.
fn p131_c2_exec(tokens: &Vec<SejongToken>, i: usize) -> (r: bool)
    requires
        i < tokens@.len(),
    ensures
        r == p131_c2(tokens_view(tokens@), i as int),
{
    assert(tokens_view(tokens@).len() == tokens@.len());
    let c608 = pos_is(&tokens[i], "NNP");
    let c609 = surf_ends(&tokens[i], "니");
    let c610 = char_count(tokens[i].surface.as_str()) >= 4;
    let c611 = surf_starts(&tokens[i], "언제");
    let c612 = surf_starts(&tokens[i], "언제") && crate::text::ends_with(strip_prefix_exec(tokens[i].surface.as_str(), "언제").as_str(), "니");
    (c608 && c609 && c610 && c611 && c612)
}

/// Whether rule 3 of [`p131`] applies at `i`.
fn p131_c3_exec(tokens: &Vec<SejongToken>, i: usize) -> (r: bool)
    requires
        i < tokens@.len(),
    ensures
        r == p131_c3(tokens_view(tokens@), i as int),
{
    assert(tokens_view(tokens@).len() == tokens@.len());
    let c613 = pos_is(&tokens[i], "NNP");
    let c614 = surf_ends(&tokens[i], "니");
    let c615 = char_count(tokens[i].surface.as_str()) >= 4;
    let c616 = surf_starts(&tokens[i], "어디");
    let c617 = surf_starts(&tokens[i], "어디") && crate::text::ends_with(strip_prefix_exec(tokens[i].surface.as_str(), "어디").as_str(), "니");
    (c613 && c614 && c615 && c616 && c617)
}

/// Whether rule 4 of [`p131`] applies at `i`.
fn p131_c4_exec(tokens: &Vec<SejongToken>, i: usize) -> (r: bool)
    requires
        i < tokens@.len(),
    ensures
        r == p131_c4(tokens_view(tokens@), i as int),
{
    assert(tokens_view(tokens@).len() == tokens@.len());
    let c618 = pos_is(&tokens[i], "NNP");
    let c619 = surf_ends(&tokens[i], "니");
    let c620 = char_count(tokens[i].surface.as_str()) >= 4;
    let c621 = surf_starts(&tokens[i], "누가");
    let c622 = surf_starts(&tokens[i], "누가") && crate::text::ends_with(strip_prefix_exec(tokens[i].surface.as_str(), "누가").as_str(), "니");
    (c618 && c619 && c620 && c621 && c622)
}

/// Whether rule 5 of [`p131`] applies at `i`.
fn p131_c5_exec(tokens: &Vec<SejongToken>, i: usize) -> (r: bool)
    requires
        i < tokens@.len(),
    ensures
        r == p131_c5(tokens_view(tokens@), i as int),
{
    assert(tokens_view(tokens@).len() == tokens@.len());
    let c623 = pos_is(&tokens[i], "NNP");
    let c624 = surf_ends(&tokens[i], "니");
    let c625 = char_count(tokens[i].surface.as_str()) >= 4;
    let c626 = surf_starts(&tokens[i], "누구");
    let c627 = surf_starts(&tokens[i], "누구") && crate::text::ends_with(strip_prefix_exec(tokens[i].surface.as_str(), "누구").as_str(), "니");
    (c623 && c624 && c625 && c626 && c627)
}

/// One step of [`p131`] at `i`; returns the next position.
fn p131_step_exec(tokens: &mut Vec<SejongToken>, i: usize) -> (next: usize)
    requires
        i < old(tokens)@.len(),
    ensures
        (tokens_view(final(tokens)@), next as int) == p131_step(tokens_view(old(tokens)@), i as int),
        final(tokens)@.len() - next < old(tokens)@.len() - i,
        next <= final(tokens)@.len() + 1,
{
    let len0 = tokens.len();
    assert(tokens_view(tokens@).len() == tokens@.len());
    if p131_c0_exec(tokens, i) {
        let s629 = owned("뭐");
        let s630 = owned("NP");
        let mut t628 = tokens[i].duplicate();
        t628.surface = s629;
        t628.pos = s630;
        let s634 = tokens[i].surface.clone();
        let s633 = strip_prefix_exec(s634.as_str(), "뭐");
        let s632 = strip_suffix_exec(s633.as_str(), "니");
        let s635 = owned("VV");
        let n636 = tokens[i].start_pos;
        let n637 = tokens[i].end_pos;
        let t631 = SejongToken::new(s632.as_str(), s635.as_str(), n636, n637);
        let s639 = owned("니");
        let s640 = owned("EF");
        let n641 = tokens[i].start_pos;
        let n642 = tokens[i].end_pos;
        let t638 = SejongToken::new(s639.as_str(), s640.as_str(), n641, n642);
        let mut nv643: Vec<SejongToken> = Vec::new();
        push_token(&mut nv643, t628);
        push_token(&mut nv643, t631);
        push_token(&mut nv643, t638);
        splice_tokens(tokens, i, 1, nv643);
        let _len1 = tokens.len();
        return i + 3;
    }
    if p131_c1_exec(tokens, i) {
        let s645 = owned("뭘");
        let s646 = owned("NP");
        let mut t644 = tokens[i].duplicate();
        t644.surface = s645;
        t644.pos = s646;
        let s650 = tokens[i].surface.clone();
        let s649 = strip_prefix_exec(s650.as_str(), "뭘");
        let s648 = strip_suffix_exec(s649.as_str(), "니");
        let s651 = owned("VV");
        let n652 = tokens[i].start_pos;
        let n653 = tokens[i].end_pos;
        let t647 = SejongToken::new(s648.as_str(), s651.as_str(), n652, n653);
        let s655 = owned("니");
        let s656 = owned("EF");
        let n657 = tokens[i].start_pos;
        let n658 = tokens[i].end_pos;
        let t654 = SejongToken::new(s655.as_str(), s656.as_str(), n657, n658);
        let mut nv659: Vec<SejongToken> = Vec::new();
        push_token(&mut nv659, t644);
        push_token(&mut nv659, t647);
        push_token(&mut nv659, t654);
        splice_tokens(tokens, i, 1, nv659);
        let _len1 = tokens.len();
        return i + 3;
    }
    if p131_c2_exec(tokens, i) {
        let s661 = owned("언제");
        let s662 = owned("NP");
        let mut t660 = tokens[i].duplicate();
        t660.surface = s661;
        t660.pos = s662;
        let s666 = tokens[i].surface.clone();
        let s665 = strip_prefix_exec(s666.as_str(), "언제");
        let s664 = strip_suffix_exec(s665.as_str(), "니");
        let s667 = owned("VV");
        let n668 = tokens[i].start_pos;
        let n669 = tokens[i].end_pos;
        let t663 = SejongToken::new(s664.as_str(), s667.as_str(), n668, n669);
        let s671 = owned("니");
        let s672 = owned("EF");
        let n673 = tokens[i].start_pos;
        let n674 = tokens[i].end_pos;
        let t670 = SejongToken::new(s671.as_str(), s672.as_str(), n673, n674);
        let mut nv675: Vec<SejongToken> = Vec::new();
        push_token(&mut nv675, t660);
        push_token(&mut nv675, t663);
        push_token(&mut nv675, t670);
        splice_tokens(tokens, i, 1, nv675);
        let _len1 = tokens.len();
        return i + 3;
    }
    if p131_c3_exec(tokens, i) {
        let s677 = owned("어디");
        let s678 = owned("NP");
        let mut t676 = tokens[i].duplicate();
        t676.surface = s677;
        t676.pos = s678;
        let s682 = tokens[i].surface.clone();
        let s681 = strip_prefix_exec(s682.as_str(), "어디");
        let s680 = strip_suffix_exec(s681.as_str(), "니");
        let s683 = owned("VV");
        let n684 = tokens[i].start_pos;
        let n685 = tokens[i].end_pos;
        let t679 = SejongToken::new(s680.as_str(), s683.as_str(), n684, n685);
        let s687 = owned("니");
        let s688 = owned("EF");
        let n689 = tokens[i].start_pos;
        let n690 = tokens[i].end_pos;
        let t686 = SejongToken::new(s687.as_str(), s688.as_str(), n689, n690);
        let mut nv691: Vec<SejongToken> = Vec::new();
        push_token(&mut nv691, t676);
        push_token(&mut nv691, t679);
        push_token(&mut nv691, t686);
        splice_tokens(tokens, i, 1, nv691);
        let _len1 = tokens.len();
        return i + 3;
    }
    if p131_c4_exec(tokens, i) {
        let s693 = owned("누가");
        let s694 = owned("NP");
        let mut t692 = tokens[i].duplicate();
        t692.surface = s693;
        t692.pos = s694;
        let s698 = tokens[i].surface.clone();
        let s697 = strip_prefix_exec(s698.as_str(), "누가");
        let s696 = strip_suffix_exec(s697.as_str(), "니");
        let s699 = owned("VV");
        let n700 = tokens[i].start_pos;
        let n701 = tokens[i].end_pos;
        let t695 = SejongToken::new(s696.as_str(), s699.as_str(), n700, n701);
        let s703 = owned("니");
        let s704 = owned("EF");
        let n705 = tokens[i].start_pos;
        let n706 = tokens[i].end_pos;
        let t702 = SejongToken::new(s703.as_str(), s704.as_str(), n705, n706);
        let mut nv707: Vec<SejongToken> = Vec::new();
        push_token(&mut nv707, t692);
        push_token(&mut nv707, t695);
        push_token(&mut nv707, t702);
        splice_tokens(tokens, i, 1, nv707);
        let _len1 = tokens.len();
        return i + 3;
    }
    if p131_c5_exec(tokens, i) {
        let s709 = owned("누구");
        let s710 = owned("NP");
        let mut t708 = tokens[i].duplicate();
        t708.surface = s709;
        t708.pos = s710;
        let s714 = tokens[i].surface.clone();
        let s713 = strip_prefix_exec(s714.as_str(), "누구");
        let s712 = strip_suffix_exec(s713.as_str(), "니");
        let s715 = owned("VV");
        let n716 = tokens[i].start_pos;
        let n717 = tokens[i].end_pos;
        let t711 = SejongToken::new(s712.as_str(), s715.as_str(), n716, n717);
        let s719 = owned("니");
        let s720 = owned("EF");
        let n721 = tokens[i].start_pos;
        let n722 = tokens[i].end_pos;
        let t718 = SejongToken::new(s719.as_str(), s720.as_str(), n721, n722);
        let mut nv723: Vec<SejongToken> = Vec::new();
        push_token(&mut nv723, t708);
        push_token(&mut nv723, t711);
        push_token(&mut nv723, t718);
        splice_tokens(tokens, i, 1, nv723);
        let _len1 = tokens.len();
        return i + 3;
    }
    i + 1
}

/// A proper noun made of an interrogative, a verb stem and 니 is split (뭐하니/NNP → 뭐/NP 하/VV 니/EF).
pub fn apply_p131(tokens: &mut Vec<SejongToken>)
    ensures
        tokens_view(final(tokens)@) == p131(tokens_view(old(tokens)@)),
{
    let ghost orig = tokens_view(tokens@);
    let mut i: usize = 0;
    while i < tokens.len()
        invariant
            i <= tokens@.len() + 1,
            scan(tokens_view(tokens@), i as int, p131_f()) == scan(orig, 0, p131_f()),
        decreases tokens@.len() + 1 - i,
    {
        let ghost before = tokens_view(tokens@);
        assert(before.len() == tokens@.len());
        i = p131_step_exec(tokens, i);
        assert(tokens_view(tokens@).len() == tokens@.len());
    }
}

/// Where rule 0 of [`p132`] applies.
pub open spec fn p132_c0(ts: Seq<TokenView>, i: int) -> bool {
    ((0 <= i < ts.len() && ts[i].pos == "NNG"@) && (0 <= i < ts.len() && ts[i].surface.len() == 2) && (0 <= i < ts.len() && (is_suffix("자"@, ts[i].surface) && seq!["가"@, "오"@, "보"@, "사"@, "자"@, "두"@, "주"@, "타"@, "서"@, "나"@, "하"@, "먹"@, "읽"@, "잡"@, "걷"@, "듣"@, "짓"@, "넣"@, "씻"@, "입"@, "웃"@].contains(strip_suffix(ts[i].surface, "자"@)))))
}

/// One step of [`p132`] at `i`: the list after it and the next position.
pub open spec fn p132_step(ts: Seq<TokenView>, i: int) -> (Seq<TokenView>, int) {
    if p132_c0(ts, i) {
        (splice(ts, i, 1, seq![TokenView { surface: strip_suffix(ts[i].surface, "자"@), pos: "VV"@, ..ts[i] }, plain_view("자"@, "EF"@, ts[i].start_pos, ts[i].end_pos)]), i + 2)
    } else {
        (ts, i + 1)
    }
}

/// [`p132_step`] as a function value.
pub open spec fn p132_f() -> spec_fn(Seq<TokenView>, int) -> (Seq<TokenView>, int) {
    |ts: Seq<TokenView>, i: int| p132_step(ts, i)
}

/// A two-syllable noun in 자 whose first syllable is a verb stem is the stem with the hortative 자/EF (가자/NNG → 가/VV 자/EF).
pub open spec fn p132(ts: Seq<TokenView>) -> Seq<TokenView> {
    scan(ts, 0, p132_f())
}

/// Whether rule 0 of [`p132`] applies at `i`.
fn p132_c0_exec(tokens: &Vec<SejongToken>, i: usize) -> (r: bool)
    requires
        i < tokens@.len(),
    ensures
        r == p132_c0(tokens_view(tokens@), i as int),
{
    assert(tokens_view(tokens@).len() == tokens@.len());
    let c724 = pos_is(&tokens[i], "NNG");
    let c725 = char_count(tokens[i].surface.as_str()) == 2;
    let l727: [&str; 21] = ["가", "오", "보", "사", "자", "두", "주", "타", "서", "나", "하", "먹", "읽", "잡", "걷", "듣", "짓", "넣", "씻", "입", "웃"];
    assert(crate::tag_map::strs_view(l727@) =~= seq!["가"@, "오"@, "보"@, "사"@, "자"@, "두"@, "주"@, "타"@, "서"@, "나"@, "하"@, "먹"@, "읽"@, "잡"@, "걷"@, "듣"@, "짓"@, "넣"@, "씻"@, "입"@, "웃"@]);
    let c726 = (surf_ends(&tokens[i], "자") && in_list(&l727, strip_suffix_exec(tokens[i].surface.as_str(), "자").as_str()));
    (c724 && c725 && c726)
}

/// One step of [`p132`] at `i`; returns the next position.
fn p132_step_exec(tokens: &mut Vec<SejongToken>, i: usize) -> (next: usize)
    requires
        i < old(tokens)@.len(),
    ensures
        (tokens_view(final(tokens)@), next as int) == p132_step(tokens_view(old(tokens)@), i as int),
        final(tokens)@.len() - next < old(tokens)@.len() - i,
        next <= final(tokens)@.len() + 1,
{
    let len0 = tokens.len();
    assert(tokens_view(tokens@).len() == tokens@.len());
    if p132_c0_exec(tokens, i) {
        let s730 = tokens[i].surface.clone();
        let s729 = strip_suffix_exec(s730.as_str(), "자");
        let s731 = owned("VV");
        let mut t728 = tokens[i].duplicate();
        t728.surface = s729;
        t728.pos = s731;
        let s733 = owned("자");
        let s734 = owned("EF");
        let n735 = tokens[i].start_pos;
        let n736 = tokens[i].end_pos;
        let t732 = SejongToken::new(s733.as_str(), s734.as_str(), n735, n736);
        let mut nv737: Vec<SejongToken> = Vec::new();
        push_token(&mut nv737, t728);
        push_token(&mut nv737, t732);
        splice_tokens(tokens, i, 1, nv737);
        let _len1 = tokens.len();
        return i + 2;
    }
    i + 1
}

/// A two-syllable noun in 자 whose first syllable is a verb stem is the stem with the hortative 자/EF (가자/NNG → 가/VV 자/EF).
pub fn apply_p132(tokens: &mut Vec<SejongToken>)
    ensures
        tokens_view(final(tokens)@) == p132(tokens_view(old(tokens)@)),
{
    let ghost orig = tokens_view(tokens@);
    let mut i: usize = 0;
    while i < tokens.len()
        invariant
            i <= tokens@.len() + 1,
            scan(tokens_view(tokens@), i as int, p132_f()) == scan(orig, 0, p132_f()),
        decreases tokens@.len() + 1 - i,
    {
        let ghost before = tokens_view(tokens@);
        assert(before.len() == tokens@.len());
        i = p132_step_exec(tokens, i);
        assert(tokens_view(tokens@).len() == tokens@.len());
    }
}

/// Compound connective endings, final endings, split proper nouns, hortative and interrogative forms.
pub open spec fn spec_apply_xsv_morpheme_split_corrections(ts: Seq<TokenView>) -> Seq<TokenView> {
    p132(p131(p130b(p130(p129(p127(p125(p122(p235(p120(p119(p116(p115(p126(p114(p113(ts))))))))))))))))
}

/// Compound connective endings, final endings, split proper nouns, hortative and interrogative forms.
pub fn apply_xsv_morpheme_split_corrections(tokens: &mut Vec<SejongToken>)
    ensures
        tokens_view(final(tokens)@) == spec_apply_xsv_morpheme_split_corrections(tokens_view(old(tokens)@)),
{
    apply_p113(tokens);
    apply_p114(tokens);
    apply_p126(tokens);
    apply_p115(tokens);
    apply_p116(tokens);
    apply_p119(tokens);
    apply_p120(tokens);
    apply_p235(tokens);
    apply_p122(tokens);
    apply_p125(tokens);
    apply_p127(tokens);
    apply_p129(tokens);
    apply_p130(tokens);
    apply_p130b(tokens);
    apply_p131(tokens);
    apply_p132(tokens);
}

/// [`p113`] leaves a list with no 는다, ㄴ다 or ᆫ다 tagged EC without one.
pub proof fn p113_keeps(ts0: Seq<TokenView>)
    requires
        none_bad(ts0, crate::corrections::sentence_final::nda_ec()),
    ensures
        none_bad(p113(ts0), crate::corrections::sentence_final::nda_ec()),
{
    assert forall|ts: Seq<TokenView>, i: int| 0 <= i < ts.len() && none_bad(ts, crate::corrections::sentence_final::nda_ec()) implies
        none_bad((#[trigger] p113_f()(ts, i)).0, crate::corrections::sentence_final::nda_ec()) by {
        reveal_strlit("EC");
        reveal_strlit("JKB");
        reveal_strlit("NP");
        reveal_strlit("VV");
        reveal_strlit("ᆫ다");
        reveal_strlit("ㄴ다");
        reveal_strlit("고");
        reveal_strlit("고나서");
        reveal_strlit("나");
        reveal_strlit("는다");
        reveal_strlit("서");
        assert(p113_f()(ts, i) == p113_step(ts, i));
        if p113_c0(ts, i) {
                let nw0 = seq![plain_view("고나서"@, "EC"@, ts[i].start_pos, ts[i + 2].end_pos)];
                assert forall|k: int| 0 <= k < nw0.len() implies !crate::corrections::sentence_final::nda_ec()(#[trigger] nw0[k]) by { if k == 0 { assert(nw0[0] == plain_view("고나서"@, "EC"@, ts[i].start_pos, ts[i + 2].end_pos)); assert(!crate::corrections::sentence_final::is_nda_ec(plain_view("고나서"@, "EC"@, ts[i].start_pos, ts[i + 2].end_pos))); } }
                let s0 = splice(ts, i, 3, nw0);
                lemma_splice_none_bad(ts, i, 3, nw0, crate::corrections::sentence_final::nda_ec());
            }
    }
    lemma_scan_none_bad(ts0, 0, p113_f(), crate::corrections::sentence_final::nda_ec());
}

/// [`p114`] leaves a list with no 는다, ㄴ다 or ᆫ다 tagged EC without one.
pub proof fn p114_keeps(ts: Seq<TokenView>)
    requires
        none_bad(ts, crate::corrections::sentence_final::nda_ec()),
    ensures
        none_bad(p114(ts), crate::corrections::sentence_final::nda_ec()),
{
    assert forall|j: int| 0 <= j < p114(ts).len() implies !crate::corrections::sentence_final::nda_ec()(#[trigger] p114(ts)[j]) by {
        reveal_strlit("EC");
        reveal_strlit("EF");
        reveal_strlit("ᆫ다");
        reveal_strlit("ㄴ다");
        reveal_strlit("는다");
        reveal_strlit("니");
        reveal_strlit("니까");
        reveal_strlit("며");
        reveal_strlit("면서");
        reveal_strlit("아서");
        reveal_strlit("어서");
        reveal_strlit("으니");
        reveal_strlit("으니까");
        reveal_strlit("으며");
        reveal_strlit("으면서");
        assert(p114(ts)[j] == (if p114_c(ts, j) { p114_t(ts, j) } else { ts[j] }));
        if p114_c(ts, j) {
            assert(!crate::corrections::sentence_final::is_nda_ec(p114_t(ts, j)));
        } else {
            assert(!crate::corrections::sentence_final::nda_ec()(ts[j]));
        }
    }
}

/// [`p126`] leaves a list with no 는다, ㄴ다 or ᆫ다 tagged EC without one.
pub proof fn p126_keeps(ts: Seq<TokenView>)
    requires
        none_bad(ts, crate::corrections::sentence_final::nda_ec()),
    ensures
        none_bad(p126(ts), crate::corrections::sentence_final::nda_ec()),
{
    assert forall|j: int| 0 <= j < p126(ts).len() implies !crate::corrections::sentence_final::nda_ec()(#[trigger] p126(ts)[j]) by {
        reveal_strlit("EC");
        reveal_strlit("EF");
        reveal_strlit("VX");
        reveal_strlit("ᆫ다");
        reveal_strlit("ㄴ다");
        reveal_strlit("는다");
        reveal_strlit("아");
        reveal_strlit("어");
        reveal_strlit("여");
        assert(p126(ts)[j] == (if p126_c(ts, j) { p126_t(ts, j) } else { ts[j] }));
        if p126_c(ts, j) {
            assert(!crate::corrections::sentence_final::is_nda_ec(p126_t(ts, j)));
        } else {
            assert(!crate::corrections::sentence_final::nda_ec()(ts[j]));
        }
    }
}

/// [`p115`] leaves a list with no 는다, ㄴ다 or ᆫ다 tagged EC without one.
pub proof fn p115_keeps(ts0: Seq<TokenView>)
    requires
        none_bad(ts0, crate::corrections::sentence_final::nda_ec()),
    ensures
        none_bad(p115(ts0), crate::corrections::sentence_final::nda_ec()),
{
    assert forall|ts: Seq<TokenView>, i: int| 0 <= i < ts.len() && none_bad(ts, crate::corrections::sentence_final::nda_ec()) implies
        none_bad((#[trigger] p115_f()(ts, i)).0, crate::corrections::sentence_final::nda_ec()) by {
        reveal_strlit("EC");
        reveal_strlit("NNG");
        reveal_strlit("VCP");
        reveal_strlit("VV");
        reveal_strlit("ᆫ다");
        reveal_strlit("ㄴ다");
        reveal_strlit("갈이");
        reveal_strlit("꺾이");
        reveal_strlit("놓이");
        reveal_strlit("는다");
        reveal_strlit("덮이");
        reveal_strlit("들이");
        reveal_strlit("보이");
        reveal_strlit("붙이");
        reveal_strlit("쓰이");
        reveal_strlit("이");
        assert(p115_f()(ts, i) == p115_step(ts, i));
        if p115_c0(ts, i) {
                let nw0 = seq![TokenView { pos: "VV"@, ..ts[i] }];
                assert forall|k: int| 0 <= k < nw0.len() implies !crate::corrections::sentence_final::nda_ec()(#[trigger] nw0[k]) by { if k == 0 { assert(nw0[0] == TokenView { pos: "VV"@, ..ts[i] }); assert(!crate::corrections::sentence_final::is_nda_ec(TokenView { pos: "VV"@, ..ts[i] })); } }
                let s0 = splice(ts, i, 2, nw0);
                lemma_splice_none_bad(ts, i, 2, nw0, crate::corrections::sentence_final::nda_ec());
            }
    }
    lemma_scan_none_bad(ts0, 0, p115_f(), crate::corrections::sentence_final::nda_ec());
}

/// [`p116`] leaves a list with no 는다, ㄴ다 or ᆫ다 tagged EC without one.
pub proof fn p116_keeps(ts: Seq<TokenView>)
    requires
        none_bad(ts, crate::corrections::sentence_final::nda_ec()),
    ensures
        none_bad(p116(ts), crate::corrections::sentence_final::nda_ec()),
{
    assert forall|j: int| 0 <= j < p116(ts).len() implies !crate::corrections::sentence_final::nda_ec()(#[trigger] p116(ts)[j]) by {
        reveal_strlit("EC");
        reveal_strlit("VV");
        reveal_strlit("VV+");
        reveal_strlit("VX");
        reveal_strlit("ᆫ다");
        reveal_strlit("ㄴ다");
        reveal_strlit("는다");
        reveal_strlit("주");
        reveal_strlit("준");
        assert(p116(ts)[j] == (if p116_c(ts, j) { p116_t(ts, j) } else { ts[j] }));
        if p116_c(ts, j) {
            assert(!crate::corrections::sentence_final::is_nda_ec(p116_t(ts, j)));
        } else {
            assert(!crate::corrections::sentence_final::nda_ec()(ts[j]));
        }
    }
}

/// [`p119`] leaves a list with no 는다, ㄴ다 or ᆫ다 tagged EC without one.
pub proof fn p119_keeps(ts: Seq<TokenView>)
    requires
        none_bad(ts, crate::corrections::sentence_final::nda_ec()),
    ensures
        none_bad(p119(ts), crate::corrections::sentence_final::nda_ec()),
{
    assert forall|k: int| 0 <= k < ts.len() && #[trigger] p119_cf()(ts, k) implies none_bad(p119_tf()(ts, k), crate::corrections::sentence_final::nda_ec()) by {
        reveal_strlit("EC");
        reveal_strlit("EF");
        reveal_strlit("NNG");
        reveal_strlit("NNP");
        reveal_strlit("VCP");
        reveal_strlit("ᆫ다");
        reveal_strlit("ㄴ다");
        reveal_strlit("는다");
        reveal_strlit("다");
        reveal_strlit("이");
        let nw = p119_t(ts, k);
        assert forall|q: int| 0 <= q < nw.len() implies !crate::corrections::sentence_final::nda_ec()(#[trigger] nw[q]) by {
            assert(!crate::corrections::sentence_final::is_nda_ec(nw[q]));
        }
    }
    lemma_expand_where_none_bad(ts, p119_cf(), p119_tf(), crate::corrections::sentence_final::nda_ec());
}

/// [`p120`] leaves a list with no 는다, ㄴ다 or ᆫ다 tagged EC without one.
pub proof fn p120_keeps(ts0: Seq<TokenView>)
    requires
        none_bad(ts0, crate::corrections::sentence_final::nda_ec()),
    ensures
        none_bad(p120(ts0), crate::corrections::sentence_final::nda_ec()),
{
    assert forall|ts: Seq<TokenView>, i: int| 0 <= i < ts.len() && none_bad(ts, crate::corrections::sentence_final::nda_ec()) implies
        none_bad((#[trigger] p120_f()(ts, i)).0, crate::corrections::sentence_final::nda_ec()) by {
        reveal_strlit("EC");
        reveal_strlit("EF");
        reveal_strlit("JX");
        reveal_strlit("NNG");
        reveal_strlit("VCP");
        reveal_strlit("VV");
        reveal_strlit("ᆫ다");
        reveal_strlit("ㄴ다");
        reveal_strlit("는다");
        reveal_strlit("별로");
        reveal_strlit("아요");
        reveal_strlit("오");
        reveal_strlit("요");
        reveal_strlit("이");
        reveal_strlit("정말");
        reveal_strlit("진짜");
        assert(p120_f()(ts, i) == p120_step(ts, i));
        if p120_c0(ts, i) {
                let nw0 = seq![plain_view("요"@, "JX"@, ts[i + 1].start_pos, ts[i + 2].end_pos)];
                assert forall|k: int| 0 <= k < nw0.len() implies !crate::corrections::sentence_final::nda_ec()(#[trigger] nw0[k]) by { if k == 0 { assert(nw0[0] == plain_view("요"@, "JX"@, ts[i + 1].start_pos, ts[i + 2].end_pos)); assert(!crate::corrections::sentence_final::is_nda_ec(plain_view("요"@, "JX"@, ts[i + 1].start_pos, ts[i + 2].end_pos))); } }
                let s0 = splice(ts, i + 1, 2, nw0);
                lemma_splice_none_bad(ts, i + 1, 2, nw0, crate::corrections::sentence_final::nda_ec());
            } else if p120_c1(ts, i) {
                let nw0 = seq![TokenView { pos: "VV"@, ..ts[i] }, plain_view("아요"@, "EF"@, ts[i + 1].start_pos, ts[i + 2].end_pos)];
                assert forall|k: int| 0 <= k < nw0.len() implies !crate::corrections::sentence_final::nda_ec()(#[trigger] nw0[k]) by { if k == 0 { assert(nw0[0] == TokenView { pos: "VV"@, ..ts[i] }); assert(!crate::corrections::sentence_final::is_nda_ec(TokenView { pos: "VV"@, ..ts[i] })); } else if k == 1 { assert(nw0[1] == plain_view("아요"@, "EF"@, ts[i + 1].start_pos, ts[i + 2].end_pos)); assert(!crate::corrections::sentence_final::is_nda_ec(plain_view("아요"@, "EF"@, ts[i + 1].start_pos, ts[i + 2].end_pos))); } }
                let s0 = splice(ts, i, 3, nw0);
                lemma_splice_none_bad(ts, i, 3, nw0, crate::corrections::sentence_final::nda_ec());
            }
    }
    lemma_scan_none_bad(ts0, 0, p120_f(), crate::corrections::sentence_final::nda_ec());
}

/// [`p235`] leaves a list with no 는다, ㄴ다 or ᆫ다 tagged EC without one.
pub proof fn p235_keeps(ts0: Seq<TokenView>)
    requires
        none_bad(ts0, crate::corrections::sentence_final::nda_ec()),
    ensures
        none_bad(p235(ts0), crate::corrections::sentence_final::nda_ec()),
{
    assert forall|ts: Seq<TokenView>, i: int| 0 <= i < ts.len() && none_bad(ts, crate::corrections::sentence_final::nda_ec()) implies
        none_bad((#[trigger] p235_f()(ts, i)).0, crate::corrections::sentence_final::nda_ec()) by {
        reveal_strlit("EC");
        reveal_strlit("EF");
        reveal_strlit("NP");
        reveal_strlit("VCP");
        reveal_strlit("VV");
        reveal_strlit("ᆫ다");
        reveal_strlit("ㄴ다");
        reveal_strlit("는다");
        reveal_strlit("아요");
        reveal_strlit("에요");
        reveal_strlit("예");
        reveal_strlit("이");
        assert(p235_f()(ts, i) == p235_step(ts, i));
        if p235_c0(ts, i) {
                assert(!crate::corrections::sentence_final::is_nda_ec(plain_view("이"@, "VCP"@, ts[i].start_pos, ts[i].end_pos)));
                let s0 = ts.update(i, plain_view("이"@, "VCP"@, ts[i].start_pos, ts[i].end_pos));
                lemma_update_none_bad(ts, i, plain_view("이"@, "VCP"@, ts[i].start_pos, ts[i].end_pos), crate::corrections::sentence_final::nda_ec());
                assert(!crate::corrections::sentence_final::is_nda_ec(plain_view("에요"@, "EF"@, ts[i + 1].start_pos, ts[i + 1].end_pos)));
                let s1 = s0.update(i + 1, plain_view("에요"@, "EF"@, ts[i + 1].start_pos, ts[i + 1].end_pos));
                lemma_update_none_bad(s0, i + 1, plain_view("에요"@, "EF"@, ts[i + 1].start_pos, ts[i + 1].end_pos), crate::corrections::sentence_final::nda_ec());
            }
    }
    lemma_scan_none_bad(ts0, 0, p235_f(), crate::corrections::sentence_final::nda_ec());
}

/// [`p122`] leaves a list with no 는다, ㄴ다 or ᆫ다 tagged EC without one.
pub proof fn p122_keeps(ts: Seq<TokenView>)
    requires
        none_bad(ts, crate::corrections::sentence_final::nda_ec()),
    ensures
        none_bad(p122(ts), crate::corrections::sentence_final::nda_ec()),
{
    assert forall|j: int| 0 <= j < p122(ts).len() implies !crate::corrections::sentence_final::nda_ec()(#[trigger] p122(ts)[j]) by {
        reveal_strlit("EC");
        reveal_strlit("EF");
        reveal_strlit("ᆫ다");
        reveal_strlit("ᆯ래요");
        reveal_strlit("ㄴ다");
        reveal_strlit("ㄹ래요");
        reveal_strlit("는다");
        assert(p122(ts)[j] == (if p122_c(ts, j) { p122_t(ts, j) } else { ts[j] }));
        if p122_c(ts, j) {
            assert(!crate::corrections::sentence_final::is_nda_ec(p122_t(ts, j)));
        } else {
            assert(!crate::corrections::sentence_final::nda_ec()(ts[j]));
        }
    }
}

/// [`p125`] leaves a list with no 는다, ㄴ다 or ᆫ다 tagged EC without one.
pub proof fn p125_keeps(ts: Seq<TokenView>)
    requires
        none_bad(ts, crate::corrections::sentence_final::nda_ec()),
    ensures
        none_bad(p125(ts), crate::corrections::sentence_final::nda_ec()),
{
    assert forall|j: int| 0 <= j < p125(ts).len() implies !crate::corrections::sentence_final::nda_ec()(#[trigger] p125(ts)[j]) by {
        reveal_strlit("EC");
        reveal_strlit("EF");
        reveal_strlit("ᆫ다");
        reveal_strlit("ᆯ까요");
        reveal_strlit("ㄴ다");
        reveal_strlit("ㄹ까요");
        reveal_strlit("는다");
        assert(p125(ts)[j] == (if p125_c(ts, j) { p125_t(ts, j) } else { ts[j] }));
        if p125_c(ts, j) {
            assert(!crate::corrections::sentence_final::is_nda_ec(p125_t(ts, j)));
        } else {
            assert(!crate::corrections::sentence_final::nda_ec()(ts[j]));
        }
    }
}

/// [`p127`] leaves a list with no 는다, ㄴ다 or ᆫ다 tagged EC without one.
pub proof fn p127_keeps(ts0: Seq<TokenView>)
    requires
        none_bad(ts0, crate::corrections::sentence_final::nda_ec()),
    ensures
        none_bad(p127(ts0), crate::corrections::sentence_final::nda_ec()),
{
    assert forall|ts: Seq<TokenView>, i: int| 0 <= i < ts.len() && none_bad(ts, crate::corrections::sentence_final::nda_ec()) implies
        none_bad((#[trigger] p127_f()(ts, i)).0, crate::corrections::sentence_final::nda_ec()) by {
        reveal_strlit("EC");
        reveal_strlit("EF");
        reveal_strlit("NNP");
        reveal_strlit("VA");
        reveal_strlit("ᆫ다");
        reveal_strlit("ㄴ다");
        reveal_strlit("가볍");
        reveal_strlit("귀엽");
        reveal_strlit("길");
        reveal_strlit("낮");
        reveal_strlit("넓");
        reveal_strlit("높");
        reveal_strlit("느리");
        reveal_strlit("는다");
        reveal_strlit("다");
        reveal_strlit("덥");
        reveal_strlit("두껍");
        reveal_strlit("따뜻하");
        reveal_strlit("뜨겁");
        reveal_strlit("멋지");
        reveal_strlit("못생기");
        reveal_strlit("무겁");
        reveal_strlit("밝");
        reveal_strlit("빠르");
        reveal_strlit("시원하");
        reveal_strlit("아름답");
        reveal_strlit("얇");
        reveal_strlit("어두");
        reveal_strlit("예쁘");
        reveal_strlit("작");
        reveal_strlit("좁");
        reveal_strlit("짧");
        reveal_strlit("차갑");
        reveal_strlit("춥");
        reveal_strlit("크");
        assert(p127_f()(ts, i) == p127_step(ts, i));
        if p127_c0(ts, i) {
                let nw0 = seq![TokenView { surface: strip_suffix(ts[i].surface, "다"@), pos: "VA"@, ..ts[i] }, plain_view("다"@, "EF"@, ts[i].start_pos, ts[i].end_pos)];
                assert forall|k: int| 0 <= k < nw0.len() implies !crate::corrections::sentence_final::nda_ec()(#[trigger] nw0[k]) by { if k == 0 { assert(nw0[0] == TokenView { surface: strip_suffix(ts[i].surface, "다"@), pos: "VA"@, ..ts[i] }); assert(!crate::corrections::sentence_final::is_nda_ec(TokenView { surface: strip_suffix(ts[i].surface, "다"@), pos: "VA"@, ..ts[i] })); } else if k == 1 { assert(nw0[1] == plain_view("다"@, "EF"@, ts[i].start_pos, ts[i].end_pos)); assert(!crate::corrections::sentence_final::is_nda_ec(plain_view("다"@, "EF"@, ts[i].start_pos, ts[i].end_pos))); } }
                let s0 = splice(ts, i, 1, nw0);
                lemma_splice_none_bad(ts, i, 1, nw0, crate::corrections::sentence_final::nda_ec());
            }
    }
    lemma_scan_none_bad(ts0, 0, p127_f(), crate::corrections::sentence_final::nda_ec());
}

/// [`p129`] leaves a list with no 는다, ㄴ다 or ᆫ다 tagged EC without one.
pub proof fn p129_keeps(ts: Seq<TokenView>)
    requires
        none_bad(ts, crate::corrections::sentence_final::nda_ec()),
    ensures
        none_bad(p129(ts), crate::corrections::sentence_final::nda_ec()),
{
    assert forall|j: int| 0 <= j < p129(ts).len() implies !crate::corrections::sentence_final::nda_ec()(#[trigger] p129(ts)[j]) by {
        reveal_strlit("EC");
        reveal_strlit("NNG");
        reveal_strlit("NNP");
        reveal_strlit("ᆫ다");
        reveal_strlit("ㄴ다");
        reveal_strlit("네트워크");
        reveal_strlit("는다");
        reveal_strlit("데이터베이스");
        reveal_strlit("딥러닝");
        reveal_strlit("머신러닝");
        reveal_strlit("빅데이터");
        reveal_strlit("서버");
        reveal_strlit("소프트웨어");
        reveal_strlit("알고리즘");
        reveal_strlit("인공지능");
        reveal_strlit("인터넷");
        reveal_strlit("컴퓨터");
        reveal_strlit("클라우드");
        reveal_strlit("클라이언트");
        reveal_strlit("프로그램");
        reveal_strlit("하드웨어");
        assert(p129(ts)[j] == (if p129_c(ts, j) { p129_t(ts, j) } else { ts[j] }));
        if p129_c(ts, j) {
            assert(!crate::corrections::sentence_final::is_nda_ec(p129_t(ts, j)));
        } else {
            assert(!crate::corrections::sentence_final::nda_ec()(ts[j]));
        }
    }
}

/// [`p130`] leaves a list with no 는다, ㄴ다 or ᆫ다 tagged EC without one.
pub proof fn p130_keeps(ts0: Seq<TokenView>)
    requires
        none_bad(ts0, crate::corrections::sentence_final::nda_ec()),
    ensures
        none_bad(p130(ts0), crate::corrections::sentence_final::nda_ec()),
{
    assert forall|ts: Seq<TokenView>, i: int| 0 <= i < ts.len() && none_bad(ts, crate::corrections::sentence_final::nda_ec()) implies
        none_bad((#[trigger] p130_f()(ts, i)).0, crate::corrections::sentence_final::nda_ec()) by {
        reveal_strlit("EC");
        reveal_strlit("EF");
        reveal_strlit("JKS");
        reveal_strlit("NP");
        reveal_strlit("VV");
        reveal_strlit("ᆫ다");
        reveal_strlit("ㄴ다");
        reveal_strlit("가");
        reveal_strlit("누구");
        reveal_strlit("는다");
        reveal_strlit("니");
        reveal_strlit("무엇");
        reveal_strlit("뭐");
        reveal_strlit("어느");
        reveal_strlit("어디");
        reveal_strlit("어떻게");
        reveal_strlit("언제");
        reveal_strlit("왜");
        assert(p130_f()(ts, i) == p130_step(ts, i));
        if p130_c0(ts, i) {
                assert(!crate::corrections::sentence_final::is_nda_ec(TokenView { pos: "VV"@, ..ts[i + 1] }));
                let s0 = ts.update(i + 1, TokenView { pos: "VV"@, ..ts[i + 1] });
                lemma_update_none_bad(ts, i + 1, TokenView { pos: "VV"@, ..ts[i + 1] }, crate::corrections::sentence_final::nda_ec());
                assert(!crate::corrections::sentence_final::is_nda_ec(TokenView { pos: "EF"@, ..ts[i + 2] }));
                let s1 = s0.update(i + 2, TokenView { pos: "EF"@, ..ts[i + 2] });
                lemma_update_none_bad(s0, i + 2, TokenView { pos: "EF"@, ..ts[i + 2] }, crate::corrections::sentence_final::nda_ec());
            }
    }
    lemma_scan_none_bad(ts0, 0, p130_f(), crate::corrections::sentence_final::nda_ec());
}

/// [`p130b`] leaves a list with no 는다, ㄴ다 or ᆫ다 tagged EC without one.
pub proof fn p130b_keeps(ts0: Seq<TokenView>)
    requires
        none_bad(ts0, crate::corrections::sentence_final::nda_ec()),
    ensures
        none_bad(p130b(ts0), crate::corrections::sentence_final::nda_ec()),
{
    assert forall|ts: Seq<TokenView>, i: int| 0 <= i < ts.len() && none_bad(ts, crate::corrections::sentence_final::nda_ec()) implies
        none_bad((#[trigger] p130b_f()(ts, i)).0, crate::corrections::sentence_final::nda_ec()) by {
        reveal_strlit("EC");
        reveal_strlit("EF");
        reveal_strlit("NNG");
        reveal_strlit("NNP");
        reveal_strlit("NP");
        reveal_strlit("VV");
        reveal_strlit("ᆫ다");
        reveal_strlit("ㄴ다");
        reveal_strlit("누구");
        reveal_strlit("는다");
        reveal_strlit("니");
        reveal_strlit("무엇");
        reveal_strlit("뭐");
        reveal_strlit("어느");
        reveal_strlit("어디");
        reveal_strlit("어떻게");
        reveal_strlit("언제");
        reveal_strlit("왜");
        assert(p130b_f()(ts, i) == p130b_step(ts, i));
        if p130b_c0(ts, i) {
                let nw0 = seq![TokenView { surface: strip_suffix(ts[i + 1].surface, "니"@), pos: "VV"@, ..ts[i + 1] }, plain_view("니"@, "EF"@, ts[i + 1].start_pos, ts[i + 1].end_pos)];
                assert forall|k: int| 0 <= k < nw0.len() implies !crate::corrections::sentence_final::nda_ec()(#[trigger] nw0[k]) by { if k == 0 { assert(nw0[0] == TokenView { surface: strip_suffix(ts[i + 1].surface, "니"@), pos: "VV"@, ..ts[i + 1] }); assert(!crate::corrections::sentence_final::is_nda_ec(TokenView { surface: strip_suffix(ts[i + 1].surface, "니"@), pos: "VV"@, ..ts[i + 1] })); } else if k == 1 { assert(nw0[1] == plain_view("니"@, "EF"@, ts[i + 1].start_pos, ts[i + 1].end_pos)); assert(!crate::corrections::sentence_final::is_nda_ec(plain_view("니"@, "EF"@, ts[i + 1].start_pos, ts[i + 1].end_pos))); } }
                let s0 = splice(ts, i + 1, 1, nw0);
                lemma_splice_none_bad(ts, i + 1, 1, nw0, crate::corrections::sentence_final::nda_ec());
            }
    }
    lemma_scan_none_bad(ts0, 0, p130b_f(), crate::corrections::sentence_final::nda_ec());
}

/// [`p131`] leaves a list with no 는다, ㄴ다 or ᆫ다 tagged EC without one.
pub proof fn p131_keeps(ts0: Seq<TokenView>)
    requires
        none_bad(ts0, crate::corrections::sentence_final::nda_ec()),
    ensures
        none_bad(p131(ts0), crate::corrections::sentence_final::nda_ec()),
{
    assert forall|ts: Seq<TokenView>, i: int| 0 <= i < ts.len() && none_bad(ts, crate::corrections::sentence_final::nda_ec()) implies
        none_bad((#[trigger] p131_f()(ts, i)).0, crate::corrections::sentence_final::nda_ec()) by {
        reveal_strlit("EC");
        reveal_strlit("EF");
        reveal_strlit("NNP");
        reveal_strlit("NP");
        reveal_strlit("VV");
        reveal_strlit("ᆫ다");
        reveal_strlit("ㄴ다");
        reveal_strlit("누가");
        reveal_strlit("누구");
        reveal_strlit("는다");
        reveal_strlit("니");
        reveal_strlit("뭐");
        reveal_strlit("뭘");
        reveal_strlit("어디");
        reveal_strlit("언제");
        assert(p131_f()(ts, i) == p131_step(ts, i));
        if p131_c0(ts, i) {
                let nw0 = seq![TokenView { surface: "뭐"@, pos: "NP"@, ..ts[i] }, plain_view(strip_suffix(strip_prefix(ts[i].surface, "뭐"@), "니"@), "VV"@, ts[i].start_pos, ts[i].end_pos), plain_view("니"@, "EF"@, ts[i].start_pos, ts[i].end_pos)];
                assert forall|k: int| 0 <= k < nw0.len() implies !crate::corrections::sentence_final::nda_ec()(#[trigger] nw0[k]) by { if k == 0 { assert(nw0[0] == TokenView { surface: "뭐"@, pos: "NP"@, ..ts[i] }); assert(!crate::corrections::sentence_final::is_nda_ec(TokenView { surface: "뭐"@, pos: "NP"@, ..ts[i] })); } else if k == 1 { assert(nw0[1] == plain_view(strip_suffix(strip_prefix(ts[i].surface, "뭐"@), "니"@), "VV"@, ts[i].start_pos, ts[i].end_pos)); assert(!crate::corrections::sentence_final::is_nda_ec(plain_view(strip_suffix(strip_prefix(ts[i].surface, "뭐"@), "니"@), "VV"@, ts[i].start_pos, ts[i].end_pos))); } else if k == 2 { assert(nw0[2] == plain_view("니"@, "EF"@, ts[i].start_pos, ts[i].end_pos)); assert(!crate::corrections::sentence_final::is_nda_ec(plain_view("니"@, "EF"@, ts[i].start_pos, ts[i].end_pos))); } }
                let s0 = splice(ts, i, 1, nw0);
                lemma_splice_none_bad(ts, i, 1, nw0, crate::corrections::sentence_final::nda_ec());
            } else if p131_c1(ts, i) {
                let nw0 = seq![TokenView { surface: "뭘"@, pos: "NP"@, ..ts[i] }, plain_view(strip_suffix(strip_prefix(ts[i].surface, "뭘"@), "니"@), "VV"@, ts[i].start_pos, ts[i].end_pos), plain_view("니"@, "EF"@, ts[i].start_pos, ts[i].end_pos)];
                assert forall|k: int| 0 <= k < nw0.len() implies !crate::corrections::sentence_final::nda_ec()(#[trigger] nw0[k]) by { if k == 0 { assert(nw0[0] == TokenView { surface: "뭘"@, pos: "NP"@, ..ts[i] }); assert(!crate::corrections::sentence_final::is_nda_ec(TokenView { surface: "뭘"@, pos: "NP"@, ..ts[i] })); } else if k == 1 { assert(nw0[1] == plain_view(strip_suffix(strip_prefix(ts[i].surface, "뭘"@), "니"@), "VV"@, ts[i].start_pos, ts[i].end_pos)); assert(!crate::corrections::sentence_final::is_nda_ec(plain_view(strip_suffix(strip_prefix(ts[i].surface, "뭘"@), "니"@), "VV"@, ts[i].start_pos, ts[i].end_pos))); } else if k == 2 { assert(nw0[2] == plain_view("니"@, "EF"@, ts[i].start_pos, ts[i].end_pos)); assert(!crate::corrections::sentence_final::is_nda_ec(plain_view("니"@, "EF"@, ts[i].start_pos, ts[i].end_pos))); } }
                let s0 = splice(ts, i, 1, nw0);
                lemma_splice_none_bad(ts, i, 1, nw0, crate::corrections::sentence_final::nda_ec());
            } else if p131_c2(ts, i) {
                let nw0 = seq![TokenView { surface: "언제"@, pos: "NP"@, ..ts[i] }, plain_view(strip_suffix(strip_prefix(ts[i].surface, "언제"@), "니"@), "VV"@, ts[i].start_pos, ts[i].end_pos), plain_view("니"@, "EF"@, ts[i].start_pos, ts[i].end_pos)];
                assert forall|k: int| 0 <= k < nw0.len() implies !crate::corrections::sentence_final::nda_ec()(#[trigger] nw0[k]) by { if k == 0 { assert(nw0[0] == TokenView { surface: "언제"@, pos: "NP"@, ..ts[i] }); assert(!crate::corrections::sentence_final::is_nda_ec(TokenView { surface: "언제"@, pos: "NP"@, ..ts[i] })); } else if k == 1 { assert(nw0[1] == plain_view(strip_suffix(strip_prefix(ts[i].surface, "언제"@), "니"@), "VV"@, ts[i].start_pos, ts[i].end_pos)); assert(!crate::corrections::sentence_final::is_nda_ec(plain_view(strip_suffix(strip_prefix(ts[i].surface, "언제"@), "니"@), "VV"@, ts[i].start_pos, ts[i].end_pos))); } else if k == 2 { assert(nw0[2] == plain_view("니"@, "EF"@, ts[i].start_pos, ts[i].end_pos)); assert(!crate::corrections::sentence_final::is_nda_ec(plain_view("니"@, "EF"@, ts[i].start_pos, ts[i].end_pos))); } }
                let s0 = splice(ts, i, 1, nw0);
                lemma_splice_none_bad(ts, i, 1, nw0, crate::corrections::sentence_final::nda_ec());
            } else if p131_c3(ts, i) {
                let nw0 = seq![TokenView { surface: "어디"@, pos: "NP"@, ..ts[i] }, plain_view(strip_suffix(strip_prefix(ts[i].surface, "어디"@), "니"@), "VV"@, ts[i].start_pos, ts[i].end_pos), plain_view("니"@, "EF"@, ts[i].start_pos, ts[i].end_pos)];
                assert forall|k: int| 0 <= k < nw0.len() implies !crate::corrections::sentence_final::nda_ec()(#[trigger] nw0[k]) by { if k == 0 { assert(nw0[0] == TokenView { surface: "어디"@, pos: "NP"@, ..ts[i] }); assert(!crate::corrections::sentence_final::is_nda_ec(TokenView { surface: "어디"@, pos: "NP"@, ..ts[i] })); } else if k == 1 { assert(nw0[1] == plain_view(strip_suffix(strip_prefix(ts[i].surface, "어디"@), "니"@), "VV"@, ts[i].start_pos, ts[i].end_pos)); assert(!crate::corrections::sentence_final::is_nda_ec(plain_view(strip_suffix(strip_prefix(ts[i].surface, "어디"@), "니"@), "VV"@, ts[i].start_pos, ts[i].end_pos))); } else if k == 2 { assert(nw0[2] == plain_view("니"@, "EF"@, ts[i].start_pos, ts[i].end_pos)); assert(!crate::corrections::sentence_final::is_nda_ec(plain_view("니"@, "EF"@, ts[i].start_pos, ts[i].end_pos))); } }
                let s0 = splice(ts, i, 1, nw0);
                lemma_splice_none_bad(ts, i, 1, nw0, crate::corrections::sentence_final::nda_ec());
            } else if p131_c4(ts, i) {
                let nw0 = seq![TokenView { surface: "누가"@, pos: "NP"@, ..ts[i] }, plain_view(strip_suffix(strip_prefix(ts[i].surface, "누가"@), "니"@), "VV"@, ts[i].start_pos, ts[i].end_pos), plain_view("니"@, "EF"@, ts[i].start_pos, ts[i].end_pos)];
                assert forall|k: int| 0 <= k < nw0.len() implies !crate::corrections::sentence_final::nda_ec()(#[trigger] nw0[k]) by { if k == 0 { assert(nw0[0] == TokenView { surface: "누가"@, pos: "NP"@, ..ts[i] }); assert(!crate::corrections::sentence_final::is_nda_ec(TokenView { surface: "누가"@, pos: "NP"@, ..ts[i] })); } else if k == 1 { assert(nw0[1] == plain_view(strip_suffix(strip_prefix(ts[i].surface, "누가"@), "니"@), "VV"@, ts[i].start_pos, ts[i].end_pos)); assert(!crate::corrections::sentence_final::is_nda_ec(plain_view(strip_suffix(strip_prefix(ts[i].surface, "누가"@), "니"@), "VV"@, ts[i].start_pos, ts[i].end_pos))); } else if k == 2 { assert(nw0[2] == plain_view("니"@, "EF"@, ts[i].start_pos, ts[i].end_pos)); assert(!crate::corrections::sentence_final::is_nda_ec(plain_view("니"@, "EF"@, ts[i].start_pos, ts[i].end_pos))); } }
                let s0 = splice(ts, i, 1, nw0);
                lemma_splice_none_bad(ts, i, 1, nw0, crate::corrections::sentence_final::nda_ec());
            } else if p131_c5(ts, i) {
                let nw0 = seq![TokenView { surface: "누구"@, pos: "NP"@, ..ts[i] }, plain_view(strip_suffix(strip_prefix(ts[i].surface, "누구"@), "니"@), "VV"@, ts[i].start_pos, ts[i].end_pos), plain_view("니"@, "EF"@, ts[i].start_pos, ts[i].end_pos)];
                assert forall|k: int| 0 <= k < nw0.len() implies !crate::corrections::sentence_final::nda_ec()(#[trigger] nw0[k]) by { if k == 0 { assert(nw0[0] == TokenView { surface: "누구"@, pos: "NP"@, ..ts[i] }); assert(!crate::corrections::sentence_final::is_nda_ec(TokenView { surface: "누구"@, pos: "NP"@, ..ts[i] })); } else if k == 1 { assert(nw0[1] == plain_view(strip_suffix(strip_prefix(ts[i].surface, "누구"@), "니"@), "VV"@, ts[i].start_pos, ts[i].end_pos)); assert(!crate::corrections::sentence_final::is_nda_ec(plain_view(strip_suffix(strip_prefix(ts[i].surface, "누구"@), "니"@), "VV"@, ts[i].start_pos, ts[i].end_pos))); } else if k == 2 { assert(nw0[2] == plain_view("니"@, "EF"@, ts[i].start_pos, ts[i].end_pos)); assert(!crate::corrections::sentence_final::is_nda_ec(plain_view("니"@, "EF"@, ts[i].start_pos, ts[i].end_pos))); } }
                let s0 = splice(ts, i, 1, nw0);
                lemma_splice_none_bad(ts, i, 1, nw0, crate::corrections::sentence_final::nda_ec());
            }
    }
    lemma_scan_none_bad(ts0, 0, p131_f(), crate::corrections::sentence_final::nda_ec());
}

/// [`p132`] leaves a list with no 는다, ㄴ다 or ᆫ다 tagged EC without one.
pub proof fn p132_keeps(ts0: Seq<TokenView>)
    requires
        none_bad(ts0, crate::corrections::sentence_final::nda_ec()),
    ensures
        none_bad(p132(ts0), crate::corrections::sentence_final::nda_ec()),
{
    assert forall|ts: Seq<TokenView>, i: int| 0 <= i < ts.len() && none_bad(ts, crate::corrections::sentence_final::nda_ec()) implies
        none_bad((#[trigger] p132_f()(ts, i)).0, crate::corrections::sentence_final::nda_ec()) by {
        reveal_strlit("EC");
        reveal_strlit("EF");
        reveal_strlit("NNG");
        reveal_strlit("VV");
        reveal_strlit("ᆫ다");
        reveal_strlit("ㄴ다");
        reveal_strlit("가");
        reveal_strlit("걷");
        reveal_strlit("나");
        reveal_strlit("넣");
        reveal_strlit("는다");
        reveal_strlit("두");
        reveal_strlit("듣");
        reveal_strlit("먹");
        reveal_strlit("보");
        reveal_strlit("사");
        reveal_strlit("서");
        reveal_strlit("씻");
        reveal_strlit("오");
        reveal_strlit("웃");
        reveal_strlit("읽");
        reveal_strlit("입");
        reveal_strlit("자");
        reveal_strlit("잡");
        reveal_strlit("주");
        reveal_strlit("짓");
        reveal_strlit("타");
        reveal_strlit("하");
        assert(p132_f()(ts, i) == p132_step(ts, i));
        if p132_c0(ts, i) {
                let nw0 = seq![TokenView { surface: strip_suffix(ts[i].surface, "자"@), pos: "VV"@, ..ts[i] }, plain_view("자"@, "EF"@, ts[i].start_pos, ts[i].end_pos)];
                assert forall|k: int| 0 <= k < nw0.len() implies !crate::corrections::sentence_final::nda_ec()(#[trigger] nw0[k]) by { if k == 0 { assert(nw0[0] == TokenView { surface: strip_suffix(ts[i].surface, "자"@), pos: "VV"@, ..ts[i] }); assert(!crate::corrections::sentence_final::is_nda_ec(TokenView { surface: strip_suffix(ts[i].surface, "자"@), pos: "VV"@, ..ts[i] })); } else if k == 1 { assert(nw0[1] == plain_view("자"@, "EF"@, ts[i].start_pos, ts[i].end_pos)); assert(!crate::corrections::sentence_final::is_nda_ec(plain_view("자"@, "EF"@, ts[i].start_pos, ts[i].end_pos))); } }
                let s0 = splice(ts, i, 1, nw0);
                lemma_splice_none_bad(ts, i, 1, nw0, crate::corrections::sentence_final::nda_ec());
            }
    }
    lemma_scan_none_bad(ts0, 0, p132_f(), crate::corrections::sentence_final::nda_ec());
}

/// These corrections tag no 는다, ㄴ다 or ᆫ다 EC that was not.
pub proof fn lemma_xsv_morpheme_split_keeps(ts: Seq<TokenView>)
    requires
        none_bad(ts, crate::corrections::sentence_final::nda_ec()),
    ensures
        none_bad(spec_apply_xsv_morpheme_split_corrections(ts), crate::corrections::sentence_final::nda_ec()),
{
    p113_keeps(ts);
    let t0 = p113(ts);
    p114_keeps(t0);
    let t1 = p114(t0);
    p126_keeps(t1);
    let t2 = p126(t1);
    p115_keeps(t2);
    let t3 = p115(t2);
    p116_keeps(t3);
    let t4 = p116(t3);
    p119_keeps(t4);
    let t5 = p119(t4);
    p120_keeps(t5);
    let t6 = p120(t5);
    p235_keeps(t6);
    let t7 = p235(t6);
    p122_keeps(t7);
    let t8 = p122(t7);
    p125_keeps(t8);
    let t9 = p125(t8);
    p127_keeps(t9);
    let t10 = p127(t9);
    p129_keeps(t10);
    let t11 = p129(t10);
    p130_keeps(t11);
    let t12 = p130(t11);
    p130b_keeps(t12);
    let t13 = p130b(t12);
    p131_keeps(t13);
    let t14 = p131(t13);
    p132_keeps(t14);
    let t15 = p132(t14);
}

} // verus!
