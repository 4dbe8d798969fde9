//! Empty and root tags normalised.

use vstd::prelude::*;
use crate::converter::tokens_view;
use crate::rewrite::{map_where, pos_is, push_token};
use crate::text::{char_count, owned};
use crate::types::{SejongToken, TokenView};

verus! {

/// Where [`p209a`] changes a token.
pub open spec fn p209a_c(ts: Seq<TokenView>, i: int) -> bool {
    ((0 <= i < ts.len() && ts[i].pos.len() == 0) && (0 <= i < ts.len() && crate::text::all_ascii_alpha(ts[i].surface)) && (0 <= i < ts.len() && ts[i].surface.len() > 0))
}

/// The token [`p209a`] puts at `i`.
pub open spec fn p209a_t(ts: Seq<TokenView>, i: int) -> TokenView {
    TokenView { pos: "SL"@, ..ts[i] }
}

/// A token with no tag made of ASCII letters is a foreign word (SL).
pub open spec fn p209a(ts: Seq<TokenView>) -> Seq<TokenView> {
    map_where(ts, |ts: Seq<TokenView>, i: int| p209a_c(ts, i), |ts: Seq<TokenView>, i: int| p209a_t(ts, i))
}

/// Whether [`p209a`] changes the token at `i`.
fn p209a_c_exec(tokens: &Vec<SejongToken>, i: usize) -> (r: bool)
    requires
        i < tokens@.len(),
    ensures
        r == p209a_c(tokens_view(tokens@), i as int),
{
    assert(tokens_view(tokens@).len() == tokens@.len());
    let c355 = char_count(tokens[i].pos.as_str()) == 0;
    let c356 = crate::text::is_all_ascii_alpha(tokens[i].surface.as_str());
    let c357 = char_count(tokens[i].surface.as_str()) > 0;
    (c355 && c356 && c357)
}

/// The token [`p209a`] puts at `i`.
fn p209a_t_exec(tokens: &Vec<SejongToken>, i: usize) -> (t: SejongToken)
    requires
        i < tokens@.len(),
        p209a_c(tokens_view(tokens@), i as int),
    ensures
        t@ == p209a_t(tokens_view(tokens@), i as int),
{
    assert(tokens_view(tokens@).len() == tokens@.len());
    let s359 = owned("SL");
    let mut t358 = tokens[i].duplicate();
    t358.pos = s359;
    t358
}

/// A token with no tag made of ASCII letters is a foreign word (SL).
pub fn apply_p209a(tokens: &mut Vec<SejongToken>)
    ensures
        tokens_view(final(tokens)@) == p209a(tokens_view(old(tokens)@)),
{
    let ghost orig = tokens_view(tokens@);
    let mut out: Vec<SejongToken> = Vec::new();
    let mut k: usize = 0;
    while k < tokens.len()
        invariant
            k <= tokens@.len(),
            orig == tokens_view(tokens@),
            tokens_view(out@) == p209a(orig).take(k as int),
        decreases tokens@.len() - k,
    {
        let t = if p209a_c_exec(tokens, k) { p209a_t_exec(tokens, k) } else { tokens[k].duplicate() };
        push_token(&mut out, t);
        k += 1;
        assert(tokens_view(out@) =~= p209a(orig).take(k as int));
    }
    assert(p209a(orig).take(k as int) =~= p209a(orig));
    *tokens = out;
}

/// Where [`p209b`] changes a token.
pub open spec fn p209b_c(ts: Seq<TokenView>, i: int) -> bool {
    ((0 <= i < ts.len() && ts[i].pos.len() == 0) && !((0 <= i < ts.len() && crate::text::all_ascii_alpha(ts[i].surface)) && (0 <= i < ts.len() && ts[i].surface.len() > 0)) && (0 <= i < ts.len() && crate::text::all_hangul(ts[i].surface)) && (0 <= i < ts.len() && ts[i].surface.len() > 0))
}

/// The token [`p209b`] puts at `i`.
pub open spec fn p209b_t(ts: Seq<TokenView>, i: int) -> TokenView {
    TokenView { pos: "NNG"@, ..ts[i] }
}

/// A token with no tag, not all ASCII letters, made of Hangul is a common noun.
pub open spec fn p209b(ts: Seq<TokenView>) -> Seq<TokenView> {
    map_where(ts, |ts: Seq<TokenView>, i: int| p209b_c(ts, i), |ts: Seq<TokenView>, i: int| p209b_t(ts, i))
}

/// Whether [`p209b`] changes the token at `i`.
fn p209b_c_exec(tokens: &Vec<SejongToken>, i: usize) -> (r: bool)
    requires
        i < tokens@.len(),
    ensures
        r == p209b_c(tokens_view(tokens@), i as int),
{
    assert(tokens_view(tokens@).len() == tokens@.len());
    let c360 = char_count(tokens[i].pos.as_str()) == 0;
    let c361 = crate::text::is_all_ascii_alpha(tokens[i].surface.as_str());
    let c362 = char_count(tokens[i].surface.as_str()) > 0;
    let c363 = crate::text::is_all_hangul(tokens[i].surface.as_str());
    let c364 = char_count(tokens[i].surface.as_str()) > 0;
    (c360 && !(c361 && c362) && c363 && c364)
}

/// The token [`p209b`] puts at `i`.
fn p209b_t_exec(tokens: &Vec<SejongToken>, i: usize) -> (t: SejongToken)
    requires
        i < tokens@.len(),
        p209b_c(tokens_view(tokens@), i as int),
    ensures
        t@ == p209b_t(tokens_view(tokens@), i as int),
{
    assert(tokens_view(tokens@).len() == tokens@.len());
    let s366 = owned("NNG");
    let mut t365 = tokens[i].duplicate();
    t365.pos = s366;
    t365
}

/// A token with no tag, not all ASCII letters, made of Hangul is a common noun.
pub fn apply_p209b(tokens: &mut Vec<SejongToken>)
    ensures
        tokens_view(final(tokens)@) == p209b(tokens_view(old(tokens)@)),
{
    let ghost orig = tokens_view(tokens@);
    let mut out: Vec<SejongToken> = Vec::new();
    let mut k: usize = 0;
    while k < tokens.len()
        invariant
            k <= tokens@.len(),
            orig == tokens_view(tokens@),
            tokens_view(out@) == p209b(orig).take(k as int),
        decreases tokens@.len() - k,
    {
        let t = if p209b_c_exec(tokens, k) { p209b_t_exec(tokens, k) } else { tokens[k].duplicate() };
        push_token(&mut out, t);
        k += 1;
        assert(tokens_view(out@) =~= p209b(orig).take(k as int));
    }
    assert(p209b(orig).take(k as int) =~= p209b(orig));
    *tokens = out;
}

/// Where [`p223`] changes a token.
pub open spec fn p223_c(ts: Seq<TokenView>, i: int) -> bool {
    (0 <= i < ts.len() && ts[i].pos == "XR"@)
}

/// The token [`p223`] puts at `i`.
pub open spec fn p223_t(ts: Seq<TokenView>, i: int) -> TokenView {
    TokenView { pos: "NNG"@, ..ts[i] }
}

/// A root (XR) is a common noun.
pub open spec fn p223(ts: Seq<TokenView>) -> Seq<TokenView> {
    map_where(ts, |ts: Seq<TokenView>, i: int| p223_c(ts, i), |ts: Seq<TokenView>, i: int| p223_t(ts, i))
}

/// Whether [`p223`] changes the token at `i`.
fn p223_c_exec(tokens: &Vec<SejongToken>, i: usize) -> (r: bool)
    requires
        i < tokens@.len(),
    ensures
        r == p223_c(tokens_view(tokens@), i as int),
{
    assert(tokens_view(tokens@).len() == tokens@.len());
    let c367 = pos_is(&tokens[i], "XR");
    c367
}

/// The token [`p223`] puts at `i`.
fn p223_t_exec(tokens: &Vec<SejongToken>, i: usize) -> (t: SejongToken)
    requires
        i < tokens@.len(),
        p223_c(tokens_view(tokens@), i as int),
    ensures
        t@ == p223_t(tokens_view(tokens@), i as int),
{
    assert(tokens_view(tokens@).len() == tokens@.len());
    let s369 = owned("NNG");
    let mut t368 = tokens[i].duplicate();
    t368.pos = s369;
    t368
}

/// A root (XR) is a common noun.
pub fn apply_p223(tokens: &mut Vec<SejongToken>)
    ensures
        tokens_view(final(tokens)@) == p223(tokens_view(old(tokens)@)),
{
    let ghost orig = tokens_view(tokens@);
    let mut out: Vec<SejongToken> = Vec::new();
    let mut k: usize = 0;
    while k < tokens.len()
        invariant
            k <= tokens@.len(),
            orig == tokens_view(tokens@),
            tokens_view(out@) == p223(orig).take(k as int),
        decreases tokens@.len() - k,
    {
        let t = if p223_c_exec(tokens, k) { p223_t_exec(tokens, k) } else { tokens[k].duplicate() };
        push_token(&mut out, t);
        k += 1;
        assert(tokens_view(out@) =~= p223(orig).take(k as int));
    }
    assert(p223(orig).take(k as int) =~= p223(orig));
    *tokens = out;
}

/// Empty and root tags normalised.
pub open spec fn spec_apply_tag_normalization_corrections(ts: Seq<TokenView>) -> Seq<TokenView> {
    p223(p209b(p209a(ts)))
}

/// Empty and root tags normalised.
pub fn apply_tag_normalization_corrections(tokens: &mut Vec<SejongToken>)
    ensures
        tokens_view(final(tokens)@) == spec_apply_tag_normalization_corrections(tokens_view(old(tokens)@)),
{
    apply_p209a(tokens);
    apply_p209b(tokens);
    apply_p223(tokens);
}

} // verus!
