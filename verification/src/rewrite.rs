//! Primitive edits of a token list, each stated over the list's view.

use vstd::prelude::*;
use crate::converter::tokens_view;
use crate::text::{ends_with, owned, starts_with, str_eq};
use crate::types::{SejongToken, TokenView};

verus! {

/// `ts` with the `k` tokens at `i` replaced by `new`.
pub open spec fn splice(ts: Seq<TokenView>, i: int, k: int, new: Seq<TokenView>) -> Seq<TokenView> {
    ts.take(i) + new + ts.skip(i + k)
}

/// The token `t` with tag `p`.
pub open spec fn with_pos(t: TokenView, p: Seq<char>) -> TokenView {
    TokenView { pos: p, ..t }
}

/// The token `t` with surface `s`.
pub open spec fn with_surface(t: TokenView, s: Seq<char>) -> TokenView {
    TokenView { surface: s, ..t }
}

/// The token `t` has surface `s` and tag `p`.
pub open spec fn is_tok(t: TokenView, s: Seq<char>, p: Seq<char>) -> bool {
    t.surface == s && t.pos == p
}

/// Whether the token has surface `s` and tag `p`.
pub fn tok_is(t: &SejongToken, s: &str, p: &str) -> (r: bool)
    ensures
        r == is_tok(t@, s@, p@),
{
    str_eq(t.surface.as_str(), s) && str_eq(t.pos.as_str(), p)
}

/// Whether the token has surface `s`.
pub fn surf_is(t: &SejongToken, s: &str) -> (r: bool)
    ensures
        r == (t@.surface == s@),
{
    str_eq(t.surface.as_str(), s)
}

/// Whether the token has tag `p`.
pub fn pos_is(t: &SejongToken, p: &str) -> (r: bool)
    ensures
        r == (t@.pos == p@),
{
    str_eq(t.pos.as_str(), p)
}

/// Whether the token's surface ends with `s`.
pub fn surf_ends(t: &SejongToken, s: &str) -> (r: bool)
    ensures
        r == crate::text::is_suffix(s@, t@.surface),
{
    ends_with(t.surface.as_str(), s)
}

/// Whether the token's surface starts with `s`.
pub fn surf_starts(t: &SejongToken, s: &str) -> (r: bool)
    ensures
        r == crate::text::is_prefix(s@, t@.surface),
{
    starts_with(t.surface.as_str(), s)
}

/// Whether the token's tag starts with `s`.
pub fn pos_starts(t: &SejongToken, s: &str) -> (r: bool)
    ensures
        r == crate::text::is_prefix(s@, t@.pos),
{
    starts_with(t.pos.as_str(), s)
}

/// Replaces the `k` tokens at `i` by `new`.
pub fn splice_tokens(tokens: &mut Vec<SejongToken>, i: usize, k: usize, new: Vec<SejongToken>)
    requires
        i + k <= old(tokens)@.len(),
    ensures
        tokens_view(final(tokens)@) == splice(tokens_view(old(tokens)@), i as int, k as int, tokens_view(new@)),
        final(tokens)@.len() == old(tokens)@.len() - k + new@.len(),
{
    let ghost ov = tokens_view(tokens@);
    let n = tokens.len();
    let mut out: Vec<SejongToken> = Vec::new();
    let mut j: usize = 0;
    while j < i
        invariant
            j <= i,
            i + k <= n,
            n == tokens@.len(),
            ov == tokens_view(tokens@),
            tokens_view(out@) == ov.take(j as int),
        decreases i - j,
    {
        let t = tokens[j].duplicate();
        let ghost o = out@;
        out.push(t);
        proof {
            crate::text::lemma_map_push(o, t, |t: SejongToken| t@);
        }
        j += 1;
        assert(tokens_view(out@) =~= ov.take(j as int));
    }
    let mut m: usize = 0;
    while m < new.len()
        invariant
            m <= new@.len(),
            tokens_view(out@) == ov.take(i as int) + tokens_view(new@).take(m as int),
        decreases new@.len() - m,
    {
        let t = new[m].duplicate();
        let ghost o = out@;
        out.push(t);
        proof {
            crate::text::lemma_map_push(o, t, |t: SejongToken| t@);
        }
        m += 1;
        assert(tokens_view(out@) =~= ov.take(i as int) + tokens_view(new@).take(m as int));
    }
    assert(tokens_view(new@).take(new@.len() as int) =~= tokens_view(new@));
    let mut j2: usize = i + k;
    while j2 < n
        invariant
            i + k <= j2 <= n,
            n == tokens@.len(),
            ov == tokens_view(tokens@),
            tokens_view(out@) == ov.take(i as int) + tokens_view(new@) + ov.subrange(i + k, j2 as int),
        decreases n - j2,
    {
        let t = tokens[j2].duplicate();
        let ghost o = out@;
        out.push(t);
        proof {
            crate::text::lemma_map_push(o, t, |t: SejongToken| t@);
        }
        j2 += 1;
        assert(tokens_view(out@) =~= ov.take(i as int) + tokens_view(new@) + ov.subrange(i + k, j2 as int));
    }
    assert(ov.subrange(i + k, n as int) =~= ov.skip(i + k));
    *tokens = out;
}

/// Sets the tag of the token at `i`.
pub fn set_pos(tokens: &mut Vec<SejongToken>, i: usize, p: &str)
    requires
        i < old(tokens)@.len(),
    ensures
        tokens_view(final(tokens)@) == tokens_view(old(tokens)@).update(i as int, with_pos(tokens_view(old(tokens)@)[i as int], p@)),
        final(tokens)@.len() == old(tokens)@.len(),
{
    let mut t = tokens[i].duplicate();
    t.pos = owned(p);
    let ghost o = tokens@;
    tokens.set(i, t);
    assert(tokens_view(tokens@) =~= tokens_view(o).update(i as int, with_pos(o[i as int]@, p@)));
}

/// Replaces the token at `i`.
pub fn set_token(tokens: &mut Vec<SejongToken>, i: usize, t: SejongToken)
    requires
        i < old(tokens)@.len(),
    ensures
        tokens_view(final(tokens)@) == tokens_view(old(tokens)@).update(i as int, t@),
        final(tokens)@.len() == old(tokens)@.len(),
{
    let ghost o = tokens@;
    let ghost tv = t@;
    tokens.set(i, t);
    assert(tokens_view(tokens@) =~= tokens_view(o).update(i as int, tv));
}

/// A list of one token.
pub fn one(a: SejongToken) -> (v: Vec<SejongToken>)
    ensures
        tokens_view(v@) == seq![a@],
{
    let ghost g = a@;
    let v = vec![a];
    assert(tokens_view(v@) =~= seq![g]);
    v
}

/// A list of two tokens.
pub fn two(a: SejongToken, b: SejongToken) -> (v: Vec<SejongToken>)
    ensures
        tokens_view(v@) == seq![a@, b@],
{
    let ghost (ga, gb) = (a@, b@);
    let v = vec![a, b];
    assert(tokens_view(v@) =~= seq![ga, gb]);
    v
}

/// A list of three tokens.
pub fn three(a: SejongToken, b: SejongToken, c: SejongToken) -> (v: Vec<SejongToken>)
    ensures
        tokens_view(v@) == seq![a@, b@, c@],
{
    let ghost (ga, gb, gc) = (a@, b@, c@);
    let v = vec![a, b, c];
    assert(tokens_view(v@) =~= seq![ga, gb, gc]);
    v
}


/// A left-to-right pass: from position `i`, `step` rewrites the list and
/// names the next position, until the position passes the end. (A step
/// that leaves no fewer positions to visit ends the pass.)
pub open spec fn scan(
    ts: Seq<TokenView>,
    i: int,
    step: spec_fn(Seq<TokenView>, int) -> (Seq<TokenView>, int),
) -> Seq<TokenView>
    decreases ts.len() - i,
{
    if i < 0 || i >= ts.len() {
        ts
    } else {
        let (t2, j) = step(ts, i);
        if 0 <= t2.len() - j < ts.len() - i {
            scan(t2, j, step)
        } else {
            t2
        }
    }
}

/// The list with the token at each position `k` replaced by `f(ts, k)`
/// where `c(ts, k)` holds, all decided on the list as it was.
pub open spec fn map_where(
    ts: Seq<TokenView>,
    c: spec_fn(Seq<TokenView>, int) -> bool,
    f: spec_fn(Seq<TokenView>, int) -> TokenView,
) -> Seq<TokenView> {
    Seq::new(ts.len(), |k: int| if c(ts, k) { f(ts, k) } else { ts[k] })
}

/// Appends a token.
pub fn push_token(out: &mut Vec<SejongToken>, t: SejongToken)
    ensures
        tokens_view(final(out)@) == tokens_view(old(out)@).push(t@),
        final(out)@.len() == old(out)@.len() + 1,
{
    let ghost o = out@;
    out.push(t);
    proof {
        crate::text::lemma_map_push(o, t, |t: SejongToken| t@);
    }
}

/// Whether some entry of the list is `s`.
pub fn in_list(list: &[&str], s: &str) -> (r: bool)
    ensures
        r == crate::tag_map::strs_view(list@).contains(s@),
{
    let mut k: usize = 0;
    while k < list.len()
        invariant
            k <= list@.len(),
            forall|j: int| 0 <= j < k ==> crate::tag_map::strs_view(list@)[j] != s@,
        decreases list@.len() - k,
    {
        if str_eq(list[k], s) {
            assert(crate::tag_map::strs_view(list@)[k as int] == s@);
            return true;
        }
        k += 1;
    }
    false
}

/// The token at `i` ends its word: it is the last token, or it was split
/// from an analysis and the next token was not split from the same one.
pub open spec fn ends_eojeol(ts: Seq<TokenView>, i: int) -> bool {
    i + 1 >= ts.len() || match (ts[i].original_surface, ts[i + 1].original_surface) {
        (Some(a), Some(b)) => a != b,
        (Some(_), None) => true,
        (None, _) => false,
    }
}

/// Whether the token at `i` ends its word.
pub fn is_eojeol_end(tokens: &Vec<SejongToken>, i: usize) -> (r: bool)
    requires
        i < tokens@.len(),
    ensures
        r == ends_eojeol(tokens_view(tokens@), i as int),
{
    if tokens.len() - i <= 1 {
        return true;
    }
    match (&tokens[i].original_surface, &tokens[i + 1].original_surface) {
        (Some(a), Some(b)) => !str_eq(a.as_str(), b.as_str()),
        (Some(_), None) => true,
        (None, _) => false,
    }
}

/// The list with the token at each position `k` replaced by the tokens
/// `f(ts, k)` where `c(ts, k)` holds, all decided on the list as it was.
pub open spec fn expand_where(
    ts: Seq<TokenView>,
    c: spec_fn(Seq<TokenView>, int) -> bool,
    f: spec_fn(Seq<TokenView>, int) -> Seq<TokenView>,
) -> Seq<TokenView> {
    expand_pieces(ts, c, f).flatten()
}

/// What [`expand_where`] puts at each position.
pub open spec fn expand_pieces(
    ts: Seq<TokenView>,
    c: spec_fn(Seq<TokenView>, int) -> bool,
    f: spec_fn(Seq<TokenView>, int) -> Seq<TokenView>,
) -> Seq<Seq<TokenView>> {
    Seq::new(ts.len(), |k: int| if c(ts, k) { f(ts, k) } else { seq![ts[k]] })
}

/// Appends the tokens of `more`.
pub fn append_tokens(out: &mut Vec<SejongToken>, more: Vec<SejongToken>)
    ensures
        tokens_view(final(out)@) == tokens_view(old(out)@) + tokens_view(more@),
{
    let mut k: usize = 0;
    let ghost o = tokens_view(out@);
    while k < more.len()
        invariant
            k <= more@.len(),
            tokens_view(out@) == o + tokens_view(more@).take(k as int),
        decreases more@.len() - k,
    {
        push_token(out, more[k].duplicate());
        k += 1;
        assert(tokens_view(more@).take(k as int) =~= tokens_view(more@).take(k - 1).push(more@[k - 1]@));
        assert(tokens_view(out@) =~= o + tokens_view(more@).take(k as int));
    }
    assert(tokens_view(more@).take(k as int) =~= tokens_view(more@));
}

/// No token of `ts` is `bad`.
pub open spec fn none_bad(ts: Seq<TokenView>, bad: spec_fn(TokenView) -> bool) -> bool {
    forall|k: int| 0 <= k < ts.len() ==> !bad(#[trigger] ts[k])
}

/// Replacing tokens by tokens that are not `bad` keeps a list free of them.
pub proof fn lemma_splice_none_bad(ts: Seq<TokenView>, i: int, k: int, new: Seq<TokenView>, bad: spec_fn(TokenView) -> bool)
    requires
        0 <= i,
        0 <= k,
        i + k <= ts.len(),
        none_bad(ts, bad),
        none_bad(new, bad),
    ensures
        none_bad(splice(ts, i, k, new), bad),
{
    let r = splice(ts, i, k, new);
    assert forall|j: int| 0 <= j < r.len() implies !bad(#[trigger] r[j]) by {
        if j < i {
            assert(r[j] == ts[j]);
        } else if j < i + new.len() {
            assert(r[j] == new[j - i]);
        } else {
            assert(r[j] == ts[j - new.len() + k]);
        }
    }
}

/// A scan whose every step keeps a list free of `bad` tokens keeps it free.
pub proof fn lemma_scan_none_bad(
    ts: Seq<TokenView>,
    i: int,
    step: spec_fn(Seq<TokenView>, int) -> (Seq<TokenView>, int),
    bad: spec_fn(TokenView) -> bool,
)
    requires
        none_bad(ts, bad),
        forall|t: Seq<TokenView>, j: int| 0 <= j < t.len() && none_bad(t, bad) ==> none_bad((#[trigger] step(t, j)).0, bad),
    ensures
        none_bad(scan(ts, i, step), bad),
    decreases ts.len() - i,
{
    if 0 <= i < ts.len() {
        let (t2, j) = step(ts, i);
        if 0 <= t2.len() - j < ts.len() - i {
            lemma_scan_none_bad(t2, j, step, bad);
        }
    }
}

/// A pointwise change that puts no `bad` token keeps a list free of them.
pub proof fn lemma_map_where_none_bad(
    ts: Seq<TokenView>,
    c: spec_fn(Seq<TokenView>, int) -> bool,
    f: spec_fn(Seq<TokenView>, int) -> TokenView,
    bad: spec_fn(TokenView) -> bool,
)
    requires
        none_bad(ts, bad),
        forall|k: int| 0 <= k < ts.len() && #[trigger] c(ts, k) ==> !bad(f(ts, k)),
    ensures
        none_bad(map_where(ts, c, f), bad),
{
    let r = map_where(ts, c, f);
    assert forall|j: int| 0 <= j < r.len() implies !bad(#[trigger] r[j]) by {
        if c(ts, j) {
        }
    }
}

/// Flattening pieces free of `bad` tokens gives a list free of them.
pub proof fn lemma_flatten_none_bad(pieces: Seq<Seq<TokenView>>, bad: spec_fn(TokenView) -> bool)
    requires
        forall|k: int| 0 <= k < pieces.len() ==> none_bad(#[trigger] pieces[k], bad),
    ensures
        none_bad(pieces.flatten(), bad),
    decreases pieces.len(),
{
    if pieces.len() > 0 {
        let rest = pieces.drop_first();
        assert forall|k: int| 0 <= k < rest.len() implies none_bad(#[trigger] rest[k], bad) by {
            assert(rest[k] == pieces[k + 1]);
        }
        lemma_flatten_none_bad(rest, bad);
        let a = pieces[0];
        let b = rest.flatten();
        assert(none_bad(a, bad));
        let r = a + b;
        assert forall|j: int| 0 <= j < r.len() implies !bad(#[trigger] r[j]) by {
            if j < a.len() {
                assert(r[j] == a[j]);
            } else {
                assert(r[j] == b[j - a.len()]);
            }
        }
    }
}

/// An expansion that puts no `bad` token keeps a list free of them.
pub proof fn lemma_expand_where_none_bad(
    ts: Seq<TokenView>,
    c: spec_fn(Seq<TokenView>, int) -> bool,
    f: spec_fn(Seq<TokenView>, int) -> Seq<TokenView>,
    bad: spec_fn(TokenView) -> bool,
)
    requires
        none_bad(ts, bad),
        forall|k: int| 0 <= k < ts.len() && #[trigger] c(ts, k) ==> none_bad(f(ts, k), bad),
    ensures
        none_bad(expand_where(ts, c, f), bad),
{
    let p = expand_pieces(ts, c, f);
    assert forall|k: int| 0 <= k < p.len() implies none_bad(#[trigger] p[k], bad) by {
        if !c(ts, k) {
            assert(p[k] == seq![ts[k]]);
            assert forall|j: int| 0 <= j < p[k].len() implies !bad(#[trigger] p[k][j]) by {
                assert(p[k][j] == ts[k]);
            }
        }
    }
    lemma_flatten_none_bad(p, bad);
}

/// Replacing one token by a token that is not `bad` keeps a list free of them.
pub proof fn lemma_update_none_bad(ts: Seq<TokenView>, i: int, t: TokenView, bad: spec_fn(TokenView) -> bool)
    requires
        0 <= i < ts.len(),
        none_bad(ts, bad),
        !bad(t),
    ensures
        none_bad(ts.update(i, t), bad),
{
    let r = ts.update(i, t);
    assert forall|j: int| 0 <= j < r.len() implies !bad(#[trigger] r[j]) by {
        if j != i {
            assert(r[j] == ts[j]);
        }
    }
}

} // verus!
