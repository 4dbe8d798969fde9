//! Post-processing of converted tokens: `VV` + `세요` splits, merges of
//! mis-split words, and repairs of wrong decompositions.

use vstd::prelude::*;
use crate::converter::tokens_view;
use crate::splitter::rieul_stem;
use crate::text::{char_count, chars_of, ends_with, is_suffix, string_from_range, str_eq};
use crate::types::{plain_view, SejongToken, TokenView};

verus! {

/// `s` with every trailing repetition of `p` removed
/// (`str::trim_end_matches`).
pub open spec fn trim_suffix_all(s: Seq<char>, p: Seq<char>) -> Seq<char>
    decreases s.len(),
{
    if p.len() > 0 && is_suffix(p, s) {
        trim_suffix_all(s.take(s.len() - p.len()), p)
    } else {
        s
    }
}

fn trim_suffix_all_exec(s: &str, p: &str) -> (r: String)
    ensures
        r@ == trim_suffix_all(s@, p@),
{
    let cs = chars_of(s);
    let pn = p.unicode_len();
    let mut cur = string_from_range(cs.as_slice(), 0, cs.len());
    assert(s@.subrange(0, s@.len() as int) =~= s@);
    while pn > 0 && ends_with(cur.as_str(), p)
        invariant
            pn == p@.len(),
            cs@ == s@,
            cur@.len() <= s@.len(),
            trim_suffix_all(s@, p@) == trim_suffix_all(cur@, p@),
        decreases cur@.len(),
    {
        let cc = chars_of(cur.as_str());
        let next = string_from_range(cc.as_slice(), 0, cc.len() - pn);
        assert(next@ =~= cur@.take(cur@.len() - p@.len()));
        cur = next;
    }
    cur
}

/// `X세요/VV` → `X/VV` + `세요/EF`.
pub open spec fn seyo_split(t: TokenView) -> Option<Seq<TokenView>> {
    if t.pos == "VV"@ && is_suffix("세요"@, t.surface) && t.surface.len() >= 2 {
        let stem = trim_suffix_all(t.surface, "세요"@);
        if stem.len() > 0 {
            let mid = t.start_pos.saturating_add(stem.len() as usize);
            Some(seq![plain_view(stem, "VV"@, t.start_pos, mid), plain_view("세요"@, "EF"@, mid, t.end_pos)])
        } else {
            None
        }
    } else {
        None
    }
}

/// `Xㄹ+last/VV` followed by `next_surface/EF` → `X/VV` + `ending/EF`
/// (할게/VV 어요/EF → 하/VV ㄹ게요/EF).
pub open spec fn rieul_ending_split(
    t: TokenView,
    next: TokenView,
    last: Seq<char>,
    next_surface: Seq<char>,
    ending: Seq<char>,
) -> Option<Seq<TokenView>> {
    let s = t.surface;
    if t.pos == "VV"@ && is_suffix(last, s) && s.len() >= 2 && rieul_stem(s, s.len() - 2).is_some()
        && next.surface == next_surface && next.pos == "EF"@ {
        let stem = rieul_stem(s, s.len() - 2).unwrap();
        let mid = t.start_pos.saturating_add(stem.len() as usize);
        Some(seq![plain_view(stem, "VV"@, t.start_pos, mid), plain_view(ending, "EF"@, mid, next.end_pos)])
    } else {
        None
    }
}

/// The `VV` splits applied left to right.
pub open spec fn spec_vv_seyo_splits(ts: Seq<TokenView>) -> Seq<TokenView>
    decreases ts.len(),
{
    if ts.len() == 0 {
        Seq::empty()
    } else if seyo_split(ts[0]).is_some() {
        seyo_split(ts[0]).unwrap() + spec_vv_seyo_splits(ts.skip(1))
    } else if ts.len() >= 2 && rieul_ending_split(ts[0], ts[1], "게"@, "어요"@, "ㄹ게요"@).is_some() {
        rieul_ending_split(ts[0], ts[1], "게"@, "어요"@, "ㄹ게요"@).unwrap() + spec_vv_seyo_splits(ts.skip(2))
    } else if ts.len() >= 2 && rieul_ending_split(ts[0], ts[1], "까"@, "아요"@, "ㄹ까요"@).is_some() {
        rieul_ending_split(ts[0], ts[1], "까"@, "아요"@, "ㄹ까요"@).unwrap() + spec_vv_seyo_splits(ts.skip(2))
    } else {
        seq![ts[0]] + spec_vv_seyo_splits(ts.skip(1))
    }
}

fn push_token(out: &mut Vec<SejongToken>, t: SejongToken)
    ensures
        tokens_view(final(out)@) == tokens_view(old(out)@).push(t@),
{
    let ghost o = out@;
    out.push(t);
    proof {
        crate::text::lemma_map_push(o, t, |t: SejongToken| t@);
    }
}

fn try_seyo_split(t: &SejongToken) -> (r: Option<(SejongToken, SejongToken)>)
    ensures
        match r {
            Some(p) => seyo_split(t@) == Some(seq![p.0@, p.1@]),
            None => seyo_split(t@).is_none(),
        },
{
    if str_eq(t.pos.as_str(), "VV") && ends_with(t.surface.as_str(), "세요") && char_count(t.surface.as_str()) >= 2 {
        let stem = trim_suffix_all_exec(t.surface.as_str(), "세요");
        if stem.unicode_len() > 0 {
            let mid = t.start_pos.saturating_add(stem.unicode_len());
            let a = SejongToken::new(stem.as_str(), "VV", t.start_pos, mid);
            let b = SejongToken::new("세요", "EF", mid, t.end_pos);
            return Some((a, b));
        }
    }
    None
}

fn try_rieul_ending_split(
    t: &SejongToken,
    next: &SejongToken,
    last: &str,
    next_surface: &str,
    ending: &str,
) -> (r: Option<(SejongToken, SejongToken)>)
    ensures
        match r {
            Some(p) => rieul_ending_split(t@, next@, last@, next_surface@, ending@) == Some(seq![p.0@, p.1@]),
            None => rieul_ending_split(t@, next@, last@, next_surface@, ending@).is_none(),
        },
{
    let cs = chars_of(t.surface.as_str());
    if str_eq(t.pos.as_str(), "VV") && ends_with(t.surface.as_str(), last) && cs.len() >= 2 {
        match crate::splitter::rieul_stem_exec(&cs, cs.len() - 2) {
            Some(stem) => {
                if str_eq(next.surface.as_str(), next_surface) && str_eq(next.pos.as_str(), "EF") {
                    let mid = t.start_pos.saturating_add(stem.unicode_len());
                    let a = SejongToken::new(stem.as_str(), "VV", t.start_pos, mid);
                    let b = SejongToken::new(ending, "EF", mid, next.end_pos);
                    return Some((a, b));
                }
            },
            None => {},
        }
    }
    None
}

/// Splits `VV` tokens that carry an ending: 가세요/VV → 가/VV 세요/EF;
/// 할게/VV 어요/EF → 하/VV ㄹ게요/EF; 할까/VV 아요/EF → 하/VV ㄹ까요/EF.
pub fn apply_vv_seyo_splits(tokens: Vec<SejongToken>) -> (r: Vec<SejongToken>)
    ensures
        tokens_view(r@) == spec_vv_seyo_splits(tokens_view(tokens@)),
{
    let ghost tv = tokens_view(tokens@);
    let mut result: Vec<SejongToken> = Vec::new();
    let mut i: usize = 0;
    assert(tv.skip(0) =~= tv);
    while i < tokens.len()
        invariant
            i <= tokens@.len(),
            tv == tokens_view(tokens@),
            tokens_view(result@) + spec_vv_seyo_splits(tv.skip(i as int)) == spec_vv_seyo_splits(tv),
        decreases tokens@.len() - i,
    {
        let ghost rest = tv.skip(i as int);
        assert(rest[0] == tokens@[i as int]@);
        assert(rest.skip(1) =~= tv.skip(i + 1));
        let ghost before = tokens_view(result@);
        match try_seyo_split(&tokens[i]) {
            Some((a, b)) => {
                push_token(&mut result, a);
                push_token(&mut result, b);
                assert(tokens_view(result@) + spec_vv_seyo_splits(tv.skip(i + 1))
                    =~= before + spec_vv_seyo_splits(rest));
                i += 1;
                continue;
            },
            None => {},
        }
        if i + 1 < tokens.len() {
            assert(rest[1] == tokens@[i + 1]@);
            assert(rest.skip(2) =~= tv.skip(i + 2));
            match try_rieul_ending_split(&tokens[i], &tokens[i + 1], "게", "어요", "ㄹ게요") {
                Some((a, b)) => {
                    push_token(&mut result, a);
                    push_token(&mut result, b);
                    assert(tokens_view(result@) + spec_vv_seyo_splits(tv.skip(i + 2))
                        =~= before + spec_vv_seyo_splits(rest));
                    i += 2;
                    continue;
                },
                None => {},
            }
            match try_rieul_ending_split(&tokens[i], &tokens[i + 1], "까", "아요", "ㄹ까요") {
                Some((a, b)) => {
                    push_token(&mut result, a);
                    push_token(&mut result, b);
                    assert(tokens_view(result@) + spec_vv_seyo_splits(tv.skip(i + 2))
                        =~= before + spec_vv_seyo_splits(rest));
                    i += 2;
                    continue;
                },
                None => {},
            }
        }
        let t = tokens[i].duplicate();
        push_token(&mut result, t);
        assert(tokens_view(result@) + spec_vv_seyo_splits(tv.skip(i + 1))
            =~= before + spec_vv_seyo_splits(rest));
        i += 1;
    }
    assert(spec_vv_seyo_splits(tv.skip(i as int)) =~= Seq::<TokenView>::empty());
    assert(tokens_view(result@) =~= tokens_view(result@) + Seq::<TokenView>::empty());
    result
}

/// A `VV` token ending in 게 or 까 whose syllable before that ends in ㄹ,
/// followed by 어요/EF (after 게) or 아요/EF (after 까), is split so that
/// the ㄹ moves from the stem to the start of the ending: the stem keeps
/// its syllables with that ㄹ taken off (할게 → 하), and the ending is ㄹ,
/// the 게 or 까, then 요 (ㄹ게요, ㄹ까요). The two tokens span the two
/// they replace, and the rest of the list is split on its own.
pub proof fn lemma_vv_split_moves_rieul(ts: Seq<TokenView>)
    ensures
        ({
            let s = ts[0].surface;
            let r = spec_vv_seyo_splits(ts);
            (ts.len() >= 2 && ts[0].pos == "VV"@ && s.len() >= 2
                && ((s.last() == '게' && ts[1].surface == "어요"@) || (s.last() == '까' && ts[1].surface == "아요"@))
                && ts[1].pos == "EF"@ && crate::hangul::is_syllable(s[s.len() - 2])
                && crate::hangul::jong_index(s[s.len() - 2]) == 8)
            ==> {
                &&& r.len() >= 2
                &&& r[0].surface.len() == s.len() - 1
                &&& r[0].surface.take(s.len() - 2) == s.take(s.len() - 2)
                &&& (r[0].surface.last() as u32) + 8 == (s[s.len() - 2] as u32)
                &&& r[0].pos == "VV"@
                &&& r[1].surface == seq!['ㄹ', s.last(), '요']
                &&& r[1].pos == "EF"@
                &&& r[0].start_pos == ts[0].start_pos
                &&& r[0].end_pos == r[1].start_pos
                &&& r[1].end_pos == ts[1].end_pos
                &&& r.skip(2) == spec_vv_seyo_splits(ts.skip(2))
            }
        }),
{
    let s = ts[0].surface;
    if ts.len() >= 2 && ts[0].pos == "VV"@ && s.len() >= 2
        && ((s.last() == '게' && ts[1].surface == "어요"@) || (s.last() == '까' && ts[1].surface == "아요"@))
        && ts[1].pos == "EF"@ && crate::hangul::is_syllable(s[s.len() - 2])
        && crate::hangul::jong_index(s[s.len() - 2]) == 8 {
        reveal_strlit("세요");
        reveal_strlit("게");
        reveal_strlit("까");
        reveal_strlit("어요");
        reveal_strlit("아요");
        reveal_strlit("ㄹ게요");
        reveal_strlit("ㄹ까요");
        assert(!is_suffix("세요"@, s)) by {
            if is_suffix("세요"@, s) {
                assert(s.subrange(s.len() - 2, s.len() as int)[1] == s[s.len() - 1]);
            }
        }
        let stem = rieul_stem(s, s.len() - 2).unwrap();
        assert(stem == s.take(s.len() - 2).push(((s[s.len() - 2] as u32) - 8) as char));
        let r = spec_vv_seyo_splits(ts);
        if s.last() == '게' {
            assert(s.subrange(s.len() - 1, s.len() as int) =~= "게"@);
            assert(r =~= rieul_ending_split(ts[0], ts[1], "게"@, "어요"@, "ㄹ게요"@).unwrap() + spec_vv_seyo_splits(ts.skip(2)));
            assert(r[1].surface =~= seq!['ㄹ', s.last(), '요']);
        } else {
            assert(!is_suffix("게"@, s)) by {
                if is_suffix("게"@, s) {
                    assert(s.subrange(s.len() - 1, s.len() as int)[0] == s[s.len() - 1]);
                }
            }
            assert(s.subrange(s.len() - 1, s.len() as int) =~= "까"@);
            assert(r =~= rieul_ending_split(ts[0], ts[1], "까"@, "아요"@, "ㄹ까요"@).unwrap() + spec_vv_seyo_splits(ts.skip(2)));
            assert(r[1].surface =~= seq!['ㄹ', s.last(), '요']);
        }
        assert(r.skip(2) =~= spec_vv_seyo_splits(ts.skip(2)));
        assert(r[0].surface.take(s.len() - 2) =~= s.take(s.len() - 2));
    }
}

/// Verb stems that the dictionary glues to a following 다오/다가.
pub open spec fn wrong_stem(s: Seq<char>) -> Option<(Seq<char>, Seq<char>)> {
    if s == "갔다오"@ {
        Some(("갔"@, "VV"@))
    } else if s == "왔다가"@ {
        Some(("왔"@, "VV"@))
    } else if s == "갔다가"@ {
        Some(("갔"@, "VV"@))
    } else {
        None
    }
}

fn wrong_stem_exec(s: &str) -> (r: Option<(&'static str, &'static str)>)
    ensures
        match r {
            Some(p) => wrong_stem(s@) == Some((p.0@, p.1@)),
            None => wrong_stem(s@).is_none(),
        },
{
    if str_eq(s, "갔다오") {
        Some(("갔", "VV"))
    } else if str_eq(s, "왔다가") {
        Some(("왔", "VV"))
    } else if str_eq(s, "갔다가") {
        Some(("갔", "VV"))
    } else {
        None
    }
}

/// The repairs applied left to right: `X다오/VV ㄴ/ETM` → `X/VV 다/EF`, and
/// `X/VA 은/ETM 다/EF` → `X/VA 다/EF`.
pub open spec fn spec_decomposition_corrections(ts: Seq<TokenView>) -> Seq<TokenView>
    decreases ts.len(),
{
    if ts.len() == 0 {
        Seq::empty()
    } else if ts.len() >= 2 && ts[0].pos == "VV"@ && ts[1].surface == "ㄴ"@ && ts[1].pos == "ETM"@
        && wrong_stem(ts[0].surface).is_some() {
        let (c, sp) = wrong_stem(ts[0].surface).unwrap();
        let mid = ts[0].start_pos.saturating_add(c.len() as usize);
        seq![plain_view(c, sp, ts[0].start_pos, mid), plain_view("다"@, "EF"@, mid, ts[1].end_pos)]
            + spec_decomposition_corrections(ts.skip(2))
    } else if ts.len() >= 3 && ts[0].pos == "VA"@ && ts[1].surface == "은"@ && ts[1].pos == "ETM"@
        && ts[2].surface == "다"@ && ts[2].pos == "EF"@ {
        let e = ts[0].start_pos.saturating_add(ts[0].surface.len() as usize);
        seq![TokenView { end_pos: e, ..ts[0] }, plain_view("다"@, "EF"@, e, ts[2].end_pos)]
            + spec_decomposition_corrections(ts.skip(3))
    } else {
        seq![ts[0]] + spec_decomposition_corrections(ts.skip(1))
    }
}

/// Repairs wrong decompositions: 갔다오/VV ㄴ/ETM → 갔/VV 다/EF;
/// 좋/VA 은/ETM 다/EF → 좋/VA 다/EF.
pub fn apply_decomposition_corrections(tokens: &mut Vec<SejongToken>)
    ensures
        tokens_view(final(tokens)@) == spec_decomposition_corrections(tokens_view(old(tokens)@)),
{
    let ghost orig = tokens_view(tokens@);
    let mut i: usize = 0;
    assert(tokens_view(tokens@).skip(0) =~= tokens_view(tokens@));
    assert(tokens_view(tokens@).subrange(0, 0) + spec_decomposition_corrections(tokens_view(tokens@).skip(0))
        =~= spec_decomposition_corrections(orig));
    while i < tokens.len()
        invariant
            i <= tokens@.len(),
            tokens_view(tokens@).subrange(0, i as int) + spec_decomposition_corrections(tokens_view(tokens@).skip(i as int))
                == spec_decomposition_corrections(orig),
        decreases tokens@.len() - i,
    {
        let ghost tv = tokens_view(tokens@);
        let ghost rest = tv.skip(i as int);
        assert(rest[0] == tokens@[i as int]@);
        let mut matched = false;
        if i + 1 < tokens.len() && str_eq(tokens[i].pos.as_str(), "VV") && str_eq(tokens[i + 1].surface.as_str(), "ㄴ")
            && str_eq(tokens[i + 1].pos.as_str(), "ETM") {
            assert(rest[1] == tokens@[i + 1]@);
            match wrong_stem_exec(tokens[i].surface.as_str()) {
                Some((correct_stem, stem_pos)) => {
                    let start = tokens[i].start_pos;
                    let end = tokens[i + 1].end_pos;
                    let mid = start.saturating_add(char_count(correct_stem));
                    let a = SejongToken::new(correct_stem, stem_pos, start, mid);
                    let b = SejongToken::new("다", "EF", mid, end);
                    tokens.set(i, a);
                    tokens.set(i + 1, b);
                    matched = true;
                    assert(tokens_view(tokens@).subrange(0, i + 2) =~= tv.subrange(0, i as int) + seq![a@, b@]);
                    assert(tokens_view(tokens@).skip(i + 2) =~= rest.skip(2));
                },
                None => {},
            }
        }
        if !matched && tokens.len() - i > 2 && str_eq(tokens[i].pos.as_str(), "VA")
            && str_eq(tokens[i + 1].surface.as_str(), "은") && str_eq(tokens[i + 1].pos.as_str(), "ETM")
            && str_eq(tokens[i + 2].surface.as_str(), "다") && str_eq(tokens[i + 2].pos.as_str(), "EF") {
            assert(rest[1] == tokens@[i + 1]@);
            assert(rest[2] == tokens@[i + 2]@);
            let start = tokens[i].start_pos;
            let end = tokens[i + 2].end_pos;
            let e = start.saturating_add(char_count(tokens[i].surface.as_str()));
            let mut a = tokens[i].duplicate();
            a.end_pos = e;
            let b = SejongToken::new("다", "EF", e, end);
            tokens.set(i, a);
            tokens.set(i + 1, b);
            tokens.remove(i + 2);
            matched = true;
            assert(tokens_view(tokens@).subrange(0, i + 2) =~= tv.subrange(0, i as int) + seq![a@, b@]);
            assert(tokens_view(tokens@).skip(i + 2) =~= rest.skip(3));
        }
        if matched {
            i += 2;
        } else {
            assert(tokens_view(tokens@).subrange(0, i + 1) =~= tv.subrange(0, i as int) + seq![rest[0]]);
            assert(tokens_view(tokens@).skip(i + 1) =~= rest.skip(1));
            i += 1;
        }
    }
    assert(tokens_view(tokens@).subrange(0, i as int) =~= tokens_view(tokens@));
    assert(spec_decomposition_corrections(tokens_view(tokens@).skip(i as int)) =~= Seq::<TokenView>::empty());
}

} // verus!
