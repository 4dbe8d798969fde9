//! Merges of tokens that the dictionary split wrongly
//! (친/VV ᆫ/ETM 구와/NNG → 친구/NNG 와/JC), with the tag repairs that go
//! with them.

use vstd::prelude::*;
use crate::converter::tokens_view;
use crate::hangul::spec_remove_jong;
use crate::rewrite::{
    is_tok, one, pos_is, set_pos, set_token, splice, splice_tokens, surf_ends, surf_is,
    surf_starts, tok_is, two, with_pos, with_surface,
};
use crate::splitter::rieul_stem;
use crate::text::{char_count, chars_of, concat, is_prefix, is_suffix, string_from_range};
use crate::types::{plain_view, SejongToken, TokenView};

verus! {

/// `s` without the suffix `p`.
pub open spec fn strip_suffix(s: Seq<char>, p: Seq<char>) -> Seq<char> {
    s.take(s.len() - p.len())
}

/// `s` without the prefix `p`.
pub open spec fn strip_prefix(s: Seq<char>, p: Seq<char>) -> Seq<char> {
    s.skip(p.len() as int)
}

/// `s` without the suffix `p`, which it ends with.
pub fn strip_suffix_exec(s: &str, p: &str) -> (r: String)
    requires
        is_suffix(p@, s@),
    ensures
        r@ == strip_suffix(s@, p@),
{
    let cs = chars_of(s);
    let n = p.unicode_len();
    let r = string_from_range(cs.as_slice(), 0, cs.len() - n);
    assert(r@ =~= strip_suffix(s@, p@));
    r
}

/// `s` without the prefix `p`, which it starts with.
pub fn strip_prefix_exec(s: &str, p: &str) -> (r: String)
    requires
        is_prefix(p@, s@),
    ensures
        r@ == strip_prefix(s@, p@),
{
    let cs = chars_of(s);
    let n = p.unicode_len();
    let r = string_from_range(cs.as_slice(), n, cs.len());
    assert(r@ =~= strip_prefix(s@, p@));
    r
}

/// A plain token spanning from the start of `a` to the end of `b`.
pub open spec fn span(s: Seq<char>, p: Seq<char>, a: TokenView, b: TokenView) -> TokenView {
    plain_view(s, p, a.start_pos, b.end_pos)
}

/// A plain token of `n` offsets from the start of `a`.
pub open spec fn head(s: Seq<char>, p: Seq<char>, a: TokenView, n: usize) -> TokenView {
    plain_view(s, p, a.start_pos, a.start_pos.saturating_add(n))
}

/// A plain token from `n` offsets after the start of `a` to the end of `b`.
pub open spec fn tail(s: Seq<char>, p: Seq<char>, a: TokenView, n: usize, b: TokenView) -> TokenView {
    plain_view(s, p, a.start_pos.saturating_add(n), b.end_pos)
}

// ---- the patterns, each a condition at `i` and its rewrite ----

pub open spec fn ollhae_cond(ts: Seq<TokenView>, i: int) -> bool {
    i + 3 < ts.len() && is_tok(ts[i], "오"@, "VV"@) && is_tok(ts[i + 1], "ㄹ"@, "ETM"@)
        && is_tok(ts[i + 2], "하"@, "VV"@) && (ts[i + 3].surface == "어"@ || ts[i + 3].surface == "아"@)
        && ts[i + 3].pos == "EC"@
}

pub open spec fn three_merge_cond(ts: Seq<TokenView>, i: int, s0: Seq<char>, p0: Seq<char>, s1: Seq<char>, p1: Seq<char>, s2: Seq<char>, p2: Seq<char>) -> bool {
    i + 2 < ts.len() && is_tok(ts[i], s0, p0) && is_tok(ts[i + 1], s1, p1) && is_tok(ts[i + 2], s2, p2)
}

pub open spec fn two_cond(ts: Seq<TokenView>, i: int, s0: Seq<char>, p0: Seq<char>, s1: Seq<char>, p1: Seq<char>) -> bool {
    i + 1 < ts.len() && is_tok(ts[i], s0, p0) && is_tok(ts[i + 1], s1, p1)
}

pub open spec fn after_pred_cond(ts: Seq<TokenView>, i: int, s: Seq<char>) -> bool {
    0 < i < ts.len() && is_tok(ts[i], s, "EF"@) && (ts[i - 1].pos == "VV"@ || ts[i - 1].pos == "VA"@)
}

/// Verbs ending in 지 that are not a stem followed by the ending 지.
pub open spec fn jida_verbs() -> Seq<Seq<char>> {
    seq![
        "떨어지"@, "커지"@, "작아지"@, "나아지"@, "없어지"@, "생기"@, "죽이"@, "붙이"@, "늘이"@,
        "줄이"@, "높이"@, "낮추"@, "밝히"@, "넓히"@, "깊이"@, "걸리"@, "팔리"@, "열리"@, "닫히"@,
        "막히"@, "뚫리"@, "풀리"@, "묶이"@, "잡히"@, "쫓기"@, "밀리"@, "끌리"@, "불리"@, "실리"@,
        "읽히"@, "안기"@,
    ]
}

/// Endings that take the ㄹ of a preceding stem (올/VV 까요/EF → 오/VV ㄹ까요/EF).
pub open spec fn rieul_endings() -> Seq<Seq<char>> {
    seq!["까"@, "까요"@, "게"@, "게요"@, "래"@, "래요"@, "지"@, "지요"@]
}

pub open spec fn stem_ending_split(t: TokenView, suffix: Seq<char>, ending_pos: Seq<char>) -> Seq<TokenView> {
    let stem = strip_suffix(t.surface, suffix);
    seq![
        head(stem, "VV"@, t, stem.len() as usize),
        plain_view(suffix, ending_pos, t.start_pos.saturating_add(stem.len() as usize), t.end_pos),
    ]
}

pub open spec fn ji_cond(ts: Seq<TokenView>, i: int) -> bool {
    0 <= i < ts.len() && ts[i].pos == "VV"@ && is_suffix("지"@, ts[i].surface)
        && !jida_verbs().contains(ts[i].surface) && strip_suffix(ts[i].surface, "지"@).len() > 0
}

pub open spec fn gi_cond(ts: Seq<TokenView>, i: int) -> bool {
    i + 1 < ts.len() && ts[i].pos == "NNG"@ && is_suffix("기"@, ts[i].surface) && ts[i + 1].surface == "전"@
        && strip_suffix(ts[i].surface, "기"@).len() > 0
}

pub open spec fn seyo_cond(ts: Seq<TokenView>, i: int) -> bool {
    i + 1 < ts.len() && ts[i].pos == "NNG"@ && is_suffix("세"@, ts[i].surface) && ts[i + 1].surface == "요"@
        && (ts[i + 1].pos == "JX"@ || ts[i + 1].pos == "EF"@) && strip_suffix(ts[i].surface, "세"@).len() > 0
}

pub open spec fn seyo_apply(ts: Seq<TokenView>, i: int) -> Seq<TokenView> {
    let stem = strip_suffix(ts[i].surface, "세"@);
    splice(ts, i, 2, seq![
        head(stem, "VV"@, ts[i], stem.len() as usize),
        tail("세요"@, "EF"@, ts[i], stem.len() as usize, ts[i + 1]),
    ])
}

pub open spec fn hada_cond(ts: Seq<TokenView>, i: int) -> bool {
    i + 1 < ts.len() && is_tok(ts[i], "하"@, "IC"@) && is_prefix("다"@, ts[i + 1].surface)
}

pub open spec fn hada_apply(ts: Seq<TokenView>, i: int) -> Seq<TokenView> {
    let t1 = ts[i + 1];
    let n1 = if t1.surface == "다하"@ {
        TokenView { surface: "하"@, start_pos: t1.start_pos.saturating_add(1), ..t1 }
    } else {
        t1
    };
    ts.update(i, head("하다"@, "VV"@, ts[i], 2)).update(i + 1, n1)
}

pub open spec fn gonaseo_cond(ts: Seq<TokenView>, i: int) -> bool {
    i + 2 < ts.len() && is_tok(ts[i], "고"@, "EC"@) && is_tok(ts[i + 1], "나"@, "NP"@)
        && is_prefix("서"@, ts[i + 2].surface)
}

pub open spec fn gonaseo_apply(ts: Seq<TokenView>, i: int) -> Seq<TokenView> {
    let t0 = plain_view("고나서"@, "EC"@, ts[i].start_pos, ts[i + 1].end_pos.saturating_add(1));
    let rem = strip_prefix(ts[i + 2].surface, "서"@);
    if rem.len() == 0 {
        splice(ts, i, 3, seq![t0])
    } else {
        splice(ts, i, 3, seq![t0, with_surface(ts[i + 2], rem)])
    }
}

/// What the patterns before the ㄹ move did at a position.
pub enum CascadeOutcome {
    /// No pattern matched; the list is unchanged.
    Unmatched,
    /// A pattern matched and rewrote the list without adding a token.
    Rewritten,
    /// A pattern matched and split a token in two, adding one.
    Inserted,
}

/// The four patterns tried first (올해, 산책, 순우리말, 주가); whether one
/// matched.
pub open spec fn lead_patterns(ts: Seq<TokenView>, i: int) -> (Seq<TokenView>, bool) {
    if ollhae_cond(ts, i) {
        (splice(ts, i, 4, seq![span("올해"@, "NNG"@, ts[i], ts[i + 3])]), true)
    } else if three_merge_cond(ts, i, "사"@, "VV"@, "ㄴ"@, "ETM"@, "책"@, "NNG"@) {
        (splice(ts, i, 3, seq![span("산책"@, "NNG"@, ts[i], ts[i + 2])]), true)
    } else if three_merge_cond(ts, i, "순"@, "NNG"@, "우리"@, "NP"@, "말"@, "NNG"@) {
        (splice(ts, i, 3, seq![head("순"@, "XPN"@, ts[i], 1), tail("우리말"@, "NNG"@, ts[i], 1, ts[i + 2])]), true)
    } else if two_cond(ts, i, "주"@, "VX"@, "가가"@, "NNG"@) {
        (splice(ts, i, 2, seq![head("주가"@, "NNG"@, ts[i], 2), tail("가"@, "JKS"@, ts[i], 2, ts[i + 1])]), true)
    } else {
        (ts, false)
    }
}

/// All patterns but the last, tried in order at `i`. The first that
/// matches rewrites the list, except that the 친구 merge is also tried on
/// what the four lead patterns left. The outcome says whether one matched,
/// and whether it inserted a token.
pub open spec fn merge_cascade(ts: Seq<TokenView>, i: int) -> (Seq<TokenView>, CascadeOutcome) {
    let (ta, lead) = lead_patterns(ts, i);
    if three_merge_cond(ta, i, "치"@, "VV"@, "ᆫ"@, "ETM"@, "구와"@, "NNG"@) {
        (splice(ta, i, 3, seq![head("친구"@, "NNG"@, ta[i], 2), tail("와"@, "JC"@, ta[i], 2, ta[i + 2])]), CascadeOutcome::Rewritten)
    } else if lead {
        (ta, CascadeOutcome::Rewritten)
    } else if three_merge_cond(ts, i, "날"@, "NNG"@, "씨"@, "EP"@, "가"@, "EF"@) {
        (splice(ts, i, 3, seq![head("날씨"@, "NNG"@, ts[i], 2), tail("가"@, "JKS"@, ts[i], 2, ts[i + 2])]), CascadeOutcome::Rewritten)
    } else if three_merge_cond(ts, i, "대한"@, "NNG"@, "민국"@, "NNG"@, "ᆯ"@, "ETM"@) {
        (splice(ts, i, 3, seq![head("대한민국"@, "NNP"@, ts[i], 4)]), CascadeOutcome::Rewritten)
    } else if two_cond(ts, i, "먹"@, "NNG"@, "었"@, "EF"@) {
        (ts.update(i, with_pos(ts[i], "VV"@)).update(i + 1, with_pos(ts[i + 1], "EP"@)), CascadeOutcome::Rewritten)
    } else if two_cond(ts, i, "읽"@, "VA"@, "고"@, "EF"@) {
        (ts.update(i, with_pos(ts[i], "VV"@)).update(i + 1, with_pos(ts[i + 1], "EC"@)), CascadeOutcome::Rewritten)
    } else if i + 1 < ts.len() && is_tok(ts[i], "있"@, "EP"@) && ts[i + 1].pos == "EF"@ {
        (ts.update(i, with_pos(ts[i], "VX"@)), CascadeOutcome::Rewritten)
    } else if 0 < i && two_cond(ts, i, "수"@, "NNB"@, "도"@, "JX"@) && ts[i - 1].pos == "NNP"@ {
        (splice(ts, i, 2, seq![span("수도"@, "NNG"@, ts[i], ts[i + 1])]), CascadeOutcome::Rewritten)
    } else if 0 <= i < ts.len() && is_tok(ts[i], "가다"@, "NNG"@) {
        (ts.update(i, with_pos(ts[i], "VV"@)), CascadeOutcome::Rewritten)
    } else if 0 <= i < ts.len() && is_tok(ts[i], "보다"@, "JKB"@) {
        (ts.update(i, with_pos(ts[i], "VV"@)), CascadeOutcome::Rewritten)
    } else if 0 <= i < ts.len() && is_tok(ts[i], "오다"@, "NNG"@) {
        (ts.update(i, with_pos(ts[i], "VV"@)), CascadeOutcome::Rewritten)
    } else if two_cond(ts, i, "먹"@, "NNG"@, "다"@, "EF"@) {
        (splice(ts, i, 2, seq![span("먹다"@, "VV"@, ts[i], ts[i + 1])]), CascadeOutcome::Rewritten)
    } else if hada_cond(ts, i) {
        (hada_apply(ts, i), CascadeOutcome::Rewritten)
    } else if 0 < i < ts.len() && is_tok(ts[i], "가"@, "EF"@) && ts[i - 1].pos == "VV"@ {
        (ts.update(i, with_pos(ts[i], "EC"@)), CascadeOutcome::Rewritten)
    } else if after_pred_cond(ts, i, "고"@) || after_pred_cond(ts, i, "서"@) || after_pred_cond(ts, i, "면"@)
        || after_pred_cond(ts, i, "니"@) || after_pred_cond(ts, i, "게"@) {
        (ts.update(i, with_pos(ts[i], "EC"@)), CascadeOutcome::Rewritten)
    } else if i + 1 < ts.len() && is_tok(ts[i], "는"@, "EF"@) && ts[i + 1].surface == "데"@ {
        (splice(ts, i, 2, seq![span("는데"@, "EC"@, ts[i], ts[i + 1])]), CascadeOutcome::Rewritten)
    } else if 0 <= i < ts.len() && is_tok(ts[i], "그래요"@, "IC"@) {
        (splice(ts, i, 1, seq![head("그러"@, "VV"@, ts[i], 2), tail("어요"@, "EF"@, ts[i], 2, ts[i])]), CascadeOutcome::Inserted)
    } else if 0 <= i < ts.len() && is_tok(ts[i], "이래요"@, "IC"@) {
        (splice(ts, i, 1, seq![head("이러"@, "VV"@, ts[i], 2), tail("어요"@, "EF"@, ts[i], 2, ts[i])]), CascadeOutcome::Inserted)
    } else if 0 <= i < ts.len() && is_tok(ts[i], "저래요"@, "IC"@) {
        (splice(ts, i, 1, seq![head("저러"@, "VV"@, ts[i], 2), tail("어요"@, "EF"@, ts[i], 2, ts[i])]), CascadeOutcome::Inserted)
    } else if seyo_cond(ts, i) {
        (seyo_apply(ts, i), CascadeOutcome::Rewritten)
    } else if ji_cond(ts, i) {
        (splice(ts, i, 1, stem_ending_split(ts[i], "지"@, "EC"@)), CascadeOutcome::Inserted)
    } else if gi_cond(ts, i) {
        (splice(ts, i, 1, stem_ending_split(ts[i], "기"@, "ETN"@)), CascadeOutcome::Inserted)
    } else if gonaseo_cond(ts, i) {
        (gonaseo_apply(ts, i), CascadeOutcome::Rewritten)
    } else {
        (ts, CascadeOutcome::Unmatched)
    }
}


/// A `ㄹ`-final stem before an ending of [`rieul_endings`] gives its ㄹ to
/// the ending.
pub open spec fn rieul_move_cond(ts: Seq<TokenView>, i: int) -> bool {
    i + 1 < ts.len() && ts[i].pos == "VV"@ && ts[i + 1].pos == "EF"@ && rieul_endings().contains(ts[i + 1].surface)
        && ts[i].surface.len() > 0 && rieul_stem(ts[i].surface, ts[i].surface.len() - 1).is_some()
}

pub open spec fn rieul_move_apply(ts: Seq<TokenView>, i: int) -> Seq<TokenView> {
    let stem = rieul_stem(ts[i].surface, ts[i].surface.len() - 1).unwrap();
    splice(ts, i, 2, seq![
        head(stem, "VV"@, ts[i], stem.len() as usize),
        tail("ㄹ"@ + ts[i + 1].surface, "EF"@, ts[i], stem.len() as usize, ts[i + 1]),
    ])
}

/// One step at `i`: the first matching pattern, or, where none matched, the
/// ㄹ move. The next position skips a token the step inserted:
/// [`lemma_inserted_token_left_alone`] shows that a step there changes
/// nothing.
pub open spec fn merge_step(ts: Seq<TokenView>, i: int) -> (Seq<TokenView>, int) {
    let (t1, outcome) = merge_cascade(ts, i);
    match outcome {
        CascadeOutcome::Unmatched => (
            if rieul_move_cond(ts, i) { rieul_move_apply(ts, i) } else { ts },
            i + 1,
        ),
        CascadeOutcome::Rewritten => (t1, i + 1),
        CascadeOutcome::Inserted => (t1, i + 2),
    }
}

/// The merges applied from position `i` to the end.
pub open spec fn merges_from(ts: Seq<TokenView>, i: int) -> Seq<TokenView>
    decreases ts.len() - i,
{
    if i < 0 || i >= ts.len() {
        ts
    } else {
        let (t2, j) = merge_step(ts, i);
        if t2.len() - j < ts.len() - i {
            merges_from(t2, j)
        } else {
            t2
        }
    }
}

/// The merges applied to the whole list.
pub open spec fn spec_token_merges(ts: Seq<TokenView>) -> Seq<TokenView> {
    merges_from(ts, 0)
}

/// Each step leaves fewer positions to visit.
pub proof fn lemma_merge_step_progress(ts: Seq<TokenView>, i: int)
    requires
        0 <= i < ts.len(),
    ensures
        merge_step(ts, i).0.len() - merge_step(ts, i).1 < ts.len() - i,
        merge_cascade(ts, i).1 is Inserted ==> merge_step(ts, i).0.len() == ts.len() + 1,
{
    let (t1, outcome) = merge_cascade(ts, i);
    assert(outcome is Inserted ==> t1.len() == ts.len() + 1);
    assert(!(outcome is Inserted) ==> t1.len() <= ts.len());
    assert(outcome is Unmatched ==> t1 == ts);
}

/// The tags and surfaces that a token inserted by a step carries differ
/// from those the patterns look for at their first position.
proof fn lemma_inserted_literals_differ()
    ensures
        "EF"@ != "VV"@, "EF"@ != "VX"@, "EF"@ != "VA"@, "EF"@ != "EP"@, "EF"@ != "IC"@,
        "EF"@ != "EC"@, "EF"@ != "NP"@, "EF"@ != "JX"@,
        "EC"@ != "VV"@, "EC"@ != "VX"@, "EC"@ != "VA"@, "EC"@ != "EP"@, "EC"@ != "IC"@,
        "EC"@ != "EF"@, "EC"@ != "NP"@, "EC"@ != "JX"@,
        "ETN"@ != "NNG"@, "ETN"@ != "NNB"@, "ETN"@ != "JKB"@, "ETN"@ != "ETM"@, "ETN"@ != "NNP"@,
        "지"@ != "고"@, "기"@ != "고"@,
        "EF"@ != "NNG"@, "EF"@ != "XPN"@, "EF"@ != "NNP"@, "EF"@ != "ETN"@,
{
    reveal_strlit("EF");
    reveal_strlit("VV");
    reveal_strlit("VX");
    reveal_strlit("VA");
    reveal_strlit("EP");
    reveal_strlit("IC");
    reveal_strlit("EC");
    reveal_strlit("NP");
    reveal_strlit("JX");
    reveal_strlit("ETN");
    reveal_strlit("NNG");
    reveal_strlit("NNB");
    reveal_strlit("JKB");
    reveal_strlit("ETM");
    reveal_strlit("NNP");
    reveal_strlit("지");
    reveal_strlit("고");
    reveal_strlit("기");
    reveal_strlit("XPN");
    assert("EF"@.len() != "NNG"@.len() && "EF"@.len() != "XPN"@.len() && "EF"@.len() != "NNP"@.len());
    assert("EF"@.len() != "ETN"@.len());
    assert("EF"@[0] != "VV"@[0] && "EF"@[0] != "VA"@[0] && "EF"@[0] != "VX"@[0] && "EF"@[0] != "IC"@[0]);
    assert("EF"@[0] != "NP"@[0] && "EF"@[0] != "JX"@[0] && "EF"@[1] != "EP"@[1] && "EF"@[1] != "EC"@[1]);
    assert("EC"@[0] != "VV"@[0] && "EC"@[0] != "VA"@[0] && "EC"@[0] != "VX"@[0] && "EC"@[0] != "IC"@[0]);
    assert("EC"@[0] != "NP"@[0] && "EC"@[0] != "JX"@[0] && "EC"@[1] != "EP"@[1]);
    assert("ETN"@[0] != "NNG"@[0] && "ETN"@[0] != "NNB"@[0] && "ETN"@[0] != "JKB"@[0] && "ETN"@[2] != "ETM"@[2]);
    assert("ETN"@[0] != "NNP"@[0]);
    assert("지"@[0] != "고"@[0] && "기"@[0] != "고"@[0]);
}

/// A token that a step inserted is left alone when the walk comes to it:
/// the step there changes nothing, so moving past it, as [`merge_step`]
/// does, is the same as visiting it.
pub proof fn lemma_inserted_token_left_alone(ts: Seq<TokenView>, i: int)
    requires
        0 <= i < ts.len(),
        merge_cascade(ts, i).1 is Inserted,
    ensures
        merge_step(merge_cascade(ts, i).0, i + 1) == (merge_cascade(ts, i).0, i + 2),
{
    reveal_strlit("오");
    reveal_strlit("VV");
    reveal_strlit("ㄹ");
    reveal_strlit("ETM");
    reveal_strlit("하");
    reveal_strlit("어");
    reveal_strlit("아");
    reveal_strlit("EC");
    reveal_strlit("사");
    reveal_strlit("ㄴ");
    reveal_strlit("책");
    reveal_strlit("NNG");
    reveal_strlit("순");
    reveal_strlit("우리");
    reveal_strlit("NP");
    reveal_strlit("말");
    reveal_strlit("주");
    reveal_strlit("VX");
    reveal_strlit("가가");
    reveal_strlit("치");
    reveal_strlit("ᆫ");
    reveal_strlit("구와");
    reveal_strlit("날");
    reveal_strlit("씨");
    reveal_strlit("EP");
    reveal_strlit("가");
    reveal_strlit("EF");
    reveal_strlit("대한");
    reveal_strlit("민국");
    reveal_strlit("ᆯ");
    reveal_strlit("먹");
    reveal_strlit("었");
    reveal_strlit("읽");
    reveal_strlit("VA");
    reveal_strlit("고");
    reveal_strlit("있");
    reveal_strlit("수");
    reveal_strlit("NNB");
    reveal_strlit("도");
    reveal_strlit("JX");
    reveal_strlit("NNP");
    reveal_strlit("가다");
    reveal_strlit("보다");
    reveal_strlit("JKB");
    reveal_strlit("오다");
    reveal_strlit("다");
    reveal_strlit("IC");
    reveal_strlit("서");
    reveal_strlit("면");
    reveal_strlit("니");
    reveal_strlit("게");
    reveal_strlit("는");
    reveal_strlit("데");
    reveal_strlit("그래요");
    reveal_strlit("이래요");
    reveal_strlit("저래요");
    reveal_strlit("세");
    reveal_strlit("요");
    reveal_strlit("지");
    reveal_strlit("기");
    reveal_strlit("ETN");
    reveal_strlit("나");
    reveal_strlit("어요");
    lemma_inserted_literals_differ();
    let t1 = merge_cascade(ts, i).0;
    assert(t1.len() == ts.len() + 1);
    assert(t1[i + 1].pos == "EF"@ || t1[i + 1].pos == "EC"@ || t1[i + 1].pos == "ETN"@);
    assert(merge_cascade(t1, i + 1).1 is Unmatched);
    assert(!rieul_move_cond(t1, i + 1));
}

/// A connective ending that the dictionary tagged as a final one: 고, 서,
/// 면, 니 or 게 tagged `EF` right after a `VV` or `VA` token, or 가 tagged
/// `EF` right after a `VV` token.
pub open spec fn connective_tagged_final(t: TokenView, prev: TokenView) -> bool {
    t.pos == "EF"@ && (
        ((t.surface == "고"@ || t.surface == "서"@ || t.surface == "면"@ || t.surface == "니"@
            || t.surface == "게"@) && (prev.pos == "VV"@ || prev.pos == "VA"@))
        || (t.surface == "가"@ && prev.pos == "VV"@))
}

/// No token before position `n` is a connective ending tagged as a final
/// one.
pub open spec fn no_connective_final_before(ts: Seq<TokenView>, n: int) -> bool {
    forall|k: int| 1 <= k < n && k < ts.len() ==> !connective_tagged_final(#[trigger] ts[k], ts[k - 1])
}

/// Where a splice puts its first new token, and what it keeps before it.
broadcast proof fn lemma_splice_front(ts: Seq<TokenView>, i: int, k: int, new: Seq<TokenView>)
    requires
        0 <= i,
        0 <= k,
        i + k <= ts.len(),
        new.len() >= 1,
    ensures
        #[trigger] splice(ts, i, k, new).len() == ts.len() - k + new.len(),
        splice(ts, i, k, new)[i] == new[0],
        new.len() >= 2 ==> splice(ts, i, k, new)[i + 1] == new[1],
        forall|m: int| 0 <= m < i ==> splice(ts, i, k, new)[m] == ts[m],
{
}

/// What the lead patterns do at `i`: the tokens before `i` stay, and where
/// one matched the token at `i` is not tagged `EF`.
proof fn lemma_lead_patterns_shape(ts: Seq<TokenView>, i: int)
    requires
        0 <= i < ts.len(),
    ensures
        ({
            let (ta, lead) = lead_patterns(ts, i);
            &&& ta.len() >= i + 1
            &&& forall|k: int| 0 <= k < i ==> ta[k] == ts[k]
            &&& !lead ==> ta == ts
            &&& lead ==> ta[i].pos != "EF"@
        }),
{
    reveal_strlit("VV");
    reveal_strlit("EC");
    reveal_strlit("NNG");
    reveal_strlit("VX");
    reveal_strlit("EF");
    reveal_strlit("XPN");
    reveal_strlit("NNP");
    reveal_strlit("ETN");
    reveal_strlit("어요");
    lemma_inserted_literals_differ();
    broadcast use lemma_splice_front;
}

/// What the patterns before the ㄹ move do at `i`: the tokens before `i`
/// stay; where one matched, the token at `i` is not tagged `EF`, nor is a
/// token inserted after it unless it is 어요.
#[verifier::rlimit(100)]
proof fn lemma_merge_cascade_shape(ts: Seq<TokenView>, i: int)
    requires
        0 <= i < ts.len(),
    ensures
        ({
            let (t1, outcome) = merge_cascade(ts, i);
            &&& t1.len() >= i + 1
            &&& forall|k: int| 0 <= k < i ==> t1[k] == ts[k]
            &&& outcome is Unmatched ==> t1 == ts
            &&& !(outcome is Unmatched) ==> t1[i].pos != "EF"@
            &&& outcome is Inserted ==> t1.len() >= i + 2 && (t1[i + 1].pos != "EF"@ || t1[i + 1].surface == "어요"@)
        }),
{
    reveal_strlit("VV");
    reveal_strlit("EC");
    reveal_strlit("NNG");
    reveal_strlit("VX");
    reveal_strlit("EF");
    reveal_strlit("XPN");
    reveal_strlit("NNP");
    reveal_strlit("ETN");
    reveal_strlit("어요");
    lemma_inserted_literals_differ();
    lemma_lead_patterns_shape(ts, i);
    broadcast use lemma_splice_front;
}

/// A step at `i` keeps the tokens before `i` and leaves no connective ending
/// tagged `EF` before the next position.
#[verifier::rlimit(100)]
proof fn lemma_merge_step_connectives(ts: Seq<TokenView>, i: int)
    requires
        0 <= i < ts.len(),
        no_connective_final_before(ts, i),
    ensures
        no_connective_final_before(merge_step(ts, i).0, merge_step(ts, i).1),
{
    reveal_strlit("오");
    reveal_strlit("VV");
    reveal_strlit("ㄹ");
    reveal_strlit("ETM");
    reveal_strlit("하");
    reveal_strlit("어");
    reveal_strlit("아");
    reveal_strlit("EC");
    reveal_strlit("사");
    reveal_strlit("ㄴ");
    reveal_strlit("책");
    reveal_strlit("NNG");
    reveal_strlit("순");
    reveal_strlit("우리");
    reveal_strlit("NP");
    reveal_strlit("말");
    reveal_strlit("주");
    reveal_strlit("VX");
    reveal_strlit("가가");
    reveal_strlit("치");
    reveal_strlit("ᆫ");
    reveal_strlit("구와");
    reveal_strlit("날");
    reveal_strlit("씨");
    reveal_strlit("EP");
    reveal_strlit("가");
    reveal_strlit("EF");
    reveal_strlit("대한");
    reveal_strlit("민국");
    reveal_strlit("ᆯ");
    reveal_strlit("먹");
    reveal_strlit("었");
    reveal_strlit("읽");
    reveal_strlit("VA");
    reveal_strlit("고");
    reveal_strlit("있");
    reveal_strlit("수");
    reveal_strlit("NNB");
    reveal_strlit("도");
    reveal_strlit("JX");
    reveal_strlit("NNP");
    reveal_strlit("가다");
    reveal_strlit("보다");
    reveal_strlit("JKB");
    reveal_strlit("오다");
    reveal_strlit("다");
    reveal_strlit("IC");
    reveal_strlit("서");
    reveal_strlit("면");
    reveal_strlit("니");
    reveal_strlit("게");
    reveal_strlit("는");
    reveal_strlit("데");
    reveal_strlit("그래요");
    reveal_strlit("이래요");
    reveal_strlit("저래요");
    reveal_strlit("세");
    reveal_strlit("요");
    reveal_strlit("지");
    reveal_strlit("기");
    reveal_strlit("ETN");
    reveal_strlit("나");
    reveal_strlit("어요");
    reveal_strlit("XPN");
    reveal_strlit("JKS");
    reveal_strlit("JC");
    reveal_strlit("산책");
    reveal_strlit("올해");
    reveal_strlit("친구");
    reveal_strlit("와");
    reveal_strlit("날씨");
    reveal_strlit("대한민국");
    reveal_strlit("수도");
    reveal_strlit("먹다");
    reveal_strlit("하다");
    reveal_strlit("는데");
    reveal_strlit("그러");
    reveal_strlit("이러");
    reveal_strlit("저러");
    reveal_strlit("세요");
    reveal_strlit("고나서");
    reveal_strlit("우리말");
    lemma_inserted_literals_differ();
    lemma_merge_cascade_shape(ts, i);
    let (t1, outcome) = merge_cascade(ts, i);
    let (t2, j) = merge_step(ts, i);
    if outcome is Unmatched && rieul_move_cond(ts, i) {
        assert(t2[i].pos == "VV"@);
        assert forall|k: int| 0 <= k < i implies t2[k] == ts[k] by {}
    }
    assert(t2.len() >= i + 1);
    assert forall|k: int| 0 <= k < i implies t2[k] == ts[k] by {}
    assert(t2[i].pos != "EF"@ || (t2[i] == ts[i] && !(i > 0 && connective_tagged_final(ts[i], ts[i - 1]))));
    if outcome is Inserted {
        assert(t2[i + 1].pos != "EF"@ || t2[i + 1].surface == "어요"@);
    }
    assert forall|k: int| 1 <= k < j && k < t2.len() implies !connective_tagged_final(#[trigger] t2[k], t2[k - 1]) by {
        if k < i {
            assert(t2[k] == ts[k]);
            assert(t2[k - 1] == ts[k - 1]);
        } else if k == i {
            assert(t2[k - 1] == ts[k - 1]);
        }
    }
}

proof fn lemma_merges_from_connectives(ts: Seq<TokenView>, i: int)
    requires
        0 <= i,
        no_connective_final_before(ts, i),
    ensures
        no_connective_final_before(merges_from(ts, i), merges_from(ts, i).len() as int),
    decreases ts.len() - i,
{
    if i < ts.len() {
        lemma_merge_step_progress(ts, i);
        lemma_merge_step_connectives(ts, i);
        let (t2, j) = merge_step(ts, i);
        lemma_merges_from_connectives(t2, j);
    }
}

/// After the merges, no 고, 서, 면, 니 or 게 right after a `VV` or `VA`
/// token, and no 가 right after a `VV` token, is tagged `EF`: each is the
/// connective ending (`EC`) there (가/VV 면/EF → 가/VV 면/EC).
pub proof fn lemma_token_merges_connectives(ts: Seq<TokenView>)
    ensures
        forall|k: int| 1 <= k < spec_token_merges(ts).len()
            ==> !connective_tagged_final(#[trigger] spec_token_merges(ts)[k], spec_token_merges(ts)[k - 1]),
{
    lemma_merges_from_connectives(ts, 0);
    let r = spec_token_merges(ts);
    assert forall|k: int| 1 <= k < r.len() implies !connective_tagged_final(#[trigger] r[k], r[k - 1]) by {}
}

fn plain(s: &str, p: &str, start: usize, end: usize) -> (t: SejongToken)
    ensures
        t@ == plain_view(s@, p@, start, end),
{
    SejongToken::new(s, p, start, end)
}

fn three_merge(tokens: &Vec<SejongToken>, i: usize, s0: &str, p0: &str, s1: &str, p1: &str, s2: &str, p2: &str) -> (r: bool)
    ensures
        r == three_merge_cond(tokens_view(tokens@), i as int, s0@, p0@, s1@, p1@, s2@, p2@),
{
    tokens.len() > 2 && i < tokens.len() - 2 && tok_is(&tokens[i], s0, p0) && tok_is(&tokens[i + 1], s1, p1)
        && tok_is(&tokens[i + 2], s2, p2)
}

fn two_match(tokens: &Vec<SejongToken>, i: usize, s0: &str, p0: &str, s1: &str, p1: &str) -> (r: bool)
    ensures
        r == two_cond(tokens_view(tokens@), i as int, s0@, p0@, s1@, p1@),
{
    tokens.len() > 1 && i < tokens.len() - 1 && tok_is(&tokens[i], s0, p0) && tok_is(&tokens[i + 1], s1, p1)
}

fn after_pred(tokens: &Vec<SejongToken>, i: usize, s: &str) -> (r: bool)
    ensures
        r == after_pred_cond(tokens_view(tokens@), i as int, s@),
{
    0 < i && i < tokens.len() && tok_is(&tokens[i], s, "EF")
        && (pos_is(&tokens[i - 1], "VV") || pos_is(&tokens[i - 1], "VA"))
}

fn contains_str_list(list: &[&str], s: &str) -> (r: bool)
    ensures
        r == crate::tag_map::strs_view(list@).contains(s@),
{
    let mut k: usize = 0;
    while k < list.len()
        invariant
            k <= list@.len(),
            forall|j: int| 0 <= j < k ==> crate::tag_map::strs_view(list@)[j] != s@,
        decreases list@.len() - k,
    {
        if crate::text::str_eq(list[k], s) {
            assert(crate::tag_map::strs_view(list@)[k as int] == s@);
            return true;
        }
        k += 1;
    }
    false
}

fn ji_match(tokens: &Vec<SejongToken>, i: usize) -> (r: bool)
    requires
        i < tokens@.len(),
    ensures
        r == ji_cond(tokens_view(tokens@), i as int),
{
    let jida: [&str; 31] = [
        "떨어지", "커지", "작아지", "나아지", "없어지", "생기", "죽이", "붙이", "늘이", "줄이", "높이",
        "낮추", "밝히", "넓히", "깊이", "걸리", "팔리", "열리", "닫히", "막히", "뚫리", "풀리", "묶이",
        "잡히", "쫓기", "밀리", "끌리", "불리", "실리", "읽히", "안기",
    ];
    assert(crate::tag_map::strs_view(jida@) =~= jida_verbs());
    let t = &tokens[i];
    if pos_is(t, "VV") && surf_ends(t, "지") && !contains_str_list(&jida, t.surface.as_str()) {
        let stem = strip_suffix_exec(t.surface.as_str(), "지");
        stem.unicode_len() > 0
    } else {
        false
    }
}

fn gi_match(tokens: &Vec<SejongToken>, i: usize) -> (r: bool)
    requires
        i < tokens@.len(),
    ensures
        r == gi_cond(tokens_view(tokens@), i as int),
{
    if i < tokens.len() - 1 && pos_is(&tokens[i], "NNG") && surf_ends(&tokens[i], "기") && surf_is(&tokens[i + 1], "전") {
        let stem = strip_suffix_exec(tokens[i].surface.as_str(), "기");
        stem.unicode_len() > 0
    } else {
        false
    }
}

fn seyo_match(tokens: &Vec<SejongToken>, i: usize) -> (r: bool)
    requires
        i < tokens@.len(),
    ensures
        r == seyo_cond(tokens_view(tokens@), i as int),
{
    if i < tokens.len() - 1 && pos_is(&tokens[i], "NNG") && surf_ends(&tokens[i], "세") && surf_is(&tokens[i + 1], "요")
        && (pos_is(&tokens[i + 1], "JX") || pos_is(&tokens[i + 1], "EF")) {
        let stem = strip_suffix_exec(tokens[i].surface.as_str(), "세");
        stem.unicode_len() > 0
    } else {
        false
    }
}

/// Splits the token at `i` into its stem (`VV`) and the suffix.
fn split_stem_ending(tokens: &mut Vec<SejongToken>, i: usize, suffix: &str, ending_pos: &str)
    requires
        i < old(tokens)@.len(),
        is_suffix(suffix@, old(tokens)@[i as int]@.surface),
    ensures
        tokens_view(final(tokens)@) == splice(tokens_view(old(tokens)@), i as int, 1,
            stem_ending_split(old(tokens)@[i as int]@, suffix@, ending_pos@)),
{
    let t = tokens[i].duplicate();
    let stem = strip_suffix_exec(t.surface.as_str(), suffix);
    let n = stem.unicode_len();
    let mid = t.start_pos.saturating_add(n);
    let a = plain(stem.as_str(), "VV", t.start_pos, mid);
    let b = plain(suffix, ending_pos, mid, t.end_pos);
    splice_tokens(tokens, i, 1, two(a, b));
}

fn head_tok(s: &str, p: &str, a: &SejongToken, n: usize) -> (t: SejongToken)
    ensures
        t@ == head(s@, p@, a@, n),
{
    plain(s, p, a.start_pos, a.start_pos.saturating_add(n))
}

fn tail_tok(s: &str, p: &str, a: &SejongToken, n: usize, b: &SejongToken) -> (t: SejongToken)
    ensures
        t@ == tail(s@, p@, a@, n, b@),
{
    plain(s, p, a.start_pos.saturating_add(n), b.end_pos)
}

fn span_tok(s: &str, p: &str, a: &SejongToken, b: &SejongToken) -> (t: SejongToken)
    ensures
        t@ == span(s@, p@, a@, b@),
{
    plain(s, p, a.start_pos, b.end_pos)
}

/// The four lead patterns at `i`, applied; whether one matched.
fn lead_patterns_exec(tokens: &mut Vec<SejongToken>, i: usize) -> (matched: bool)
    requires
        i < old(tokens)@.len(),
    ensures
        (tokens_view(final(tokens)@), matched) == lead_patterns(tokens_view(old(tokens)@), i as int),
{
    let n = tokens.len();
    if n > 3 && i < n - 3 && tok_is(&tokens[i], "오", "VV") && tok_is(&tokens[i + 1], "ㄹ", "ETM")
        && tok_is(&tokens[i + 2], "하", "VV") && (surf_is(&tokens[i + 3], "어") || surf_is(&tokens[i + 3], "아"))
        && pos_is(&tokens[i + 3], "EC") {
        let t = span_tok("올해", "NNG", &tokens[i], &tokens[i + 3]);
        splice_tokens(tokens, i, 4, one(t));
        return true;
    }
    if three_merge(tokens, i, "사", "VV", "ㄴ", "ETM", "책", "NNG") {
        let t = span_tok("산책", "NNG", &tokens[i], &tokens[i + 2]);
        splice_tokens(tokens, i, 3, one(t));
        return true;
    }
    if three_merge(tokens, i, "순", "NNG", "우리", "NP", "말", "NNG") {
        let a = head_tok("순", "XPN", &tokens[i], 1);
        let b = tail_tok("우리말", "NNG", &tokens[i], 1, &tokens[i + 2]);
        splice_tokens(tokens, i, 3, two(a, b));
        return true;
    }
    if two_match(tokens, i, "주", "VX", "가가", "NNG") {
        let a = head_tok("주가", "NNG", &tokens[i], 2);
        let b = tail_tok("가", "JKS", &tokens[i], 2, &tokens[i + 1]);
        splice_tokens(tokens, i, 2, two(a, b));
        return true;
    }
    false
}

/// The first matching pattern at `i`, applied; what it did.
fn merge_cascade_exec(tokens: &mut Vec<SejongToken>, i: usize) -> (outcome: CascadeOutcome)
    requires
        i < old(tokens)@.len(),
    ensures
        (tokens_view(final(tokens)@), outcome) == merge_cascade(tokens_view(old(tokens)@), i as int),
{
    let lead = lead_patterns_exec(tokens, i);
    let n = tokens.len();
    if three_merge(tokens, i, "치", "VV", "ᆫ", "ETM", "구와", "NNG") {
        let a = head_tok("친구", "NNG", &tokens[i], 2);
        let b = tail_tok("와", "JC", &tokens[i], 2, &tokens[i + 2]);
        splice_tokens(tokens, i, 3, two(a, b));
        return CascadeOutcome::Rewritten;
    }
    if lead {
        return CascadeOutcome::Rewritten;
    }
    if three_merge(tokens, i, "날", "NNG", "씨", "EP", "가", "EF") {
        let a = head_tok("날씨", "NNG", &tokens[i], 2);
        let b = tail_tok("가", "JKS", &tokens[i], 2, &tokens[i + 2]);
        splice_tokens(tokens, i, 3, two(a, b));
        return CascadeOutcome::Rewritten;
    }
    if three_merge(tokens, i, "대한", "NNG", "민국", "NNG", "ᆯ", "ETM") {
        let a = head_tok("대한민국", "NNP", &tokens[i], 4);
        splice_tokens(tokens, i, 3, one(a));
        return CascadeOutcome::Rewritten;
    }
    if two_match(tokens, i, "먹", "NNG", "었", "EF") {
        set_pos(tokens, i, "VV");
        set_pos(tokens, i + 1, "EP");
        return CascadeOutcome::Rewritten;
    }
    if two_match(tokens, i, "읽", "VA", "고", "EF") {
        set_pos(tokens, i, "VV");
        set_pos(tokens, i + 1, "EC");
        return CascadeOutcome::Rewritten;
    }
    if i < n - 1 && tok_is(&tokens[i], "있", "EP") && pos_is(&tokens[i + 1], "EF") {
        set_pos(tokens, i, "VX");
        return CascadeOutcome::Rewritten;
    }
    if 0 < i && two_match(tokens, i, "수", "NNB", "도", "JX") && pos_is(&tokens[i - 1], "NNP") {
        let t = span_tok("수도", "NNG", &tokens[i], &tokens[i + 1]);
        splice_tokens(tokens, i, 2, one(t));
        return CascadeOutcome::Rewritten;
    }
    if tok_is(&tokens[i], "가다", "NNG") || tok_is(&tokens[i], "보다", "JKB") || tok_is(&tokens[i], "오다", "NNG") {
        set_pos(tokens, i, "VV");
        return CascadeOutcome::Rewritten;
    }
    if two_match(tokens, i, "먹", "NNG", "다", "EF") {
        let t = span_tok("먹다", "VV", &tokens[i], &tokens[i + 1]);
        splice_tokens(tokens, i, 2, one(t));
        return CascadeOutcome::Rewritten;
    }
    if i < n - 1 && tok_is(&tokens[i], "하", "IC") && surf_starts(&tokens[i + 1], "다") {
        let a = head_tok("하다", "VV", &tokens[i], 2);
        let mut b = tokens[i + 1].duplicate();
        if surf_is(&b, "다하") {
            b.surface = crate::text::owned("하");
            b.start_pos = b.start_pos.saturating_add(1);
        }
        set_token(tokens, i, a);
        set_token(tokens, i + 1, b);
        return CascadeOutcome::Rewritten;
    }
    if 0 < i && tok_is(&tokens[i], "가", "EF") && pos_is(&tokens[i - 1], "VV") {
        set_pos(tokens, i, "EC");
        return CascadeOutcome::Rewritten;
    }
    if after_pred(tokens, i, "고") || after_pred(tokens, i, "서") || after_pred(tokens, i, "면")
        || after_pred(tokens, i, "니") || after_pred(tokens, i, "게") {
        set_pos(tokens, i, "EC");
        return CascadeOutcome::Rewritten;
    }
    if i < n - 1 && tok_is(&tokens[i], "는", "EF") && surf_is(&tokens[i + 1], "데") {
        let t = span_tok("는데", "EC", &tokens[i], &tokens[i + 1]);
        splice_tokens(tokens, i, 2, one(t));
        return CascadeOutcome::Rewritten;
    }
    if tok_is(&tokens[i], "그래요", "IC") {
        let a = head_tok("그러", "VV", &tokens[i], 2);
        let b = tail_tok("어요", "EF", &tokens[i], 2, &tokens[i]);
        splice_tokens(tokens, i, 1, two(a, b));
        return CascadeOutcome::Inserted;
    }
    if tok_is(&tokens[i], "이래요", "IC") {
        let a = head_tok("이러", "VV", &tokens[i], 2);
        let b = tail_tok("어요", "EF", &tokens[i], 2, &tokens[i]);
        splice_tokens(tokens, i, 1, two(a, b));
        return CascadeOutcome::Inserted;
    }
    if tok_is(&tokens[i], "저래요", "IC") {
        let a = head_tok("저러", "VV", &tokens[i], 2);
        let b = tail_tok("어요", "EF", &tokens[i], 2, &tokens[i]);
        splice_tokens(tokens, i, 1, two(a, b));
        return CascadeOutcome::Inserted;
    }
    if seyo_match(tokens, i) {
        let stem = strip_suffix_exec(tokens[i].surface.as_str(), "세");
        let k = stem.unicode_len();
        let a = head_tok(stem.as_str(), "VV", &tokens[i], k);
        let b = tail_tok("세요", "EF", &tokens[i], k, &tokens[i + 1]);
        splice_tokens(tokens, i, 2, two(a, b));
        return CascadeOutcome::Rewritten;
    }
    if ji_match(tokens, i) {
        split_stem_ending(tokens, i, "지", "EC");
        return CascadeOutcome::Inserted;
    }
    if gi_match(tokens, i) {
        split_stem_ending(tokens, i, "기", "ETN");
        return CascadeOutcome::Inserted;
    }
    if n > 2 && i < n - 2 && tok_is(&tokens[i], "고", "EC") && tok_is(&tokens[i + 1], "나", "NP")
        && surf_starts(&tokens[i + 2], "서") {
        let a = plain("고나서", "EC", tokens[i].start_pos, tokens[i + 1].end_pos.saturating_add(1));
        let rem = strip_prefix_exec(tokens[i + 2].surface.as_str(), "서");
        if rem.unicode_len() == 0 {
            splice_tokens(tokens, i, 3, one(a));
        } else {
            let mut b = tokens[i + 2].duplicate();
            b.surface = rem;
            splice_tokens(tokens, i, 3, two(a, b));
        }
        return CascadeOutcome::Rewritten;
    }
    CascadeOutcome::Unmatched
}

/// The ㄹ move at `i`, when it applies.
fn rieul_move_exec(tokens: &mut Vec<SejongToken>, i: usize)
    requires
        i < old(tokens)@.len(),
    ensures
        tokens_view(final(tokens)@) == if rieul_move_cond(tokens_view(old(tokens)@), i as int) {
            rieul_move_apply(tokens_view(old(tokens)@), i as int)
        } else {
            tokens_view(old(tokens)@)
        },
{
    let endings: [&str; 8] = ["까", "까요", "게", "게요", "래", "래요", "지", "지요"];
    assert(crate::tag_map::strs_view(endings@) =~= rieul_endings());
    if i < tokens.len() - 1 && pos_is(&tokens[i], "VV") && pos_is(&tokens[i + 1], "EF")
        && contains_str_list(&endings, tokens[i + 1].surface.as_str()) {
        let cs = chars_of(tokens[i].surface.as_str());
        if cs.len() > 0 {
            match crate::splitter::rieul_stem_exec(&cs, cs.len() - 1) {
                Some(stem) => {
                    let k = stem.unicode_len();
                    let mut r = String::new();
                    crate::text::push_char(&mut r, 'ㄹ');
                    proof {
                        reveal_strlit("ㄹ");
                        assert(r@ == "ㄹ"@);
                    }
                    let ending = concat(r.as_str(), tokens[i + 1].surface.as_str());
                    let a = head_tok(stem.as_str(), "VV", &tokens[i], k);
                    let b = tail_tok(ending.as_str(), "EF", &tokens[i], k, &tokens[i + 1]);
                    splice_tokens(tokens, i, 2, two(a, b));
                },
                None => {},
            }
        }
    }
}

/// Merges wrongly split tokens and repairs the tags around them, left to
/// right: 친/VV ᆫ/ETM 구와/NNG → 친구/NNG 와/JC; 날/NNG 씨/EP 가/EF →
/// 날씨/NNG 가/JKS; 가다/NNG → 가다/VV; 올/VV 까요/EF → 오/VV ㄹ까요/EF; ...
pub fn apply_token_merges(tokens: &mut Vec<SejongToken>)
    ensures
        tokens_view(final(tokens)@) == spec_token_merges(tokens_view(old(tokens)@)),
{
    let ghost orig = tokens_view(tokens@);
    let mut i: usize = 0;
    while i < tokens.len()
        invariant
            i <= tokens@.len() + 1,
            merges_from(tokens_view(tokens@), i as int) == merges_from(orig, 0),
        decreases tokens@.len() + 1 - i,
    {
        let ghost before = tokens_view(tokens@);
        assert(before.len() == tokens@.len());
        proof {
            lemma_merge_step_progress(before, i as int);
        }
        let ghost step = merge_step(before, i as int);
        let outcome = merge_cascade_exec(tokens, i);
        let len_now = tokens.len();
        match outcome {
            CascadeOutcome::Unmatched => {
                rieul_move_exec(tokens, i);
                i += 1;
            },
            CascadeOutcome::Rewritten => {
                i += 1;
            },
            CascadeOutcome::Inserted => {
                assert(len_now == before.len() + 1);
                i += 2;
            },
        }
        assert(tokens_view(tokens@) == step.0);
        assert(tokens_view(tokens@).len() == tokens@.len());
        assert(i as int == step.1);
    }
}

} // verus!
