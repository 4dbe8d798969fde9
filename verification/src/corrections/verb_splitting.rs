//! Verbs split from nouns and suffixes, passive and causative suffixes, honorifics and ending tags.

use vstd::prelude::*;
use crate::converter::tokens_view;
use crate::merges::{strip_suffix, strip_suffix_exec};
use crate::rewrite::{in_list, map_where, pos_is, push_token, scan, set_token, splice, splice_tokens, surf_ends, surf_is};
use crate::text::{is_suffix, owned};
use crate::types::{plain_view, SejongToken, TokenView};

verus! {

/// Where rule 0 of [`p24`] applies.
pub open spec fn p24_c0(ts: Seq<TokenView>, i: int) -> bool {
    ((0 <= i < ts.len() && ts[i].surface == "가기"@) && (0 <= i < ts.len() && ts[i].pos == "NNG"@))
}

/// Where rule 1 of [`p24`] applies.
pub open spec fn p24_c1(ts: Seq<TokenView>, i: int) -> bool {
    ((0 <= i < ts.len() && ts[i].surface == "오기"@) && (0 <= i < ts.len() && ts[i].pos == "NNG"@))
}

/// Where rule 2 of [`p24`] applies.
pub open spec fn p24_c2(ts: Seq<TokenView>, i: int) -> bool {
    ((0 <= i < ts.len() && ts[i].surface == "하기"@) && (0 <= i < ts.len() && ts[i].pos == "NNG"@))
}

/// Where rule 3 of [`p24`] applies.
pub open spec fn p24_c3(ts: Seq<TokenView>, i: int) -> bool {
    ((0 <= i < ts.len() && ts[i].surface == "먹기"@) && (0 <= i < ts.len() && ts[i].pos == "NNG"@))
}

/// Where rule 4 of [`p24`] applies.
pub open spec fn p24_c4(ts: Seq<TokenView>, i: int) -> bool {
    ((0 <= i < ts.len() && ts[i].surface == "보기"@) && (0 <= i < ts.len() && ts[i].pos == "NNG"@))
}

/// Where rule 5 of [`p24`] applies.
pub open spec fn p24_c5(ts: Seq<TokenView>, i: int) -> bool {
    ((0 <= i < ts.len() && ts[i].surface == "듣기"@) && (0 <= i < ts.len() && ts[i].pos == "NNG"@))
}

/// Where rule 6 of [`p24`] applies.
pub open spec fn p24_c6(ts: Seq<TokenView>, i: int) -> bool {
    ((0 <= i < ts.len() && ts[i].surface == "읽기"@) && (0 <= i < ts.len() && ts[i].pos == "NNG"@))
}

/// Where rule 7 of [`p24`] applies.
pub open spec fn p24_c7(ts: Seq<TokenView>, i: int) -> bool {
    ((0 <= i < ts.len() && ts[i].surface == "쓰기"@) && (0 <= i < ts.len() && ts[i].pos == "NNG"@))
}

/// Where rule 8 of [`p24`] applies.
pub open spec fn p24_c8(ts: Seq<TokenView>, i: int) -> bool {
    ((0 <= i < ts.len() && ts[i].surface == "걷기"@) && (0 <= i < ts.len() && ts[i].pos == "NNG"@))
}

/// Where rule 9 of [`p24`] applies.
pub open spec fn p24_c9(ts: Seq<TokenView>, i: int) -> bool {
    ((0 <= i < ts.len() && ts[i].surface == "달리기"@) && (0 <= i < ts.len() && ts[i].pos == "NNG"@))
}

/// Where rule 10 of [`p24`] applies.
pub open spec fn p24_c10(ts: Seq<TokenView>, i: int) -> bool {
    ((0 <= i < ts.len() && ts[i].surface == "말하기"@) && (0 <= i < ts.len() && ts[i].pos == "NNG"@))
}

/// One step of [`p24`] at `i`: the list after it and the next position.
pub open spec fn p24_step(ts: Seq<TokenView>, i: int) -> (Seq<TokenView>, int) {
    if p24_c0(ts, i) {
        (splice(ts, i, 1, seq![plain_view("가"@, "VV"@, ts[i].start_pos, (ts[i].start_pos).saturating_add(1)), plain_view("기"@, "ETN"@, (ts[i].start_pos).saturating_add(1), ts[i].end_pos)]), i + 2)
    } else if p24_c1(ts, i) {
        (splice(ts, i, 1, seq![plain_view("오"@, "VV"@, ts[i].start_pos, (ts[i].start_pos).saturating_add(1)), plain_view("기"@, "ETN"@, (ts[i].start_pos).saturating_add(1), ts[i].end_pos)]), i + 2)
    } else if p24_c2(ts, i) {
        (splice(ts, i, 1, seq![plain_view("하"@, "VV"@, ts[i].start_pos, (ts[i].start_pos).saturating_add(1)), plain_view("기"@, "ETN"@, (ts[i].start_pos).saturating_add(1), ts[i].end_pos)]), i + 2)
    } else if p24_c3(ts, i) {
        (splice(ts, i, 1, seq![plain_view("먹"@, "VV"@, ts[i].start_pos, (ts[i].start_pos).saturating_add(1)), plain_view("기"@, "ETN"@, (ts[i].start_pos).saturating_add(1), ts[i].end_pos)]), i + 2)
    } else if p24_c4(ts, i) {
        (splice(ts, i, 1, seq![plain_view("보"@, "VV"@, ts[i].start_pos, (ts[i].start_pos).saturating_add(1)), plain_view("기"@, "ETN"@, (ts[i].start_pos).saturating_add(1), ts[i].end_pos)]), i + 2)
    } else if p24_c5(ts, i) {
        (splice(ts, i, 1, seq![plain_view("듣"@, "VV"@, ts[i].start_pos, (ts[i].start_pos).saturating_add(1)), plain_view("기"@, "ETN"@, (ts[i].start_pos).saturating_add(1), ts[i].end_pos)]), i + 2)
    } else if p24_c6(ts, i) {
        (splice(ts, i, 1, seq![plain_view("읽"@, "VV"@, ts[i].start_pos, (ts[i].start_pos).saturating_add(1)), plain_view("기"@, "ETN"@, (ts[i].start_pos).saturating_add(1), ts[i].end_pos)]), i + 2)
    } else if p24_c7(ts, i) {
        (splice(ts, i, 1, seq![plain_view("쓰"@, "VV"@, ts[i].start_pos, (ts[i].start_pos).saturating_add(1)), plain_view("기"@, "ETN"@, (ts[i].start_pos).saturating_add(1), ts[i].end_pos)]), i + 2)
    } else if p24_c8(ts, i) {
        (splice(ts, i, 1, seq![plain_view("걷"@, "VV"@, ts[i].start_pos, (ts[i].start_pos).saturating_add(1)), plain_view("기"@, "ETN"@, (ts[i].start_pos).saturating_add(1), ts[i].end_pos)]), i + 2)
    } else if p24_c9(ts, i) {
        (splice(ts, i, 1, seq![plain_view("달리"@, "VV"@, ts[i].start_pos, (ts[i].start_pos).saturating_add(2)), plain_view("기"@, "ETN"@, (ts[i].start_pos).saturating_add(2), ts[i].end_pos)]), i + 2)
    } else if p24_c10(ts, i) {
        (splice(ts, i, 1, seq![plain_view("말하"@, "VV"@, ts[i].start_pos, (ts[i].start_pos).saturating_add(2)), plain_view("기"@, "ETN"@, (ts[i].start_pos).saturating_add(2), ts[i].end_pos)]), i + 2)
    } else {
        (ts, i + 1)
    }
}

/// [`p24_step`] as a function value.
pub open spec fn p24_f() -> spec_fn(Seq<TokenView>, int) -> (Seq<TokenView>, int) {
    |ts: Seq<TokenView>, i: int| p24_step(ts, i)
}

/// A nominalised verb is split into the stem and 기/ETN (가기/NNG → 가/VV 기/ETN).
pub open spec fn p24(ts: Seq<TokenView>) -> Seq<TokenView> {
    scan(ts, 0, p24_f())
}

/// Whether rule 0 of [`p24`] applies at `i`.
fn p24_c0_exec(tokens: &Vec<SejongToken>, i: usize) -> (r: bool)
    requires
        i < tokens@.len(),
    ensures
        r == p24_c0(tokens_view(tokens@), i as int),
{
    assert(tokens_view(tokens@).len() == tokens@.len());
    let c0 = surf_is(&tokens[i], "가기");
    let c1 = pos_is(&tokens[i], "NNG");
    (c0 && c1)
}

/// Whether rule 1 of [`p24`] applies at `i`.
fn p24_c1_exec(tokens: &Vec<SejongToken>, i: usize) -> (r: bool)
    requires
        i < tokens@.len(),
    ensures
        r == p24_c1(tokens_view(tokens@), i as int),
{
    assert(tokens_view(tokens@).len() == tokens@.len());
    let c2 = surf_is(&tokens[i], "오기");
    let c3 = pos_is(&tokens[i], "NNG");
    (c2 && c3)
}

/// Whether rule 2 of [`p24`] applies at `i`.
fn p24_c2_exec(tokens: &Vec<SejongToken>, i: usize) -> (r: bool)
    requires
        i < tokens@.len(),
    ensures
        r == p24_c2(tokens_view(tokens@), i as int),
{
    assert(tokens_view(tokens@).len() == tokens@.len());
    let c4 = surf_is(&tokens[i], "하기");
    let c5 = pos_is(&tokens[i], "NNG");
    (c4 && c5)
}

/// Whether rule 3 of [`p24`] applies at `i`.
fn p24_c3_exec(tokens: &Vec<SejongToken>, i: usize) -> (r: bool)
    requires
        i < tokens@.len(),
    ensures
        r == p24_c3(tokens_view(tokens@), i as int),
{
    assert(tokens_view(tokens@).len() == tokens@.len());
    let c6 = surf_is(&tokens[i], "먹기");
    let c7 = pos_is(&tokens[i], "NNG");
    (c6 && c7)
}

/// Whether rule 4 of [`p24`] applies at `i`.
fn p24_c4_exec(tokens: &Vec<SejongToken>, i: usize) -> (r: bool)
    requires
        i < tokens@.len(),
    ensures
        r == p24_c4(tokens_view(tokens@), i as int),
{
    assert(tokens_view(tokens@).len() == tokens@.len());
    let c8 = surf_is(&tokens[i], "보기");
    let c9 = pos_is(&tokens[i], "NNG");
    (c8 && c9)
}

/// Whether rule 5 of [`p24`] applies at `i`.
fn p24_c5_exec(tokens: &Vec<SejongToken>, i: usize) -> (r: bool)
    requires
        i < tokens@.len(),
    ensures
        r == p24_c5(tokens_view(tokens@), i as int),
{
    assert(tokens_view(tokens@).len() == tokens@.len());
    let c10 = surf_is(&tokens[i], "듣기");
    let c11 = pos_is(&tokens[i], "NNG");
    (c10 && c11)
}

/// Whether rule 6 of [`p24`] applies at `i`.
fn p24_c6_exec(tokens: &Vec<SejongToken>, i: usize) -> (r: bool)
    requires
        i < tokens@.len(),
    ensures
        r == p24_c6(tokens_view(tokens@), i as int),
{
    assert(tokens_view(tokens@).len() == tokens@.len());
    let c12 = surf_is(&tokens[i], "읽기");
    let c13 = pos_is(&tokens[i], "NNG");
    (c12 && c13)
}

/// Whether rule 7 of [`p24`] applies at `i`.
fn p24_c7_exec(tokens: &Vec<SejongToken>, i: usize) -> (r: bool)
    requires
        i < tokens@.len(),
    ensures
        r == p24_c7(tokens_view(tokens@), i as int),
{
    assert(tokens_view(tokens@).len() == tokens@.len());
    let c14 = surf_is(&tokens[i], "쓰기");
    let c15 = pos_is(&tokens[i], "NNG");
    (c14 && c15)
}

/// Whether rule 8 of [`p24`] applies at `i`.
fn p24_c8_exec(tokens: &Vec<SejongToken>, i: usize) -> (r: bool)
    requires
        i < tokens@.len(),
    ensures
        r == p24_c8(tokens_view(tokens@), i as int),
{
    assert(tokens_view(tokens@).len() == tokens@.len());
    let c16 = surf_is(&tokens[i], "걷기");
    let c17 = pos_is(&tokens[i], "NNG");
    (c16 && c17)
}

/// Whether rule 9 of [`p24`] applies at `i`.
fn p24_c9_exec(tokens: &Vec<SejongToken>, i: usize) -> (r: bool)
    requires
        i < tokens@.len(),
    ensures
        r == p24_c9(tokens_view(tokens@), i as int),
{
    assert(tokens_view(tokens@).len() == tokens@.len());
    let c18 = surf_is(&tokens[i], "달리기");
    let c19 = pos_is(&tokens[i], "NNG");
    (c18 && c19)
}

/// Whether rule 10 of [`p24`] applies at `i`.
fn p24_c10_exec(tokens: &Vec<SejongToken>, i: usize) -> (r: bool)
    requires
        i < tokens@.len(),
    ensures
        r == p24_c10(tokens_view(tokens@), i as int),
{
    assert(tokens_view(tokens@).len() == tokens@.len());
    let c20 = surf_is(&tokens[i], "말하기");
    let c21 = pos_is(&tokens[i], "NNG");
    (c20 && c21)
}

/// One step of [`p24`] at `i`; returns the next position.
#[verifier::rlimit(50)]
fn p24_step_exec(tokens: &mut Vec<SejongToken>, i: usize) -> (next: usize)
    requires
        i < old(tokens)@.len(),
    ensures
        (tokens_view(final(tokens)@), next as int) == p24_step(tokens_view(old(tokens)@), i as int),
        final(tokens)@.len() - next < old(tokens)@.len() - i,
        next <= final(tokens)@.len() + 1,
{
    let len0 = tokens.len();
    assert(tokens_view(tokens@).len() == tokens@.len());
    if p24_c0_exec(tokens, i) {
        let s23 = owned("가");
        let s24 = owned("VV");
        let n25 = tokens[i].start_pos;
        let n27 = tokens[i].start_pos;
        let n26 = n27.saturating_add(1);
        let t22 = SejongToken::new(s23.as_str(), s24.as_str(), n25, n26);
        let s29 = owned("기");
        let s30 = owned("ETN");
        let n32 = tokens[i].start_pos;
        let n31 = n32.saturating_add(1);
        let n33 = tokens[i].end_pos;
        let t28 = SejongToken::new(s29.as_str(), s30.as_str(), n31, n33);
        let mut nv34: Vec<SejongToken> = Vec::new();
        push_token(&mut nv34, t22);
        push_token(&mut nv34, t28);
        splice_tokens(tokens, i, 1, nv34);
        let _len1 = tokens.len();
        return i + 2;
    }
    if p24_c1_exec(tokens, i) {
        let s36 = owned("오");
        let s37 = owned("VV");
        let n38 = tokens[i].start_pos;
        let n40 = tokens[i].start_pos;
        let n39 = n40.saturating_add(1);
        let t35 = SejongToken::new(s36.as_str(), s37.as_str(), n38, n39);
        let s42 = owned("기");
        let s43 = owned("ETN");
        let n45 = tokens[i].start_pos;
        let n44 = n45.saturating_add(1);
        let n46 = tokens[i].end_pos;
        let t41 = SejongToken::new(s42.as_str(), s43.as_str(), n44, n46);
        let mut nv47: Vec<SejongToken> = Vec::new();
        push_token(&mut nv47, t35);
        push_token(&mut nv47, t41);
        splice_tokens(tokens, i, 1, nv47);
        let _len1 = tokens.len();
        return i + 2;
    }
    if p24_c2_exec(tokens, i) {
        let s49 = owned("하");
        let s50 = owned("VV");
        let n51 = tokens[i].start_pos;
        let n53 = tokens[i].start_pos;
        let n52 = n53.saturating_add(1);
        let t48 = SejongToken::new(s49.as_str(), s50.as_str(), n51, n52);
        let s55 = owned("기");
        let s56 = owned("ETN");
        let n58 = tokens[i].start_pos;
        let n57 = n58.saturating_add(1);
        let n59 = tokens[i].end_pos;
        let t54 = SejongToken::new(s55.as_str(), s56.as_str(), n57, n59);
        let mut nv60: Vec<SejongToken> = Vec::new();
        push_token(&mut nv60, t48);
        push_token(&mut nv60, t54);
        splice_tokens(tokens, i, 1, nv60);
        let _len1 = tokens.len();
        return i + 2;
    }
    if p24_c3_exec(tokens, i) {
        let s62 = owned("먹");
        let s63 = owned("VV");
        let n64 = tokens[i].start_pos;
        let n66 = tokens[i].start_pos;
        let n65 = n66.saturating_add(1);
        let t61 = SejongToken::new(s62.as_str(), s63.as_str(), n64, n65);
        let s68 = owned("기");
        let s69 = owned("ETN");
        let n71 = tokens[i].start_pos;
        let n70 = n71.saturating_add(1);
        let n72 = tokens[i].end_pos;
        let t67 = SejongToken::new(s68.as_str(), s69.as_str(), n70, n72);
        let mut nv73: Vec<SejongToken> = Vec::new();
        push_token(&mut nv73, t61);
        push_token(&mut nv73, t67);
        splice_tokens(tokens, i, 1, nv73);
        let _len1 = tokens.len();
        return i + 2;
    }
    if p24_c4_exec(tokens, i) {
        let s75 = owned("보");
        let s76 = owned("VV");
        let n77 = tokens[i].start_pos;
        let n79 = tokens[i].start_pos;
        let n78 = n79.saturating_add(1);
        let t74 = SejongToken::new(s75.as_str(), s76.as_str(), n77, n78);
        let s81 = owned("기");
        let s82 = owned("ETN");
        let n84 = tokens[i].start_pos;
        let n83 = n84.saturating_add(1);
        let n85 = tokens[i].end_pos;
        let t80 = SejongToken::new(s81.as_str(), s82.as_str(), n83, n85);
        let mut nv86: Vec<SejongToken> = Vec::new();
        push_token(&mut nv86, t74);
        push_token(&mut nv86, t80);
        splice_tokens(tokens, i, 1, nv86);
        let _len1 = tokens.len();
        return i + 2;
    }
    if p24_c5_exec(tokens, i) {
        let s88 = owned("듣");
        let s89 = owned("VV");
        let n90 = tokens[i].start_pos;
        let n92 = tokens[i].start_pos;
        let n91 = n92.saturating_add(1);
        let t87 = SejongToken::new(s88.as_str(), s89.as_str(), n90, n91);
        let s94 = owned("기");
        let s95 = owned("ETN");
        let n97 = tokens[i].start_pos;
        let n96 = n97.saturating_add(1);
        let n98 = tokens[i].end_pos;
        let t93 = SejongToken::new(s94.as_str(), s95.as_str(), n96, n98);
        let mut nv99: Vec<SejongToken> = Vec::new();
        push_token(&mut nv99, t87);
        push_token(&mut nv99, t93);
        splice_tokens(tokens, i, 1, nv99);
        let _len1 = tokens.len();
        return i + 2;
    }
    if p24_c6_exec(tokens, i) {
        let s101 = owned("읽");
        let s102 = owned("VV");
        let n103 = tokens[i].start_pos;
        let n105 = tokens[i].start_pos;
        let n104 = n105.saturating_add(1);
        let t100 = SejongToken::new(s101.as_str(), s102.as_str(), n103, n104);
        let s107 = owned("기");
        let s108 = owned("ETN");
        let n110 = tokens[i].start_pos;
        let n109 = n110.saturating_add(1);
        let n111 = tokens[i].end_pos;
        let t106 = SejongToken::new(s107.as_str(), s108.as_str(), n109, n111);
        let mut nv112: Vec<SejongToken> = Vec::new();
        push_token(&mut nv112, t100);
        push_token(&mut nv112, t106);
        splice_tokens(tokens, i, 1, nv112);
        let _len1 = tokens.len();
        return i + 2;
    }
    if p24_c7_exec(tokens, i) {
        let s114 = owned("쓰");
        let s115 = owned("VV");
        let n116 = tokens[i].start_pos;
        let n118 = tokens[i].start_pos;
        let n117 = n118.saturating_add(1);
        let t113 = SejongToken::new(s114.as_str(), s115.as_str(), n116, n117);
        let s120 = owned("기");
        let s121 = owned("ETN");
        let n123 = tokens[i].start_pos;
        let n122 = n123.saturating_add(1);
        let n124 = tokens[i].end_pos;
        let t119 = SejongToken::new(s120.as_str(), s121.as_str(), n122, n124);
        let mut nv125: Vec<SejongToken> = Vec::new();
        push_token(&mut nv125, t113);
        push_token(&mut nv125, t119);
        splice_tokens(tokens, i, 1, nv125);
        let _len1 = tokens.len();
        return i + 2;
    }
    if p24_c8_exec(tokens, i) {
        let s127 = owned("걷");
        let s128 = owned("VV");
        let n129 = tokens[i].start_pos;
        let n131 = tokens[i].start_pos;
        let n130 = n131.saturating_add(1);
        let t126 = SejongToken::new(s127.as_str(), s128.as_str(), n129, n130);
        let s133 = owned("기");
        let s134 = owned("ETN");
        let n136 = tokens[i].start_pos;
        let n135 = n136.saturating_add(1);
        let n137 = tokens[i].end_pos;
        let t132 = SejongToken::new(s133.as_str(), s134.as_str(), n135, n137);
        let mut nv138: Vec<SejongToken> = Vec::new();
        push_token(&mut nv138, t126);
        push_token(&mut nv138, t132);
        splice_tokens(tokens, i, 1, nv138);
        let _len1 = tokens.len();
        return i + 2;
    }
    if p24_c9_exec(tokens, i) {
        let s140 = owned("달리");
        let s141 = owned("VV");
        let n142 = tokens[i].start_pos;
        let n144 = tokens[i].start_pos;
        let n143 = n144.saturating_add(2);
        let t139 = SejongToken::new(s140.as_str(), s141.as_str(), n142, n143);
        let s146 = owned("기");
        let s147 = owned("ETN");
        let n149 = tokens[i].start_pos;
        let n148 = n149.saturating_add(2);
        let n150 = tokens[i].end_pos;
        let t145 = SejongToken::new(s146.as_str(), s147.as_str(), n148, n150);
        let mut nv151: Vec<SejongToken> = Vec::new();
        push_token(&mut nv151, t139);
        push_token(&mut nv151, t145);
        splice_tokens(tokens, i, 1, nv151);
        let _len1 = tokens.len();
        return i + 2;
    }
    if p24_c10_exec(tokens, i) {
        let s153 = owned("말하");
        let s154 = owned("VV");
        let n155 = tokens[i].start_pos;
        let n157 = tokens[i].start_pos;
        let n156 = n157.saturating_add(2);
        let t152 = SejongToken::new(s153.as_str(), s154.as_str(), n155, n156);
        let s159 = owned("기");
        let s160 = owned("ETN");
        let n162 = tokens[i].start_pos;
        let n161 = n162.saturating_add(2);
        let n163 = tokens[i].end_pos;
        let t158 = SejongToken::new(s159.as_str(), s160.as_str(), n161, n163);
        let mut nv164: Vec<SejongToken> = Vec::new();
        push_token(&mut nv164, t152);
        push_token(&mut nv164, t158);
        splice_tokens(tokens, i, 1, nv164);
        let _len1 = tokens.len();
        return i + 2;
    }
    i + 1
}

/// A nominalised verb is split into the stem and 기/ETN (가기/NNG → 가/VV 기/ETN).
pub fn apply_p24(tokens: &mut Vec<SejongToken>)
    ensures
        tokens_view(final(tokens)@) == p24(tokens_view(old(tokens)@)),
{
    let ghost orig = tokens_view(tokens@);
    let mut i: usize = 0;
    while i < tokens.len()
        invariant
            i <= tokens@.len() + 1,
            scan(tokens_view(tokens@), i as int, p24_f()) == scan(orig, 0, p24_f()),
        decreases tokens@.len() + 1 - i,
    {
        let ghost before = tokens_view(tokens@);
        assert(before.len() == tokens@.len());
        i = p24_step_exec(tokens, i);
        assert(tokens_view(tokens@).len() == tokens@.len());
    }
}

/// Where rule 0 of [`p25`] applies.
pub open spec fn p25_c0(ts: Seq<TokenView>, i: int) -> bool {
    ((0 <= i < ts.len() && ts[i].surface == "말씀하"@) && (0 <= i < ts.len() && ts[i].pos == "VV"@))
}

/// Where rule 1 of [`p25`] applies.
pub open spec fn p25_c1(ts: Seq<TokenView>, i: int) -> bool {
    ((0 <= i < ts.len() && ts[i].surface == "공부하"@) && (0 <= i < ts.len() && ts[i].pos == "VV"@))
}

/// Where rule 2 of [`p25`] applies.
pub open spec fn p25_c2(ts: Seq<TokenView>, i: int) -> bool {
    ((0 <= i < ts.len() && ts[i].surface == "준비하"@) && (0 <= i < ts.len() && ts[i].pos == "VV"@))
}

/// Where rule 3 of [`p25`] applies.
pub open spec fn p25_c3(ts: Seq<TokenView>, i: int) -> bool {
    ((0 <= i < ts.len() && ts[i].surface == "사용하"@) && (0 <= i < ts.len() && ts[i].pos == "VV"@))
}

/// Where rule 4 of [`p25`] applies.
pub open spec fn p25_c4(ts: Seq<TokenView>, i: int) -> bool {
    ((0 <= i < ts.len() && ts[i].surface == "시작하"@) && (0 <= i < ts.len() && ts[i].pos == "VV"@))
}

/// Where rule 5 of [`p25`] applies.
pub open spec fn p25_c5(ts: Seq<TokenView>, i: int) -> bool {
    ((0 <= i < ts.len() && ts[i].surface == "운동하"@) && (0 <= i < ts.len() && ts[i].pos == "VV"@))
}

/// Where rule 6 of [`p25`] applies.
pub open spec fn p25_c6(ts: Seq<TokenView>, i: int) -> bool {
    ((0 <= i < ts.len() && ts[i].surface == "요리하"@) && (0 <= i < ts.len() && ts[i].pos == "VV"@))
}

/// Where rule 7 of [`p25`] applies.
pub open spec fn p25_c7(ts: Seq<TokenView>, i: int) -> bool {
    ((0 <= i < ts.len() && ts[i].surface == "청소하"@) && (0 <= i < ts.len() && ts[i].pos == "VV"@))
}

/// Where rule 8 of [`p25`] applies.
pub open spec fn p25_c8(ts: Seq<TokenView>, i: int) -> bool {
    ((0 <= i < ts.len() && ts[i].surface == "여행하"@) && (0 <= i < ts.len() && ts[i].pos == "VV"@))
}

/// Where rule 9 of [`p25`] applies.
pub open spec fn p25_c9(ts: Seq<TokenView>, i: int) -> bool {
    ((0 <= i < ts.len() && ts[i].surface == "산책하"@) && (0 <= i < ts.len() && ts[i].pos == "VV"@))
}

/// Where rule 10 of [`p25`] applies.
pub open spec fn p25_c10(ts: Seq<TokenView>, i: int) -> bool {
    ((0 <= i < ts.len() && ts[i].surface == "연습하"@) && (0 <= i < ts.len() && ts[i].pos == "VV"@))
}

/// Where rule 11 of [`p25`] applies.
pub open spec fn p25_c11(ts: Seq<TokenView>, i: int) -> bool {
    ((0 <= i < ts.len() && ts[i].surface == "설명하"@) && (0 <= i < ts.len() && ts[i].pos == "VV"@))
}

/// One step of [`p25`] at `i`: the list after it and the next position.
pub open spec fn p25_step(ts: Seq<TokenView>, i: int) -> (Seq<TokenView>, int) {
    if p25_c0(ts, i) {
        (splice(ts, i, 1, seq![plain_view("말씀"@, "NNG"@, ts[i].start_pos, (ts[i].start_pos).saturating_add(2)), plain_view("하"@, "VV"@, (ts[i].start_pos).saturating_add(2), ts[i].end_pos)]), i + 2)
    } else if p25_c1(ts, i) {
        (splice(ts, i, 1, seq![plain_view("공부"@, "NNG"@, ts[i].start_pos, (ts[i].start_pos).saturating_add(2)), plain_view("하"@, "VV"@, (ts[i].start_pos).saturating_add(2), ts[i].end_pos)]), i + 2)
    } else if p25_c2(ts, i) {
        (splice(ts, i, 1, seq![plain_view("준비"@, "NNG"@, ts[i].start_pos, (ts[i].start_pos).saturating_add(2)), plain_view("하"@, "VV"@, (ts[i].start_pos).saturating_add(2), ts[i].end_pos)]), i + 2)
    } else if p25_c3(ts, i) {
        (splice(ts, i, 1, seq![plain_view("사용"@, "NNG"@, ts[i].start_pos, (ts[i].start_pos).saturating_add(2)), plain_view("하"@, "VV"@, (ts[i].start_pos).saturating_add(2), ts[i].end_pos)]), i + 2)
    } else if p25_c4(ts, i) {
        (splice(ts, i, 1, seq![plain_view("시작"@, "NNG"@, ts[i].start_pos, (ts[i].start_pos).saturating_add(2)), plain_view("하"@, "VV"@, (ts[i].start_pos).saturating_add(2), ts[i].end_pos)]), i + 2)
    } else if p25_c5(ts, i) {
        (splice(ts, i, 1, seq![plain_view("운동"@, "NNG"@, ts[i].start_pos, (ts[i].start_pos).saturating_add(2)), plain_view("하"@, "VV"@, (ts[i].start_pos).saturating_add(2), ts[i].end_pos)]), i + 2)
    } else if p25_c6(ts, i) {
        (splice(ts, i, 1, seq![plain_view("요리"@, "NNG"@, ts[i].start_pos, (ts[i].start_pos).saturating_add(2)), plain_view("하"@, "VV"@, (ts[i].start_pos).saturating_add(2), ts[i].end_pos)]), i + 2)
    } else if p25_c7(ts, i) {
        (splice(ts, i, 1, seq![plain_view("청소"@, "NNG"@, ts[i].start_pos, (ts[i].start_pos).saturating_add(2)), plain_view("하"@, "VV"@, (ts[i].start_pos).saturating_add(2), ts[i].end_pos)]), i + 2)
    } else if p25_c8(ts, i) {
        (splice(ts, i, 1, seq![plain_view("여행"@, "NNG"@, ts[i].start_pos, (ts[i].start_pos).saturating_add(2)), plain_view("하"@, "VV"@, (ts[i].start_pos).saturating_add(2), ts[i].end_pos)]), i + 2)
    } else if p25_c9(ts, i) {
        (splice(ts, i, 1, seq![plain_view("산책"@, "NNG"@, ts[i].start_pos, (ts[i].start_pos).saturating_add(2)), plain_view("하"@, "VV"@, (ts[i].start_pos).saturating_add(2), ts[i].end_pos)]), i + 2)
    } else if p25_c10(ts, i) {
        (splice(ts, i, 1, seq![plain_view("연습"@, "NNG"@, ts[i].start_pos, (ts[i].start_pos).saturating_add(2)), plain_view("하"@, "VV"@, (ts[i].start_pos).saturating_add(2), ts[i].end_pos)]), i + 2)
    } else if p25_c11(ts, i) {
        (splice(ts, i, 1, seq![plain_view("설명"@, "NNG"@, ts[i].start_pos, (ts[i].start_pos).saturating_add(2)), plain_view("하"@, "VV"@, (ts[i].start_pos).saturating_add(2), ts[i].end_pos)]), i + 2)
    } else {
        (ts, i + 1)
    }
}

/// [`p25_step`] as a function value.
pub open spec fn p25_f() -> spec_fn(Seq<TokenView>, int) -> (Seq<TokenView>, int) {
    |ts: Seq<TokenView>, i: int| p25_step(ts, i)
}

/// A noun-하 verb is split into the noun and 하/VV (공부하/VV → 공부/NNG 하/VV).
pub open spec fn p25(ts: Seq<TokenView>) -> Seq<TokenView> {
    scan(ts, 0, p25_f())
}

/// Whether rule 0 of [`p25`] applies at `i`.
fn p25_c0_exec(tokens: &Vec<SejongToken>, i: usize) -> (r: bool)
    requires
        i < tokens@.len(),
    ensures
        r == p25_c0(tokens_view(tokens@), i as int),
{
    assert(tokens_view(tokens@).len() == tokens@.len());
    let c165 = surf_is(&tokens[i], "말씀하");
    let c166 = pos_is(&tokens[i], "VV");
    (c165 && c166)
}

/// Whether rule 1 of [`p25`] applies at `i`.
fn p25_c1_exec(tokens: &Vec<SejongToken>, i: usize) -> (r: bool)
    requires
        i < tokens@.len(),
    ensures
        r == p25_c1(tokens_view(tokens@), i as int),
{
    assert(tokens_view(tokens@).len() == tokens@.len());
    let c167 = surf_is(&tokens[i], "공부하");
    let c168 = pos_is(&tokens[i], "VV");
    (c167 && c168)
}

/// Whether rule 2 of [`p25`] applies at `i`.
fn p25_c2_exec(tokens: &Vec<SejongToken>, i: usize) -> (r: bool)
    requires
        i < tokens@.len(),
    ensures
        r == p25_c2(tokens_view(tokens@), i as int),
{
    assert(tokens_view(tokens@).len() == tokens@.len());
    let c169 = surf_is(&tokens[i], "준비하");
    let c170 = pos_is(&tokens[i], "VV");
    (c169 && c170)
}

/// Whether rule 3 of [`p25`] applies at `i`.
fn p25_c3_exec(tokens: &Vec<SejongToken>, i: usize) -> (r: bool)
    requires
        i < tokens@.len(),
    ensures
        r == p25_c3(tokens_view(tokens@), i as int),
{
    assert(tokens_view(tokens@).len() == tokens@.len());
    let c171 = surf_is(&tokens[i], "사용하");
    let c172 = pos_is(&tokens[i], "VV");
    (c171 && c172)
}

/// Whether rule 4 of [`p25`] applies at `i`.
fn p25_c4_exec(tokens: &Vec<SejongToken>, i: usize) -> (r: bool)
    requires
        i < tokens@.len(),
    ensures
        r == p25_c4(tokens_view(tokens@), i as int),
{
    assert(tokens_view(tokens@).len() == tokens@.len());
    let c173 = surf_is(&tokens[i], "시작하");
    let c174 = pos_is(&tokens[i], "VV");
    (c173 && c174)
}

/// Whether rule 5 of [`p25`] applies at `i`.
fn p25_c5_exec(tokens: &Vec<SejongToken>, i: usize) -> (r: bool)
    requires
        i < tokens@.len(),
    ensures
        r == p25_c5(tokens_view(tokens@), i as int),
{
    assert(tokens_view(tokens@).len() == tokens@.len());
    let c175 = surf_is(&tokens[i], "운동하");
    let c176 = pos_is(&tokens[i], "VV");
    (c175 && c176)
}

/// Whether rule 6 of [`p25`] applies at `i`.
fn p25_c6_exec(tokens: &Vec<SejongToken>, i: usize) -> (r: bool)
    requires
        i < tokens@.len(),
    ensures
        r == p25_c6(tokens_view(tokens@), i as int),
{
    assert(tokens_view(tokens@).len() == tokens@.len());
    let c177 = surf_is(&tokens[i], "요리하");
    let c178 = pos_is(&tokens[i], "VV");
    (c177 && c178)
}

/// Whether rule 7 of [`p25`] applies at `i`.
fn p25_c7_exec(tokens: &Vec<SejongToken>, i: usize) -> (r: bool)
    requires
        i < tokens@.len(),
    ensures
        r == p25_c7(tokens_view(tokens@), i as int),
{
    assert(tokens_view(tokens@).len() == tokens@.len());
    let c179 = surf_is(&tokens[i], "청소하");
    let c180 = pos_is(&tokens[i], "VV");
    (c179 && c180)
}

/// Whether rule 8 of [`p25`] applies at `i`.
fn p25_c8_exec(tokens: &Vec<SejongToken>, i: usize) -> (r: bool)
    requires
        i < tokens@.len(),
    ensures
        r == p25_c8(tokens_view(tokens@), i as int),
{
    assert(tokens_view(tokens@).len() == tokens@.len());
    let c181 = surf_is(&tokens[i], "여행하");
    let c182 = pos_is(&tokens[i], "VV");
    (c181 && c182)
}

/// Whether rule 9 of [`p25`] applies at `i`.
fn p25_c9_exec(tokens: &Vec<SejongToken>, i: usize) -> (r: bool)
    requires
        i < tokens@.len(),
    ensures
        r == p25_c9(tokens_view(tokens@), i as int),
{
    assert(tokens_view(tokens@).len() == tokens@.len());
    let c183 = surf_is(&tokens[i], "산책하");
    let c184 = pos_is(&tokens[i], "VV");
    (c183 && c184)
}

/// Whether rule 10 of [`p25`] applies at `i`.
fn p25_c10_exec(tokens: &Vec<SejongToken>, i: usize) -> (r: bool)
    requires
        i < tokens@.len(),
    ensures
        r == p25_c10(tokens_view(tokens@), i as int),
{
    assert(tokens_view(tokens@).len() == tokens@.len());
    let c185 = surf_is(&tokens[i], "연습하");
    let c186 = pos_is(&tokens[i], "VV");
    (c185 && c186)
}

/// Whether rule 11 of [`p25`] applies at `i`.
fn p25_c11_exec(tokens: &Vec<SejongToken>, i: usize) -> (r: bool)
    requires
        i < tokens@.len(),
    ensures
        r == p25_c11(tokens_view(tokens@), i as int),
{
    assert(tokens_view(tokens@).len() == tokens@.len());
    let c187 = surf_is(&tokens[i], "설명하");
    let c188 = pos_is(&tokens[i], "VV");
    (c187 && c188)
}

/// One step of [`p25`] at `i`; returns the next position.
#[verifier::rlimit(50)]
fn p25_step_exec(tokens: &mut Vec<SejongToken>, i: usize) -> (next: usize)
    requires
        i < old(tokens)@.len(),
    ensures
        (tokens_view(final(tokens)@), next as int) == p25_step(tokens_view(old(tokens)@), i as int),
        final(tokens)@.len() - next < old(tokens)@.len() - i,
        next <= final(tokens)@.len() + 1,
{
    let len0 = tokens.len();
    assert(tokens_view(tokens@).len() == tokens@.len());
    if p25_c0_exec(tokens, i) {
        let s190 = owned("말씀");
        let s191 = owned("NNG");
        let n192 = tokens[i].start_pos;
        let n194 = tokens[i].start_pos;
        let n193 = n194.saturating_add(2);
        let t189 = SejongToken::new(s190.as_str(), s191.as_str(), n192, n193);
        let s196 = owned("하");
        let s197 = owned("VV");
        let n199 = tokens[i].start_pos;
        let n198 = n199.saturating_add(2);
        let n200 = tokens[i].end_pos;
        let t195 = SejongToken::new(s196.as_str(), s197.as_str(), n198, n200);
        let mut nv201: Vec<SejongToken> = Vec::new();
        push_token(&mut nv201, t189);
        push_token(&mut nv201, t195);
        splice_tokens(tokens, i, 1, nv201);
        let _len1 = tokens.len();
        return i + 2;
    }
    if p25_c1_exec(tokens, i) {
        let s203 = owned("공부");
        let s204 = owned("NNG");
        let n205 = tokens[i].start_pos;
        let n207 = tokens[i].start_pos;
        let n206 = n207.saturating_add(2);
        let t202 = SejongToken::new(s203.as_str(), s204.as_str(), n205, n206);
        let s209 = owned("하");
        let s210 = owned("VV");
        let n212 = tokens[i].start_pos;
        let n211 = n212.saturating_add(2);
        let n213 = tokens[i].end_pos;
        let t208 = SejongToken::new(s209.as_str(), s210.as_str(), n211, n213);
        let mut nv214: Vec<SejongToken> = Vec::new();
        push_token(&mut nv214, t202);
        push_token(&mut nv214, t208);
        splice_tokens(tokens, i, 1, nv214);
        let _len1 = tokens.len();
        return i + 2;
    }
    if p25_c2_exec(tokens, i) {
        let s216 = owned("준비");
        let s217 = owned("NNG");
        let n218 = tokens[i].start_pos;
        let n220 = tokens[i].start_pos;
        let n219 = n220.saturating_add(2);
        let t215 = SejongToken::new(s216.as_str(), s217.as_str(), n218, n219);
        let s222 = owned("하");
        let s223 = owned("VV");
        let n225 = tokens[i].start_pos;
        let n224 = n225.saturating_add(2);
        let n226 = tokens[i].end_pos;
        let t221 = SejongToken::new(s222.as_str(), s223.as_str(), n224, n226);
        let mut nv227: Vec<SejongToken> = Vec::new();
        push_token(&mut nv227, t215);
        push_token(&mut nv227, t221);
        splice_tokens(tokens, i, 1, nv227);
        let _len1 = tokens.len();
        return i + 2;
    }
    if p25_c3_exec(tokens, i) {
        let s229 = owned("사용");
        let s230 = owned("NNG");
        let n231 = tokens[i].start_pos;
        let n233 = tokens[i].start_pos;
        let n232 = n233.saturating_add(2);
        let t228 = SejongToken::new(s229.as_str(), s230.as_str(), n231, n232);
        let s235 = owned("하");
        let s236 = owned("VV");
        let n238 = tokens[i].start_pos;
        let n237 = n238.saturating_add(2);
        let n239 = tokens[i].end_pos;
        let t234 = SejongToken::new(s235.as_str(), s236.as_str(), n237, n239);
        let mut nv240: Vec<SejongToken> = Vec::new();
        push_token(&mut nv240, t228);
        push_token(&mut nv240, t234);
        splice_tokens(tokens, i, 1, nv240);
        let _len1 = tokens.len();
        return i + 2;
    }
    if p25_c4_exec(tokens, i) {
        let s242 = owned("시작");
        let s243 = owned("NNG");
        let n244 = tokens[i].start_pos;
        let n246 = tokens[i].start_pos;
        let n245 = n246.saturating_add(2);
        let t241 = SejongToken::new(s242.as_str(), s243.as_str(), n244, n245);
        let s248 = owned("하");
        let s249 = owned("VV");
        let n251 = tokens[i].start_pos;
        let n250 = n251.saturating_add(2);
        let n252 = tokens[i].end_pos;
        let t247 = SejongToken::new(s248.as_str(), s249.as_str(), n250, n252);
        let mut nv253: Vec<SejongToken> = Vec::new();
        push_token(&mut nv253, t241);
        push_token(&mut nv253, t247);
        splice_tokens(tokens, i, 1, nv253);
        let _len1 = tokens.len();
        return i + 2;
    }
    if p25_c5_exec(tokens, i) {
        let s255 = owned("운동");
        let s256 = owned("NNG");
        let n257 = tokens[i].start_pos;
        let n259 = tokens[i].start_pos;
        let n258 = n259.saturating_add(2);
        let t254 = SejongToken::new(s255.as_str(), s256.as_str(), n257, n258);
        let s261 = owned("하");
        let s262 = owned("VV");
        let n264 = tokens[i].start_pos;
        let n263 = n264.saturating_add(2);
        let n265 = tokens[i].end_pos;
        let t260 = SejongToken::new(s261.as_str(), s262.as_str(), n263, n265);
        let mut nv266: Vec<SejongToken> = Vec::new();
        push_token(&mut nv266, t254);
        push_token(&mut nv266, t260);
        splice_tokens(tokens, i, 1, nv266);
        let _len1 = tokens.len();
        return i + 2;
    }
    if p25_c6_exec(tokens, i) {
        let s268 = owned("요리");
        let s269 = owned("NNG");
        let n270 = tokens[i].start_pos;
        let n272 = tokens[i].start_pos;
        let n271 = n272.saturating_add(2);
        let t267 = SejongToken::new(s268.as_str(), s269.as_str(), n270, n271);
        let s274 = owned("하");
        let s275 = owned("VV");
        let n277 = tokens[i].start_pos;
        let n276 = n277.saturating_add(2);
        let n278 = tokens[i].end_pos;
        let t273 = SejongToken::new(s274.as_str(), s275.as_str(), n276, n278);
        let mut nv279: Vec<SejongToken> = Vec::new();
        push_token(&mut nv279, t267);
        push_token(&mut nv279, t273);
        splice_tokens(tokens, i, 1, nv279);
        let _len1 = tokens.len();
        return i + 2;
    }
    if p25_c7_exec(tokens, i) {
        let s281 = owned("청소");
        let s282 = owned("NNG");
        let n283 = tokens[i].start_pos;
        let n285 = tokens[i].start_pos;
        let n284 = n285.saturating_add(2);
        let t280 = SejongToken::new(s281.as_str(), s282.as_str(), n283, n284);
        let s287 = owned("하");
        let s288 = owned("VV");
        let n290 = tokens[i].start_pos;
        let n289 = n290.saturating_add(2);
        let n291 = tokens[i].end_pos;
        let t286 = SejongToken::new(s287.as_str(), s288.as_str(), n289, n291);
        let mut nv292: Vec<SejongToken> = Vec::new();
        push_token(&mut nv292, t280);
        push_token(&mut nv292, t286);
        splice_tokens(tokens, i, 1, nv292);
        let _len1 = tokens.len();
        return i + 2;
    }
    if p25_c8_exec(tokens, i) {
        let s294 = owned("여행");
        let s295 = owned("NNG");
        let n296 = tokens[i].start_pos;
        let n298 = tokens[i].start_pos;
        let n297 = n298.saturating_add(2);
        let t293 = SejongToken::new(s294.as_str(), s295.as_str(), n296, n297);
        let s300 = owned("하");
        let s301 = owned("VV");
        let n303 = tokens[i].start_pos;
        let n302 = n303.saturating_add(2);
        let n304 = tokens[i].end_pos;
        let t299 = SejongToken::new(s300.as_str(), s301.as_str(), n302, n304);
        let mut nv305: Vec<SejongToken> = Vec::new();
        push_token(&mut nv305, t293);
        push_token(&mut nv305, t299);
        splice_tokens(tokens, i, 1, nv305);
        let _len1 = tokens.len();
        return i + 2;
    }
    if p25_c9_exec(tokens, i) {
        let s307 = owned("산책");
        let s308 = owned("NNG");
        let n309 = tokens[i].start_pos;
        let n311 = tokens[i].start_pos;
        let n310 = n311.saturating_add(2);
        let t306 = SejongToken::new(s307.as_str(), s308.as_str(), n309, n310);
        let s313 = owned("하");
        let s314 = owned("VV");
        let n316 = tokens[i].start_pos;
        let n315 = n316.saturating_add(2);
        let n317 = tokens[i].end_pos;
        let t312 = SejongToken::new(s313.as_str(), s314.as_str(), n315, n317);
        let mut nv318: Vec<SejongToken> = Vec::new();
        push_token(&mut nv318, t306);
        push_token(&mut nv318, t312);
        splice_tokens(tokens, i, 1, nv318);
        let _len1 = tokens.len();
        return i + 2;
    }
    if p25_c10_exec(tokens, i) {
        let s320 = owned("연습");
        let s321 = owned("NNG");
        let n322 = tokens[i].start_pos;
        let n324 = tokens[i].start_pos;
        let n323 = n324.saturating_add(2);
        let t319 = SejongToken::new(s320.as_str(), s321.as_str(), n322, n323);
        let s326 = owned("하");
        let s327 = owned("VV");
        let n329 = tokens[i].start_pos;
        let n328 = n329.saturating_add(2);
        let n330 = tokens[i].end_pos;
        let t325 = SejongToken::new(s326.as_str(), s327.as_str(), n328, n330);
        let mut nv331: Vec<SejongToken> = Vec::new();
        push_token(&mut nv331, t319);
        push_token(&mut nv331, t325);
        splice_tokens(tokens, i, 1, nv331);
        let _len1 = tokens.len();
        return i + 2;
    }
    if p25_c11_exec(tokens, i) {
        let s333 = owned("설명");
        let s334 = owned("NNG");
        let n335 = tokens[i].start_pos;
        let n337 = tokens[i].start_pos;
        let n336 = n337.saturating_add(2);
        let t332 = SejongToken::new(s333.as_str(), s334.as_str(), n335, n336);
        let s339 = owned("하");
        let s340 = owned("VV");
        let n342 = tokens[i].start_pos;
        let n341 = n342.saturating_add(2);
        let n343 = tokens[i].end_pos;
        let t338 = SejongToken::new(s339.as_str(), s340.as_str(), n341, n343);
        let mut nv344: Vec<SejongToken> = Vec::new();
        push_token(&mut nv344, t332);
        push_token(&mut nv344, t338);
        splice_tokens(tokens, i, 1, nv344);
        let _len1 = tokens.len();
        return i + 2;
    }
    i + 1
}

/// A noun-하 verb is split into the noun and 하/VV (공부하/VV → 공부/NNG 하/VV).
pub fn apply_p25(tokens: &mut Vec<SejongToken>)
    ensures
        tokens_view(final(tokens)@) == p25(tokens_view(old(tokens)@)),
{
    let ghost orig = tokens_view(tokens@);
    let mut i: usize = 0;
    while i < tokens.len()
        invariant
            i <= tokens@.len() + 1,
            scan(tokens_view(tokens@), i as int, p25_f()) == scan(orig, 0, p25_f()),
        decreases tokens@.len() + 1 - i,
    {
        let ghost before = tokens_view(tokens@);
        assert(before.len() == tokens@.len());
        i = p25_step_exec(tokens, i);
        assert(tokens_view(tokens@).len() == tokens@.len());
    }
}

/// Where rule 0 of [`p26`] applies.
pub open spec fn p26_c0(ts: Seq<TokenView>, i: int) -> bool {
    ((((0 <= i < ts.len() && ts[i].surface == "고"@) && (0 <= i < ts.len() && ts[i].pos == "EC"@)) && ((0 <= i + 1 < ts.len() && ts[i + 1].surface == "나서"@) && (0 <= i + 1 < ts.len() && ts[i + 1].pos == "VV"@)) && (0 <= i + 2 < ts.len() && true)) && ((0 <= i + 2 < ts.len() && ts[i + 2].surface == "어"@) && (0 <= i + 2 < ts.len() && ts[i + 2].pos == "EC"@)))
}

/// Where rule 1 of [`p26`] applies.
pub open spec fn p26_c1(ts: Seq<TokenView>, i: int) -> bool {
    (((0 <= i < ts.len() && ts[i].surface == "고"@) && (0 <= i < ts.len() && ts[i].pos == "EC"@)) && ((0 <= i + 1 < ts.len() && ts[i + 1].surface == "나서"@) && (0 <= i + 1 < ts.len() && ts[i + 1].pos == "VV"@)) && (0 <= i + 2 < ts.len() && true))
}

/// One step of [`p26`] at `i`: the list after it and the next position.
pub open spec fn p26_step(ts: Seq<TokenView>, i: int) -> (Seq<TokenView>, int) {
    if p26_c0(ts, i) {
        (splice(ts, i, 3, seq![plain_view("고나서"@, "EC"@, ts[i].start_pos, ts[i + 1].end_pos)]), i + 1)
    } else if p26_c1(ts, i) {
        (splice(ts, i, 2, seq![plain_view("고나서"@, "EC"@, ts[i].start_pos, ts[i + 1].end_pos)]), i + 1)
    } else {
        (ts, i + 1)
    }
}

/// [`p26_step`] as a function value.
pub open spec fn p26_f() -> spec_fn(Seq<TokenView>, int) -> (Seq<TokenView>, int) {
    |ts: Seq<TokenView>, i: int| p26_step(ts, i)
}

/// 고/EC 나서/VV (with a following 어/EC dropped) is the connective ending 고나서/EC.
pub open spec fn p26(ts: Seq<TokenView>) -> Seq<TokenView> {
    scan(ts, 0, p26_f())
}

/// Whether rule 0 of [`p26`] applies at `i`.
fn p26_c0_exec(tokens: &Vec<SejongToken>, i: usize) -> (r: bool)
    requires
        i < tokens@.len(),
    ensures
        r == p26_c0(tokens_view(tokens@), i as int),
{
    assert(tokens_view(tokens@).len() == tokens@.len());
    let c345 = surf_is(&tokens[i], "고");
    let c346 = pos_is(&tokens[i], "EC");
    let c347 = (tokens.len() - i > 1) && surf_is(&tokens[i + 1], "나서");
    let c348 = (tokens.len() - i > 1) && pos_is(&tokens[i + 1], "VV");
    let c349 = (tokens.len() - i > 2) && true;
    let c350 = (tokens.len() - i > 2) && surf_is(&tokens[i + 2], "어");
    let c351 = (tokens.len() - i > 2) && pos_is(&tokens[i + 2], "EC");
    (((c345 && c346) && (c347 && c348) && c349) && (c350 && c351))
}

/// Whether rule 1 of [`p26`] applies at `i`.
fn p26_c1_exec(tokens: &Vec<SejongToken>, i: usize) -> (r: bool)
    requires
        i < tokens@.len(),
    ensures
        r == p26_c1(tokens_view(tokens@), i as int),
{
    assert(tokens_view(tokens@).len() == tokens@.len());
    let c352 = surf_is(&tokens[i], "고");
    let c353 = pos_is(&tokens[i], "EC");
    let c354 = (tokens.len() - i > 1) && surf_is(&tokens[i + 1], "나서");
    let c355 = (tokens.len() - i > 1) && pos_is(&tokens[i + 1], "VV");
    let c356 = (tokens.len() - i > 2) && true;
    ((c352 && c353) && (c354 && c355) && c356)
}

/// One step of [`p26`] at `i`; returns the next position.
fn p26_step_exec(tokens: &mut Vec<SejongToken>, i: usize) -> (next: usize)
    requires
        i < old(tokens)@.len(),
    ensures
        (tokens_view(final(tokens)@), next as int) == p26_step(tokens_view(old(tokens)@), i as int),
        final(tokens)@.len() - next < old(tokens)@.len() - i,
        next <= final(tokens)@.len() + 1,
{
    let len0 = tokens.len();
    assert(tokens_view(tokens@).len() == tokens@.len());
    if p26_c0_exec(tokens, i) {
        let s358 = owned("고나서");
        let s359 = owned("EC");
        let n360 = tokens[i].start_pos;
        let n361 = tokens[i + 1].end_pos;
        let t357 = SejongToken::new(s358.as_str(), s359.as_str(), n360, n361);
        let mut nv362: Vec<SejongToken> = Vec::new();
        push_token(&mut nv362, t357);
        splice_tokens(tokens, i, 3, nv362);
        let _len1 = tokens.len();
        return i + 1;
    }
    if p26_c1_exec(tokens, i) {
        let s364 = owned("고나서");
        let s365 = owned("EC");
        let n366 = tokens[i].start_pos;
        let n367 = tokens[i + 1].end_pos;
        let t363 = SejongToken::new(s364.as_str(), s365.as_str(), n366, n367);
        let mut nv368: Vec<SejongToken> = Vec::new();
        push_token(&mut nv368, t363);
        splice_tokens(tokens, i, 2, nv368);
        let _len1 = tokens.len();
        return i + 1;
    }
    i + 1
}

/// 고/EC 나서/VV (with a following 어/EC dropped) is the connective ending 고나서/EC.
pub fn apply_p26(tokens: &mut Vec<SejongToken>)
    ensures
        tokens_view(final(tokens)@) == p26(tokens_view(old(tokens)@)),
{
    let ghost orig = tokens_view(tokens@);
    let mut i: usize = 0;
    while i < tokens.len()
        invariant
            i <= tokens@.len() + 1,
            scan(tokens_view(tokens@), i as int, p26_f()) == scan(orig, 0, p26_f()),
        decreases tokens@.len() + 1 - i,
    {
        let ghost before = tokens_view(tokens@);
        assert(before.len() == tokens@.len());
        i = p26_step_exec(tokens, i);
        assert(tokens_view(tokens@).len() == tokens@.len());
    }
}

/// Where rule 0 of [`p27`] applies.
pub open spec fn p27_c0(ts: Seq<TokenView>, i: int) -> bool {
    (((0 <= i < ts.len() && seq!["VV"@, "VA"@].contains(ts[i].pos)) && (0 <= i < ts.len() && seq!["드시"@, "오시"@, "가시"@, "주시"@, "보시"@, "하시"@, "잡수시"@, "계시"@, "나오시"@, "들어오시"@].contains(ts[i].surface)) && (0 <= i < ts.len() && is_suffix("시"@, ts[i].surface))) && ((0 <= i + 1 < ts.len() && ts[i + 1].surface == "시"@) && (0 <= i + 1 < ts.len() && ts[i + 1].pos == "NNB"@)))
}

/// Where rule 1 of [`p27`] applies.
pub open spec fn p27_c1(ts: Seq<TokenView>, i: int) -> bool {
    ((0 <= i < ts.len() && seq!["VV"@, "VA"@].contains(ts[i].pos)) && (0 <= i < ts.len() && seq!["드시"@, "오시"@, "가시"@, "주시"@, "보시"@, "하시"@, "잡수시"@, "계시"@, "나오시"@, "들어오시"@].contains(ts[i].surface)) && (0 <= i < ts.len() && is_suffix("시"@, ts[i].surface)))
}

/// One step of [`p27`] at `i`: the list after it and the next position.
pub open spec fn p27_step(ts: Seq<TokenView>, i: int) -> (Seq<TokenView>, int) {
    if p27_c0(ts, i) {
        (splice(ts, i, 2, seq![plain_view(strip_suffix(ts[i].surface, "시"@), ts[i].pos, ts[i].start_pos, (ts[i].start_pos).saturating_add(strip_suffix(ts[i].surface, "시"@).len() as usize)), plain_view("시"@, "EP"@, (ts[i].start_pos).saturating_add(strip_suffix(ts[i].surface, "시"@).len() as usize), ts[i].end_pos)]), i + 2)
    } else if p27_c1(ts, i) {
        (splice(ts, i, 1, seq![plain_view(strip_suffix(ts[i].surface, "시"@), ts[i].pos, ts[i].start_pos, (ts[i].start_pos).saturating_add(strip_suffix(ts[i].surface, "시"@).len() as usize)), plain_view("시"@, "EP"@, (ts[i].start_pos).saturating_add(strip_suffix(ts[i].surface, "시"@).len() as usize), ts[i].end_pos)]), i + 2)
    } else {
        (ts, i + 1)
    }
}

/// [`p27_step`] as a function value.
pub open spec fn p27_f() -> spec_fn(Seq<TokenView>, int) -> (Seq<TokenView>, int) {
    |ts: Seq<TokenView>, i: int| p27_step(ts, i)
}

/// A verb with the honorific 시 is split into the stem and 시/EP (오시/VV → 오/VV 시/EP); a following 시/NNB is dropped.
pub open spec fn p27(ts: Seq<TokenView>) -> Seq<TokenView> {
    scan(ts, 0, p27_f())
}

/// Whether rule 0 of [`p27`] applies at `i`.
fn p27_c0_exec(tokens: &Vec<SejongToken>, i: usize) -> (r: bool)
    requires
        i < tokens@.len(),
    ensures
        r == p27_c0(tokens_view(tokens@), i as int),
{
    assert(tokens_view(tokens@).len() == tokens@.len());
    let l370: [&str; 2] = ["VV", "VA"];
    assert(crate::tag_map::strs_view(l370@) =~= seq!["VV"@, "VA"@]);
    let c369 = in_list(&l370, tokens[i].pos.as_str());
    let l372: [&str; 10] = ["드시", "오시", "가시", "주시", "보시", "하시", "잡수시", "계시", "나오시", "들어오시"];
    assert(crate::tag_map::strs_view(l372@) =~= seq!["드시"@, "오시"@, "가시"@, "주시"@, "보시"@, "하시"@, "잡수시"@, "계시"@, "나오시"@, "들어오시"@]);
    let c371 = in_list(&l372, tokens[i].surface.as_str());
    let c373 = surf_ends(&tokens[i], "시");
    let c374 = (tokens.len() - i > 1) && surf_is(&tokens[i + 1], "시");
    let c375 = (tokens.len() - i > 1) && pos_is(&tokens[i + 1], "NNB");
    ((c369 && c371 && c373) && (c374 && c375))
}

/// Whether rule 1 of [`p27`] applies at `i`.
fn p27_c1_exec(tokens: &Vec<SejongToken>, i: usize) -> (r: bool)
    requires
        i < tokens@.len(),
    ensures
        r == p27_c1(tokens_view(tokens@), i as int),
{
    assert(tokens_view(tokens@).len() == tokens@.len());
    let l377: [&str; 2] = ["VV", "VA"];
    assert(crate::tag_map::strs_view(l377@) =~= seq!["VV"@, "VA"@]);
    let c376 = in_list(&l377, tokens[i].pos.as_str());
    let l379: [&str; 10] = ["드시", "오시", "가시", "주시", "보시", "하시", "잡수시", "계시", "나오시", "들어오시"];
    assert(crate::tag_map::strs_view(l379@) =~= seq!["드시"@, "오시"@, "가시"@, "주시"@, "보시"@, "하시"@, "잡수시"@, "계시"@, "나오시"@, "들어오시"@]);
    let c378 = in_list(&l379, tokens[i].surface.as_str());
    let c380 = surf_ends(&tokens[i], "시");
    (c376 && c378 && c380)
}

/// One step of [`p27`] at `i`; returns the next position.
fn p27_step_exec(tokens: &mut Vec<SejongToken>, i: usize) -> (next: usize)
    requires
        i < old(tokens)@.len(),
    ensures
        (tokens_view(final(tokens)@), next as int) == p27_step(tokens_view(old(tokens)@), i as int),
        final(tokens)@.len() - next < old(tokens)@.len() - i,
        next <= final(tokens)@.len() + 1,
{
    let len0 = tokens.len();
    assert(tokens_view(tokens@).len() == tokens@.len());
    if p27_c0_exec(tokens, i) {
        let s383 = tokens[i].surface.clone();
        let s382 = strip_suffix_exec(s383.as_str(), "시");
        let s384 = tokens[i].pos.clone();
        let n385 = tokens[i].start_pos;
        let n387 = tokens[i].start_pos;
        let s389 = tokens[i].surface.clone();
        let s388 = strip_suffix_exec(s389.as_str(), "시");
        let n386 = n387.saturating_add(s388.unicode_len());
        let t381 = SejongToken::new(s382.as_str(), s384.as_str(), n385, n386);
        let s391 = owned("시");
        let s392 = owned("EP");
        let n394 = tokens[i].start_pos;
        let s396 = tokens[i].surface.clone();
        let s395 = strip_suffix_exec(s396.as_str(), "시");
        let n393 = n394.saturating_add(s395.unicode_len());
        let n397 = tokens[i].end_pos;
        let t390 = SejongToken::new(s391.as_str(), s392.as_str(), n393, n397);
        let mut nv398: Vec<SejongToken> = Vec::new();
        push_token(&mut nv398, t381);
        push_token(&mut nv398, t390);
        splice_tokens(tokens, i, 2, nv398);
        let _len1 = tokens.len();
        return i + 2;
    }
    if p27_c1_exec(tokens, i) {
        let s401 = tokens[i].surface.clone();
        let s400 = strip_suffix_exec(s401.as_str(), "시");
        let s402 = tokens[i].pos.clone();
        let n403 = tokens[i].start_pos;
        let n405 = tokens[i].start_pos;
        let s407 = tokens[i].surface.clone();
        let s406 = strip_suffix_exec(s407.as_str(), "시");
        let n404 = n405.saturating_add(s406.unicode_len());
        let t399 = SejongToken::new(s400.as_str(), s402.as_str(), n403, n404);
        let s409 = owned("시");
        let s410 = owned("EP");
        let n412 = tokens[i].start_pos;
        let s414 = tokens[i].surface.clone();
        let s413 = strip_suffix_exec(s414.as_str(), "시");
        let n411 = n412.saturating_add(s413.unicode_len());
        let n415 = tokens[i].end_pos;
        let t408 = SejongToken::new(s409.as_str(), s410.as_str(), n411, n415);
        let mut nv416: Vec<SejongToken> = Vec::new();
        push_token(&mut nv416, t399);
        push_token(&mut nv416, t408);
        splice_tokens(tokens, i, 1, nv416);
        let _len1 = tokens.len();
        return i + 2;
    }
    i + 1
}

/// A verb with the honorific 시 is split into the stem and 시/EP (오시/VV → 오/VV 시/EP); a following 시/NNB is dropped.
pub fn apply_p27(tokens: &mut Vec<SejongToken>)
    ensures
        tokens_view(final(tokens)@) == p27(tokens_view(old(tokens)@)),
{
    let ghost orig = tokens_view(tokens@);
    let mut i: usize = 0;
    while i < tokens.len()
        invariant
            i <= tokens@.len() + 1,
            scan(tokens_view(tokens@), i as int, p27_f()) == scan(orig, 0, p27_f()),
        decreases tokens@.len() + 1 - i,
    {
        let ghost before = tokens_view(tokens@);
        assert(before.len() == tokens@.len());
        i = p27_step_exec(tokens, i);
        assert(tokens_view(tokens@).len() == tokens@.len());
    }
}

/// Where rule 0 of [`p28`] applies.
pub open spec fn p28_c0(ts: Seq<TokenView>, i: int) -> bool {
    (((0 <= i < ts.len() && ts[i].surface == "저"@) && (0 <= i < ts.len() && ts[i].pos == "NP"@)) && (0 <= i + 1 < ts.len() && seq!["ᆫ"@, "ㄴ"@].contains(ts[i + 1].surface)) && (0 <= i + 1 < ts.len() && ts[i + 1].pos == "JX"@))
}

/// One step of [`p28`] at `i`: the list after it and the next position.
pub open spec fn p28_step(ts: Seq<TokenView>, i: int) -> (Seq<TokenView>, int) {
    if p28_c0(ts, i) {
        (splice(ts, i, 2, seq![plain_view("전"@, "NNG"@, ts[i].start_pos, ts[i + 1].end_pos)]), i + 1)
    } else {
        (ts, i + 1)
    }
}

/// [`p28_step`] as a function value.
pub open spec fn p28_f() -> spec_fn(Seq<TokenView>, int) -> (Seq<TokenView>, int) {
    |ts: Seq<TokenView>, i: int| p28_step(ts, i)
}

/// 저/NP with ᆫ or ㄴ tagged JX is the noun 전/NNG.
pub open spec fn p28(ts: Seq<TokenView>) -> Seq<TokenView> {
    scan(ts, 0, p28_f())
}

/// Whether rule 0 of [`p28`] applies at `i`.
fn p28_c0_exec(tokens: &Vec<SejongToken>, i: usize) -> (r: bool)
    requires
        i < tokens@.len(),
    ensures
        r == p28_c0(tokens_view(tokens@), i as int),
{
    assert(tokens_view(tokens@).len() == tokens@.len());
    let c417 = surf_is(&tokens[i], "저");
    let c418 = pos_is(&tokens[i], "NP");
    let l420: [&str; 2] = ["ᆫ", "ㄴ"];
    assert(crate::tag_map::strs_view(l420@) =~= seq!["ᆫ"@, "ㄴ"@]);
    let c419 = (tokens.len() - i > 1) && in_list(&l420, tokens[i + 1].surface.as_str());
    let c421 = (tokens.len() - i > 1) && pos_is(&tokens[i + 1], "JX");
    ((c417 && c418) && c419 && c421)
}

/// One step of [`p28`] at `i`; returns the next position.
fn p28_step_exec(tokens: &mut Vec<SejongToken>, i: usize) -> (next: usize)
    requires
        i < old(tokens)@.len(),
    ensures
        (tokens_view(final(tokens)@), next as int) == p28_step(tokens_view(old(tokens)@), i as int),
        final(tokens)@.len() - next < old(tokens)@.len() - i,
        next <= final(tokens)@.len() + 1,
{
    let len0 = tokens.len();
    assert(tokens_view(tokens@).len() == tokens@.len());
    if p28_c0_exec(tokens, i) {
        let s423 = owned("전");
        let s424 = owned("NNG");
        let n425 = tokens[i].start_pos;
        let n426 = tokens[i + 1].end_pos;
        let t422 = SejongToken::new(s423.as_str(), s424.as_str(), n425, n426);
        let mut nv427: Vec<SejongToken> = Vec::new();
        push_token(&mut nv427, t422);
        splice_tokens(tokens, i, 2, nv427);
        let _len1 = tokens.len();
        return i + 1;
    }
    i + 1
}

/// 저/NP with ᆫ or ㄴ tagged JX is the noun 전/NNG.
pub fn apply_p28(tokens: &mut Vec<SejongToken>)
    ensures
        tokens_view(final(tokens)@) == p28(tokens_view(old(tokens)@)),
{
    let ghost orig = tokens_view(tokens@);
    let mut i: usize = 0;
    while i < tokens.len()
        invariant
            i <= tokens@.len() + 1,
            scan(tokens_view(tokens@), i as int, p28_f()) == scan(orig, 0, p28_f()),
        decreases tokens@.len() + 1 - i,
    {
        let ghost before = tokens_view(tokens@);
        assert(before.len() == tokens@.len());
        i = p28_step_exec(tokens, i);
        assert(tokens_view(tokens@).len() == tokens@.len());
    }
}

/// Where [`p29`] changes a token.
pub open spec fn p29_c(ts: Seq<TokenView>, i: int) -> bool {
    (((0 <= i < ts.len() && ts[i].surface == "에"@) && (0 <= i < ts.len() && ts[i].pos == "EF"@)) && (0 <= i - 1 < ts.len() && seq!["NNG"@, "NNB"@].contains(ts[i - 1].pos)) && (0 <= i - 1 < ts.len() && seq!["전"@, "후"@, "동안"@, "사이"@, "때"@, "곳"@, "집"@, "학교"@, "회사"@, "시작"@, "끝"@, "처음"@, "마지막"@, "오늘"@, "내일"@, "어제"@].contains(ts[i - 1].surface)))
}

/// The token [`p29`] puts at `i`.
pub open spec fn p29_t(ts: Seq<TokenView>, i: int) -> TokenView {
    TokenView { pos: "JKB"@, ..ts[i] }
}

/// 에/EF after a noun of time or place is the particle 에/JKB.
pub open spec fn p29(ts: Seq<TokenView>) -> Seq<TokenView> {
    map_where(ts, |ts: Seq<TokenView>, i: int| p29_c(ts, i), |ts: Seq<TokenView>, i: int| p29_t(ts, i))
}

/// Whether [`p29`] changes the token at `i`.
fn p29_c_exec(tokens: &Vec<SejongToken>, i: usize) -> (r: bool)
    requires
        i < tokens@.len(),
    ensures
        r == p29_c(tokens_view(tokens@), i as int),
{
    assert(tokens_view(tokens@).len() == tokens@.len());
    let c428 = surf_is(&tokens[i], "에");
    let c429 = pos_is(&tokens[i], "EF");
    let l431: [&str; 2] = ["NNG", "NNB"];
    assert(crate::tag_map::strs_view(l431@) =~= seq!["NNG"@, "NNB"@]);
    let c430 = (i >= 1) && in_list(&l431, tokens[i - 1].pos.as_str());
    let l433: [&str; 16] = ["전", "후", "동안", "사이", "때", "곳", "집", "학교", "회사", "시작", "끝", "처음", "마지막", "오늘", "내일", "어제"];
    assert(crate::tag_map::strs_view(l433@) =~= seq!["전"@, "후"@, "동안"@, "사이"@, "때"@, "곳"@, "집"@, "학교"@, "회사"@, "시작"@, "끝"@, "처음"@, "마지막"@, "오늘"@, "내일"@, "어제"@]);
    let c432 = (i >= 1) && in_list(&l433, tokens[i - 1].surface.as_str());
    ((c428 && c429) && c430 && c432)
}

/// The token [`p29`] puts at `i`.
fn p29_t_exec(tokens: &Vec<SejongToken>, i: usize) -> (t: SejongToken)
    requires
        i < tokens@.len(),
        p29_c(tokens_view(tokens@), i as int),
    ensures
        t@ == p29_t(tokens_view(tokens@), i as int),
{
    assert(tokens_view(tokens@).len() == tokens@.len());
    let s435 = owned("JKB");
    let mut t434 = tokens[i].duplicate();
    t434.pos = s435;
    t434
}

/// 에/EF after a noun of time or place is the particle 에/JKB.
pub fn apply_p29(tokens: &mut Vec<SejongToken>)
    ensures
        tokens_view(final(tokens)@) == p29(tokens_view(old(tokens)@)),
{
    let ghost orig = tokens_view(tokens@);
    let mut out: Vec<SejongToken> = Vec::new();
    let mut k: usize = 0;
    while k < tokens.len()
        invariant
            k <= tokens@.len(),
            orig == tokens_view(tokens@),
            tokens_view(out@) == p29(orig).take(k as int),
        decreases tokens@.len() - k,
    {
        let t = if p29_c_exec(tokens, k) { p29_t_exec(tokens, k) } else { tokens[k].duplicate() };
        push_token(&mut out, t);
        k += 1;
        assert(tokens_view(out@) =~= p29(orig).take(k as int));
    }
    assert(p29(orig).take(k as int) =~= p29(orig));
    *tokens = out;
}

/// Where [`p30a`] changes a token.
pub open spec fn p30a_c(ts: Seq<TokenView>, i: int) -> bool {
    ((0 <= i < ts.len() && seq!["ᄇ니다"@, "ㅂ니다"@].contains(ts[i].surface)) && (0 <= i < ts.len() && ts[i].pos == "EC"@))
}

/// The token [`p30a`] puts at `i`.
pub open spec fn p30a_t(ts: Seq<TokenView>, i: int) -> TokenView {
    TokenView { surface: "ㅂ니다"@, pos: "EF"@, ..ts[i] }
}

/// ㅂ니다/EC (also with the initial ᄇ) is the final ending ㅂ니다/EF.
pub open spec fn p30a(ts: Seq<TokenView>) -> Seq<TokenView> {
    map_where(ts, |ts: Seq<TokenView>, i: int| p30a_c(ts, i), |ts: Seq<TokenView>, i: int| p30a_t(ts, i))
}

/// Whether [`p30a`] changes the token at `i`.
fn p30a_c_exec(tokens: &Vec<SejongToken>, i: usize) -> (r: bool)
    requires
        i < tokens@.len(),
    ensures
        r == p30a_c(tokens_view(tokens@), i as int),
{
    assert(tokens_view(tokens@).len() == tokens@.len());
    let l437: [&str; 2] = ["ᄇ니다", "ㅂ니다"];
    assert(crate::tag_map::strs_view(l437@) =~= seq!["ᄇ니다"@, "ㅂ니다"@]);
    let c436 = in_list(&l437, tokens[i].surface.as_str());
    let c438 = pos_is(&tokens[i], "EC");
    (c436 && c438)
}

/// The token [`p30a`] puts at `i`.
fn p30a_t_exec(tokens: &Vec<SejongToken>, i: usize) -> (t: SejongToken)
    requires
        i < tokens@.len(),
        p30a_c(tokens_view(tokens@), i as int),
    ensures
        t@ == p30a_t(tokens_view(tokens@), i as int),
{
    assert(tokens_view(tokens@).len() == tokens@.len());
    let s440 = owned("ㅂ니다");
    let s441 = owned("EF");
    let mut t439 = tokens[i].duplicate();
    t439.surface = s440;
    t439.pos = s441;
    t439
}

/// ㅂ니다/EC (also with the initial ᄇ) is the final ending ㅂ니다/EF.
pub fn apply_p30a(tokens: &mut Vec<SejongToken>)
    ensures
        tokens_view(final(tokens)@) == p30a(tokens_view(old(tokens)@)),
{
    let ghost orig = tokens_view(tokens@);
    let mut out: Vec<SejongToken> = Vec::new();
    let mut k: usize = 0;
    while k < tokens.len()
        invariant
            k <= tokens@.len(),
            orig == tokens_view(tokens@),
            tokens_view(out@) == p30a(orig).take(k as int),
        decreases tokens@.len() - k,
    {
        let t = if p30a_c_exec(tokens, k) { p30a_t_exec(tokens, k) } else { tokens[k].duplicate() };
        push_token(&mut out, t);
        k += 1;
        assert(tokens_view(out@) =~= p30a(orig).take(k as int));
    }
    assert(p30a(orig).take(k as int) =~= p30a(orig));
    *tokens = out;
}

/// Where [`p30b`] changes a token.
pub open spec fn p30b_c(ts: Seq<TokenView>, i: int) -> bool {
    ((0 <= i < ts.len() && seq!["ᄇ니까"@, "ㅂ니까"@].contains(ts[i].surface)) && (0 <= i < ts.len() && ts[i].pos == "EC"@))
}

/// The token [`p30b`] puts at `i`.
pub open spec fn p30b_t(ts: Seq<TokenView>, i: int) -> TokenView {
    TokenView { surface: "ㅂ니까"@, pos: "EF"@, ..ts[i] }
}

/// ㅂ니까/EC (also with the initial ᄇ) is the final ending ㅂ니까/EF.
pub open spec fn p30b(ts: Seq<TokenView>) -> Seq<TokenView> {
    map_where(ts, |ts: Seq<TokenView>, i: int| p30b_c(ts, i), |ts: Seq<TokenView>, i: int| p30b_t(ts, i))
}

/// Whether [`p30b`] changes the token at `i`.
fn p30b_c_exec(tokens: &Vec<SejongToken>, i: usize) -> (r: bool)
    requires
        i < tokens@.len(),
    ensures
        r == p30b_c(tokens_view(tokens@), i as int),
{
    assert(tokens_view(tokens@).len() == tokens@.len());
    let l443: [&str; 2] = ["ᄇ니까", "ㅂ니까"];
    assert(crate::tag_map::strs_view(l443@) =~= seq!["ᄇ니까"@, "ㅂ니까"@]);
    let c442 = in_list(&l443, tokens[i].surface.as_str());
    let c444 = pos_is(&tokens[i], "EC");
    (c442 && c444)
}

/// The token [`p30b`] puts at `i`.
fn p30b_t_exec(tokens: &Vec<SejongToken>, i: usize) -> (t: SejongToken)
    requires
        i < tokens@.len(),
        p30b_c(tokens_view(tokens@), i as int),
    ensures
        t@ == p30b_t(tokens_view(tokens@), i as int),
{
    assert(tokens_view(tokens@).len() == tokens@.len());
    let s446 = owned("ㅂ니까");
    let s447 = owned("EF");
    let mut t445 = tokens[i].duplicate();
    t445.surface = s446;
    t445.pos = s447;
    t445
}

/// ㅂ니까/EC (also with the initial ᄇ) is the final ending ㅂ니까/EF.
pub fn apply_p30b(tokens: &mut Vec<SejongToken>)
    ensures
        tokens_view(final(tokens)@) == p30b(tokens_view(old(tokens)@)),
{
    let ghost orig = tokens_view(tokens@);
    let mut out: Vec<SejongToken> = Vec::new();
    let mut k: usize = 0;
    while k < tokens.len()
        invariant
            k <= tokens@.len(),
            orig == tokens_view(tokens@),
            tokens_view(out@) == p30b(orig).take(k as int),
        decreases tokens@.len() - k,
    {
        let t = if p30b_c_exec(tokens, k) { p30b_t_exec(tokens, k) } else { tokens[k].duplicate() };
        push_token(&mut out, t);
        k += 1;
        assert(tokens_view(out@) =~= p30b(orig).take(k as int));
    }
    assert(p30b(orig).take(k as int) =~= p30b(orig));
    *tokens = out;
}

/// Where [`p56`] changes a token.
pub open spec fn p56_c(ts: Seq<TokenView>, i: int) -> bool {
    (0 <= i < ts.len() && ts[i].pos == "ETM"@)
}

/// The token [`p56`] puts at `i`.
pub open spec fn p56_t(ts: Seq<TokenView>, i: int) -> TokenView {
    TokenView { surface: crate::hangul::spec_etm_jamo(ts[i].surface), ..ts[i] }
}

/// In an adnominal ending the final-consonant jamo ᆫ ᆯ ᆷ are written ㄴ ㄹ ㅁ.
pub open spec fn p56(ts: Seq<TokenView>) -> Seq<TokenView> {
    map_where(ts, |ts: Seq<TokenView>, i: int| p56_c(ts, i), |ts: Seq<TokenView>, i: int| p56_t(ts, i))
}

/// Whether [`p56`] changes the token at `i`.
fn p56_c_exec(tokens: &Vec<SejongToken>, i: usize) -> (r: bool)
    requires
        i < tokens@.len(),
    ensures
        r == p56_c(tokens_view(tokens@), i as int),
{
    assert(tokens_view(tokens@).len() == tokens@.len());
    let c448 = pos_is(&tokens[i], "ETM");
    c448
}

/// The token [`p56`] puts at `i`.
fn p56_t_exec(tokens: &Vec<SejongToken>, i: usize) -> (t: SejongToken)
    requires
        i < tokens@.len(),
        p56_c(tokens_view(tokens@), i as int),
    ensures
        t@ == p56_t(tokens_view(tokens@), i as int),
{
    assert(tokens_view(tokens@).len() == tokens@.len());
    let s451 = crate::hangul::normalize_etm_jamo(tokens[i].surface.as_str());
    let mut t449 = tokens[i].duplicate();
    t449.surface = s451;
    t449
}

/// In an adnominal ending the final-consonant jamo ᆫ ᆯ ᆷ are written ㄴ ㄹ ㅁ.
pub fn apply_p56(tokens: &mut Vec<SejongToken>)
    ensures
        tokens_view(final(tokens)@) == p56(tokens_view(old(tokens)@)),
{
    let ghost orig = tokens_view(tokens@);
    let mut out: Vec<SejongToken> = Vec::new();
    let mut k: usize = 0;
    while k < tokens.len()
        invariant
            k <= tokens@.len(),
            orig == tokens_view(tokens@),
            tokens_view(out@) == p56(orig).take(k as int),
        decreases tokens@.len() - k,
    {
        let t = if p56_c_exec(tokens, k) { p56_t_exec(tokens, k) } else { tokens[k].duplicate() };
        push_token(&mut out, t);
        k += 1;
        assert(tokens_view(out@) =~= p56(orig).take(k as int));
    }
    assert(p56(orig).take(k as int) =~= p56(orig));
    *tokens = out;
}

/// Where [`p31a`] changes a token.
pub open spec fn p31a_c(ts: Seq<TokenView>, i: int) -> bool {
    ((0 <= i < ts.len() && ts[i].pos == "EF"@) && (0 <= i < ts.len() && seq!["ㅂ니다"@, "ᄇ니다"@].contains(ts[i].surface)) && (((0 <= i - 1 < ts.len() && ts[i - 1].pos == "EP"@) && (0 <= i - 1 < ts.len() && seq!["었"@, "겠"@, "았"@, "였"@].contains(ts[i - 1].surface))) || (0 <= i - 1 < ts.len() && ts[i - 1].pos == "VCP"@)))
}

/// The token [`p31a`] puts at `i`.
pub open spec fn p31a_t(ts: Seq<TokenView>, i: int) -> TokenView {
    TokenView { surface: "습니다"@, ..ts[i] }
}

/// ㅂ니다/EF after 었, 겠, 았, 였 or 이/VCP is written 습니다.
pub open spec fn p31a(ts: Seq<TokenView>) -> Seq<TokenView> {
    map_where(ts, |ts: Seq<TokenView>, i: int| p31a_c(ts, i), |ts: Seq<TokenView>, i: int| p31a_t(ts, i))
}

/// Whether [`p31a`] changes the token at `i`.
fn p31a_c_exec(tokens: &Vec<SejongToken>, i: usize) -> (r: bool)
    requires
        i < tokens@.len(),
    ensures
        r == p31a_c(tokens_view(tokens@), i as int),
{
    assert(tokens_view(tokens@).len() == tokens@.len());
    let c452 = pos_is(&tokens[i], "EF");
    let l454: [&str; 2] = ["ㅂ니다", "ᄇ니다"];
    assert(crate::tag_map::strs_view(l454@) =~= seq!["ㅂ니다"@, "ᄇ니다"@]);
    let c453 = in_list(&l454, tokens[i].surface.as_str());
    let c455 = (i >= 1) && pos_is(&tokens[i - 1], "EP");
    let l457: [&str; 4] = ["었", "겠", "았", "였"];
    assert(crate::tag_map::strs_view(l457@) =~= seq!["었"@, "겠"@, "았"@, "였"@]);
    let c456 = (i >= 1) && in_list(&l457, tokens[i - 1].surface.as_str());
    let c458 = (i >= 1) && pos_is(&tokens[i - 1], "VCP");
    (c452 && c453 && ((c455 && c456) || c458))
}

/// The token [`p31a`] puts at `i`.
fn p31a_t_exec(tokens: &Vec<SejongToken>, i: usize) -> (t: SejongToken)
    requires
        i < tokens@.len(),
        p31a_c(tokens_view(tokens@), i as int),
    ensures
        t@ == p31a_t(tokens_view(tokens@), i as int),
{
    assert(tokens_view(tokens@).len() == tokens@.len());
    let s460 = owned("습니다");
    let mut t459 = tokens[i].duplicate();
    t459.surface = s460;
    t459
}

/// ㅂ니다/EF after 었, 겠, 았, 였 or 이/VCP is written 습니다.
pub fn apply_p31a(tokens: &mut Vec<SejongToken>)
    ensures
        tokens_view(final(tokens)@) == p31a(tokens_view(old(tokens)@)),
{
    let ghost orig = tokens_view(tokens@);
    let mut out: Vec<SejongToken> = Vec::new();
    let mut k: usize = 0;
    while k < tokens.len()
        invariant
            k <= tokens@.len(),
            orig == tokens_view(tokens@),
            tokens_view(out@) == p31a(orig).take(k as int),
        decreases tokens@.len() - k,
    {
        let t = if p31a_c_exec(tokens, k) { p31a_t_exec(tokens, k) } else { tokens[k].duplicate() };
        push_token(&mut out, t);
        k += 1;
        assert(tokens_view(out@) =~= p31a(orig).take(k as int));
    }
    assert(p31a(orig).take(k as int) =~= p31a(orig));
    *tokens = out;
}

/// Where [`p31b`] changes a token.
pub open spec fn p31b_c(ts: Seq<TokenView>, i: int) -> bool {
    ((0 <= i < ts.len() && ts[i].pos == "EF"@) && (0 <= i < ts.len() && seq!["ㅂ니까"@, "ᄇ니까"@].contains(ts[i].surface)) && (((0 <= i - 1 < ts.len() && ts[i - 1].pos == "EP"@) && (0 <= i - 1 < ts.len() && seq!["었"@, "겠"@, "았"@, "였"@].contains(ts[i - 1].surface))) || (0 <= i - 1 < ts.len() && ts[i - 1].pos == "VCP"@)))
}

/// The token [`p31b`] puts at `i`.
pub open spec fn p31b_t(ts: Seq<TokenView>, i: int) -> TokenView {
    TokenView { surface: "습니까"@, ..ts[i] }
}

/// ㅂ니까/EF after 었, 겠, 았, 였 or 이/VCP is written 습니까.
pub open spec fn p31b(ts: Seq<TokenView>) -> Seq<TokenView> {
    map_where(ts, |ts: Seq<TokenView>, i: int| p31b_c(ts, i), |ts: Seq<TokenView>, i: int| p31b_t(ts, i))
}

/// Whether [`p31b`] changes the token at `i`.
fn p31b_c_exec(tokens: &Vec<SejongToken>, i: usize) -> (r: bool)
    requires
        i < tokens@.len(),
    ensures
        r == p31b_c(tokens_view(tokens@), i as int),
{
    assert(tokens_view(tokens@).len() == tokens@.len());
    let c461 = pos_is(&tokens[i], "EF");
    let l463: [&str; 2] = ["ㅂ니까", "ᄇ니까"];
    assert(crate::tag_map::strs_view(l463@) =~= seq!["ㅂ니까"@, "ᄇ니까"@]);
    let c462 = in_list(&l463, tokens[i].surface.as_str());
    let c464 = (i >= 1) && pos_is(&tokens[i - 1], "EP");
    let l466: [&str; 4] = ["었", "겠", "았", "였"];
    assert(crate::tag_map::strs_view(l466@) =~= seq!["었"@, "겠"@, "았"@, "였"@]);
    let c465 = (i >= 1) && in_list(&l466, tokens[i - 1].surface.as_str());
    let c467 = (i >= 1) && pos_is(&tokens[i - 1], "VCP");
    (c461 && c462 && ((c464 && c465) || c467))
}

/// The token [`p31b`] puts at `i`.
fn p31b_t_exec(tokens: &Vec<SejongToken>, i: usize) -> (t: SejongToken)
    requires
        i < tokens@.len(),
        p31b_c(tokens_view(tokens@), i as int),
    ensures
        t@ == p31b_t(tokens_view(tokens@), i as int),
{
    assert(tokens_view(tokens@).len() == tokens@.len());
    let s469 = owned("습니까");
    let mut t468 = tokens[i].duplicate();
    t468.surface = s469;
    t468
}

/// ㅂ니까/EF after 었, 겠, 았, 였 or 이/VCP is written 습니까.
pub fn apply_p31b(tokens: &mut Vec<SejongToken>)
    ensures
        tokens_view(final(tokens)@) == p31b(tokens_view(old(tokens)@)),
{
    let ghost orig = tokens_view(tokens@);
    let mut out: Vec<SejongToken> = Vec::new();
    let mut k: usize = 0;
    while k < tokens.len()
        invariant
            k <= tokens@.len(),
            orig == tokens_view(tokens@),
            tokens_view(out@) == p31b(orig).take(k as int),
        decreases tokens@.len() - k,
    {
        let t = if p31b_c_exec(tokens, k) { p31b_t_exec(tokens, k) } else { tokens[k].duplicate() };
        push_token(&mut out, t);
        k += 1;
        assert(tokens_view(out@) =~= p31b(orig).take(k as int));
    }
    assert(p31b(orig).take(k as int) =~= p31b(orig));
    *tokens = out;
}

/// Where [`p31c`] changes a token.
pub open spec fn p31c_c(ts: Seq<TokenView>, i: int) -> bool {
    (((0 <= i < ts.len() && ts[i].surface == "ᄇ니다"@) && (0 <= i < ts.len() && ts[i].pos == "EF"@)) && !(((0 <= i - 1 < ts.len() && ts[i - 1].pos == "EP"@) && (0 <= i - 1 < ts.len() && seq!["었"@, "겠"@, "았"@, "였"@].contains(ts[i - 1].surface))) || (0 <= i - 1 < ts.len() && ts[i - 1].pos == "VCP"@)))
}

/// The token [`p31c`] puts at `i`.
pub open spec fn p31c_t(ts: Seq<TokenView>, i: int) -> TokenView {
    TokenView { surface: "ㅂ니다"@, ..ts[i] }
}

/// ᄇ니다/EF elsewhere is written ㅂ니다.
pub open spec fn p31c(ts: Seq<TokenView>) -> Seq<TokenView> {
    map_where(ts, |ts: Seq<TokenView>, i: int| p31c_c(ts, i), |ts: Seq<TokenView>, i: int| p31c_t(ts, i))
}

/// Whether [`p31c`] changes the token at `i`.
fn p31c_c_exec(tokens: &Vec<SejongToken>, i: usize) -> (r: bool)
    requires
        i < tokens@.len(),
    ensures
        r == p31c_c(tokens_view(tokens@), i as int),
{
    assert(tokens_view(tokens@).len() == tokens@.len());
    let c470 = surf_is(&tokens[i], "ᄇ니다");
    let c471 = pos_is(&tokens[i], "EF");
    let c472 = (i >= 1) && pos_is(&tokens[i - 1], "EP");
    let l474: [&str; 4] = ["었", "겠", "았", "였"];
    assert(crate::tag_map::strs_view(l474@) =~= seq!["었"@, "겠"@, "았"@, "였"@]);
    let c473 = (i >= 1) && in_list(&l474, tokens[i - 1].surface.as_str());
    let c475 = (i >= 1) && pos_is(&tokens[i - 1], "VCP");
    ((c470 && c471) && !((c472 && c473) || c475))
}

/// The token [`p31c`] puts at `i`.
fn p31c_t_exec(tokens: &Vec<SejongToken>, i: usize) -> (t: SejongToken)
    requires
        i < tokens@.len(),
        p31c_c(tokens_view(tokens@), i as int),
    ensures
        t@ == p31c_t(tokens_view(tokens@), i as int),
{
    assert(tokens_view(tokens@).len() == tokens@.len());
    let s477 = owned("ㅂ니다");
    let mut t476 = tokens[i].duplicate();
    t476.surface = s477;
    t476
}

/// ᄇ니다/EF elsewhere is written ㅂ니다.
pub fn apply_p31c(tokens: &mut Vec<SejongToken>)
    ensures
        tokens_view(final(tokens)@) == p31c(tokens_view(old(tokens)@)),
{
    let ghost orig = tokens_view(tokens@);
    let mut out: Vec<SejongToken> = Vec::new();
    let mut k: usize = 0;
    while k < tokens.len()
        invariant
            k <= tokens@.len(),
            orig == tokens_view(tokens@),
            tokens_view(out@) == p31c(orig).take(k as int),
        decreases tokens@.len() - k,
    {
        let t = if p31c_c_exec(tokens, k) { p31c_t_exec(tokens, k) } else { tokens[k].duplicate() };
        push_token(&mut out, t);
        k += 1;
        assert(tokens_view(out@) =~= p31c(orig).take(k as int));
    }
    assert(p31c(orig).take(k as int) =~= p31c(orig));
    *tokens = out;
}

/// Where [`p31d`] changes a token.
pub open spec fn p31d_c(ts: Seq<TokenView>, i: int) -> bool {
    (((0 <= i < ts.len() && ts[i].surface == "ᄇ니까"@) && (0 <= i < ts.len() && ts[i].pos == "EF"@)) && !(((0 <= i - 1 < ts.len() && ts[i - 1].pos == "EP"@) && (0 <= i - 1 < ts.len() && seq!["었"@, "겠"@, "았"@, "였"@].contains(ts[i - 1].surface))) || (0 <= i - 1 < ts.len() && ts[i - 1].pos == "VCP"@)))
}

/// The token [`p31d`] puts at `i`.
pub open spec fn p31d_t(ts: Seq<TokenView>, i: int) -> TokenView {
    TokenView { surface: "ㅂ니까"@, ..ts[i] }
}

/// ᄇ니까/EF elsewhere is written ㅂ니까.
pub open spec fn p31d(ts: Seq<TokenView>) -> Seq<TokenView> {
    map_where(ts, |ts: Seq<TokenView>, i: int| p31d_c(ts, i), |ts: Seq<TokenView>, i: int| p31d_t(ts, i))
}

/// Whether [`p31d`] changes the token at `i`.
fn p31d_c_exec(tokens: &Vec<SejongToken>, i: usize) -> (r: bool)
    requires
        i < tokens@.len(),
    ensures
        r == p31d_c(tokens_view(tokens@), i as int),
{
    assert(tokens_view(tokens@).len() == tokens@.len());
    let c478 = surf_is(&tokens[i], "ᄇ니까");
    let c479 = pos_is(&tokens[i], "EF");
    let c480 = (i >= 1) && pos_is(&tokens[i - 1], "EP");
    let l482: [&str; 4] = ["었", "겠", "았", "였"];
    assert(crate::tag_map::strs_view(l482@) =~= seq!["었"@, "겠"@, "았"@, "였"@]);
    let c481 = (i >= 1) && in_list(&l482, tokens[i - 1].surface.as_str());
    let c483 = (i >= 1) && pos_is(&tokens[i - 1], "VCP");
    ((c478 && c479) && !((c480 && c481) || c483))
}

/// The token [`p31d`] puts at `i`.
fn p31d_t_exec(tokens: &Vec<SejongToken>, i: usize) -> (t: SejongToken)
    requires
        i < tokens@.len(),
        p31d_c(tokens_view(tokens@), i as int),
    ensures
        t@ == p31d_t(tokens_view(tokens@), i as int),
{
    assert(tokens_view(tokens@).len() == tokens@.len());
    let s485 = owned("ㅂ니까");
    let mut t484 = tokens[i].duplicate();
    t484.surface = s485;
    t484
}

/// ᄇ니까/EF elsewhere is written ㅂ니까.
pub fn apply_p31d(tokens: &mut Vec<SejongToken>)
    ensures
        tokens_view(final(tokens)@) == p31d(tokens_view(old(tokens)@)),
{
    let ghost orig = tokens_view(tokens@);
    let mut out: Vec<SejongToken> = Vec::new();
    let mut k: usize = 0;
    while k < tokens.len()
        invariant
            k <= tokens@.len(),
            orig == tokens_view(tokens@),
            tokens_view(out@) == p31d(orig).take(k as int),
        decreases tokens@.len() - k,
    {
        let t = if p31d_c_exec(tokens, k) { p31d_t_exec(tokens, k) } else { tokens[k].duplicate() };
        push_token(&mut out, t);
        k += 1;
        assert(tokens_view(out@) =~= p31d(orig).take(k as int));
    }
    assert(p31d(orig).take(k as int) =~= p31d(orig));
    *tokens = out;
}

/// Where rule 0 of [`p32`] applies.
pub open spec fn p32_c0(ts: Seq<TokenView>, i: int) -> bool {
    ((0 <= i < ts.len() && ts[i].surface == "열리"@) && (0 <= i < ts.len() && ts[i].pos == "VV"@))
}

/// Where rule 1 of [`p32`] applies.
pub open spec fn p32_c1(ts: Seq<TokenView>, i: int) -> bool {
    ((0 <= i < ts.len() && ts[i].surface == "걸리"@) && (0 <= i < ts.len() && ts[i].pos == "VV"@))
}

/// Where rule 2 of [`p32`] applies.
pub open spec fn p32_c2(ts: Seq<TokenView>, i: int) -> bool {
    ((0 <= i < ts.len() && ts[i].surface == "눌리"@) && (0 <= i < ts.len() && ts[i].pos == "VV"@))
}

/// Where rule 3 of [`p32`] applies.
pub open spec fn p32_c3(ts: Seq<TokenView>, i: int) -> bool {
    ((0 <= i < ts.len() && ts[i].surface == "밀리"@) && (0 <= i < ts.len() && ts[i].pos == "VV"@))
}

/// Where rule 4 of [`p32`] applies.
pub open spec fn p32_c4(ts: Seq<TokenView>, i: int) -> bool {
    ((0 <= i < ts.len() && ts[i].surface == "끌리"@) && (0 <= i < ts.len() && ts[i].pos == "VV"@))
}

/// Where rule 5 of [`p32`] applies.
pub open spec fn p32_c5(ts: Seq<TokenView>, i: int) -> bool {
    ((0 <= i < ts.len() && ts[i].surface == "뚫리"@) && (0 <= i < ts.len() && ts[i].pos == "VV"@))
}

/// Where rule 6 of [`p32`] applies.
pub open spec fn p32_c6(ts: Seq<TokenView>, i: int) -> bool {
    ((0 <= i < ts.len() && ts[i].surface == "풀리"@) && (0 <= i < ts.len() && ts[i].pos == "VV"@))
}

/// Where rule 7 of [`p32`] applies.
pub open spec fn p32_c7(ts: Seq<TokenView>, i: int) -> bool {
    ((0 <= i < ts.len() && ts[i].surface == "팔리"@) && (0 <= i < ts.len() && ts[i].pos == "VV"@))
}

/// Where rule 8 of [`p32`] applies.
pub open spec fn p32_c8(ts: Seq<TokenView>, i: int) -> bool {
    ((0 <= i < ts.len() && ts[i].surface == "불리"@) && (0 <= i < ts.len() && ts[i].pos == "VV"@))
}

/// Where rule 9 of [`p32`] applies.
pub open spec fn p32_c9(ts: Seq<TokenView>, i: int) -> bool {
    ((0 <= i < ts.len() && ts[i].surface == "보이"@) && (0 <= i < ts.len() && ts[i].pos == "VV"@))
}

/// Where rule 10 of [`p32`] applies.
pub open spec fn p32_c10(ts: Seq<TokenView>, i: int) -> bool {
    ((0 <= i < ts.len() && ts[i].surface == "쓰이"@) && (0 <= i < ts.len() && ts[i].pos == "VV"@))
}

/// Where rule 11 of [`p32`] applies.
pub open spec fn p32_c11(ts: Seq<TokenView>, i: int) -> bool {
    ((0 <= i < ts.len() && ts[i].surface == "덮이"@) && (0 <= i < ts.len() && ts[i].pos == "VV"@))
}

/// Where rule 12 of [`p32`] applies.
pub open spec fn p32_c12(ts: Seq<TokenView>, i: int) -> bool {
    ((0 <= i < ts.len() && ts[i].surface == "놓이"@) && (0 <= i < ts.len() && ts[i].pos == "VV"@))
}

/// Where rule 13 of [`p32`] applies.
pub open spec fn p32_c13(ts: Seq<TokenView>, i: int) -> bool {
    ((0 <= i < ts.len() && ts[i].surface == "쌓이"@) && (0 <= i < ts.len() && ts[i].pos == "VV"@))
}

/// Where rule 14 of [`p32`] applies.
pub open spec fn p32_c14(ts: Seq<TokenView>, i: int) -> bool {
    ((0 <= i < ts.len() && ts[i].surface == "먹이"@) && (0 <= i < ts.len() && ts[i].pos == "VV"@))
}

/// Where rule 15 of [`p32`] applies.
pub open spec fn p32_c15(ts: Seq<TokenView>, i: int) -> bool {
    ((0 <= i < ts.len() && ts[i].surface == "잡히"@) && (0 <= i < ts.len() && ts[i].pos == "VV"@))
}

/// Where rule 16 of [`p32`] applies.
pub open spec fn p32_c16(ts: Seq<TokenView>, i: int) -> bool {
    ((0 <= i < ts.len() && ts[i].surface == "읽히"@) && (0 <= i < ts.len() && ts[i].pos == "VV"@))
}

/// Where rule 17 of [`p32`] applies.
pub open spec fn p32_c17(ts: Seq<TokenView>, i: int) -> bool {
    ((0 <= i < ts.len() && ts[i].surface == "막히"@) && (0 <= i < ts.len() && ts[i].pos == "VV"@))
}

/// Where rule 18 of [`p32`] applies.
pub open spec fn p32_c18(ts: Seq<TokenView>, i: int) -> bool {
    ((0 <= i < ts.len() && ts[i].surface == "묻히"@) && (0 <= i < ts.len() && ts[i].pos == "VV"@))
}

/// Where rule 19 of [`p32`] applies.
pub open spec fn p32_c19(ts: Seq<TokenView>, i: int) -> bool {
    ((0 <= i < ts.len() && ts[i].surface == "닫히"@) && (0 <= i < ts.len() && ts[i].pos == "VV"@))
}

/// Where rule 20 of [`p32`] applies.
pub open spec fn p32_c20(ts: Seq<TokenView>, i: int) -> bool {
    ((0 <= i < ts.len() && ts[i].surface == "꽂히"@) && (0 <= i < ts.len() && ts[i].pos == "VV"@))
}

/// Where rule 21 of [`p32`] applies.
pub open spec fn p32_c21(ts: Seq<TokenView>, i: int) -> bool {
    ((0 <= i < ts.len() && ts[i].surface == "안기"@) && (0 <= i < ts.len() && ts[i].pos == "VV"@))
}

/// Where rule 22 of [`p32`] applies.
pub open spec fn p32_c22(ts: Seq<TokenView>, i: int) -> bool {
    ((0 <= i < ts.len() && ts[i].surface == "쫓기"@) && (0 <= i < ts.len() && ts[i].pos == "VV"@))
}

/// One step of [`p32`] at `i`: the list after it and the next position.
pub open spec fn p32_step(ts: Seq<TokenView>, i: int) -> (Seq<TokenView>, int) {
    if p32_c0(ts, i) {
        (splice(ts, i, 1, seq![plain_view("열"@, "VV"@, ts[i].start_pos, (ts[i].start_pos).saturating_add(1)), plain_view("리"@, "VX"@, (ts[i].start_pos).saturating_add(1), ts[i].end_pos)]), i + 2)
    } else if p32_c1(ts, i) {
        (splice(ts, i, 1, seq![plain_view("걸"@, "VV"@, ts[i].start_pos, (ts[i].start_pos).saturating_add(1)), plain_view("리"@, "VX"@, (ts[i].start_pos).saturating_add(1), ts[i].end_pos)]), i + 2)
    } else if p32_c2(ts, i) {
        (splice(ts, i, 1, seq![plain_view("눌"@, "VV"@, ts[i].start_pos, (ts[i].start_pos).saturating_add(1)), plain_view("리"@, "VX"@, (ts[i].start_pos).saturating_add(1), ts[i].end_pos)]), i + 2)
    } else if p32_c3(ts, i) {
        (splice(ts, i, 1, seq![plain_view("밀"@, "VV"@, ts[i].start_pos, (ts[i].start_pos).saturating_add(1)), plain_view("리"@, "VX"@, (ts[i].start_pos).saturating_add(1), ts[i].end_pos)]), i + 2)
    } else if p32_c4(ts, i) {
        (splice(ts, i, 1, seq![plain_view("끌"@, "VV"@, ts[i].start_pos, (ts[i].start_pos).saturating_add(1)), plain_view("리"@, "VX"@, (ts[i].start_pos).saturating_add(1), ts[i].end_pos)]), i + 2)
    } else if p32_c5(ts, i) {
        (splice(ts, i, 1, seq![plain_view("뚫"@, "VV"@, ts[i].start_pos, (ts[i].start_pos).saturating_add(1)), plain_view("리"@, "VX"@, (ts[i].start_pos).saturating_add(1), ts[i].end_pos)]), i + 2)
    } else if p32_c6(ts, i) {
        (splice(ts, i, 1, seq![plain_view("풀"@, "VV"@, ts[i].start_pos, (ts[i].start_pos).saturating_add(1)), plain_view("리"@, "VX"@, (ts[i].start_pos).saturating_add(1), ts[i].end_pos)]), i + 2)
    } else if p32_c7(ts, i) {
        (splice(ts, i, 1, seq![plain_view("팔"@, "VV"@, ts[i].start_pos, (ts[i].start_pos).saturating_add(1)), plain_view("리"@, "VX"@, (ts[i].start_pos).saturating_add(1), ts[i].end_pos)]), i + 2)
    } else if p32_c8(ts, i) {
        (splice(ts, i, 1, seq![plain_view("불"@, "VV"@, ts[i].start_pos, (ts[i].start_pos).saturating_add(1)), plain_view("리"@, "VX"@, (ts[i].start_pos).saturating_add(1), ts[i].end_pos)]), i + 2)
    } else if p32_c9(ts, i) {
        (splice(ts, i, 1, seq![plain_view("보"@, "VV"@, ts[i].start_pos, (ts[i].start_pos).saturating_add(1)), plain_view("이"@, "VX"@, (ts[i].start_pos).saturating_add(1), ts[i].end_pos)]), i + 2)
    } else if p32_c10(ts, i) {
        (splice(ts, i, 1, seq![plain_view("쓰"@, "VV"@, ts[i].start_pos, (ts[i].start_pos).saturating_add(1)), plain_view("이"@, "VX"@, (ts[i].start_pos).saturating_add(1), ts[i].end_pos)]), i + 2)
    } else if p32_c11(ts, i) {
        (splice(ts, i, 1, seq![plain_view("덮"@, "VV"@, ts[i].start_pos, (ts[i].start_pos).saturating_add(1)), plain_view("이"@, "VX"@, (ts[i].start_pos).saturating_add(1), ts[i].end_pos)]), i + 2)
    } else if p32_c12(ts, i) {
        (splice(ts, i, 1, seq![plain_view("놓"@, "VV"@, ts[i].start_pos, (ts[i].start_pos).saturating_add(1)), plain_view("이"@, "VX"@, (ts[i].start_pos).saturating_add(1), ts[i].end_pos)]), i + 2)
    } else if p32_c13(ts, i) {
        (splice(ts, i, 1, seq![plain_view("쌓"@, "VV"@, ts[i].start_pos, (ts[i].start_pos).saturating_add(1)), plain_view("이"@, "VX"@, (ts[i].start_pos).saturating_add(1), ts[i].end_pos)]), i + 2)
    } else if p32_c14(ts, i) {
        (splice(ts, i, 1, seq![plain_view("먹"@, "VV"@, ts[i].start_pos, (ts[i].start_pos).saturating_add(1)), plain_view("이"@, "VX"@, (ts[i].start_pos).saturating_add(1), ts[i].end_pos)]), i + 2)
    } else if p32_c15(ts, i) {
        (splice(ts, i, 1, seq![plain_view("잡"@, "VV"@, ts[i].start_pos, (ts[i].start_pos).saturating_add(1)), plain_view("히"@, "VX"@, (ts[i].start_pos).saturating_add(1), ts[i].end_pos)]), i + 2)
    } else if p32_c16(ts, i) {
        (splice(ts, i, 1, seq![plain_view("읽"@, "VV"@, ts[i].start_pos, (ts[i].start_pos).saturating_add(1)), plain_view("히"@, "VX"@, (ts[i].start_pos).saturating_add(1), ts[i].end_pos)]), i + 2)
    } else if p32_c17(ts, i) {
        (splice(ts, i, 1, seq![plain_view("막"@, "VV"@, ts[i].start_pos, (ts[i].start_pos).saturating_add(1)), plain_view("히"@, "VX"@, (ts[i].start_pos).saturating_add(1), ts[i].end_pos)]), i + 2)
    } else if p32_c18(ts, i) {
        (splice(ts, i, 1, seq![plain_view("묻"@, "VV"@, ts[i].start_pos, (ts[i].start_pos).saturating_add(1)), plain_view("히"@, "VX"@, (ts[i].start_pos).saturating_add(1), ts[i].end_pos)]), i + 2)
    } else if p32_c19(ts, i) {
        (splice(ts, i, 1, seq![plain_view("닫"@, "VV"@, ts[i].start_pos, (ts[i].start_pos).saturating_add(1)), plain_view("히"@, "VX"@, (ts[i].start_pos).saturating_add(1), ts[i].end_pos)]), i + 2)
    } else if p32_c20(ts, i) {
        (splice(ts, i, 1, seq![plain_view("꽂"@, "VV"@, ts[i].start_pos, (ts[i].start_pos).saturating_add(1)), plain_view("히"@, "VX"@, (ts[i].start_pos).saturating_add(1), ts[i].end_pos)]), i + 2)
    } else if p32_c21(ts, i) {
        (splice(ts, i, 1, seq![plain_view("안"@, "VV"@, ts[i].start_pos, (ts[i].start_pos).saturating_add(1)), plain_view("기"@, "VX"@, (ts[i].start_pos).saturating_add(1), ts[i].end_pos)]), i + 2)
    } else if p32_c22(ts, i) {
        (splice(ts, i, 1, seq![plain_view("쫓"@, "VV"@, ts[i].start_pos, (ts[i].start_pos).saturating_add(1)), plain_view("기"@, "VX"@, (ts[i].start_pos).saturating_add(1), ts[i].end_pos)]), i + 2)
    } else {
        (ts, i + 1)
    }
}

/// [`p32_step`] as a function value.
pub open spec fn p32_f() -> spec_fn(Seq<TokenView>, int) -> (Seq<TokenView>, int) {
    |ts: Seq<TokenView>, i: int| p32_step(ts, i)
}

/// A passive verb is split into the stem and the passive suffix as VX (보이/VV → 보/VV 이/VX); 들리 stays whole.
pub open spec fn p32(ts: Seq<TokenView>) -> Seq<TokenView> {
    scan(ts, 0, p32_f())
}

/// Whether rule 0 of [`p32`] applies at `i`.
fn p32_c0_exec(tokens: &Vec<SejongToken>, i: usize) -> (r: bool)
    requires
        i < tokens@.len(),
    ensures
        r == p32_c0(tokens_view(tokens@), i as int),
{
    assert(tokens_view(tokens@).len() == tokens@.len());
    let c486 = surf_is(&tokens[i], "열리");
    let c487 = pos_is(&tokens[i], "VV");
    (c486 && c487)
}

/// Whether rule 1 of [`p32`] applies at `i`.
fn p32_c1_exec(tokens: &Vec<SejongToken>, i: usize) -> (r: bool)
    requires
        i < tokens@.len(),
    ensures
        r == p32_c1(tokens_view(tokens@), i as int),
{
    assert(tokens_view(tokens@).len() == tokens@.len());
    let c488 = surf_is(&tokens[i], "걸리");
    let c489 = pos_is(&tokens[i], "VV");
    (c488 && c489)
}

/// Whether rule 2 of [`p32`] applies at `i`.
fn p32_c2_exec(tokens: &Vec<SejongToken>, i: usize) -> (r: bool)
    requires
        i < tokens@.len(),
    ensures
        r == p32_c2(tokens_view(tokens@), i as int),
{
    assert(tokens_view(tokens@).len() == tokens@.len());
    let c490 = surf_is(&tokens[i], "눌리");
    let c491 = pos_is(&tokens[i], "VV");
    (c490 && c491)
}

/// Whether rule 3 of [`p32`] applies at `i`.
fn p32_c3_exec(tokens: &Vec<SejongToken>, i: usize) -> (r: bool)
    requires
        i < tokens@.len(),
    ensures
        r == p32_c3(tokens_view(tokens@), i as int),
{
    assert(tokens_view(tokens@).len() == tokens@.len());
    let c492 = surf_is(&tokens[i], "밀리");
    let c493 = pos_is(&tokens[i], "VV");
    (c492 && c493)
}

/// Whether rule 4 of [`p32`] applies at `i`.
fn p32_c4_exec(tokens: &Vec<SejongToken>, i: usize) -> (r: bool)
    requires
        i < tokens@.len(),
    ensures
        r == p32_c4(tokens_view(tokens@), i as int),
{
    assert(tokens_view(tokens@).len() == tokens@.len());
    let c494 = surf_is(&tokens[i], "끌리");
    let c495 = pos_is(&tokens[i], "VV");
    (c494 && c495)
}

/// Whether rule 5 of [`p32`] applies at `i`.
fn p32_c5_exec(tokens: &Vec<SejongToken>, i: usize) -> (r: bool)
    requires
        i < tokens@.len(),
    ensures
        r == p32_c5(tokens_view(tokens@), i as int),
{
    assert(tokens_view(tokens@).len() == tokens@.len());
    let c496 = surf_is(&tokens[i], "뚫리");
    let c497 = pos_is(&tokens[i], "VV");
    (c496 && c497)
}

/// Whether rule 6 of [`p32`] applies at `i`.
fn p32_c6_exec(tokens: &Vec<SejongToken>, i: usize) -> (r: bool)
    requires
        i < tokens@.len(),
    ensures
        r == p32_c6(tokens_view(tokens@), i as int),
{
    assert(tokens_view(tokens@).len() == tokens@.len());
    let c498 = surf_is(&tokens[i], "풀리");
    let c499 = pos_is(&tokens[i], "VV");
    (c498 && c499)
}

/// Whether rule 7 of [`p32`] applies at `i`.
fn p32_c7_exec(tokens: &Vec<SejongToken>, i: usize) -> (r: bool)
    requires
        i < tokens@.len(),
    ensures
        r == p32_c7(tokens_view(tokens@), i as int),
{
    assert(tokens_view(tokens@).len() == tokens@.len());
    let c500 = surf_is(&tokens[i], "팔리");
    let c501 = pos_is(&tokens[i], "VV");
    (c500 && c501)
}

/// Whether rule 8 of [`p32`] applies at `i`.
fn p32_c8_exec(tokens: &Vec<SejongToken>, i: usize) -> (r: bool)
    requires
        i < tokens@.len(),
    ensures
        r == p32_c8(tokens_view(tokens@), i as int),
{
    assert(tokens_view(tokens@).len() == tokens@.len());
    let c502 = surf_is(&tokens[i], "불리");
    let c503 = pos_is(&tokens[i], "VV");
    (c502 && c503)
}

/// Whether rule 9 of [`p32`] applies at `i`.
fn p32_c9_exec(tokens: &Vec<SejongToken>, i: usize) -> (r: bool)
    requires
        i < tokens@.len(),
    ensures
        r == p32_c9(tokens_view(tokens@), i as int),
{
    assert(tokens_view(tokens@).len() == tokens@.len());
    let c504 = surf_is(&tokens[i], "보이");
    let c505 = pos_is(&tokens[i], "VV");
    (c504 && c505)
}

/// Whether rule 10 of [`p32`] applies at `i`.
fn p32_c10_exec(tokens: &Vec<SejongToken>, i: usize) -> (r: bool)
    requires
        i < tokens@.len(),
    ensures
        r == p32_c10(tokens_view(tokens@), i as int),
{
    assert(tokens_view(tokens@).len() == tokens@.len());
    let c506 = surf_is(&tokens[i], "쓰이");
    let c507 = pos_is(&tokens[i], "VV");
    (c506 && c507)
}

/// Whether rule 11 of [`p32`] applies at `i`.
fn p32_c11_exec(tokens: &Vec<SejongToken>, i: usize) -> (r: bool)
    requires
        i < tokens@.len(),
    ensures
        r == p32_c11(tokens_view(tokens@), i as int),
{
    assert(tokens_view(tokens@).len() == tokens@.len());
    let c508 = surf_is(&tokens[i], "덮이");
    let c509 = pos_is(&tokens[i], "VV");
    (c508 && c509)
}

/// Whether rule 12 of [`p32`] applies at `i`.
fn p32_c12_exec(tokens: &Vec<SejongToken>, i: usize) -> (r: bool)
    requires
        i < tokens@.len(),
    ensures
        r == p32_c12(tokens_view(tokens@), i as int),
{
    assert(tokens_view(tokens@).len() == tokens@.len());
    let c510 = surf_is(&tokens[i], "놓이");
    let c511 = pos_is(&tokens[i], "VV");
    (c510 && c511)
}

/// Whether rule 13 of [`p32`] applies at `i`.
fn p32_c13_exec(tokens: &Vec<SejongToken>, i: usize) -> (r: bool)
    requires
        i < tokens@.len(),
    ensures
        r == p32_c13(tokens_view(tokens@), i as int),
{
    assert(tokens_view(tokens@).len() == tokens@.len());
    let c512 = surf_is(&tokens[i], "쌓이");
    let c513 = pos_is(&tokens[i], "VV");
    (c512 && c513)
}

/// Whether rule 14 of [`p32`] applies at `i`.
fn p32_c14_exec(tokens: &Vec<SejongToken>, i: usize) -> (r: bool)
    requires
        i < tokens@.len(),
    ensures
        r == p32_c14(tokens_view(tokens@), i as int),
{
    assert(tokens_view(tokens@).len() == tokens@.len());
    let c514 = surf_is(&tokens[i], "먹이");
    let c515 = pos_is(&tokens[i], "VV");
    (c514 && c515)
}

/// Whether rule 15 of [`p32`] applies at `i`.
fn p32_c15_exec(tokens: &Vec<SejongToken>, i: usize) -> (r: bool)
    requires
        i < tokens@.len(),
    ensures
        r == p32_c15(tokens_view(tokens@), i as int),
{
    assert(tokens_view(tokens@).len() == tokens@.len());
    let c516 = surf_is(&tokens[i], "잡히");
    let c517 = pos_is(&tokens[i], "VV");
    (c516 && c517)
}

/// Whether rule 16 of [`p32`] applies at `i`.
fn p32_c16_exec(tokens: &Vec<SejongToken>, i: usize) -> (r: bool)
    requires
        i < tokens@.len(),
    ensures
        r == p32_c16(tokens_view(tokens@), i as int),
{
    assert(tokens_view(tokens@).len() == tokens@.len());
    let c518 = surf_is(&tokens[i], "읽히");
    let c519 = pos_is(&tokens[i], "VV");
    (c518 && c519)
}

/// Whether rule 17 of [`p32`] applies at `i`.
fn p32_c17_exec(tokens: &Vec<SejongToken>, i: usize) -> (r: bool)
    requires
        i < tokens@.len(),
    ensures
        r == p32_c17(tokens_view(tokens@), i as int),
{
    assert(tokens_view(tokens@).len() == tokens@.len());
    let c520 = surf_is(&tokens[i], "막히");
    let c521 = pos_is(&tokens[i], "VV");
    (c520 && c521)
}

/// Whether rule 18 of [`p32`] applies at `i`.
fn p32_c18_exec(tokens: &Vec<SejongToken>, i: usize) -> (r: bool)
    requires
        i < tokens@.len(),
    ensures
        r == p32_c18(tokens_view(tokens@), i as int),
{
    assert(tokens_view(tokens@).len() == tokens@.len());
    let c522 = surf_is(&tokens[i], "묻히");
    let c523 = pos_is(&tokens[i], "VV");
    (c522 && c523)
}

/// Whether rule 19 of [`p32`] applies at `i`.
fn p32_c19_exec(tokens: &Vec<SejongToken>, i: usize) -> (r: bool)
    requires
        i < tokens@.len(),
    ensures
        r == p32_c19(tokens_view(tokens@), i as int),
{
    assert(tokens_view(tokens@).len() == tokens@.len());
    let c524 = surf_is(&tokens[i], "닫히");
    let c525 = pos_is(&tokens[i], "VV");
    (c524 && c525)
}

/// Whether rule 20 of [`p32`] applies at `i`.
fn p32_c20_exec(tokens: &Vec<SejongToken>, i: usize) -> (r: bool)
    requires
        i < tokens@.len(),
    ensures
        r == p32_c20(tokens_view(tokens@), i as int),
{
    assert(tokens_view(tokens@).len() == tokens@.len());
    let c526 = surf_is(&tokens[i], "꽂히");
    let c527 = pos_is(&tokens[i], "VV");
    (c526 && c527)
}

/// Whether rule 21 of [`p32`] applies at `i`.
fn p32_c21_exec(tokens: &Vec<SejongToken>, i: usize) -> (r: bool)
    requires
        i < tokens@.len(),
    ensures
        r == p32_c21(tokens_view(tokens@), i as int),
{
    assert(tokens_view(tokens@).len() == tokens@.len());
    let c528 = surf_is(&tokens[i], "안기");
    let c529 = pos_is(&tokens[i], "VV");
    (c528 && c529)
}

/// Whether rule 22 of [`p32`] applies at `i`.
fn p32_c22_exec(tokens: &Vec<SejongToken>, i: usize) -> (r: bool)
    requires
        i < tokens@.len(),
    ensures
        r == p32_c22(tokens_view(tokens@), i as int),
{
    assert(tokens_view(tokens@).len() == tokens@.len());
    let c530 = surf_is(&tokens[i], "쫓기");
    let c531 = pos_is(&tokens[i], "VV");
    (c530 && c531)
}

/// One step of [`p32`] at `i`; returns the next position.
#[verifier::rlimit(50)]
fn p32_step_exec(tokens: &mut Vec<SejongToken>, i: usize) -> (next: usize)
    requires
        i < old(tokens)@.len(),
    ensures
        (tokens_view(final(tokens)@), next as int) == p32_step(tokens_view(old(tokens)@), i as int),
        final(tokens)@.len() - next < old(tokens)@.len() - i,
        next <= final(tokens)@.len() + 1,
{
    let len0 = tokens.len();
    assert(tokens_view(tokens@).len() == tokens@.len());
    if p32_c0_exec(tokens, i) {
        let s533 = owned("열");
        let s534 = owned("VV");
        let n535 = tokens[i].start_pos;
        let n537 = tokens[i].start_pos;
        let n536 = n537.saturating_add(1);
        let t532 = SejongToken::new(s533.as_str(), s534.as_str(), n535, n536);
        let s539 = owned("리");
        let s540 = owned("VX");
        let n542 = tokens[i].start_pos;
        let n541 = n542.saturating_add(1);
        let n543 = tokens[i].end_pos;
        let t538 = SejongToken::new(s539.as_str(), s540.as_str(), n541, n543);
        let mut nv544: Vec<SejongToken> = Vec::new();
        push_token(&mut nv544, t532);
        push_token(&mut nv544, t538);
        splice_tokens(tokens, i, 1, nv544);
        let _len1 = tokens.len();
        return i + 2;
    }
    if p32_c1_exec(tokens, i) {
        let s546 = owned("걸");
        let s547 = owned("VV");
        let n548 = tokens[i].start_pos;
        let n550 = tokens[i].start_pos;
        let n549 = n550.saturating_add(1);
        let t545 = SejongToken::new(s546.as_str(), s547.as_str(), n548, n549);
        let s552 = owned("리");
        let s553 = owned("VX");
        let n555 = tokens[i].start_pos;
        let n554 = n555.saturating_add(1);
        let n556 = tokens[i].end_pos;
        let t551 = SejongToken::new(s552.as_str(), s553.as_str(), n554, n556);
        let mut nv557: Vec<SejongToken> = Vec::new();
        push_token(&mut nv557, t545);
        push_token(&mut nv557, t551);
        splice_tokens(tokens, i, 1, nv557);
        let _len1 = tokens.len();
        return i + 2;
    }
    if p32_c2_exec(tokens, i) {
        let s559 = owned("눌");
        let s560 = owned("VV");
        let n561 = tokens[i].start_pos;
        let n563 = tokens[i].start_pos;
        let n562 = n563.saturating_add(1);
        let t558 = SejongToken::new(s559.as_str(), s560.as_str(), n561, n562);
        let s565 = owned("리");
        let s566 = owned("VX");
        let n568 = tokens[i].start_pos;
        let n567 = n568.saturating_add(1);
        let n569 = tokens[i].end_pos;
        let t564 = SejongToken::new(s565.as_str(), s566.as_str(), n567, n569);
        let mut nv570: Vec<SejongToken> = Vec::new();
        push_token(&mut nv570, t558);
        push_token(&mut nv570, t564);
        splice_tokens(tokens, i, 1, nv570);
        let _len1 = tokens.len();
        return i + 2;
    }
    if p32_c3_exec(tokens, i) {
        let s572 = owned("밀");
        let s573 = owned("VV");
        let n574 = tokens[i].start_pos;
        let n576 = tokens[i].start_pos;
        let n575 = n576.saturating_add(1);
        let t571 = SejongToken::new(s572.as_str(), s573.as_str(), n574, n575);
        let s578 = owned("리");
        let s579 = owned("VX");
        let n581 = tokens[i].start_pos;
        let n580 = n581.saturating_add(1);
        let n582 = tokens[i].end_pos;
        let t577 = SejongToken::new(s578.as_str(), s579.as_str(), n580, n582);
        let mut nv583: Vec<SejongToken> = Vec::new();
        push_token(&mut nv583, t571);
        push_token(&mut nv583, t577);
        splice_tokens(tokens, i, 1, nv583);
        let _len1 = tokens.len();
        return i + 2;
    }
    if p32_c4_exec(tokens, i) {
        let s585 = owned("끌");
        let s586 = owned("VV");
        let n587 = tokens[i].start_pos;
        let n589 = tokens[i].start_pos;
        let n588 = n589.saturating_add(1);
        let t584 = SejongToken::new(s585.as_str(), s586.as_str(), n587, n588);
        let s591 = owned("리");
        let s592 = owned("VX");
        let n594 = tokens[i].start_pos;
        let n593 = n594.saturating_add(1);
        let n595 = tokens[i].end_pos;
        let t590 = SejongToken::new(s591.as_str(), s592.as_str(), n593, n595);
        let mut nv596: Vec<SejongToken> = Vec::new();
        push_token(&mut nv596, t584);
        push_token(&mut nv596, t590);
        splice_tokens(tokens, i, 1, nv596);
        let _len1 = tokens.len();
        return i + 2;
    }
    if p32_c5_exec(tokens, i) {
        let s598 = owned("뚫");
        let s599 = owned("VV");
        let n600 = tokens[i].start_pos;
        let n602 = tokens[i].start_pos;
        let n601 = n602.saturating_add(1);
        let t597 = SejongToken::new(s598.as_str(), s599.as_str(), n600, n601);
        let s604 = owned("리");
        let s605 = owned("VX");
        let n607 = tokens[i].start_pos;
        let n606 = n607.saturating_add(1);
        let n608 = tokens[i].end_pos;
        let t603 = SejongToken::new(s604.as_str(), s605.as_str(), n606, n608);
        let mut nv609: Vec<SejongToken> = Vec::new();
        push_token(&mut nv609, t597);
        push_token(&mut nv609, t603);
        splice_tokens(tokens, i, 1, nv609);
        let _len1 = tokens.len();
        return i + 2;
    }
    if p32_c6_exec(tokens, i) {
        let s611 = owned("풀");
        let s612 = owned("VV");
        let n613 = tokens[i].start_pos;
        let n615 = tokens[i].start_pos;
        let n614 = n615.saturating_add(1);
        let t610 = SejongToken::new(s611.as_str(), s612.as_str(), n613, n614);
        let s617 = owned("리");
        let s618 = owned("VX");
        let n620 = tokens[i].start_pos;
        let n619 = n620.saturating_add(1);
        let n621 = tokens[i].end_pos;
        let t616 = SejongToken::new(s617.as_str(), s618.as_str(), n619, n621);
        let mut nv622: Vec<SejongToken> = Vec::new();
        push_token(&mut nv622, t610);
        push_token(&mut nv622, t616);
        splice_tokens(tokens, i, 1, nv622);
        let _len1 = tokens.len();
        return i + 2;
    }
    if p32_c7_exec(tokens, i) {
        let s624 = owned("팔");
        let s625 = owned("VV");
        let n626 = tokens[i].start_pos;
        let n628 = tokens[i].start_pos;
        let n627 = n628.saturating_add(1);
        let t623 = SejongToken::new(s624.as_str(), s625.as_str(), n626, n627);
        let s630 = owned("리");
        let s631 = owned("VX");
        let n633 = tokens[i].start_pos;
        let n632 = n633.saturating_add(1);
        let n634 = tokens[i].end_pos;
        let t629 = SejongToken::new(s630.as_str(), s631.as_str(), n632, n634);
        let mut nv635: Vec<SejongToken> = Vec::new();
        push_token(&mut nv635, t623);
        push_token(&mut nv635, t629);
        splice_tokens(tokens, i, 1, nv635);
        let _len1 = tokens.len();
        return i + 2;
    }
    if p32_c8_exec(tokens, i) {
        let s637 = owned("불");
        let s638 = owned("VV");
        let n639 = tokens[i].start_pos;
        let n641 = tokens[i].start_pos;
        let n640 = n641.saturating_add(1);
        let t636 = SejongToken::new(s637.as_str(), s638.as_str(), n639, n640);
        let s643 = owned("리");
        let s644 = owned("VX");
        let n646 = tokens[i].start_pos;
        let n645 = n646.saturating_add(1);
        let n647 = tokens[i].end_pos;
        let t642 = SejongToken::new(s643.as_str(), s644.as_str(), n645, n647);
        let mut nv648: Vec<SejongToken> = Vec::new();
        push_token(&mut nv648, t636);
        push_token(&mut nv648, t642);
        splice_tokens(tokens, i, 1, nv648);
        let _len1 = tokens.len();
        return i + 2;
    }
    if p32_c9_exec(tokens, i) {
        let s650 = owned("보");
        let s651 = owned("VV");
        let n652 = tokens[i].start_pos;
        let n654 = tokens[i].start_pos;
        let n653 = n654.saturating_add(1);
        let t649 = SejongToken::new(s650.as_str(), s651.as_str(), n652, n653);
        let s656 = owned("이");
        let s657 = owned("VX");
        let n659 = tokens[i].start_pos;
        let n658 = n659.saturating_add(1);
        let n660 = tokens[i].end_pos;
        let t655 = SejongToken::new(s656.as_str(), s657.as_str(), n658, n660);
        let mut nv661: Vec<SejongToken> = Vec::new();
        push_token(&mut nv661, t649);
        push_token(&mut nv661, t655);
        splice_tokens(tokens, i, 1, nv661);
        let _len1 = tokens.len();
        return i + 2;
    }
    if p32_c10_exec(tokens, i) {
        let s663 = owned("쓰");
        let s664 = owned("VV");
        let n665 = tokens[i].start_pos;
        let n667 = tokens[i].start_pos;
        let n666 = n667.saturating_add(1);
        let t662 = SejongToken::new(s663.as_str(), s664.as_str(), n665, n666);
        let s669 = owned("이");
        let s670 = owned("VX");
        let n672 = tokens[i].start_pos;
        let n671 = n672.saturating_add(1);
        let n673 = tokens[i].end_pos;
        let t668 = SejongToken::new(s669.as_str(), s670.as_str(), n671, n673);
        let mut nv674: Vec<SejongToken> = Vec::new();
        push_token(&mut nv674, t662);
        push_token(&mut nv674, t668);
        splice_tokens(tokens, i, 1, nv674);
        let _len1 = tokens.len();
        return i + 2;
    }
    if p32_c11_exec(tokens, i) {
        let s676 = owned("덮");
        let s677 = owned("VV");
        let n678 = tokens[i].start_pos;
        let n680 = tokens[i].start_pos;
        let n679 = n680.saturating_add(1);
        let t675 = SejongToken::new(s676.as_str(), s677.as_str(), n678, n679);
        let s682 = owned("이");
        let s683 = owned("VX");
        let n685 = tokens[i].start_pos;
        let n684 = n685.saturating_add(1);
        let n686 = tokens[i].end_pos;
        let t681 = SejongToken::new(s682.as_str(), s683.as_str(), n684, n686);
        let mut nv687: Vec<SejongToken> = Vec::new();
        push_token(&mut nv687, t675);
        push_token(&mut nv687, t681);
        splice_tokens(tokens, i, 1, nv687);
        let _len1 = tokens.len();
        return i + 2;
    }
    if p32_c12_exec(tokens, i) {
        let s689 = owned("놓");
        let s690 = owned("VV");
        let n691 = tokens[i].start_pos;
        let n693 = tokens[i].start_pos;
        let n692 = n693.saturating_add(1);
        let t688 = SejongToken::new(s689.as_str(), s690.as_str(), n691, n692);
        let s695 = owned("이");
        let s696 = owned("VX");
        let n698 = tokens[i].start_pos;
        let n697 = n698.saturating_add(1);
        let n699 = tokens[i].end_pos;
        let t694 = SejongToken::new(s695.as_str(), s696.as_str(), n697, n699);
        let mut nv700: Vec<SejongToken> = Vec::new();
        push_token(&mut nv700, t688);
        push_token(&mut nv700, t694);
        splice_tokens(tokens, i, 1, nv700);
        let _len1 = tokens.len();
        return i + 2;
    }
    if p32_c13_exec(tokens, i) {
        let s702 = owned("쌓");
        let s703 = owned("VV");
        let n704 = tokens[i].start_pos;
        let n706 = tokens[i].start_pos;
        let n705 = n706.saturating_add(1);
        let t701 = SejongToken::new(s702.as_str(), s703.as_str(), n704, n705);
        let s708 = owned("이");
        let s709 = owned("VX");
        let n711 = tokens[i].start_pos;
        let n710 = n711.saturating_add(1);
        let n712 = tokens[i].end_pos;
        let t707 = SejongToken::new(s708.as_str(), s709.as_str(), n710, n712);
        let mut nv713: Vec<SejongToken> = Vec::new();
        push_token(&mut nv713, t701);
        push_token(&mut nv713, t707);
        splice_tokens(tokens, i, 1, nv713);
        let _len1 = tokens.len();
        return i + 2;
    }
    if p32_c14_exec(tokens, i) {
        let s715 = owned("먹");
        let s716 = owned("VV");
        let n717 = tokens[i].start_pos;
        let n719 = tokens[i].start_pos;
        let n718 = n719.saturating_add(1);
        let t714 = SejongToken::new(s715.as_str(), s716.as_str(), n717, n718);
        let s721 = owned("이");
        let s722 = owned("VX");
        let n724 = tokens[i].start_pos;
        let n723 = n724.saturating_add(1);
        let n725 = tokens[i].end_pos;
        let t720 = SejongToken::new(s721.as_str(), s722.as_str(), n723, n725);
        let mut nv726: Vec<SejongToken> = Vec::new();
        push_token(&mut nv726, t714);
        push_token(&mut nv726, t720);
        splice_tokens(tokens, i, 1, nv726);
        let _len1 = tokens.len();
        return i + 2;
    }
    if p32_c15_exec(tokens, i) {
        let s728 = owned("잡");
        let s729 = owned("VV");
        let n730 = tokens[i].start_pos;
        let n732 = tokens[i].start_pos;
        let n731 = n732.saturating_add(1);
        let t727 = SejongToken::new(s728.as_str(), s729.as_str(), n730, n731);
        let s734 = owned("히");
        let s735 = owned("VX");
        let n737 = tokens[i].start_pos;
        let n736 = n737.saturating_add(1);
        let n738 = tokens[i].end_pos;
        let t733 = SejongToken::new(s734.as_str(), s735.as_str(), n736, n738);
        let mut nv739: Vec<SejongToken> = Vec::new();
        push_token(&mut nv739, t727);
        push_token(&mut nv739, t733);
        splice_tokens(tokens, i, 1, nv739);
        let _len1 = tokens.len();
        return i + 2;
    }
    if p32_c16_exec(tokens, i) {
        let s741 = owned("읽");
        let s742 = owned("VV");
        let n743 = tokens[i].start_pos;
        let n745 = tokens[i].start_pos;
        let n744 = n745.saturating_add(1);
        let t740 = SejongToken::new(s741.as_str(), s742.as_str(), n743, n744);
        let s747 = owned("히");
        let s748 = owned("VX");
        let n750 = tokens[i].start_pos;
        let n749 = n750.saturating_add(1);
        let n751 = tokens[i].end_pos;
        let t746 = SejongToken::new(s747.as_str(), s748.as_str(), n749, n751);
        let mut nv752: Vec<SejongToken> = Vec::new();
        push_token(&mut nv752, t740);
        push_token(&mut nv752, t746);
        splice_tokens(tokens, i, 1, nv752);
        let _len1 = tokens.len();
        return i + 2;
    }
    if p32_c17_exec(tokens, i) {
        let s754 = owned("막");
        let s755 = owned("VV");
        let n756 = tokens[i].start_pos;
        let n758 = tokens[i].start_pos;
        let n757 = n758.saturating_add(1);
        let t753 = SejongToken::new(s754.as_str(), s755.as_str(), n756, n757);
        let s760 = owned("히");
        let s761 = owned("VX");
        let n763 = tokens[i].start_pos;
        let n762 = n763.saturating_add(1);
        let n764 = tokens[i].end_pos;
        let t759 = SejongToken::new(s760.as_str(), s761.as_str(), n762, n764);
        let mut nv765: Vec<SejongToken> = Vec::new();
        push_token(&mut nv765, t753);
        push_token(&mut nv765, t759);
        splice_tokens(tokens, i, 1, nv765);
        let _len1 = tokens.len();
        return i + 2;
    }
    if p32_c18_exec(tokens, i) {
        let s767 = owned("묻");
        let s768 = owned("VV");
        let n769 = tokens[i].start_pos;
        let n771 = tokens[i].start_pos;
        let n770 = n771.saturating_add(1);
        let t766 = SejongToken::new(s767.as_str(), s768.as_str(), n769, n770);
        let s773 = owned("히");
        let s774 = owned("VX");
        let n776 = tokens[i].start_pos;
        let n775 = n776.saturating_add(1);
        let n777 = tokens[i].end_pos;
        let t772 = SejongToken::new(s773.as_str(), s774.as_str(), n775, n777);
        let mut nv778: Vec<SejongToken> = Vec::new();
        push_token(&mut nv778, t766);
        push_token(&mut nv778, t772);
        splice_tokens(tokens, i, 1, nv778);
        let _len1 = tokens.len();
        return i + 2;
    }
    if p32_c19_exec(tokens, i) {
        let s780 = owned("닫");
        let s781 = owned("VV");
        let n782 = tokens[i].start_pos;
        let n784 = tokens[i].start_pos;
        let n783 = n784.saturating_add(1);
        let t779 = SejongToken::new(s780.as_str(), s781.as_str(), n782, n783);
        let s786 = owned("히");
        let s787 = owned("VX");
        let n789 = tokens[i].start_pos;
        let n788 = n789.saturating_add(1);
        let n790 = tokens[i].end_pos;
        let t785 = SejongToken::new(s786.as_str(), s787.as_str(), n788, n790);
        let mut nv791: Vec<SejongToken> = Vec::new();
        push_token(&mut nv791, t779);
        push_token(&mut nv791, t785);
        splice_tokens(tokens, i, 1, nv791);
        let _len1 = tokens.len();
        return i + 2;
    }
    if p32_c20_exec(tokens, i) {
        let s793 = owned("꽂");
        let s794 = owned("VV");
        let n795 = tokens[i].start_pos;
        let n797 = tokens[i].start_pos;
        let n796 = n797.saturating_add(1);
        let t792 = SejongToken::new(s793.as_str(), s794.as_str(), n795, n796);
        let s799 = owned("히");
        let s800 = owned("VX");
        let n802 = tokens[i].start_pos;
        let n801 = n802.saturating_add(1);
        let n803 = tokens[i].end_pos;
        let t798 = SejongToken::new(s799.as_str(), s800.as_str(), n801, n803);
        let mut nv804: Vec<SejongToken> = Vec::new();
        push_token(&mut nv804, t792);
        push_token(&mut nv804, t798);
        splice_tokens(tokens, i, 1, nv804);
        let _len1 = tokens.len();
        return i + 2;
    }
    if p32_c21_exec(tokens, i) {
        let s806 = owned("안");
        let s807 = owned("VV");
        let n808 = tokens[i].start_pos;
        let n810 = tokens[i].start_pos;
        let n809 = n810.saturating_add(1);
        let t805 = SejongToken::new(s806.as_str(), s807.as_str(), n808, n809);
        let s812 = owned("기");
        let s813 = owned("VX");
        let n815 = tokens[i].start_pos;
        let n814 = n815.saturating_add(1);
        let n816 = tokens[i].end_pos;
        let t811 = SejongToken::new(s812.as_str(), s813.as_str(), n814, n816);
        let mut nv817: Vec<SejongToken> = Vec::new();
        push_token(&mut nv817, t805);
        push_token(&mut nv817, t811);
        splice_tokens(tokens, i, 1, nv817);
        let _len1 = tokens.len();
        return i + 2;
    }
    if p32_c22_exec(tokens, i) {
        let s819 = owned("쫓");
        let s820 = owned("VV");
        let n821 = tokens[i].start_pos;
        let n823 = tokens[i].start_pos;
        let n822 = n823.saturating_add(1);
        let t818 = SejongToken::new(s819.as_str(), s820.as_str(), n821, n822);
        let s825 = owned("기");
        let s826 = owned("VX");
        let n828 = tokens[i].start_pos;
        let n827 = n828.saturating_add(1);
        let n829 = tokens[i].end_pos;
        let t824 = SejongToken::new(s825.as_str(), s826.as_str(), n827, n829);
        let mut nv830: Vec<SejongToken> = Vec::new();
        push_token(&mut nv830, t818);
        push_token(&mut nv830, t824);
        splice_tokens(tokens, i, 1, nv830);
        let _len1 = tokens.len();
        return i + 2;
    }
    i + 1
}

/// A passive verb is split into the stem and the passive suffix as VX (보이/VV → 보/VV 이/VX); 들리 stays whole.
pub fn apply_p32(tokens: &mut Vec<SejongToken>)
    ensures
        tokens_view(final(tokens)@) == p32(tokens_view(old(tokens)@)),
{
    let ghost orig = tokens_view(tokens@);
    let mut i: usize = 0;
    while i < tokens.len()
        invariant
            i <= tokens@.len() + 1,
            scan(tokens_view(tokens@), i as int, p32_f()) == scan(orig, 0, p32_f()),
        decreases tokens@.len() + 1 - i,
    {
        let ghost before = tokens_view(tokens@);
        assert(before.len() == tokens@.len());
        i = p32_step_exec(tokens, i);
        assert(tokens_view(tokens@).len() == tokens@.len());
    }
}

/// Where [`p33`] changes a token.
pub open spec fn p33_c(ts: Seq<TokenView>, i: int) -> bool {
    ((0 <= i - 1 < ts.len() && ts[i - 1].pos == "VV"@) && ((0 <= i < ts.len() && ts[i].surface == "시"@) && (0 <= i < ts.len() && ts[i].pos == "NNB"@)) && (0 <= i + 1 < ts.len() && seq!["EP"@, "EF"@, "EC"@].contains(ts[i + 1].pos)))
}

/// The token [`p33`] puts at `i`.
pub open spec fn p33_t(ts: Seq<TokenView>, i: int) -> TokenView {
    TokenView { pos: "EP"@, ..ts[i] }
}

/// 시/NNB between a verb and an ending is the honorific 시/EP.
pub open spec fn p33(ts: Seq<TokenView>) -> Seq<TokenView> {
    map_where(ts, |ts: Seq<TokenView>, i: int| p33_c(ts, i), |ts: Seq<TokenView>, i: int| p33_t(ts, i))
}

/// Whether [`p33`] changes the token at `i`.
fn p33_c_exec(tokens: &Vec<SejongToken>, i: usize) -> (r: bool)
    requires
        i < tokens@.len(),
    ensures
        r == p33_c(tokens_view(tokens@), i as int),
{
    assert(tokens_view(tokens@).len() == tokens@.len());
    let c831 = (i >= 1) && pos_is(&tokens[i - 1], "VV");
    let c832 = surf_is(&tokens[i], "시");
    let c833 = pos_is(&tokens[i], "NNB");
    let l835: [&str; 3] = ["EP", "EF", "EC"];
    assert(crate::tag_map::strs_view(l835@) =~= seq!["EP"@, "EF"@, "EC"@]);
    let c834 = (tokens.len() - i > 1) && in_list(&l835, tokens[i + 1].pos.as_str());
    (c831 && (c832 && c833) && c834)
}

/// The token [`p33`] puts at `i`.
fn p33_t_exec(tokens: &Vec<SejongToken>, i: usize) -> (t: SejongToken)
    requires
        i < tokens@.len(),
        p33_c(tokens_view(tokens@), i as int),
    ensures
        t@ == p33_t(tokens_view(tokens@), i as int),
{
    assert(tokens_view(tokens@).len() == tokens@.len());
    let s837 = owned("EP");
    let mut t836 = tokens[i].duplicate();
    t836.pos = s837;
    t836
}

/// 시/NNB between a verb and an ending is the honorific 시/EP.
pub fn apply_p33(tokens: &mut Vec<SejongToken>)
    ensures
        tokens_view(final(tokens)@) == p33(tokens_view(old(tokens)@)),
{
    let ghost orig = tokens_view(tokens@);
    let mut out: Vec<SejongToken> = Vec::new();
    let mut k: usize = 0;
    while k < tokens.len()
        invariant
            k <= tokens@.len(),
            orig == tokens_view(tokens@),
            tokens_view(out@) == p33(orig).take(k as int),
        decreases tokens@.len() - k,
    {
        let t = if p33_c_exec(tokens, k) { p33_t_exec(tokens, k) } else { tokens[k].duplicate() };
        push_token(&mut out, t);
        k += 1;
        assert(tokens_view(out@) =~= p33(orig).take(k as int));
    }
    assert(p33(orig).take(k as int) =~= p33(orig));
    *tokens = out;
}

/// Where rule 0 of [`p34`] applies.
pub open spec fn p34_c0(ts: Seq<TokenView>, i: int) -> bool {
    ((0 <= i < ts.len() && ts[i].surface == "입히"@) && (0 <= i < ts.len() && ts[i].pos == "VV"@))
}

/// Where rule 1 of [`p34`] applies.
pub open spec fn p34_c1(ts: Seq<TokenView>, i: int) -> bool {
    ((0 <= i < ts.len() && ts[i].surface == "읽히"@) && (0 <= i < ts.len() && ts[i].pos == "VV"@))
}

/// Where rule 2 of [`p34`] applies.
pub open spec fn p34_c2(ts: Seq<TokenView>, i: int) -> bool {
    ((0 <= i < ts.len() && ts[i].surface == "익히"@) && (0 <= i < ts.len() && ts[i].pos == "VV"@))
}

/// Where rule 3 of [`p34`] applies.
pub open spec fn p34_c3(ts: Seq<TokenView>, i: int) -> bool {
    ((0 <= i < ts.len() && ts[i].surface == "앉히"@) && (0 <= i < ts.len() && ts[i].pos == "VV"@))
}

/// Where rule 4 of [`p34`] applies.
pub open spec fn p34_c4(ts: Seq<TokenView>, i: int) -> bool {
    ((0 <= i < ts.len() && ts[i].surface == "눕히"@) && (0 <= i < ts.len() && ts[i].pos == "VV"@))
}

/// Where rule 5 of [`p34`] applies.
pub open spec fn p34_c5(ts: Seq<TokenView>, i: int) -> bool {
    ((0 <= i < ts.len() && ts[i].surface == "없히"@) && (0 <= i < ts.len() && ts[i].pos == "VV"@))
}

/// Where rule 6 of [`p34`] applies.
pub open spec fn p34_c6(ts: Seq<TokenView>, i: int) -> bool {
    ((0 <= i < ts.len() && ts[i].surface == "묻히"@) && (0 <= i < ts.len() && ts[i].pos == "VV"@))
}

/// Where rule 7 of [`p34`] applies.
pub open spec fn p34_c7(ts: Seq<TokenView>, i: int) -> bool {
    ((0 <= i < ts.len() && ts[i].surface == "넓히"@) && (0 <= i < ts.len() && ts[i].pos == "VV"@))
}

/// Where rule 8 of [`p34`] applies.
pub open spec fn p34_c8(ts: Seq<TokenView>, i: int) -> bool {
    ((0 <= i < ts.len() && ts[i].surface == "죽이"@) && (0 <= i < ts.len() && ts[i].pos == "VV"@))
}

/// Where rule 9 of [`p34`] applies.
pub open spec fn p34_c9(ts: Seq<TokenView>, i: int) -> bool {
    ((0 <= i < ts.len() && ts[i].surface == "살리"@) && (0 <= i < ts.len() && ts[i].pos == "VV"@))
}

/// Where rule 10 of [`p34`] applies.
pub open spec fn p34_c10(ts: Seq<TokenView>, i: int) -> bool {
    ((0 <= i < ts.len() && ts[i].surface == "올리"@) && (0 <= i < ts.len() && ts[i].pos == "VV"@))
}

/// Where rule 11 of [`p34`] applies.
pub open spec fn p34_c11(ts: Seq<TokenView>, i: int) -> bool {
    ((0 <= i < ts.len() && ts[i].surface == "내리"@) && (0 <= i < ts.len() && ts[i].pos == "VV"@))
}

/// Where rule 12 of [`p34`] applies.
pub open spec fn p34_c12(ts: Seq<TokenView>, i: int) -> bool {
    ((0 <= i < ts.len() && ts[i].surface == "돌리"@) && (0 <= i < ts.len() && ts[i].pos == "VV"@))
}

/// Where rule 13 of [`p34`] applies.
pub open spec fn p34_c13(ts: Seq<TokenView>, i: int) -> bool {
    ((0 <= i < ts.len() && ts[i].surface == "굴리"@) && (0 <= i < ts.len() && ts[i].pos == "VV"@))
}

/// Where rule 14 of [`p34`] applies.
pub open spec fn p34_c14(ts: Seq<TokenView>, i: int) -> bool {
    ((0 <= i < ts.len() && ts[i].surface == "울리"@) && (0 <= i < ts.len() && ts[i].pos == "VV"@))
}

/// Where rule 15 of [`p34`] applies.
pub open spec fn p34_c15(ts: Seq<TokenView>, i: int) -> bool {
    ((0 <= i < ts.len() && ts[i].surface == "벗기"@) && (0 <= i < ts.len() && ts[i].pos == "VV"@))
}

/// Where rule 16 of [`p34`] applies.
pub open spec fn p34_c16(ts: Seq<TokenView>, i: int) -> bool {
    ((0 <= i < ts.len() && ts[i].surface == "숨기"@) && (0 <= i < ts.len() && ts[i].pos == "VV"@))
}

/// Where rule 17 of [`p34`] applies.
pub open spec fn p34_c17(ts: Seq<TokenView>, i: int) -> bool {
    ((0 <= i < ts.len() && ts[i].surface == "옮기"@) && (0 <= i < ts.len() && ts[i].pos == "VV"@))
}

/// Where rule 18 of [`p34`] applies.
pub open spec fn p34_c18(ts: Seq<TokenView>, i: int) -> bool {
    ((0 <= i < ts.len() && ts[i].surface == "알리"@) && (0 <= i < ts.len() && ts[i].pos == "VV"@))
}

/// Where rule 19 of [`p34`] applies.
pub open spec fn p34_c19(ts: Seq<TokenView>, i: int) -> bool {
    ((0 <= i < ts.len() && ts[i].surface == "날리"@) && (0 <= i < ts.len() && ts[i].pos == "VV"@))
}

/// One step of [`p34`] at `i`: the list after it and the next position.
pub open spec fn p34_step(ts: Seq<TokenView>, i: int) -> (Seq<TokenView>, int) {
    if p34_c0(ts, i) {
        (splice(ts, i, 1, seq![plain_view("입"@, "VV"@, ts[i].start_pos, (ts[i].start_pos).saturating_add(1)), plain_view("히"@, "VX"@, (ts[i].start_pos).saturating_add(1), ts[i].end_pos)]), i + 2)
    } else if p34_c1(ts, i) {
        (splice(ts, i, 1, seq![plain_view("읽"@, "VV"@, ts[i].start_pos, (ts[i].start_pos).saturating_add(1)), plain_view("히"@, "VX"@, (ts[i].start_pos).saturating_add(1), ts[i].end_pos)]), i + 2)
    } else if p34_c2(ts, i) {
        (splice(ts, i, 1, seq![plain_view("익"@, "VV"@, ts[i].start_pos, (ts[i].start_pos).saturating_add(1)), plain_view("히"@, "VX"@, (ts[i].start_pos).saturating_add(1), ts[i].end_pos)]), i + 2)
    } else if p34_c3(ts, i) {
        (splice(ts, i, 1, seq![plain_view("앉"@, "VV"@, ts[i].start_pos, (ts[i].start_pos).saturating_add(1)), plain_view("히"@, "VX"@, (ts[i].start_pos).saturating_add(1), ts[i].end_pos)]), i + 2)
    } else if p34_c4(ts, i) {
        (splice(ts, i, 1, seq![plain_view("눕"@, "VV"@, ts[i].start_pos, (ts[i].start_pos).saturating_add(1)), plain_view("히"@, "VX"@, (ts[i].start_pos).saturating_add(1), ts[i].end_pos)]), i + 2)
    } else if p34_c5(ts, i) {
        (splice(ts, i, 1, seq![plain_view("없"@, "VV"@, ts[i].start_pos, (ts[i].start_pos).saturating_add(1)), plain_view("히"@, "VX"@, (ts[i].start_pos).saturating_add(1), ts[i].end_pos)]), i + 2)
    } else if p34_c6(ts, i) {
        (splice(ts, i, 1, seq![plain_view("묻"@, "VV"@, ts[i].start_pos, (ts[i].start_pos).saturating_add(1)), plain_view("히"@, "VX"@, (ts[i].start_pos).saturating_add(1), ts[i].end_pos)]), i + 2)
    } else if p34_c7(ts, i) {
        (splice(ts, i, 1, seq![plain_view("넓"@, "VV"@, ts[i].start_pos, (ts[i].start_pos).saturating_add(1)), plain_view("히"@, "VX"@, (ts[i].start_pos).saturating_add(1), ts[i].end_pos)]), i + 2)
    } else if p34_c8(ts, i) {
        (splice(ts, i, 1, seq![plain_view("죽"@, "VV"@, ts[i].start_pos, (ts[i].start_pos).saturating_add(1)), plain_view("이"@, "VX"@, (ts[i].start_pos).saturating_add(1), ts[i].end_pos)]), i + 2)
    } else if p34_c9(ts, i) {
        (splice(ts, i, 1, seq![plain_view("살"@, "VV"@, ts[i].start_pos, (ts[i].start_pos).saturating_add(1)), plain_view("리"@, "VX"@, (ts[i].start_pos).saturating_add(1), ts[i].end_pos)]), i + 2)
    } else if p34_c10(ts, i) {
        (splice(ts, i, 1, seq![plain_view("올"@, "VV"@, ts[i].start_pos, (ts[i].start_pos).saturating_add(1)), plain_view("리"@, "VX"@, (ts[i].start_pos).saturating_add(1), ts[i].end_pos)]), i + 2)
    } else if p34_c11(ts, i) {
        (splice(ts, i, 1, seq![plain_view("내"@, "VV"@, ts[i].start_pos, (ts[i].start_pos).saturating_add(1)), plain_view("리"@, "VX"@, (ts[i].start_pos).saturating_add(1), ts[i].end_pos)]), i + 2)
    } else if p34_c12(ts, i) {
        (splice(ts, i, 1, seq![plain_view("돌"@, "VV"@, ts[i].start_pos, (ts[i].start_pos).saturating_add(1)), plain_view("리"@, "VX"@, (ts[i].start_pos).saturating_add(1), ts[i].end_pos)]), i + 2)
    } else if p34_c13(ts, i) {
        (splice(ts, i, 1, seq![plain_view("굴"@, "VV"@, ts[i].start_pos, (ts[i].start_pos).saturating_add(1)), plain_view("리"@, "VX"@, (ts[i].start_pos).saturating_add(1), ts[i].end_pos)]), i + 2)
    } else if p34_c14(ts, i) {
        (splice(ts, i, 1, seq![plain_view("울"@, "VV"@, ts[i].start_pos, (ts[i].start_pos).saturating_add(1)), plain_view("리"@, "VX"@, (ts[i].start_pos).saturating_add(1), ts[i].end_pos)]), i + 2)
    } else if p34_c15(ts, i) {
        (splice(ts, i, 1, seq![plain_view("벗"@, "VV"@, ts[i].start_pos, (ts[i].start_pos).saturating_add(1)), plain_view("기"@, "VX"@, (ts[i].start_pos).saturating_add(1), ts[i].end_pos)]), i + 2)
    } else if p34_c16(ts, i) {
        (splice(ts, i, 1, seq![plain_view("숨"@, "VV"@, ts[i].start_pos, (ts[i].start_pos).saturating_add(1)), plain_view("기"@, "VX"@, (ts[i].start_pos).saturating_add(1), ts[i].end_pos)]), i + 2)
    } else if p34_c17(ts, i) {
        (splice(ts, i, 1, seq![plain_view("옮"@, "VV"@, ts[i].start_pos, (ts[i].start_pos).saturating_add(1)), plain_view("기"@, "VX"@, (ts[i].start_pos).saturating_add(1), ts[i].end_pos)]), i + 2)
    } else if p34_c18(ts, i) {
        (splice(ts, i, 1, seq![plain_view("알"@, "VV"@, ts[i].start_pos, (ts[i].start_pos).saturating_add(1)), plain_view("리"@, "VX"@, (ts[i].start_pos).saturating_add(1), ts[i].end_pos)]), i + 2)
    } else if p34_c19(ts, i) {
        (splice(ts, i, 1, seq![plain_view("날"@, "VV"@, ts[i].start_pos, (ts[i].start_pos).saturating_add(1)), plain_view("리"@, "VX"@, (ts[i].start_pos).saturating_add(1), ts[i].end_pos)]), i + 2)
    } else {
        (ts, i + 1)
    }
}

/// [`p34_step`] as a function value.
pub open spec fn p34_f() -> spec_fn(Seq<TokenView>, int) -> (Seq<TokenView>, int) {
    |ts: Seq<TokenView>, i: int| p34_step(ts, i)
}

/// A causative verb is split into the stem and the causative suffix as VX (입히/VV → 입/VV 히/VX); 웃기 and 놀리 stay whole.
pub open spec fn p34(ts: Seq<TokenView>) -> Seq<TokenView> {
    scan(ts, 0, p34_f())
}

/// Whether rule 0 of [`p34`] applies at `i`.
fn p34_c0_exec(tokens: &Vec<SejongToken>, i: usize) -> (r: bool)
    requires
        i < tokens@.len(),
    ensures
        r == p34_c0(tokens_view(tokens@), i as int),
{
    assert(tokens_view(tokens@).len() == tokens@.len());
    let c838 = surf_is(&tokens[i], "입히");
    let c839 = pos_is(&tokens[i], "VV");
    (c838 && c839)
}

/// Whether rule 1 of [`p34`] applies at `i`.
fn p34_c1_exec(tokens: &Vec<SejongToken>, i: usize) -> (r: bool)
    requires
        i < tokens@.len(),
    ensures
        r == p34_c1(tokens_view(tokens@), i as int),
{
    assert(tokens_view(tokens@).len() == tokens@.len());
    let c840 = surf_is(&tokens[i], "읽히");
    let c841 = pos_is(&tokens[i], "VV");
    (c840 && c841)
}

/// Whether rule 2 of [`p34`] applies at `i`.
fn p34_c2_exec(tokens: &Vec<SejongToken>, i: usize) -> (r: bool)
    requires
        i < tokens@.len(),
    ensures
        r == p34_c2(tokens_view(tokens@), i as int),
{
    assert(tokens_view(tokens@).len() == tokens@.len());
    let c842 = surf_is(&tokens[i], "익히");
    let c843 = pos_is(&tokens[i], "VV");
    (c842 && c843)
}

/// Whether rule 3 of [`p34`] applies at `i`.
fn p34_c3_exec(tokens: &Vec<SejongToken>, i: usize) -> (r: bool)
    requires
        i < tokens@.len(),
    ensures
        r == p34_c3(tokens_view(tokens@), i as int),
{
    assert(tokens_view(tokens@).len() == tokens@.len());
    let c844 = surf_is(&tokens[i], "앉히");
    let c845 = pos_is(&tokens[i], "VV");
    (c844 && c845)
}

/// Whether rule 4 of [`p34`] applies at `i`.
fn p34_c4_exec(tokens: &Vec<SejongToken>, i: usize) -> (r: bool)
    requires
        i < tokens@.len(),
    ensures
        r == p34_c4(tokens_view(tokens@), i as int),
{
    assert(tokens_view(tokens@).len() == tokens@.len());
    let c846 = surf_is(&tokens[i], "눕히");
    let c847 = pos_is(&tokens[i], "VV");
    (c846 && c847)
}

/// Whether rule 5 of [`p34`] applies at `i`.
fn p34_c5_exec(tokens: &Vec<SejongToken>, i: usize) -> (r: bool)
    requires
        i < tokens@.len(),
    ensures
        r == p34_c5(tokens_view(tokens@), i as int),
{
    assert(tokens_view(tokens@).len() == tokens@.len());
    let c848 = surf_is(&tokens[i], "없히");
    let c849 = pos_is(&tokens[i], "VV");
    (c848 && c849)
}

/// Whether rule 6 of [`p34`] applies at `i`.
fn p34_c6_exec(tokens: &Vec<SejongToken>, i: usize) -> (r: bool)
    requires
        i < tokens@.len(),
    ensures
        r == p34_c6(tokens_view(tokens@), i as int),
{
    assert(tokens_view(tokens@).len() == tokens@.len());
    let c850 = surf_is(&tokens[i], "묻히");
    let c851 = pos_is(&tokens[i], "VV");
    (c850 && c851)
}

/// Whether rule 7 of [`p34`] applies at `i`.
fn p34_c7_exec(tokens: &Vec<SejongToken>, i: usize) -> (r: bool)
    requires
        i < tokens@.len(),
    ensures
        r == p34_c7(tokens_view(tokens@), i as int),
{
    assert(tokens_view(tokens@).len() == tokens@.len());
    let c852 = surf_is(&tokens[i], "넓히");
    let c853 = pos_is(&tokens[i], "VV");
    (c852 && c853)
}

/// Whether rule 8 of [`p34`] applies at `i`.
fn p34_c8_exec(tokens: &Vec<SejongToken>, i: usize) -> (r: bool)
    requires
        i < tokens@.len(),
    ensures
        r == p34_c8(tokens_view(tokens@), i as int),
{
    assert(tokens_view(tokens@).len() == tokens@.len());
    let c854 = surf_is(&tokens[i], "죽이");
    let c855 = pos_is(&tokens[i], "VV");
    (c854 && c855)
}

/// Whether rule 9 of [`p34`] applies at `i`.
fn p34_c9_exec(tokens: &Vec<SejongToken>, i: usize) -> (r: bool)
    requires
        i < tokens@.len(),
    ensures
        r == p34_c9(tokens_view(tokens@), i as int),
{
    assert(tokens_view(tokens@).len() == tokens@.len());
    let c856 = surf_is(&tokens[i], "살리");
    let c857 = pos_is(&tokens[i], "VV");
    (c856 && c857)
}

/// Whether rule 10 of [`p34`] applies at `i`.
fn p34_c10_exec(tokens: &Vec<SejongToken>, i: usize) -> (r: bool)
    requires
        i < tokens@.len(),
    ensures
        r == p34_c10(tokens_view(tokens@), i as int),
{
    assert(tokens_view(tokens@).len() == tokens@.len());
    let c858 = surf_is(&tokens[i], "올리");
    let c859 = pos_is(&tokens[i], "VV");
    (c858 && c859)
}

/// Whether rule 11 of [`p34`] applies at `i`.
fn p34_c11_exec(tokens: &Vec<SejongToken>, i: usize) -> (r: bool)
    requires
        i < tokens@.len(),
    ensures
        r == p34_c11(tokens_view(tokens@), i as int),
{
    assert(tokens_view(tokens@).len() == tokens@.len());
    let c860 = surf_is(&tokens[i], "내리");
    let c861 = pos_is(&tokens[i], "VV");
    (c860 && c861)
}

/// Whether rule 12 of [`p34`] applies at `i`.
fn p34_c12_exec(tokens: &Vec<SejongToken>, i: usize) -> (r: bool)
    requires
        i < tokens@.len(),
    ensures
        r == p34_c12(tokens_view(tokens@), i as int),
{
    assert(tokens_view(tokens@).len() == tokens@.len());
    let c862 = surf_is(&tokens[i], "돌리");
    let c863 = pos_is(&tokens[i], "VV");
    (c862 && c863)
}

/// Whether rule 13 of [`p34`] applies at `i`.
fn p34_c13_exec(tokens: &Vec<SejongToken>, i: usize) -> (r: bool)
    requires
        i < tokens@.len(),
    ensures
        r == p34_c13(tokens_view(tokens@), i as int),
{
    assert(tokens_view(tokens@).len() == tokens@.len());
    let c864 = surf_is(&tokens[i], "굴리");
    let c865 = pos_is(&tokens[i], "VV");
    (c864 && c865)
}

/// Whether rule 14 of [`p34`] applies at `i`.
fn p34_c14_exec(tokens: &Vec<SejongToken>, i: usize) -> (r: bool)
    requires
        i < tokens@.len(),
    ensures
        r == p34_c14(tokens_view(tokens@), i as int),
{
    assert(tokens_view(tokens@).len() == tokens@.len());
    let c866 = surf_is(&tokens[i], "울리");
    let c867 = pos_is(&tokens[i], "VV");
    (c866 && c867)
}

/// Whether rule 15 of [`p34`] applies at `i`.
fn p34_c15_exec(tokens: &Vec<SejongToken>, i: usize) -> (r: bool)
    requires
        i < tokens@.len(),
    ensures
        r == p34_c15(tokens_view(tokens@), i as int),
{
    assert(tokens_view(tokens@).len() == tokens@.len());
    let c868 = surf_is(&tokens[i], "벗기");
    let c869 = pos_is(&tokens[i], "VV");
    (c868 && c869)
}

/// Whether rule 16 of [`p34`] applies at `i`.
fn p34_c16_exec(tokens: &Vec<SejongToken>, i: usize) -> (r: bool)
    requires
        i < tokens@.len(),
    ensures
        r == p34_c16(tokens_view(tokens@), i as int),
{
    assert(tokens_view(tokens@).len() == tokens@.len());
    let c870 = surf_is(&tokens[i], "숨기");
    let c871 = pos_is(&tokens[i], "VV");
    (c870 && c871)
}

/// Whether rule 17 of [`p34`] applies at `i`.
fn p34_c17_exec(tokens: &Vec<SejongToken>, i: usize) -> (r: bool)
    requires
        i < tokens@.len(),
    ensures
        r == p34_c17(tokens_view(tokens@), i as int),
{
    assert(tokens_view(tokens@).len() == tokens@.len());
    let c872 = surf_is(&tokens[i], "옮기");
    let c873 = pos_is(&tokens[i], "VV");
    (c872 && c873)
}

/// Whether rule 18 of [`p34`] applies at `i`.
fn p34_c18_exec(tokens: &Vec<SejongToken>, i: usize) -> (r: bool)
    requires
        i < tokens@.len(),
    ensures
        r == p34_c18(tokens_view(tokens@), i as int),
{
    assert(tokens_view(tokens@).len() == tokens@.len());
    let c874 = surf_is(&tokens[i], "알리");
    let c875 = pos_is(&tokens[i], "VV");
    (c874 && c875)
}

/// Whether rule 19 of [`p34`] applies at `i`.
fn p34_c19_exec(tokens: &Vec<SejongToken>, i: usize) -> (r: bool)
    requires
        i < tokens@.len(),
    ensures
        r == p34_c19(tokens_view(tokens@), i as int),
{
    assert(tokens_view(tokens@).len() == tokens@.len());
    let c876 = surf_is(&tokens[i], "날리");
    let c877 = pos_is(&tokens[i], "VV");
    (c876 && c877)
}

/// One step of [`p34`] at `i`; returns the next position.
#[verifier::rlimit(50)]
fn p34_step_exec(tokens: &mut Vec<SejongToken>, i: usize) -> (next: usize)
    requires
        i < old(tokens)@.len(),
    ensures
        (tokens_view(final(tokens)@), next as int) == p34_step(tokens_view(old(tokens)@), i as int),
        final(tokens)@.len() - next < old(tokens)@.len() - i,
        next <= final(tokens)@.len() + 1,
{
    let len0 = tokens.len();
    assert(tokens_view(tokens@).len() == tokens@.len());
    if p34_c0_exec(tokens, i) {
        let s879 = owned("입");
        let s880 = owned("VV");
        let n881 = tokens[i].start_pos;
        let n883 = tokens[i].start_pos;
        let n882 = n883.saturating_add(1);
        let t878 = SejongToken::new(s879.as_str(), s880.as_str(), n881, n882);
        let s885 = owned("히");
        let s886 = owned("VX");
        let n888 = tokens[i].start_pos;
        let n887 = n888.saturating_add(1);
        let n889 = tokens[i].end_pos;
        let t884 = SejongToken::new(s885.as_str(), s886.as_str(), n887, n889);
        let mut nv890: Vec<SejongToken> = Vec::new();
        push_token(&mut nv890, t878);
        push_token(&mut nv890, t884);
        splice_tokens(tokens, i, 1, nv890);
        let _len1 = tokens.len();
        return i + 2;
    }
    if p34_c1_exec(tokens, i) {
        let s892 = owned("읽");
        let s893 = owned("VV");
        let n894 = tokens[i].start_pos;
        let n896 = tokens[i].start_pos;
        let n895 = n896.saturating_add(1);
        let t891 = SejongToken::new(s892.as_str(), s893.as_str(), n894, n895);
        let s898 = owned("히");
        let s899 = owned("VX");
        let n901 = tokens[i].start_pos;
        let n900 = n901.saturating_add(1);
        let n902 = tokens[i].end_pos;
        let t897 = SejongToken::new(s898.as_str(), s899.as_str(), n900, n902);
        let mut nv903: Vec<SejongToken> = Vec::new();
        push_token(&mut nv903, t891);
        push_token(&mut nv903, t897);
        splice_tokens(tokens, i, 1, nv903);
        let _len1 = tokens.len();
        return i + 2;
    }
    if p34_c2_exec(tokens, i) {
        let s905 = owned("익");
        let s906 = owned("VV");
        let n907 = tokens[i].start_pos;
        let n909 = tokens[i].start_pos;
        let n908 = n909.saturating_add(1);
        let t904 = SejongToken::new(s905.as_str(), s906.as_str(), n907, n908);
        let s911 = owned("히");
        let s912 = owned("VX");
        let n914 = tokens[i].start_pos;
        let n913 = n914.saturating_add(1);
        let n915 = tokens[i].end_pos;
        let t910 = SejongToken::new(s911.as_str(), s912.as_str(), n913, n915);
        let mut nv916: Vec<SejongToken> = Vec::new();
        push_token(&mut nv916, t904);
        push_token(&mut nv916, t910);
        splice_tokens(tokens, i, 1, nv916);
        let _len1 = tokens.len();
        return i + 2;
    }
    if p34_c3_exec(tokens, i) {
        let s918 = owned("앉");
        let s919 = owned("VV");
        let n920 = tokens[i].start_pos;
        let n922 = tokens[i].start_pos;
        let n921 = n922.saturating_add(1);
        let t917 = SejongToken::new(s918.as_str(), s919.as_str(), n920, n921);
        let s924 = owned("히");
        let s925 = owned("VX");
        let n927 = tokens[i].start_pos;
        let n926 = n927.saturating_add(1);
        let n928 = tokens[i].end_pos;
        let t923 = SejongToken::new(s924.as_str(), s925.as_str(), n926, n928);
        let mut nv929: Vec<SejongToken> = Vec::new();
        push_token(&mut nv929, t917);
        push_token(&mut nv929, t923);
        splice_tokens(tokens, i, 1, nv929);
        let _len1 = tokens.len();
        return i + 2;
    }
    if p34_c4_exec(tokens, i) {
        let s931 = owned("눕");
        let s932 = owned("VV");
        let n933 = tokens[i].start_pos;
        let n935 = tokens[i].start_pos;
        let n934 = n935.saturating_add(1);
        let t930 = SejongToken::new(s931.as_str(), s932.as_str(), n933, n934);
        let s937 = owned("히");
        let s938 = owned("VX");
        let n940 = tokens[i].start_pos;
        let n939 = n940.saturating_add(1);
        let n941 = tokens[i].end_pos;
        let t936 = SejongToken::new(s937.as_str(), s938.as_str(), n939, n941);
        let mut nv942: Vec<SejongToken> = Vec::new();
        push_token(&mut nv942, t930);
        push_token(&mut nv942, t936);
        splice_tokens(tokens, i, 1, nv942);
        let _len1 = tokens.len();
        return i + 2;
    }
    if p34_c5_exec(tokens, i) {
        let s944 = owned("없");
        let s945 = owned("VV");
        let n946 = tokens[i].start_pos;
        let n948 = tokens[i].start_pos;
        let n947 = n948.saturating_add(1);
        let t943 = SejongToken::new(s944.as_str(), s945.as_str(), n946, n947);
        let s950 = owned("히");
        let s951 = owned("VX");
        let n953 = tokens[i].start_pos;
        let n952 = n953.saturating_add(1);
        let n954 = tokens[i].end_pos;
        let t949 = SejongToken::new(s950.as_str(), s951.as_str(), n952, n954);
        let mut nv955: Vec<SejongToken> = Vec::new();
        push_token(&mut nv955, t943);
        push_token(&mut nv955, t949);
        splice_tokens(tokens, i, 1, nv955);
        let _len1 = tokens.len();
        return i + 2;
    }
    if p34_c6_exec(tokens, i) {
        let s957 = owned("묻");
        let s958 = owned("VV");
        let n959 = tokens[i].start_pos;
        let n961 = tokens[i].start_pos;
        let n960 = n961.saturating_add(1);
        let t956 = SejongToken::new(s957.as_str(), s958.as_str(), n959, n960);
        let s963 = owned("히");
        let s964 = owned("VX");
        let n966 = tokens[i].start_pos;
        let n965 = n966.saturating_add(1);
        let n967 = tokens[i].end_pos;
        let t962 = SejongToken::new(s963.as_str(), s964.as_str(), n965, n967);
        let mut nv968: Vec<SejongToken> = Vec::new();
        push_token(&mut nv968, t956);
        push_token(&mut nv968, t962);
        splice_tokens(tokens, i, 1, nv968);
        let _len1 = tokens.len();
        return i + 2;
    }
    if p34_c7_exec(tokens, i) {
        let s970 = owned("넓");
        let s971 = owned("VV");
        let n972 = tokens[i].start_pos;
        let n974 = tokens[i].start_pos;
        let n973 = n974.saturating_add(1);
        let t969 = SejongToken::new(s970.as_str(), s971.as_str(), n972, n973);
        let s976 = owned("히");
        let s977 = owned("VX");
        let n979 = tokens[i].start_pos;
        let n978 = n979.saturating_add(1);
        let n980 = tokens[i].end_pos;
        let t975 = SejongToken::new(s976.as_str(), s977.as_str(), n978, n980);
        let mut nv981: Vec<SejongToken> = Vec::new();
        push_token(&mut nv981, t969);
        push_token(&mut nv981, t975);
        splice_tokens(tokens, i, 1, nv981);
        let _len1 = tokens.len();
        return i + 2;
    }
    if p34_c8_exec(tokens, i) {
        let s983 = owned("죽");
        let s984 = owned("VV");
        let n985 = tokens[i].start_pos;
        let n987 = tokens[i].start_pos;
        let n986 = n987.saturating_add(1);
        let t982 = SejongToken::new(s983.as_str(), s984.as_str(), n985, n986);
        let s989 = owned("이");
        let s990 = owned("VX");
        let n992 = tokens[i].start_pos;
        let n991 = n992.saturating_add(1);
        let n993 = tokens[i].end_pos;
        let t988 = SejongToken::new(s989.as_str(), s990.as_str(), n991, n993);
        let mut nv994: Vec<SejongToken> = Vec::new();
        push_token(&mut nv994, t982);
        push_token(&mut nv994, t988);
        splice_tokens(tokens, i, 1, nv994);
        let _len1 = tokens.len();
        return i + 2;
    }
    if p34_c9_exec(tokens, i) {
        let s996 = owned("살");
        let s997 = owned("VV");
        let n998 = tokens[i].start_pos;
        let n1000 = tokens[i].start_pos;
        let n999 = n1000.saturating_add(1);
        let t995 = SejongToken::new(s996.as_str(), s997.as_str(), n998, n999);
        let s1002 = owned("리");
        let s1003 = owned("VX");
        let n1005 = tokens[i].start_pos;
        let n1004 = n1005.saturating_add(1);
        let n1006 = tokens[i].end_pos;
        let t1001 = SejongToken::new(s1002.as_str(), s1003.as_str(), n1004, n1006);
        let mut nv1007: Vec<SejongToken> = Vec::new();
        push_token(&mut nv1007, t995);
        push_token(&mut nv1007, t1001);
        splice_tokens(tokens, i, 1, nv1007);
        let _len1 = tokens.len();
        return i + 2;
    }
    if p34_c10_exec(tokens, i) {
        let s1009 = owned("올");
        let s1010 = owned("VV");
        let n1011 = tokens[i].start_pos;
        let n1013 = tokens[i].start_pos;
        let n1012 = n1013.saturating_add(1);
        let t1008 = SejongToken::new(s1009.as_str(), s1010.as_str(), n1011, n1012);
        let s1015 = owned("리");
        let s1016 = owned("VX");
        let n1018 = tokens[i].start_pos;
        let n1017 = n1018.saturating_add(1);
        let n1019 = tokens[i].end_pos;
        let t1014 = SejongToken::new(s1015.as_str(), s1016.as_str(), n1017, n1019);
        let mut nv1020: Vec<SejongToken> = Vec::new();
        push_token(&mut nv1020, t1008);
        push_token(&mut nv1020, t1014);
        splice_tokens(tokens, i, 1, nv1020);
        let _len1 = tokens.len();
        return i + 2;
    }
    if p34_c11_exec(tokens, i) {
        let s1022 = owned("내");
        let s1023 = owned("VV");
        let n1024 = tokens[i].start_pos;
        let n1026 = tokens[i].start_pos;
        let n1025 = n1026.saturating_add(1);
        let t1021 = SejongToken::new(s1022.as_str(), s1023.as_str(), n1024, n1025);
        let s1028 = owned("리");
        let s1029 = owned("VX");
        let n1031 = tokens[i].start_pos;
        let n1030 = n1031.saturating_add(1);
        let n1032 = tokens[i].end_pos;
        let t1027 = SejongToken::new(s1028.as_str(), s1029.as_str(), n1030, n1032);
        let mut nv1033: Vec<SejongToken> = Vec::new();
        push_token(&mut nv1033, t1021);
        push_token(&mut nv1033, t1027);
        splice_tokens(tokens, i, 1, nv1033);
        let _len1 = tokens.len();
        return i + 2;
    }
    if p34_c12_exec(tokens, i) {
        let s1035 = owned("돌");
        let s1036 = owned("VV");
        let n1037 = tokens[i].start_pos;
        let n1039 = tokens[i].start_pos;
        let n1038 = n1039.saturating_add(1);
        let t1034 = SejongToken::new(s1035.as_str(), s1036.as_str(), n1037, n1038);
        let s1041 = owned("리");
        let s1042 = owned("VX");
        let n1044 = tokens[i].start_pos;
        let n1043 = n1044.saturating_add(1);
        let n1045 = tokens[i].end_pos;
        let t1040 = SejongToken::new(s1041.as_str(), s1042.as_str(), n1043, n1045);
        let mut nv1046: Vec<SejongToken> = Vec::new();
        push_token(&mut nv1046, t1034);
        push_token(&mut nv1046, t1040);
        splice_tokens(tokens, i, 1, nv1046);
        let _len1 = tokens.len();
        return i + 2;
    }
    if p34_c13_exec(tokens, i) {
        let s1048 = owned("굴");
        let s1049 = owned("VV");
        let n1050 = tokens[i].start_pos;
        let n1052 = tokens[i].start_pos;
        let n1051 = n1052.saturating_add(1);
        let t1047 = SejongToken::new(s1048.as_str(), s1049.as_str(), n1050, n1051);
        let s1054 = owned("리");
        let s1055 = owned("VX");
        let n1057 = tokens[i].start_pos;
        let n1056 = n1057.saturating_add(1);
        let n1058 = tokens[i].end_pos;
        let t1053 = SejongToken::new(s1054.as_str(), s1055.as_str(), n1056, n1058);
        let mut nv1059: Vec<SejongToken> = Vec::new();
        push_token(&mut nv1059, t1047);
        push_token(&mut nv1059, t1053);
        splice_tokens(tokens, i, 1, nv1059);
        let _len1 = tokens.len();
        return i + 2;
    }
    if p34_c14_exec(tokens, i) {
        let s1061 = owned("울");
        let s1062 = owned("VV");
        let n1063 = tokens[i].start_pos;
        let n1065 = tokens[i].start_pos;
        let n1064 = n1065.saturating_add(1);
        let t1060 = SejongToken::new(s1061.as_str(), s1062.as_str(), n1063, n1064);
        let s1067 = owned("리");
        let s1068 = owned("VX");
        let n1070 = tokens[i].start_pos;
        let n1069 = n1070.saturating_add(1);
        let n1071 = tokens[i].end_pos;
        let t1066 = SejongToken::new(s1067.as_str(), s1068.as_str(), n1069, n1071);
        let mut nv1072: Vec<SejongToken> = Vec::new();
        push_token(&mut nv1072, t1060);
        push_token(&mut nv1072, t1066);
        splice_tokens(tokens, i, 1, nv1072);
        let _len1 = tokens.len();
        return i + 2;
    }
    if p34_c15_exec(tokens, i) {
        let s1074 = owned("벗");
        let s1075 = owned("VV");
        let n1076 = tokens[i].start_pos;
        let n1078 = tokens[i].start_pos;
        let n1077 = n1078.saturating_add(1);
        let t1073 = SejongToken::new(s1074.as_str(), s1075.as_str(), n1076, n1077);
        let s1080 = owned("기");
        let s1081 = owned("VX");
        let n1083 = tokens[i].start_pos;
        let n1082 = n1083.saturating_add(1);
        let n1084 = tokens[i].end_pos;
        let t1079 = SejongToken::new(s1080.as_str(), s1081.as_str(), n1082, n1084);
        let mut nv1085: Vec<SejongToken> = Vec::new();
        push_token(&mut nv1085, t1073);
        push_token(&mut nv1085, t1079);
        splice_tokens(tokens, i, 1, nv1085);
        let _len1 = tokens.len();
        return i + 2;
    }
    if p34_c16_exec(tokens, i) {
        let s1087 = owned("숨");
        let s1088 = owned("VV");
        let n1089 = tokens[i].start_pos;
        let n1091 = tokens[i].start_pos;
        let n1090 = n1091.saturating_add(1);
        let t1086 = SejongToken::new(s1087.as_str(), s1088.as_str(), n1089, n1090);
        let s1093 = owned("기");
        let s1094 = owned("VX");
        let n1096 = tokens[i].start_pos;
        let n1095 = n1096.saturating_add(1);
        let n1097 = tokens[i].end_pos;
        let t1092 = SejongToken::new(s1093.as_str(), s1094.as_str(), n1095, n1097);
        let mut nv1098: Vec<SejongToken> = Vec::new();
        push_token(&mut nv1098, t1086);
        push_token(&mut nv1098, t1092);
        splice_tokens(tokens, i, 1, nv1098);
        let _len1 = tokens.len();
        return i + 2;
    }
    if p34_c17_exec(tokens, i) {
        let s1100 = owned("옮");
        let s1101 = owned("VV");
        let n1102 = tokens[i].start_pos;
        let n1104 = tokens[i].start_pos;
        let n1103 = n1104.saturating_add(1);
        let t1099 = SejongToken::new(s1100.as_str(), s1101.as_str(), n1102, n1103);
        let s1106 = owned("기");
        let s1107 = owned("VX");
        let n1109 = tokens[i].start_pos;
        let n1108 = n1109.saturating_add(1);
        let n1110 = tokens[i].end_pos;
        let t1105 = SejongToken::new(s1106.as_str(), s1107.as_str(), n1108, n1110);
        let mut nv1111: Vec<SejongToken> = Vec::new();
        push_token(&mut nv1111, t1099);
        push_token(&mut nv1111, t1105);
        splice_tokens(tokens, i, 1, nv1111);
        let _len1 = tokens.len();
        return i + 2;
    }
    if p34_c18_exec(tokens, i) {
        let s1113 = owned("알");
        let s1114 = owned("VV");
        let n1115 = tokens[i].start_pos;
        let n1117 = tokens[i].start_pos;
        let n1116 = n1117.saturating_add(1);
        let t1112 = SejongToken::new(s1113.as_str(), s1114.as_str(), n1115, n1116);
        let s1119 = owned("리");
        let s1120 = owned("VX");
        let n1122 = tokens[i].start_pos;
        let n1121 = n1122.saturating_add(1);
        let n1123 = tokens[i].end_pos;
        let t1118 = SejongToken::new(s1119.as_str(), s1120.as_str(), n1121, n1123);
        let mut nv1124: Vec<SejongToken> = Vec::new();
        push_token(&mut nv1124, t1112);
        push_token(&mut nv1124, t1118);
        splice_tokens(tokens, i, 1, nv1124);
        let _len1 = tokens.len();
        return i + 2;
    }
    if p34_c19_exec(tokens, i) {
        let s1126 = owned("날");
        let s1127 = owned("VV");
        let n1128 = tokens[i].start_pos;
        let n1130 = tokens[i].start_pos;
        let n1129 = n1130.saturating_add(1);
        let t1125 = SejongToken::new(s1126.as_str(), s1127.as_str(), n1128, n1129);
        let s1132 = owned("리");
        let s1133 = owned("VX");
        let n1135 = tokens[i].start_pos;
        let n1134 = n1135.saturating_add(1);
        let n1136 = tokens[i].end_pos;
        let t1131 = SejongToken::new(s1132.as_str(), s1133.as_str(), n1134, n1136);
        let mut nv1137: Vec<SejongToken> = Vec::new();
        push_token(&mut nv1137, t1125);
        push_token(&mut nv1137, t1131);
        splice_tokens(tokens, i, 1, nv1137);
        let _len1 = tokens.len();
        return i + 2;
    }
    i + 1
}

/// A causative verb is split into the stem and the causative suffix as VX (입히/VV → 입/VV 히/VX); 웃기 and 놀리 stay whole.
pub fn apply_p34(tokens: &mut Vec<SejongToken>)
    ensures
        tokens_view(final(tokens)@) == p34(tokens_view(old(tokens)@)),
{
    let ghost orig = tokens_view(tokens@);
    let mut i: usize = 0;
    while i < tokens.len()
        invariant
            i <= tokens@.len() + 1,
            scan(tokens_view(tokens@), i as int, p34_f()) == scan(orig, 0, p34_f()),
        decreases tokens@.len() + 1 - i,
    {
        let ghost before = tokens_view(tokens@);
        assert(before.len() == tokens@.len());
        i = p34_step_exec(tokens, i);
        assert(tokens_view(tokens@).len() == tokens@.len());
    }
}

/// Where rule 0 of [`p224`] applies.
pub open spec fn p224_c0(ts: Seq<TokenView>, i: int) -> bool {
    (((0 <= i < ts.len() && ts[i].surface == "이"@) && (0 <= i < ts.len() && ts[i].pos == "VX"@)) && ((0 <= i + 1 < ts.len() && ts[i + 1].surface == "ㅁ"@) && (0 <= i + 1 < ts.len() && ts[i + 1].pos == "ETN"@)))
}

/// One step of [`p224`] at `i`: the list after it and the next position.
pub open spec fn p224_step(ts: Seq<TokenView>, i: int) -> (Seq<TokenView>, int) {
    if p224_c0(ts, i) {
        (splice(ts, i, 2, seq![plain_view("임"@, "ETN"@, ts[i].start_pos, ts[i + 1].end_pos)]), i + 1)
    } else {
        (ts, i + 1)
    }
}

/// [`p224_step`] as a function value.
pub open spec fn p224_f() -> spec_fn(Seq<TokenView>, int) -> (Seq<TokenView>, int) {
    |ts: Seq<TokenView>, i: int| p224_step(ts, i)
}

/// 이/VX ㅁ/ETN is the nominal ending 임/ETN (쓰/VV 임/ETN).
pub open spec fn p224(ts: Seq<TokenView>) -> Seq<TokenView> {
    scan(ts, 0, p224_f())
}

/// Whether rule 0 of [`p224`] applies at `i`.
fn p224_c0_exec(tokens: &Vec<SejongToken>, i: usize) -> (r: bool)
    requires
        i < tokens@.len(),
    ensures
        r == p224_c0(tokens_view(tokens@), i as int),
{
    assert(tokens_view(tokens@).len() == tokens@.len());
    let c1138 = surf_is(&tokens[i], "이");
    let c1139 = pos_is(&tokens[i], "VX");
    let c1140 = (tokens.len() - i > 1) && surf_is(&tokens[i + 1], "ㅁ");
    let c1141 = (tokens.len() - i > 1) && pos_is(&tokens[i + 1], "ETN");
    ((c1138 && c1139) && (c1140 && c1141))
}

/// One step of [`p224`] at `i`; returns the next position.
fn p224_step_exec(tokens: &mut Vec<SejongToken>, i: usize) -> (next: usize)
    requires
        i < old(tokens)@.len(),
    ensures
        (tokens_view(final(tokens)@), next as int) == p224_step(tokens_view(old(tokens)@), i as int),
        final(tokens)@.len() - next < old(tokens)@.len() - i,
        next <= final(tokens)@.len() + 1,
{
    let len0 = tokens.len();
    assert(tokens_view(tokens@).len() == tokens@.len());
    if p224_c0_exec(tokens, i) {
        let s1143 = owned("임");
        let s1144 = owned("ETN");
        let n1145 = tokens[i].start_pos;
        let n1146 = tokens[i + 1].end_pos;
        let t1142 = SejongToken::new(s1143.as_str(), s1144.as_str(), n1145, n1146);
        let mut nv1147: Vec<SejongToken> = Vec::new();
        push_token(&mut nv1147, t1142);
        splice_tokens(tokens, i, 2, nv1147);
        let _len1 = tokens.len();
        return i + 1;
    }
    i + 1
}

/// 이/VX ㅁ/ETN is the nominal ending 임/ETN (쓰/VV 임/ETN).
pub fn apply_p224(tokens: &mut Vec<SejongToken>)
    ensures
        tokens_view(final(tokens)@) == p224(tokens_view(old(tokens)@)),
{
    let ghost orig = tokens_view(tokens@);
    let mut i: usize = 0;
    while i < tokens.len()
        invariant
            i <= tokens@.len() + 1,
            scan(tokens_view(tokens@), i as int, p224_f()) == scan(orig, 0, p224_f()),
        decreases tokens@.len() + 1 - i,
    {
        let ghost before = tokens_view(tokens@);
        assert(before.len() == tokens@.len());
        i = p224_step_exec(tokens, i);
        assert(tokens_view(tokens@).len() == tokens@.len());
    }
}

/// Where rule 0 of [`p35`] applies.
pub open spec fn p35_c0(ts: Seq<TokenView>, i: int) -> bool {
    ((0 <= i < ts.len() && crate::text::has_infix(ts[i].pos, "EC+VX"@)) && (0 <= i < ts.len() && ts[i].surface == "볼게요"@))
}

/// Where rule 1 of [`p35`] applies.
pub open spec fn p35_c1(ts: Seq<TokenView>, i: int) -> bool {
    ((0 <= i < ts.len() && crate::text::has_infix(ts[i].pos, "EC+VX"@)) && (0 <= i < ts.len() && ts[i].surface == "할게요"@))
}

/// Where rule 2 of [`p35`] applies.
pub open spec fn p35_c2(ts: Seq<TokenView>, i: int) -> bool {
    ((0 <= i < ts.len() && crate::text::has_infix(ts[i].pos, "EC+VX"@)) && (0 <= i < ts.len() && ts[i].surface == "갈게요"@))
}

/// Where rule 3 of [`p35`] applies.
pub open spec fn p35_c3(ts: Seq<TokenView>, i: int) -> bool {
    ((0 <= i < ts.len() && crate::text::has_infix(ts[i].pos, "EC+VX"@)) && (0 <= i < ts.len() && ts[i].surface == "올게요"@))
}

/// Where rule 4 of [`p35`] applies.
pub open spec fn p35_c4(ts: Seq<TokenView>, i: int) -> bool {
    ((0 <= i < ts.len() && crate::text::has_infix(ts[i].pos, "EC+VX"@)) && (0 <= i < ts.len() && ts[i].surface == "줄게요"@))
}

/// Where rule 5 of [`p35`] applies.
pub open spec fn p35_c5(ts: Seq<TokenView>, i: int) -> bool {
    ((0 <= i < ts.len() && crate::text::has_infix(ts[i].pos, "EC+VX"@)) && (0 <= i < ts.len() && ts[i].surface == "볼게"@))
}

/// Where rule 6 of [`p35`] applies.
pub open spec fn p35_c6(ts: Seq<TokenView>, i: int) -> bool {
    ((0 <= i < ts.len() && crate::text::has_infix(ts[i].pos, "EC+VX"@)) && (0 <= i < ts.len() && ts[i].surface == "할게"@))
}

/// Where rule 7 of [`p35`] applies.
pub open spec fn p35_c7(ts: Seq<TokenView>, i: int) -> bool {
    ((0 <= i < ts.len() && crate::text::has_infix(ts[i].pos, "EC+VX"@)) && (0 <= i < ts.len() && ts[i].surface == "갈게"@))
}

/// Where rule 8 of [`p35`] applies.
pub open spec fn p35_c8(ts: Seq<TokenView>, i: int) -> bool {
    ((0 <= i < ts.len() && crate::text::has_infix(ts[i].pos, "EC+VX"@)) && (0 <= i < ts.len() && ts[i].surface == "올게"@))
}

/// Where rule 9 of [`p35`] applies.
pub open spec fn p35_c9(ts: Seq<TokenView>, i: int) -> bool {
    ((0 <= i < ts.len() && crate::text::has_infix(ts[i].pos, "EC+VX"@)) && (0 <= i < ts.len() && ts[i].surface == "줄게"@))
}

/// Where rule 10 of [`p35`] applies.
pub open spec fn p35_c10(ts: Seq<TokenView>, i: int) -> bool {
    ((0 <= i < ts.len() && crate::text::has_infix(ts[i].pos, "EC+VX"@)) && (0 <= i < ts.len() && ts[i].surface == "볼까요"@))
}

/// Where rule 11 of [`p35`] applies.
pub open spec fn p35_c11(ts: Seq<TokenView>, i: int) -> bool {
    ((0 <= i < ts.len() && crate::text::has_infix(ts[i].pos, "EC+VX"@)) && (0 <= i < ts.len() && ts[i].surface == "할까요"@))
}

/// Where rule 12 of [`p35`] applies.
pub open spec fn p35_c12(ts: Seq<TokenView>, i: int) -> bool {
    ((0 <= i < ts.len() && crate::text::has_infix(ts[i].pos, "EC+VX"@)) && (0 <= i < ts.len() && ts[i].surface == "갈까요"@))
}

/// Where rule 13 of [`p35`] applies.
pub open spec fn p35_c13(ts: Seq<TokenView>, i: int) -> bool {
    ((0 <= i < ts.len() && crate::text::has_infix(ts[i].pos, "EC+VX"@)) && (0 <= i < ts.len() && ts[i].surface == "올까요"@))
}

/// Where rule 14 of [`p35`] applies.
pub open spec fn p35_c14(ts: Seq<TokenView>, i: int) -> bool {
    ((0 <= i < ts.len() && crate::text::has_infix(ts[i].pos, "EC+VX"@)) && (0 <= i < ts.len() && ts[i].surface == "볼래요"@))
}

/// Where rule 15 of [`p35`] applies.
pub open spec fn p35_c15(ts: Seq<TokenView>, i: int) -> bool {
    ((0 <= i < ts.len() && crate::text::has_infix(ts[i].pos, "EC+VX"@)) && (0 <= i < ts.len() && ts[i].surface == "할래요"@))
}

/// Where rule 16 of [`p35`] applies.
pub open spec fn p35_c16(ts: Seq<TokenView>, i: int) -> bool {
    ((0 <= i < ts.len() && crate::text::has_infix(ts[i].pos, "EC+VX"@)) && (0 <= i < ts.len() && ts[i].surface == "갈래요"@))
}

/// One step of [`p35`] at `i`: the list after it and the next position.
pub open spec fn p35_step(ts: Seq<TokenView>, i: int) -> (Seq<TokenView>, int) {
    if p35_c0(ts, i) {
        let t2 = splice(ts, i, 1, seq![plain_view("보"@, "VV"@, ts[i].start_pos, (ts[i].start_pos).saturating_add(1)), plain_view("ㄹ게요"@, "EF"@, (ts[i].start_pos).saturating_add(1), ts[i].end_pos)]);
        (t2, t2.len() as int)
    } else if p35_c1(ts, i) {
        let t2 = splice(ts, i, 1, seq![plain_view("하"@, "VV"@, ts[i].start_pos, (ts[i].start_pos).saturating_add(1)), plain_view("ㄹ게요"@, "EF"@, (ts[i].start_pos).saturating_add(1), ts[i].end_pos)]);
        (t2, t2.len() as int)
    } else if p35_c2(ts, i) {
        let t2 = splice(ts, i, 1, seq![plain_view("가"@, "VV"@, ts[i].start_pos, (ts[i].start_pos).saturating_add(1)), plain_view("ㄹ게요"@, "EF"@, (ts[i].start_pos).saturating_add(1), ts[i].end_pos)]);
        (t2, t2.len() as int)
    } else if p35_c3(ts, i) {
        let t2 = splice(ts, i, 1, seq![plain_view("오"@, "VV"@, ts[i].start_pos, (ts[i].start_pos).saturating_add(1)), plain_view("ㄹ게요"@, "EF"@, (ts[i].start_pos).saturating_add(1), ts[i].end_pos)]);
        (t2, t2.len() as int)
    } else if p35_c4(ts, i) {
        let t2 = splice(ts, i, 1, seq![plain_view("주"@, "VV"@, ts[i].start_pos, (ts[i].start_pos).saturating_add(1)), plain_view("ㄹ게요"@, "EF"@, (ts[i].start_pos).saturating_add(1), ts[i].end_pos)]);
        (t2, t2.len() as int)
    } else if p35_c5(ts, i) {
        let t2 = splice(ts, i, 1, seq![plain_view("보"@, "VV"@, ts[i].start_pos, (ts[i].start_pos).saturating_add(1)), plain_view("ㄹ게"@, "EF"@, (ts[i].start_pos).saturating_add(1), ts[i].end_pos)]);
        (t2, t2.len() as int)
    } else if p35_c6(ts, i) {
        let t2 = splice(ts, i, 1, seq![plain_view("하"@, "VV"@, ts[i].start_pos, (ts[i].start_pos).saturating_add(1)), plain_view("ㄹ게"@, "EF"@, (ts[i].start_pos).saturating_add(1), ts[i].end_pos)]);
        (t2, t2.len() as int)
    } else if p35_c7(ts, i) {
        let t2 = splice(ts, i, 1, seq![plain_view("가"@, "VV"@, ts[i].start_pos, (ts[i].start_pos).saturating_add(1)), plain_view("ㄹ게"@, "EF"@, (ts[i].start_pos).saturating_add(1), ts[i].end_pos)]);
        (t2, t2.len() as int)
    } else if p35_c8(ts, i) {
        let t2 = splice(ts, i, 1, seq![plain_view("오"@, "VV"@, ts[i].start_pos, (ts[i].start_pos).saturating_add(1)), plain_view("ㄹ게"@, "EF"@, (ts[i].start_pos).saturating_add(1), ts[i].end_pos)]);
        (t2, t2.len() as int)
    } else if p35_c9(ts, i) {
        let t2 = splice(ts, i, 1, seq![plain_view("주"@, "VV"@, ts[i].start_pos, (ts[i].start_pos).saturating_add(1)), plain_view("ㄹ게"@, "EF"@, (ts[i].start_pos).saturating_add(1), ts[i].end_pos)]);
        (t2, t2.len() as int)
    } else if p35_c10(ts, i) {
        let t2 = splice(ts, i, 1, seq![plain_view("보"@, "VV"@, ts[i].start_pos, (ts[i].start_pos).saturating_add(1)), plain_view("ㄹ까요"@, "EF"@, (ts[i].start_pos).saturating_add(1), ts[i].end_pos)]);
        (t2, t2.len() as int)
    } else if p35_c11(ts, i) {
        let t2 = splice(ts, i, 1, seq![plain_view("하"@, "VV"@, ts[i].start_pos, (ts[i].start_pos).saturating_add(1)), plain_view("ㄹ까요"@, "EF"@, (ts[i].start_pos).saturating_add(1), ts[i].end_pos)]);
        (t2, t2.len() as int)
    } else if p35_c12(ts, i) {
        let t2 = splice(ts, i, 1, seq![plain_view("가"@, "VV"@, ts[i].start_pos, (ts[i].start_pos).saturating_add(1)), plain_view("ㄹ까요"@, "EF"@, (ts[i].start_pos).saturating_add(1), ts[i].end_pos)]);
        (t2, t2.len() as int)
    } else if p35_c13(ts, i) {
        let t2 = splice(ts, i, 1, seq![plain_view("오"@, "VV"@, ts[i].start_pos, (ts[i].start_pos).saturating_add(1)), plain_view("ㄹ까요"@, "EF"@, (ts[i].start_pos).saturating_add(1), ts[i].end_pos)]);
        (t2, t2.len() as int)
    } else if p35_c14(ts, i) {
        let t2 = splice(ts, i, 1, seq![plain_view("보"@, "VV"@, ts[i].start_pos, (ts[i].start_pos).saturating_add(1)), plain_view("ㄹ래요"@, "EF"@, (ts[i].start_pos).saturating_add(1), ts[i].end_pos)]);
        (t2, t2.len() as int)
    } else if p35_c15(ts, i) {
        let t2 = splice(ts, i, 1, seq![plain_view("하"@, "VV"@, ts[i].start_pos, (ts[i].start_pos).saturating_add(1)), plain_view("ㄹ래요"@, "EF"@, (ts[i].start_pos).saturating_add(1), ts[i].end_pos)]);
        (t2, t2.len() as int)
    } else if p35_c16(ts, i) {
        let t2 = splice(ts, i, 1, seq![plain_view("가"@, "VV"@, ts[i].start_pos, (ts[i].start_pos).saturating_add(1)), plain_view("ㄹ래요"@, "EF"@, (ts[i].start_pos).saturating_add(1), ts[i].end_pos)]);
        (t2, t2.len() as int)
    } else {
        (ts, i + 1)
    }
}

/// [`p35_step`] as a function value.
pub open spec fn p35_f() -> spec_fn(Seq<TokenView>, int) -> (Seq<TokenView>, int) {
    |ts: Seq<TokenView>, i: int| p35_step(ts, i)
}

/// The first token whose tag contains EC+VX and whose surface is a contracted ending form is split into the stem and the final ending (볼게요 → 보/VV ㄹ게요/EF); later ones are left.
pub open spec fn p35(ts: Seq<TokenView>) -> Seq<TokenView> {
    scan(ts, 0, p35_f())
}

/// Whether rule 0 of [`p35`] applies at `i`.
fn p35_c0_exec(tokens: &Vec<SejongToken>, i: usize) -> (r: bool)
    requires
        i < tokens@.len(),
    ensures
        r == p35_c0(tokens_view(tokens@), i as int),
{
    assert(tokens_view(tokens@).len() == tokens@.len());
    let c1148 = crate::text::contains_str(tokens[i].pos.as_str(), "EC+VX");
    let c1149 = surf_is(&tokens[i], "볼게요");
    (c1148 && c1149)
}

/// Whether rule 1 of [`p35`] applies at `i`.
fn p35_c1_exec(tokens: &Vec<SejongToken>, i: usize) -> (r: bool)
    requires
        i < tokens@.len(),
    ensures
        r == p35_c1(tokens_view(tokens@), i as int),
{
    assert(tokens_view(tokens@).len() == tokens@.len());
    let c1150 = crate::text::contains_str(tokens[i].pos.as_str(), "EC+VX");
    let c1151 = surf_is(&tokens[i], "할게요");
    (c1150 && c1151)
}

/// Whether rule 2 of [`p35`] applies at `i`.
fn p35_c2_exec(tokens: &Vec<SejongToken>, i: usize) -> (r: bool)
    requires
        i < tokens@.len(),
    ensures
        r == p35_c2(tokens_view(tokens@), i as int),
{
    assert(tokens_view(tokens@).len() == tokens@.len());
    let c1152 = crate::text::contains_str(tokens[i].pos.as_str(), "EC+VX");
    let c1153 = surf_is(&tokens[i], "갈게요");
    (c1152 && c1153)
}

/// Whether rule 3 of [`p35`] applies at `i`.
fn p35_c3_exec(tokens: &Vec<SejongToken>, i: usize) -> (r: bool)
    requires
        i < tokens@.len(),
    ensures
        r == p35_c3(tokens_view(tokens@), i as int),
{
    assert(tokens_view(tokens@).len() == tokens@.len());
    let c1154 = crate::text::contains_str(tokens[i].pos.as_str(), "EC+VX");
    let c1155 = surf_is(&tokens[i], "올게요");
    (c1154 && c1155)
}

/// Whether rule 4 of [`p35`] applies at `i`.
fn p35_c4_exec(tokens: &Vec<SejongToken>, i: usize) -> (r: bool)
    requires
        i < tokens@.len(),
    ensures
        r == p35_c4(tokens_view(tokens@), i as int),
{
    assert(tokens_view(tokens@).len() == tokens@.len());
    let c1156 = crate::text::contains_str(tokens[i].pos.as_str(), "EC+VX");
    let c1157 = surf_is(&tokens[i], "줄게요");
    (c1156 && c1157)
}

/// Whether rule 5 of [`p35`] applies at `i`.
fn p35_c5_exec(tokens: &Vec<SejongToken>, i: usize) -> (r: bool)
    requires
        i < tokens@.len(),
    ensures
        r == p35_c5(tokens_view(tokens@), i as int),
{
    assert(tokens_view(tokens@).len() == tokens@.len());
    let c1158 = crate::text::contains_str(tokens[i].pos.as_str(), "EC+VX");
    let c1159 = surf_is(&tokens[i], "볼게");
    (c1158 && c1159)
}

/// Whether rule 6 of [`p35`] applies at `i`.
fn p35_c6_exec(tokens: &Vec<SejongToken>, i: usize) -> (r: bool)
    requires
        i < tokens@.len(),
    ensures
        r == p35_c6(tokens_view(tokens@), i as int),
{
    assert(tokens_view(tokens@).len() == tokens@.len());
    let c1160 = crate::text::contains_str(tokens[i].pos.as_str(), "EC+VX");
    let c1161 = surf_is(&tokens[i], "할게");
    (c1160 && c1161)
}

/// Whether rule 7 of [`p35`] applies at `i`.
fn p35_c7_exec(tokens: &Vec<SejongToken>, i: usize) -> (r: bool)
    requires
        i < tokens@.len(),
    ensures
        r == p35_c7(tokens_view(tokens@), i as int),
{
    assert(tokens_view(tokens@).len() == tokens@.len());
    let c1162 = crate::text::contains_str(tokens[i].pos.as_str(), "EC+VX");
    let c1163 = surf_is(&tokens[i], "갈게");
    (c1162 && c1163)
}

/// Whether rule 8 of [`p35`] applies at `i`.
fn p35_c8_exec(tokens: &Vec<SejongToken>, i: usize) -> (r: bool)
    requires
        i < tokens@.len(),
    ensures
        r == p35_c8(tokens_view(tokens@), i as int),
{
    assert(tokens_view(tokens@).len() == tokens@.len());
    let c1164 = crate::text::contains_str(tokens[i].pos.as_str(), "EC+VX");
    let c1165 = surf_is(&tokens[i], "올게");
    (c1164 && c1165)
}

/// Whether rule 9 of [`p35`] applies at `i`.
fn p35_c9_exec(tokens: &Vec<SejongToken>, i: usize) -> (r: bool)
    requires
        i < tokens@.len(),
    ensures
        r == p35_c9(tokens_view(tokens@), i as int),
{
    assert(tokens_view(tokens@).len() == tokens@.len());
    let c1166 = crate::text::contains_str(tokens[i].pos.as_str(), "EC+VX");
    let c1167 = surf_is(&tokens[i], "줄게");
    (c1166 && c1167)
}

/// Whether rule 10 of [`p35`] applies at `i`.
fn p35_c10_exec(tokens: &Vec<SejongToken>, i: usize) -> (r: bool)
    requires
        i < tokens@.len(),
    ensures
        r == p35_c10(tokens_view(tokens@), i as int),
{
    assert(tokens_view(tokens@).len() == tokens@.len());
    let c1168 = crate::text::contains_str(tokens[i].pos.as_str(), "EC+VX");
    let c1169 = surf_is(&tokens[i], "볼까요");
    (c1168 && c1169)
}

/// Whether rule 11 of [`p35`] applies at `i`.
fn p35_c11_exec(tokens: &Vec<SejongToken>, i: usize) -> (r: bool)
    requires
        i < tokens@.len(),
    ensures
        r == p35_c11(tokens_view(tokens@), i as int),
{
    assert(tokens_view(tokens@).len() == tokens@.len());
    let c1170 = crate::text::contains_str(tokens[i].pos.as_str(), "EC+VX");
    let c1171 = surf_is(&tokens[i], "할까요");
    (c1170 && c1171)
}

/// Whether rule 12 of [`p35`] applies at `i`.
fn p35_c12_exec(tokens: &Vec<SejongToken>, i: usize) -> (r: bool)
    requires
        i < tokens@.len(),
    ensures
        r == p35_c12(tokens_view(tokens@), i as int),
{
    assert(tokens_view(tokens@).len() == tokens@.len());
    let c1172 = crate::text::contains_str(tokens[i].pos.as_str(), "EC+VX");
    let c1173 = surf_is(&tokens[i], "갈까요");
    (c1172 && c1173)
}

/// Whether rule 13 of [`p35`] applies at `i`.
fn p35_c13_exec(tokens: &Vec<SejongToken>, i: usize) -> (r: bool)
    requires
        i < tokens@.len(),
    ensures
        r == p35_c13(tokens_view(tokens@), i as int),
{
    assert(tokens_view(tokens@).len() == tokens@.len());
    let c1174 = crate::text::contains_str(tokens[i].pos.as_str(), "EC+VX");
    let c1175 = surf_is(&tokens[i], "올까요");
    (c1174 && c1175)
}

/// Whether rule 14 of [`p35`] applies at `i`.
fn p35_c14_exec(tokens: &Vec<SejongToken>, i: usize) -> (r: bool)
    requires
        i < tokens@.len(),
    ensures
        r == p35_c14(tokens_view(tokens@), i as int),
{
    assert(tokens_view(tokens@).len() == tokens@.len());
    let c1176 = crate::text::contains_str(tokens[i].pos.as_str(), "EC+VX");
    let c1177 = surf_is(&tokens[i], "볼래요");
    (c1176 && c1177)
}

/// Whether rule 15 of [`p35`] applies at `i`.
fn p35_c15_exec(tokens: &Vec<SejongToken>, i: usize) -> (r: bool)
    requires
        i < tokens@.len(),
    ensures
        r == p35_c15(tokens_view(tokens@), i as int),
{
    assert(tokens_view(tokens@).len() == tokens@.len());
    let c1178 = crate::text::contains_str(tokens[i].pos.as_str(), "EC+VX");
    let c1179 = surf_is(&tokens[i], "할래요");
    (c1178 && c1179)
}

/// Whether rule 16 of [`p35`] applies at `i`.
fn p35_c16_exec(tokens: &Vec<SejongToken>, i: usize) -> (r: bool)
    requires
        i < tokens@.len(),
    ensures
        r == p35_c16(tokens_view(tokens@), i as int),
{
    assert(tokens_view(tokens@).len() == tokens@.len());
    let c1180 = crate::text::contains_str(tokens[i].pos.as_str(), "EC+VX");
    let c1181 = surf_is(&tokens[i], "갈래요");
    (c1180 && c1181)
}

/// One step of [`p35`] at `i`; returns the next position.
#[verifier::rlimit(50)]
fn p35_step_exec(tokens: &mut Vec<SejongToken>, i: usize) -> (next: usize)
    requires
        i < old(tokens)@.len(),
    ensures
        (tokens_view(final(tokens)@), next as int) == p35_step(tokens_view(old(tokens)@), i as int),
        final(tokens)@.len() - next < old(tokens)@.len() - i,
        next <= final(tokens)@.len() + 1,
{
    let len0 = tokens.len();
    assert(tokens_view(tokens@).len() == tokens@.len());
    if p35_c0_exec(tokens, i) {
        let s1183 = owned("보");
        let s1184 = owned("VV");
        let n1185 = tokens[i].start_pos;
        let n1187 = tokens[i].start_pos;
        let n1186 = n1187.saturating_add(1);
        let t1182 = SejongToken::new(s1183.as_str(), s1184.as_str(), n1185, n1186);
        let s1189 = owned("ㄹ게요");
        let s1190 = owned("EF");
        let n1192 = tokens[i].start_pos;
        let n1191 = n1192.saturating_add(1);
        let n1193 = tokens[i].end_pos;
        let t1188 = SejongToken::new(s1189.as_str(), s1190.as_str(), n1191, n1193);
        let mut nv1194: Vec<SejongToken> = Vec::new();
        push_token(&mut nv1194, t1182);
        push_token(&mut nv1194, t1188);
        splice_tokens(tokens, i, 1, nv1194);
        let _len1 = tokens.len();
        return tokens.len();
    }
    if p35_c1_exec(tokens, i) {
        let s1196 = owned("하");
        let s1197 = owned("VV");
        let n1198 = tokens[i].start_pos;
        let n1200 = tokens[i].start_pos;
        let n1199 = n1200.saturating_add(1);
        let t1195 = SejongToken::new(s1196.as_str(), s1197.as_str(), n1198, n1199);
        let s1202 = owned("ㄹ게요");
        let s1203 = owned("EF");
        let n1205 = tokens[i].start_pos;
        let n1204 = n1205.saturating_add(1);
        let n1206 = tokens[i].end_pos;
        let t1201 = SejongToken::new(s1202.as_str(), s1203.as_str(), n1204, n1206);
        let mut nv1207: Vec<SejongToken> = Vec::new();
        push_token(&mut nv1207, t1195);
        push_token(&mut nv1207, t1201);
        splice_tokens(tokens, i, 1, nv1207);
        let _len1 = tokens.len();
        return tokens.len();
    }
    if p35_c2_exec(tokens, i) {
        let s1209 = owned("가");
        let s1210 = owned("VV");
        let n1211 = tokens[i].start_pos;
        let n1213 = tokens[i].start_pos;
        let n1212 = n1213.saturating_add(1);
        let t1208 = SejongToken::new(s1209.as_str(), s1210.as_str(), n1211, n1212);
        let s1215 = owned("ㄹ게요");
        let s1216 = owned("EF");
        let n1218 = tokens[i].start_pos;
        let n1217 = n1218.saturating_add(1);
        let n1219 = tokens[i].end_pos;
        let t1214 = SejongToken::new(s1215.as_str(), s1216.as_str(), n1217, n1219);
        let mut nv1220: Vec<SejongToken> = Vec::new();
        push_token(&mut nv1220, t1208);
        push_token(&mut nv1220, t1214);
        splice_tokens(tokens, i, 1, nv1220);
        let _len1 = tokens.len();
        return tokens.len();
    }
    if p35_c3_exec(tokens, i) {
        let s1222 = owned("오");
        let s1223 = owned("VV");
        let n1224 = tokens[i].start_pos;
        let n1226 = tokens[i].start_pos;
        let n1225 = n1226.saturating_add(1);
        let t1221 = SejongToken::new(s1222.as_str(), s1223.as_str(), n1224, n1225);
        let s1228 = owned("ㄹ게요");
        let s1229 = owned("EF");
        let n1231 = tokens[i].start_pos;
        let n1230 = n1231.saturating_add(1);
        let n1232 = tokens[i].end_pos;
        let t1227 = SejongToken::new(s1228.as_str(), s1229.as_str(), n1230, n1232);
        let mut nv1233: Vec<SejongToken> = Vec::new();
        push_token(&mut nv1233, t1221);
        push_token(&mut nv1233, t1227);
        splice_tokens(tokens, i, 1, nv1233);
        let _len1 = tokens.len();
        return tokens.len();
    }
    if p35_c4_exec(tokens, i) {
        let s1235 = owned("주");
        let s1236 = owned("VV");
        let n1237 = tokens[i].start_pos;
        let n1239 = tokens[i].start_pos;
        let n1238 = n1239.saturating_add(1);
        let t1234 = SejongToken::new(s1235.as_str(), s1236.as_str(), n1237, n1238);
        let s1241 = owned("ㄹ게요");
        let s1242 = owned("EF");
        let n1244 = tokens[i].start_pos;
        let n1243 = n1244.saturating_add(1);
        let n1245 = tokens[i].end_pos;
        let t1240 = SejongToken::new(s1241.as_str(), s1242.as_str(), n1243, n1245);
        let mut nv1246: Vec<SejongToken> = Vec::new();
        push_token(&mut nv1246, t1234);
        push_token(&mut nv1246, t1240);
        splice_tokens(tokens, i, 1, nv1246);
        let _len1 = tokens.len();
        return tokens.len();
    }
    if p35_c5_exec(tokens, i) {
        let s1248 = owned("보");
        let s1249 = owned("VV");
        let n1250 = tokens[i].start_pos;
        let n1252 = tokens[i].start_pos;
        let n1251 = n1252.saturating_add(1);
        let t1247 = SejongToken::new(s1248.as_str(), s1249.as_str(), n1250, n1251);
        let s1254 = owned("ㄹ게");
        let s1255 = owned("EF");
        let n1257 = tokens[i].start_pos;
        let n1256 = n1257.saturating_add(1);
        let n1258 = tokens[i].end_pos;
        let t1253 = SejongToken::new(s1254.as_str(), s1255.as_str(), n1256, n1258);
        let mut nv1259: Vec<SejongToken> = Vec::new();
        push_token(&mut nv1259, t1247);
        push_token(&mut nv1259, t1253);
        splice_tokens(tokens, i, 1, nv1259);
        let _len1 = tokens.len();
        return tokens.len();
    }
    if p35_c6_exec(tokens, i) {
        let s1261 = owned("하");
        let s1262 = owned("VV");
        let n1263 = tokens[i].start_pos;
        let n1265 = tokens[i].start_pos;
        let n1264 = n1265.saturating_add(1);
        let t1260 = SejongToken::new(s1261.as_str(), s1262.as_str(), n1263, n1264);
        let s1267 = owned("ㄹ게");
        let s1268 = owned("EF");
        let n1270 = tokens[i].start_pos;
        let n1269 = n1270.saturating_add(1);
        let n1271 = tokens[i].end_pos;
        let t1266 = SejongToken::new(s1267.as_str(), s1268.as_str(), n1269, n1271);
        let mut nv1272: Vec<SejongToken> = Vec::new();
        push_token(&mut nv1272, t1260);
        push_token(&mut nv1272, t1266);
        splice_tokens(tokens, i, 1, nv1272);
        let _len1 = tokens.len();
        return tokens.len();
    }
    if p35_c7_exec(tokens, i) {
        let s1274 = owned("가");
        let s1275 = owned("VV");
        let n1276 = tokens[i].start_pos;
        let n1278 = tokens[i].start_pos;
        let n1277 = n1278.saturating_add(1);
        let t1273 = SejongToken::new(s1274.as_str(), s1275.as_str(), n1276, n1277);
        let s1280 = owned("ㄹ게");
        let s1281 = owned("EF");
        let n1283 = tokens[i].start_pos;
        let n1282 = n1283.saturating_add(1);
        let n1284 = tokens[i].end_pos;
        let t1279 = SejongToken::new(s1280.as_str(), s1281.as_str(), n1282, n1284);
        let mut nv1285: Vec<SejongToken> = Vec::new();
        push_token(&mut nv1285, t1273);
        push_token(&mut nv1285, t1279);
        splice_tokens(tokens, i, 1, nv1285);
        let _len1 = tokens.len();
        return tokens.len();
    }
    if p35_c8_exec(tokens, i) {
        let s1287 = owned("오");
        let s1288 = owned("VV");
        let n1289 = tokens[i].start_pos;
        let n1291 = tokens[i].start_pos;
        let n1290 = n1291.saturating_add(1);
        let t1286 = SejongToken::new(s1287.as_str(), s1288.as_str(), n1289, n1290);
        let s1293 = owned("ㄹ게");
        let s1294 = owned("EF");
        let n1296 = tokens[i].start_pos;
        let n1295 = n1296.saturating_add(1);
        let n1297 = tokens[i].end_pos;
        let t1292 = SejongToken::new(s1293.as_str(), s1294.as_str(), n1295, n1297);
        let mut nv1298: Vec<SejongToken> = Vec::new();
        push_token(&mut nv1298, t1286);
        push_token(&mut nv1298, t1292);
        splice_tokens(tokens, i, 1, nv1298);
        let _len1 = tokens.len();
        return tokens.len();
    }
    if p35_c9_exec(tokens, i) {
        let s1300 = owned("주");
        let s1301 = owned("VV");
        let n1302 = tokens[i].start_pos;
        let n1304 = tokens[i].start_pos;
        let n1303 = n1304.saturating_add(1);
        let t1299 = SejongToken::new(s1300.as_str(), s1301.as_str(), n1302, n1303);
        let s1306 = owned("ㄹ게");
        let s1307 = owned("EF");
        let n1309 = tokens[i].start_pos;
        let n1308 = n1309.saturating_add(1);
        let n1310 = tokens[i].end_pos;
        let t1305 = SejongToken::new(s1306.as_str(), s1307.as_str(), n1308, n1310);
        let mut nv1311: Vec<SejongToken> = Vec::new();
        push_token(&mut nv1311, t1299);
        push_token(&mut nv1311, t1305);
        splice_tokens(tokens, i, 1, nv1311);
        let _len1 = tokens.len();
        return tokens.len();
    }
    if p35_c10_exec(tokens, i) {
        let s1313 = owned("보");
        let s1314 = owned("VV");
        let n1315 = tokens[i].start_pos;
        let n1317 = tokens[i].start_pos;
        let n1316 = n1317.saturating_add(1);
        let t1312 = SejongToken::new(s1313.as_str(), s1314.as_str(), n1315, n1316);
        let s1319 = owned("ㄹ까요");
        let s1320 = owned("EF");
        let n1322 = tokens[i].start_pos;
        let n1321 = n1322.saturating_add(1);
        let n1323 = tokens[i].end_pos;
        let t1318 = SejongToken::new(s1319.as_str(), s1320.as_str(), n1321, n1323);
        let mut nv1324: Vec<SejongToken> = Vec::new();
        push_token(&mut nv1324, t1312);
        push_token(&mut nv1324, t1318);
        splice_tokens(tokens, i, 1, nv1324);
        let _len1 = tokens.len();
        return tokens.len();
    }
    if p35_c11_exec(tokens, i) {
        let s1326 = owned("하");
        let s1327 = owned("VV");
        let n1328 = tokens[i].start_pos;
        let n1330 = tokens[i].start_pos;
        let n1329 = n1330.saturating_add(1);
        let t1325 = SejongToken::new(s1326.as_str(), s1327.as_str(), n1328, n1329);
        let s1332 = owned("ㄹ까요");
        let s1333 = owned("EF");
        let n1335 = tokens[i].start_pos;
        let n1334 = n1335.saturating_add(1);
        let n1336 = tokens[i].end_pos;
        let t1331 = SejongToken::new(s1332.as_str(), s1333.as_str(), n1334, n1336);
        let mut nv1337: Vec<SejongToken> = Vec::new();
        push_token(&mut nv1337, t1325);
        push_token(&mut nv1337, t1331);
        splice_tokens(tokens, i, 1, nv1337);
        let _len1 = tokens.len();
        return tokens.len();
    }
    if p35_c12_exec(tokens, i) {
        let s1339 = owned("가");
        let s1340 = owned("VV");
        let n1341 = tokens[i].start_pos;
        let n1343 = tokens[i].start_pos;
        let n1342 = n1343.saturating_add(1);
        let t1338 = SejongToken::new(s1339.as_str(), s1340.as_str(), n1341, n1342);
        let s1345 = owned("ㄹ까요");
        let s1346 = owned("EF");
        let n1348 = tokens[i].start_pos;
        let n1347 = n1348.saturating_add(1);
        let n1349 = tokens[i].end_pos;
        let t1344 = SejongToken::new(s1345.as_str(), s1346.as_str(), n1347, n1349);
        let mut nv1350: Vec<SejongToken> = Vec::new();
        push_token(&mut nv1350, t1338);
        push_token(&mut nv1350, t1344);
        splice_tokens(tokens, i, 1, nv1350);
        let _len1 = tokens.len();
        return tokens.len();
    }
    if p35_c13_exec(tokens, i) {
        let s1352 = owned("오");
        let s1353 = owned("VV");
        let n1354 = tokens[i].start_pos;
        let n1356 = tokens[i].start_pos;
        let n1355 = n1356.saturating_add(1);
        let t1351 = SejongToken::new(s1352.as_str(), s1353.as_str(), n1354, n1355);
        let s1358 = owned("ㄹ까요");
        let s1359 = owned("EF");
        let n1361 = tokens[i].start_pos;
        let n1360 = n1361.saturating_add(1);
        let n1362 = tokens[i].end_pos;
        let t1357 = SejongToken::new(s1358.as_str(), s1359.as_str(), n1360, n1362);
        let mut nv1363: Vec<SejongToken> = Vec::new();
        push_token(&mut nv1363, t1351);
        push_token(&mut nv1363, t1357);
        splice_tokens(tokens, i, 1, nv1363);
        let _len1 = tokens.len();
        return tokens.len();
    }
    if p35_c14_exec(tokens, i) {
        let s1365 = owned("보");
        let s1366 = owned("VV");
        let n1367 = tokens[i].start_pos;
        let n1369 = tokens[i].start_pos;
        let n1368 = n1369.saturating_add(1);
        let t1364 = SejongToken::new(s1365.as_str(), s1366.as_str(), n1367, n1368);
        let s1371 = owned("ㄹ래요");
        let s1372 = owned("EF");
        let n1374 = tokens[i].start_pos;
        let n1373 = n1374.saturating_add(1);
        let n1375 = tokens[i].end_pos;
        let t1370 = SejongToken::new(s1371.as_str(), s1372.as_str(), n1373, n1375);
        let mut nv1376: Vec<SejongToken> = Vec::new();
        push_token(&mut nv1376, t1364);
        push_token(&mut nv1376, t1370);
        splice_tokens(tokens, i, 1, nv1376);
        let _len1 = tokens.len();
        return tokens.len();
    }
    if p35_c15_exec(tokens, i) {
        let s1378 = owned("하");
        let s1379 = owned("VV");
        let n1380 = tokens[i].start_pos;
        let n1382 = tokens[i].start_pos;
        let n1381 = n1382.saturating_add(1);
        let t1377 = SejongToken::new(s1378.as_str(), s1379.as_str(), n1380, n1381);
        let s1384 = owned("ㄹ래요");
        let s1385 = owned("EF");
        let n1387 = tokens[i].start_pos;
        let n1386 = n1387.saturating_add(1);
        let n1388 = tokens[i].end_pos;
        let t1383 = SejongToken::new(s1384.as_str(), s1385.as_str(), n1386, n1388);
        let mut nv1389: Vec<SejongToken> = Vec::new();
        push_token(&mut nv1389, t1377);
        push_token(&mut nv1389, t1383);
        splice_tokens(tokens, i, 1, nv1389);
        let _len1 = tokens.len();
        return tokens.len();
    }
    if p35_c16_exec(tokens, i) {
        let s1391 = owned("가");
        let s1392 = owned("VV");
        let n1393 = tokens[i].start_pos;
        let n1395 = tokens[i].start_pos;
        let n1394 = n1395.saturating_add(1);
        let t1390 = SejongToken::new(s1391.as_str(), s1392.as_str(), n1393, n1394);
        let s1397 = owned("ㄹ래요");
        let s1398 = owned("EF");
        let n1400 = tokens[i].start_pos;
        let n1399 = n1400.saturating_add(1);
        let n1401 = tokens[i].end_pos;
        let t1396 = SejongToken::new(s1397.as_str(), s1398.as_str(), n1399, n1401);
        let mut nv1402: Vec<SejongToken> = Vec::new();
        push_token(&mut nv1402, t1390);
        push_token(&mut nv1402, t1396);
        splice_tokens(tokens, i, 1, nv1402);
        let _len1 = tokens.len();
        return tokens.len();
    }
    i + 1
}

/// The first token whose tag contains EC+VX and whose surface is a contracted ending form is split into the stem and the final ending (볼게요 → 보/VV ㄹ게요/EF); later ones are left.
pub fn apply_p35(tokens: &mut Vec<SejongToken>)
    ensures
        tokens_view(final(tokens)@) == p35(tokens_view(old(tokens)@)),
{
    let ghost orig = tokens_view(tokens@);
    let mut i: usize = 0;
    while i < tokens.len()
        invariant
            i <= tokens@.len() + 1,
            scan(tokens_view(tokens@), i as int, p35_f()) == scan(orig, 0, p35_f()),
        decreases tokens@.len() + 1 - i,
    {
        let ghost before = tokens_view(tokens@);
        assert(before.len() == tokens@.len());
        i = p35_step_exec(tokens, i);
        assert(tokens_view(tokens@).len() == tokens@.len());
    }
}

/// Where [`p36`] changes a token.
pub open spec fn p36_c(ts: Seq<TokenView>, i: int) -> bool {
    (((0 <= i < ts.len() && ts[i].surface == "아요"@) && (0 <= i < ts.len() && ts[i].pos == "EC"@)) && (!(0 <= i + 1 < ts.len() && true) || (0 <= i + 1 < ts.len() && ts[i + 1].pos == "SF"@)) && (0 <= i - 1 < ts.len() && seq!["XSV"@, "VV"@, "VA"@, "VX"@].contains(ts[i - 1].pos)))
}

/// The token [`p36`] puts at `i`.
pub open spec fn p36_t(ts: Seq<TokenView>, i: int) -> TokenView {
    TokenView { pos: "EF"@, ..ts[i] }
}

/// 아요/EC after a verb or adjective at the end of the sentence (or before SF) is the final ending 아요/EF.
pub open spec fn p36(ts: Seq<TokenView>) -> Seq<TokenView> {
    map_where(ts, |ts: Seq<TokenView>, i: int| p36_c(ts, i), |ts: Seq<TokenView>, i: int| p36_t(ts, i))
}

/// Whether [`p36`] changes the token at `i`.
fn p36_c_exec(tokens: &Vec<SejongToken>, i: usize) -> (r: bool)
    requires
        i < tokens@.len(),
    ensures
        r == p36_c(tokens_view(tokens@), i as int),
{
    assert(tokens_view(tokens@).len() == tokens@.len());
    let c1403 = surf_is(&tokens[i], "아요");
    let c1404 = pos_is(&tokens[i], "EC");
    let c1405 = (tokens.len() - i > 1) && true;
    let c1406 = (tokens.len() - i > 1) && pos_is(&tokens[i + 1], "SF");
    let l1408: [&str; 4] = ["XSV", "VV", "VA", "VX"];
    assert(crate::tag_map::strs_view(l1408@) =~= seq!["XSV"@, "VV"@, "VA"@, "VX"@]);
    let c1407 = (i >= 1) && in_list(&l1408, tokens[i - 1].pos.as_str());
    ((c1403 && c1404) && (!c1405 || c1406) && c1407)
}

/// The token [`p36`] puts at `i`.
fn p36_t_exec(tokens: &Vec<SejongToken>, i: usize) -> (t: SejongToken)
    requires
        i < tokens@.len(),
        p36_c(tokens_view(tokens@), i as int),
    ensures
        t@ == p36_t(tokens_view(tokens@), i as int),
{
    assert(tokens_view(tokens@).len() == tokens@.len());
    let s1410 = owned("EF");
    let mut t1409 = tokens[i].duplicate();
    t1409.pos = s1410;
    t1409
}

/// 아요/EC after a verb or adjective at the end of the sentence (or before SF) is the final ending 아요/EF.
pub fn apply_p36(tokens: &mut Vec<SejongToken>)
    ensures
        tokens_view(final(tokens)@) == p36(tokens_view(old(tokens)@)),
{
    let ghost orig = tokens_view(tokens@);
    let mut out: Vec<SejongToken> = Vec::new();
    let mut k: usize = 0;
    while k < tokens.len()
        invariant
            k <= tokens@.len(),
            orig == tokens_view(tokens@),
            tokens_view(out@) == p36(orig).take(k as int),
        decreases tokens@.len() - k,
    {
        let t = if p36_c_exec(tokens, k) { p36_t_exec(tokens, k) } else { tokens[k].duplicate() };
        push_token(&mut out, t);
        k += 1;
        assert(tokens_view(out@) =~= p36(orig).take(k as int));
    }
    assert(p36(orig).take(k as int) =~= p36(orig));
    *tokens = out;
}

/// Where [`p37`] changes a token.
pub open spec fn p37_c(ts: Seq<TokenView>, i: int) -> bool {
    (((0 <= i < ts.len() && ts[i].surface == "고"@) && (0 <= i < ts.len() && ts[i].pos == "EF"@)) && (0 <= i + 1 < ts.len() && true) && (0 <= i - 1 < ts.len() && seq!["XSV"@, "VV"@, "VA"@, "VX"@].contains(ts[i - 1].pos)))
}

/// The token [`p37`] puts at `i`.
pub open spec fn p37_t(ts: Seq<TokenView>, i: int) -> TokenView {
    TokenView { pos: "EC"@, ..ts[i] }
}

/// 고/EF after a verb or adjective inside the sentence is the connective ending 고/EC.
pub open spec fn p37(ts: Seq<TokenView>) -> Seq<TokenView> {
    map_where(ts, |ts: Seq<TokenView>, i: int| p37_c(ts, i), |ts: Seq<TokenView>, i: int| p37_t(ts, i))
}

/// Whether [`p37`] changes the token at `i`.
fn p37_c_exec(tokens: &Vec<SejongToken>, i: usize) -> (r: bool)
    requires
        i < tokens@.len(),
    ensures
        r == p37_c(tokens_view(tokens@), i as int),
{
    assert(tokens_view(tokens@).len() == tokens@.len());
    let c1411 = surf_is(&tokens[i], "고");
    let c1412 = pos_is(&tokens[i], "EF");
    let c1413 = (tokens.len() - i > 1) && true;
    let l1415: [&str; 4] = ["XSV", "VV", "VA", "VX"];
    assert(crate::tag_map::strs_view(l1415@) =~= seq!["XSV"@, "VV"@, "VA"@, "VX"@]);
    let c1414 = (i >= 1) && in_list(&l1415, tokens[i - 1].pos.as_str());
    ((c1411 && c1412) && c1413 && c1414)
}

/// The token [`p37`] puts at `i`.
fn p37_t_exec(tokens: &Vec<SejongToken>, i: usize) -> (t: SejongToken)
    requires
        i < tokens@.len(),
        p37_c(tokens_view(tokens@), i as int),
    ensures
        t@ == p37_t(tokens_view(tokens@), i as int),
{
    assert(tokens_view(tokens@).len() == tokens@.len());
    let s1417 = owned("EC");
    let mut t1416 = tokens[i].duplicate();
    t1416.pos = s1417;
    t1416
}

/// 고/EF after a verb or adjective inside the sentence is the connective ending 고/EC.
pub fn apply_p37(tokens: &mut Vec<SejongToken>)
    ensures
        tokens_view(final(tokens)@) == p37(tokens_view(old(tokens)@)),
{
    let ghost orig = tokens_view(tokens@);
    let mut out: Vec<SejongToken> = Vec::new();
    let mut k: usize = 0;
    while k < tokens.len()
        invariant
            k <= tokens@.len(),
            orig == tokens_view(tokens@),
            tokens_view(out@) == p37(orig).take(k as int),
        decreases tokens@.len() - k,
    {
        let t = if p37_c_exec(tokens, k) { p37_t_exec(tokens, k) } else { tokens[k].duplicate() };
        push_token(&mut out, t);
        k += 1;
        assert(tokens_view(out@) =~= p37(orig).take(k as int));
    }
    assert(p37(orig).take(k as int) =~= p37(orig));
    *tokens = out;
}

/// Where rule 0 of [`p38`] applies.
pub open spec fn p38_c0(ts: Seq<TokenView>, i: int) -> bool {
    ((0 <= i - 1 < ts.len() && ts[i - 1].pos == "NNG"@) && ((0 <= i < ts.len() && ts[i].surface == "하고"@) && (0 <= i < ts.len() && ts[i].pos == "JC"@)) && (0 <= i + 1 < ts.len() && ts[i + 1].pos == "VX"@))
}

/// One step of [`p38`] at `i`: the list after it and the next position.
pub open spec fn p38_step(ts: Seq<TokenView>, i: int) -> (Seq<TokenView>, int) {
    if p38_c0(ts, i) {
        (splice(ts, i, 1, seq![plain_view("하"@, "XSV"@, ts[i].start_pos, (ts[i].start_pos).saturating_add(1)), plain_view("고"@, "EC"@, (ts[i].start_pos).saturating_add(1), ts[i].end_pos)]), i + 2)
    } else {
        (ts, i + 1)
    }
}

/// [`p38_step`] as a function value.
pub open spec fn p38_f() -> spec_fn(Seq<TokenView>, int) -> (Seq<TokenView>, int) {
    |ts: Seq<TokenView>, i: int| p38_step(ts, i)
}

/// 하고/JC between a common noun and an auxiliary is 하/XSV 고/EC.
pub open spec fn p38(ts: Seq<TokenView>) -> Seq<TokenView> {
    scan(ts, 0, p38_f())
}

/// Whether rule 0 of [`p38`] applies at `i`.
fn p38_c0_exec(tokens: &Vec<SejongToken>, i: usize) -> (r: bool)
    requires
        i < tokens@.len(),
    ensures
        r == p38_c0(tokens_view(tokens@), i as int),
{
    assert(tokens_view(tokens@).len() == tokens@.len());
    let c1418 = (i >= 1) && pos_is(&tokens[i - 1], "NNG");
    let c1419 = surf_is(&tokens[i], "하고");
    let c1420 = pos_is(&tokens[i], "JC");
    let c1421 = (tokens.len() - i > 1) && pos_is(&tokens[i + 1], "VX");
    (c1418 && (c1419 && c1420) && c1421)
}

/// One step of [`p38`] at `i`; returns the next position.
fn p38_step_exec(tokens: &mut Vec<SejongToken>, i: usize) -> (next: usize)
    requires
        i < old(tokens)@.len(),
    ensures
        (tokens_view(final(tokens)@), next as int) == p38_step(tokens_view(old(tokens)@), i as int),
        final(tokens)@.len() - next < old(tokens)@.len() - i,
        next <= final(tokens)@.len() + 1,
{
    let len0 = tokens.len();
    assert(tokens_view(tokens@).len() == tokens@.len());
    if p38_c0_exec(tokens, i) {
        let s1423 = owned("하");
        let s1424 = owned("XSV");
        let n1425 = tokens[i].start_pos;
        let n1427 = tokens[i].start_pos;
        let n1426 = n1427.saturating_add(1);
        let t1422 = SejongToken::new(s1423.as_str(), s1424.as_str(), n1425, n1426);
        let s1429 = owned("고");
        let s1430 = owned("EC");
        let n1432 = tokens[i].start_pos;
        let n1431 = n1432.saturating_add(1);
        let n1433 = tokens[i].end_pos;
        let t1428 = SejongToken::new(s1429.as_str(), s1430.as_str(), n1431, n1433);
        let mut nv1434: Vec<SejongToken> = Vec::new();
        push_token(&mut nv1434, t1422);
        push_token(&mut nv1434, t1428);
        splice_tokens(tokens, i, 1, nv1434);
        let _len1 = tokens.len();
        return i + 2;
    }
    i + 1
}

/// 하고/JC between a common noun and an auxiliary is 하/XSV 고/EC.
pub fn apply_p38(tokens: &mut Vec<SejongToken>)
    ensures
        tokens_view(final(tokens)@) == p38(tokens_view(old(tokens)@)),
{
    let ghost orig = tokens_view(tokens@);
    let mut i: usize = 0;
    while i < tokens.len()
        invariant
            i <= tokens@.len() + 1,
            scan(tokens_view(tokens@), i as int, p38_f()) == scan(orig, 0, p38_f()),
        decreases tokens@.len() + 1 - i,
    {
        let ghost before = tokens_view(tokens@);
        assert(before.len() == tokens@.len());
        i = p38_step_exec(tokens, i);
        assert(tokens_view(tokens@).len() == tokens@.len());
    }
}

/// Where rule 0 of [`p39`] applies.
pub open spec fn p39_c0(ts: Seq<TokenView>, i: int) -> bool {
    ((0 <= i - 1 < ts.len() && ts[i - 1].pos == "NNG"@) && ((0 <= i < ts.len() && ts[i].surface == "하"@) && (0 <= i < ts.len() && ts[i].pos == "IC"@)) && ((0 <= i + 1 < ts.len() && ts[i + 1].surface == "면서"@) && (0 <= i + 1 < ts.len() && ts[i + 1].pos == "EF"@)))
}

/// One step of [`p39`] at `i`: the list after it and the next position.
pub open spec fn p39_step(ts: Seq<TokenView>, i: int) -> (Seq<TokenView>, int) {
    if p39_c0(ts, i) {
        (ts.update(i, TokenView { pos: "XSV"@, ..ts[i] }).update(i + 1, TokenView { pos: "EC"@, ..ts[i + 1] }), i + 1)
    } else {
        (ts, i + 1)
    }
}

/// [`p39_step`] as a function value.
pub open spec fn p39_f() -> spec_fn(Seq<TokenView>, int) -> (Seq<TokenView>, int) {
    |ts: Seq<TokenView>, i: int| p39_step(ts, i)
}

/// 하/IC 면서/EF after a common noun is 하/XSV 면서/EC.
pub open spec fn p39(ts: Seq<TokenView>) -> Seq<TokenView> {
    scan(ts, 0, p39_f())
}

/// Whether rule 0 of [`p39`] applies at `i`.
fn p39_c0_exec(tokens: &Vec<SejongToken>, i: usize) -> (r: bool)
    requires
        i < tokens@.len(),
    ensures
        r == p39_c0(tokens_view(tokens@), i as int),
{
    assert(tokens_view(tokens@).len() == tokens@.len());
    let c1435 = (i >= 1) && pos_is(&tokens[i - 1], "NNG");
    let c1436 = surf_is(&tokens[i], "하");
    let c1437 = pos_is(&tokens[i], "IC");
    let c1438 = (tokens.len() - i > 1) && surf_is(&tokens[i + 1], "면서");
    let c1439 = (tokens.len() - i > 1) && pos_is(&tokens[i + 1], "EF");
    (c1435 && (c1436 && c1437) && (c1438 && c1439))
}

/// One step of [`p39`] at `i`; returns the next position.
fn p39_step_exec(tokens: &mut Vec<SejongToken>, i: usize) -> (next: usize)
    requires
        i < old(tokens)@.len(),
    ensures
        (tokens_view(final(tokens)@), next as int) == p39_step(tokens_view(old(tokens)@), i as int),
        final(tokens)@.len() - next < old(tokens)@.len() - i,
        next <= final(tokens)@.len() + 1,
{
    let len0 = tokens.len();
    assert(tokens_view(tokens@).len() == tokens@.len());
    if p39_c0_exec(tokens, i) {
        let s1441 = owned("XSV");
        let mut t1440 = tokens[i].duplicate();
        t1440.pos = s1441;
        let s1443 = owned("EC");
        let mut t1442 = tokens[i + 1].duplicate();
        t1442.pos = s1443;
        set_token(tokens, i, t1440);
        set_token(tokens, i + 1, t1442);
        let _len1 = tokens.len();
        return i + 1;
    }
    i + 1
}

/// 하/IC 면서/EF after a common noun is 하/XSV 면서/EC.
pub fn apply_p39(tokens: &mut Vec<SejongToken>)
    ensures
        tokens_view(final(tokens)@) == p39(tokens_view(old(tokens)@)),
{
    let ghost orig = tokens_view(tokens@);
    let mut i: usize = 0;
    while i < tokens.len()
        invariant
            i <= tokens@.len() + 1,
            scan(tokens_view(tokens@), i as int, p39_f()) == scan(orig, 0, p39_f()),
        decreases tokens@.len() + 1 - i,
    {
        let ghost before = tokens_view(tokens@);
        assert(before.len() == tokens@.len());
        i = p39_step_exec(tokens, i);
        assert(tokens_view(tokens@).len() == tokens@.len());
    }
}

/// Where rule 0 of [`p40`] applies.
pub open spec fn p40_c0(ts: Seq<TokenView>, i: int) -> bool {
    ((0 <= i < ts.len() && ts[i].surface == "오는"@) && (0 <= i < ts.len() && ts[i].pos == "MM"@))
}

/// Where rule 1 of [`p40`] applies.
pub open spec fn p40_c1(ts: Seq<TokenView>, i: int) -> bool {
    ((0 <= i < ts.len() && ts[i].surface == "가는"@) && (0 <= i < ts.len() && ts[i].pos == "MM"@))
}

/// Where rule 2 of [`p40`] applies.
pub open spec fn p40_c2(ts: Seq<TokenView>, i: int) -> bool {
    ((0 <= i < ts.len() && ts[i].surface == "하는"@) && (0 <= i < ts.len() && ts[i].pos == "MM"@))
}

/// Where rule 3 of [`p40`] applies.
pub open spec fn p40_c3(ts: Seq<TokenView>, i: int) -> bool {
    ((0 <= i < ts.len() && ts[i].surface == "되는"@) && (0 <= i < ts.len() && ts[i].pos == "MM"@))
}

/// Where rule 4 of [`p40`] applies.
pub open spec fn p40_c4(ts: Seq<TokenView>, i: int) -> bool {
    ((0 <= i < ts.len() && ts[i].surface == "있는"@) && (0 <= i < ts.len() && ts[i].pos == "MM"@))
}

/// Where rule 5 of [`p40`] applies.
pub open spec fn p40_c5(ts: Seq<TokenView>, i: int) -> bool {
    ((0 <= i < ts.len() && ts[i].surface == "없는"@) && (0 <= i < ts.len() && ts[i].pos == "MM"@))
}

/// Where rule 6 of [`p40`] applies.
pub open spec fn p40_c6(ts: Seq<TokenView>, i: int) -> bool {
    ((0 <= i < ts.len() && ts[i].surface == "먹는"@) && (0 <= i < ts.len() && ts[i].pos == "MM"@))
}

/// Where rule 7 of [`p40`] applies.
pub open spec fn p40_c7(ts: Seq<TokenView>, i: int) -> bool {
    ((0 <= i < ts.len() && ts[i].surface == "보는"@) && (0 <= i < ts.len() && ts[i].pos == "MM"@))
}

/// Where rule 8 of [`p40`] applies.
pub open spec fn p40_c8(ts: Seq<TokenView>, i: int) -> bool {
    ((0 <= i < ts.len() && ts[i].surface == "받는"@) && (0 <= i < ts.len() && ts[i].pos == "MM"@))
}

/// Where rule 9 of [`p40`] applies.
pub open spec fn p40_c9(ts: Seq<TokenView>, i: int) -> bool {
    ((0 <= i < ts.len() && ts[i].surface == "주는"@) && (0 <= i < ts.len() && ts[i].pos == "MM"@))
}

/// One step of [`p40`] at `i`: the list after it and the next position.
pub open spec fn p40_step(ts: Seq<TokenView>, i: int) -> (Seq<TokenView>, int) {
    if p40_c0(ts, i) {
        (splice(ts, i, 1, seq![plain_view("오"@, "VV"@, ts[i].start_pos, (ts[i].start_pos).saturating_add(1)), plain_view("는"@, "ETM"@, (ts[i].start_pos).saturating_add(1), ts[i].end_pos)]), i + 2)
    } else if p40_c1(ts, i) {
        (splice(ts, i, 1, seq![plain_view("가"@, "VV"@, ts[i].start_pos, (ts[i].start_pos).saturating_add(1)), plain_view("는"@, "ETM"@, (ts[i].start_pos).saturating_add(1), ts[i].end_pos)]), i + 2)
    } else if p40_c2(ts, i) {
        (splice(ts, i, 1, seq![plain_view("하"@, "VV"@, ts[i].start_pos, (ts[i].start_pos).saturating_add(1)), plain_view("는"@, "ETM"@, (ts[i].start_pos).saturating_add(1), ts[i].end_pos)]), i + 2)
    } else if p40_c3(ts, i) {
        (splice(ts, i, 1, seq![plain_view("되"@, "VV"@, ts[i].start_pos, (ts[i].start_pos).saturating_add(1)), plain_view("는"@, "ETM"@, (ts[i].start_pos).saturating_add(1), ts[i].end_pos)]), i + 2)
    } else if p40_c4(ts, i) {
        (splice(ts, i, 1, seq![plain_view("있"@, "VV"@, ts[i].start_pos, (ts[i].start_pos).saturating_add(1)), plain_view("는"@, "ETM"@, (ts[i].start_pos).saturating_add(1), ts[i].end_pos)]), i + 2)
    } else if p40_c5(ts, i) {
        (splice(ts, i, 1, seq![plain_view("없"@, "VV"@, ts[i].start_pos, (ts[i].start_pos).saturating_add(1)), plain_view("는"@, "ETM"@, (ts[i].start_pos).saturating_add(1), ts[i].end_pos)]), i + 2)
    } else if p40_c6(ts, i) {
        (splice(ts, i, 1, seq![plain_view("먹"@, "VV"@, ts[i].start_pos, (ts[i].start_pos).saturating_add(1)), plain_view("는"@, "ETM"@, (ts[i].start_pos).saturating_add(1), ts[i].end_pos)]), i + 2)
    } else if p40_c7(ts, i) {
        (splice(ts, i, 1, seq![plain_view("보"@, "VV"@, ts[i].start_pos, (ts[i].start_pos).saturating_add(1)), plain_view("는"@, "ETM"@, (ts[i].start_pos).saturating_add(1), ts[i].end_pos)]), i + 2)
    } else if p40_c8(ts, i) {
        (splice(ts, i, 1, seq![plain_view("받"@, "VV"@, ts[i].start_pos, (ts[i].start_pos).saturating_add(1)), plain_view("는"@, "ETM"@, (ts[i].start_pos).saturating_add(1), ts[i].end_pos)]), i + 2)
    } else if p40_c9(ts, i) {
        (splice(ts, i, 1, seq![plain_view("주"@, "VV"@, ts[i].start_pos, (ts[i].start_pos).saturating_add(1)), plain_view("는"@, "ETM"@, (ts[i].start_pos).saturating_add(1), ts[i].end_pos)]), i + 2)
    } else {
        (ts, i + 1)
    }
}

/// [`p40_step`] as a function value.
pub open spec fn p40_f() -> spec_fn(Seq<TokenView>, int) -> (Seq<TokenView>, int) {
    |ts: Seq<TokenView>, i: int| p40_step(ts, i)
}

/// A verb form in 는 tagged as a determiner is split into the stem and 는/ETM (오는/MM → 오/VV 는/ETM).
pub open spec fn p40(ts: Seq<TokenView>) -> Seq<TokenView> {
    scan(ts, 0, p40_f())
}

/// Whether rule 0 of [`p40`] applies at `i`.
fn p40_c0_exec(tokens: &Vec<SejongToken>, i: usize) -> (r: bool)
    requires
        i < tokens@.len(),
    ensures
        r == p40_c0(tokens_view(tokens@), i as int),
{
    assert(tokens_view(tokens@).len() == tokens@.len());
    let c1444 = surf_is(&tokens[i], "오는");
    let c1445 = pos_is(&tokens[i], "MM");
    (c1444 && c1445)
}

/// Whether rule 1 of [`p40`] applies at `i`.
fn p40_c1_exec(tokens: &Vec<SejongToken>, i: usize) -> (r: bool)
    requires
        i < tokens@.len(),
    ensures
        r == p40_c1(tokens_view(tokens@), i as int),
{
    assert(tokens_view(tokens@).len() == tokens@.len());
    let c1446 = surf_is(&tokens[i], "가는");
    let c1447 = pos_is(&tokens[i], "MM");
    (c1446 && c1447)
}

/// Whether rule 2 of [`p40`] applies at `i`.
fn p40_c2_exec(tokens: &Vec<SejongToken>, i: usize) -> (r: bool)
    requires
        i < tokens@.len(),
    ensures
        r == p40_c2(tokens_view(tokens@), i as int),
{
    assert(tokens_view(tokens@).len() == tokens@.len());
    let c1448 = surf_is(&tokens[i], "하는");
    let c1449 = pos_is(&tokens[i], "MM");
    (c1448 && c1449)
}

/// Whether rule 3 of [`p40`] applies at `i`.
fn p40_c3_exec(tokens: &Vec<SejongToken>, i: usize) -> (r: bool)
    requires
        i < tokens@.len(),
    ensures
        r == p40_c3(tokens_view(tokens@), i as int),
{
    assert(tokens_view(tokens@).len() == tokens@.len());
    let c1450 = surf_is(&tokens[i], "되는");
    let c1451 = pos_is(&tokens[i], "MM");
    (c1450 && c1451)
}

/// Whether rule 4 of [`p40`] applies at `i`.
fn p40_c4_exec(tokens: &Vec<SejongToken>, i: usize) -> (r: bool)
    requires
        i < tokens@.len(),
    ensures
        r == p40_c4(tokens_view(tokens@), i as int),
{
    assert(tokens_view(tokens@).len() == tokens@.len());
    let c1452 = surf_is(&tokens[i], "있는");
    let c1453 = pos_is(&tokens[i], "MM");
    (c1452 && c1453)
}

/// Whether rule 5 of [`p40`] applies at `i`.
fn p40_c5_exec(tokens: &Vec<SejongToken>, i: usize) -> (r: bool)
    requires
        i < tokens@.len(),
    ensures
        r == p40_c5(tokens_view(tokens@), i as int),
{
    assert(tokens_view(tokens@).len() == tokens@.len());
    let c1454 = surf_is(&tokens[i], "없는");
    let c1455 = pos_is(&tokens[i], "MM");
    (c1454 && c1455)
}

/// Whether rule 6 of [`p40`] applies at `i`.
fn p40_c6_exec(tokens: &Vec<SejongToken>, i: usize) -> (r: bool)
    requires
        i < tokens@.len(),
    ensures
        r == p40_c6(tokens_view(tokens@), i as int),
{
    assert(tokens_view(tokens@).len() == tokens@.len());
    let c1456 = surf_is(&tokens[i], "먹는");
    let c1457 = pos_is(&tokens[i], "MM");
    (c1456 && c1457)
}

/// Whether rule 7 of [`p40`] applies at `i`.
fn p40_c7_exec(tokens: &Vec<SejongToken>, i: usize) -> (r: bool)
    requires
        i < tokens@.len(),
    ensures
        r == p40_c7(tokens_view(tokens@), i as int),
{
    assert(tokens_view(tokens@).len() == tokens@.len());
    let c1458 = surf_is(&tokens[i], "보는");
    let c1459 = pos_is(&tokens[i], "MM");
    (c1458 && c1459)
}

/// Whether rule 8 of [`p40`] applies at `i`.
fn p40_c8_exec(tokens: &Vec<SejongToken>, i: usize) -> (r: bool)
    requires
        i < tokens@.len(),
    ensures
        r == p40_c8(tokens_view(tokens@), i as int),
{
    assert(tokens_view(tokens@).len() == tokens@.len());
    let c1460 = surf_is(&tokens[i], "받는");
    let c1461 = pos_is(&tokens[i], "MM");
    (c1460 && c1461)
}

/// Whether rule 9 of [`p40`] applies at `i`.
fn p40_c9_exec(tokens: &Vec<SejongToken>, i: usize) -> (r: bool)
    requires
        i < tokens@.len(),
    ensures
        r == p40_c9(tokens_view(tokens@), i as int),
{
    assert(tokens_view(tokens@).len() == tokens@.len());
    let c1462 = surf_is(&tokens[i], "주는");
    let c1463 = pos_is(&tokens[i], "MM");
    (c1462 && c1463)
}

/// One step of [`p40`] at `i`; returns the next position.
fn p40_step_exec(tokens: &mut Vec<SejongToken>, i: usize) -> (next: usize)
    requires
        i < old(tokens)@.len(),
    ensures
        (tokens_view(final(tokens)@), next as int) == p40_step(tokens_view(old(tokens)@), i as int),
        final(tokens)@.len() - next < old(tokens)@.len() - i,
        next <= final(tokens)@.len() + 1,
{
    let len0 = tokens.len();
    assert(tokens_view(tokens@).len() == tokens@.len());
    if p40_c0_exec(tokens, i) {
        let s1465 = owned("오");
        let s1466 = owned("VV");
        let n1467 = tokens[i].start_pos;
        let n1469 = tokens[i].start_pos;
        let n1468 = n1469.saturating_add(1);
        let t1464 = SejongToken::new(s1465.as_str(), s1466.as_str(), n1467, n1468);
        let s1471 = owned("는");
        let s1472 = owned("ETM");
        let n1474 = tokens[i].start_pos;
        let n1473 = n1474.saturating_add(1);
        let n1475 = tokens[i].end_pos;
        let t1470 = SejongToken::new(s1471.as_str(), s1472.as_str(), n1473, n1475);
        let mut nv1476: Vec<SejongToken> = Vec::new();
        push_token(&mut nv1476, t1464);
        push_token(&mut nv1476, t1470);
        splice_tokens(tokens, i, 1, nv1476);
        let _len1 = tokens.len();
        return i + 2;
    }
    if p40_c1_exec(tokens, i) {
        let s1478 = owned("가");
        let s1479 = owned("VV");
        let n1480 = tokens[i].start_pos;
        let n1482 = tokens[i].start_pos;
        let n1481 = n1482.saturating_add(1);
        let t1477 = SejongToken::new(s1478.as_str(), s1479.as_str(), n1480, n1481);
        let s1484 = owned("는");
        let s1485 = owned("ETM");
        let n1487 = tokens[i].start_pos;
        let n1486 = n1487.saturating_add(1);
        let n1488 = tokens[i].end_pos;
        let t1483 = SejongToken::new(s1484.as_str(), s1485.as_str(), n1486, n1488);
        let mut nv1489: Vec<SejongToken> = Vec::new();
        push_token(&mut nv1489, t1477);
        push_token(&mut nv1489, t1483);
        splice_tokens(tokens, i, 1, nv1489);
        let _len1 = tokens.len();
        return i + 2;
    }
    if p40_c2_exec(tokens, i) {
        let s1491 = owned("하");
        let s1492 = owned("VV");
        let n1493 = tokens[i].start_pos;
        let n1495 = tokens[i].start_pos;
        let n1494 = n1495.saturating_add(1);
        let t1490 = SejongToken::new(s1491.as_str(), s1492.as_str(), n1493, n1494);
        let s1497 = owned("는");
        let s1498 = owned("ETM");
        let n1500 = tokens[i].start_pos;
        let n1499 = n1500.saturating_add(1);
        let n1501 = tokens[i].end_pos;
        let t1496 = SejongToken::new(s1497.as_str(), s1498.as_str(), n1499, n1501);
        let mut nv1502: Vec<SejongToken> = Vec::new();
        push_token(&mut nv1502, t1490);
        push_token(&mut nv1502, t1496);
        splice_tokens(tokens, i, 1, nv1502);
        let _len1 = tokens.len();
        return i + 2;
    }
    if p40_c3_exec(tokens, i) {
        let s1504 = owned("되");
        let s1505 = owned("VV");
        let n1506 = tokens[i].start_pos;
        let n1508 = tokens[i].start_pos;
        let n1507 = n1508.saturating_add(1);
        let t1503 = SejongToken::new(s1504.as_str(), s1505.as_str(), n1506, n1507);
        let s1510 = owned("는");
        let s1511 = owned("ETM");
        let n1513 = tokens[i].start_pos;
        let n1512 = n1513.saturating_add(1);
        let n1514 = tokens[i].end_pos;
        let t1509 = SejongToken::new(s1510.as_str(), s1511.as_str(), n1512, n1514);
        let mut nv1515: Vec<SejongToken> = Vec::new();
        push_token(&mut nv1515, t1503);
        push_token(&mut nv1515, t1509);
        splice_tokens(tokens, i, 1, nv1515);
        let _len1 = tokens.len();
        return i + 2;
    }
    if p40_c4_exec(tokens, i) {
        let s1517 = owned("있");
        let s1518 = owned("VV");
        let n1519 = tokens[i].start_pos;
        let n1521 = tokens[i].start_pos;
        let n1520 = n1521.saturating_add(1);
        let t1516 = SejongToken::new(s1517.as_str(), s1518.as_str(), n1519, n1520);
        let s1523 = owned("는");
        let s1524 = owned("ETM");
        let n1526 = tokens[i].start_pos;
        let n1525 = n1526.saturating_add(1);
        let n1527 = tokens[i].end_pos;
        let t1522 = SejongToken::new(s1523.as_str(), s1524.as_str(), n1525, n1527);
        let mut nv1528: Vec<SejongToken> = Vec::new();
        push_token(&mut nv1528, t1516);
        push_token(&mut nv1528, t1522);
        splice_tokens(tokens, i, 1, nv1528);
        let _len1 = tokens.len();
        return i + 2;
    }
    if p40_c5_exec(tokens, i) {
        let s1530 = owned("없");
        let s1531 = owned("VV");
        let n1532 = tokens[i].start_pos;
        let n1534 = tokens[i].start_pos;
        let n1533 = n1534.saturating_add(1);
        let t1529 = SejongToken::new(s1530.as_str(), s1531.as_str(), n1532, n1533);
        let s1536 = owned("는");
        let s1537 = owned("ETM");
        let n1539 = tokens[i].start_pos;
        let n1538 = n1539.saturating_add(1);
        let n1540 = tokens[i].end_pos;
        let t1535 = SejongToken::new(s1536.as_str(), s1537.as_str(), n1538, n1540);
        let mut nv1541: Vec<SejongToken> = Vec::new();
        push_token(&mut nv1541, t1529);
        push_token(&mut nv1541, t1535);
        splice_tokens(tokens, i, 1, nv1541);
        let _len1 = tokens.len();
        return i + 2;
    }
    if p40_c6_exec(tokens, i) {
        let s1543 = owned("먹");
        let s1544 = owned("VV");
        let n1545 = tokens[i].start_pos;
        let n1547 = tokens[i].start_pos;
        let n1546 = n1547.saturating_add(1);
        let t1542 = SejongToken::new(s1543.as_str(), s1544.as_str(), n1545, n1546);
        let s1549 = owned("는");
        let s1550 = owned("ETM");
        let n1552 = tokens[i].start_pos;
        let n1551 = n1552.saturating_add(1);
        let n1553 = tokens[i].end_pos;
        let t1548 = SejongToken::new(s1549.as_str(), s1550.as_str(), n1551, n1553);
        let mut nv1554: Vec<SejongToken> = Vec::new();
        push_token(&mut nv1554, t1542);
        push_token(&mut nv1554, t1548);
        splice_tokens(tokens, i, 1, nv1554);
        let _len1 = tokens.len();
        return i + 2;
    }
    if p40_c7_exec(tokens, i) {
        let s1556 = owned("보");
        let s1557 = owned("VV");
        let n1558 = tokens[i].start_pos;
        let n1560 = tokens[i].start_pos;
        let n1559 = n1560.saturating_add(1);
        let t1555 = SejongToken::new(s1556.as_str(), s1557.as_str(), n1558, n1559);
        let s1562 = owned("는");
        let s1563 = owned("ETM");
        let n1565 = tokens[i].start_pos;
        let n1564 = n1565.saturating_add(1);
        let n1566 = tokens[i].end_pos;
        let t1561 = SejongToken::new(s1562.as_str(), s1563.as_str(), n1564, n1566);
        let mut nv1567: Vec<SejongToken> = Vec::new();
        push_token(&mut nv1567, t1555);
        push_token(&mut nv1567, t1561);
        splice_tokens(tokens, i, 1, nv1567);
        let _len1 = tokens.len();
        return i + 2;
    }
    if p40_c8_exec(tokens, i) {
        let s1569 = owned("받");
        let s1570 = owned("VV");
        let n1571 = tokens[i].start_pos;
        let n1573 = tokens[i].start_pos;
        let n1572 = n1573.saturating_add(1);
        let t1568 = SejongToken::new(s1569.as_str(), s1570.as_str(), n1571, n1572);
        let s1575 = owned("는");
        let s1576 = owned("ETM");
        let n1578 = tokens[i].start_pos;
        let n1577 = n1578.saturating_add(1);
        let n1579 = tokens[i].end_pos;
        let t1574 = SejongToken::new(s1575.as_str(), s1576.as_str(), n1577, n1579);
        let mut nv1580: Vec<SejongToken> = Vec::new();
        push_token(&mut nv1580, t1568);
        push_token(&mut nv1580, t1574);
        splice_tokens(tokens, i, 1, nv1580);
        let _len1 = tokens.len();
        return i + 2;
    }
    if p40_c9_exec(tokens, i) {
        let s1582 = owned("주");
        let s1583 = owned("VV");
        let n1584 = tokens[i].start_pos;
        let n1586 = tokens[i].start_pos;
        let n1585 = n1586.saturating_add(1);
        let t1581 = SejongToken::new(s1582.as_str(), s1583.as_str(), n1584, n1585);
        let s1588 = owned("는");
        let s1589 = owned("ETM");
        let n1591 = tokens[i].start_pos;
        let n1590 = n1591.saturating_add(1);
        let n1592 = tokens[i].end_pos;
        let t1587 = SejongToken::new(s1588.as_str(), s1589.as_str(), n1590, n1592);
        let mut nv1593: Vec<SejongToken> = Vec::new();
        push_token(&mut nv1593, t1581);
        push_token(&mut nv1593, t1587);
        splice_tokens(tokens, i, 1, nv1593);
        let _len1 = tokens.len();
        return i + 2;
    }
    i + 1
}

/// A verb form in 는 tagged as a determiner is split into the stem and 는/ETM (오는/MM → 오/VV 는/ETM).
pub fn apply_p40(tokens: &mut Vec<SejongToken>)
    ensures
        tokens_view(final(tokens)@) == p40(tokens_view(old(tokens)@)),
{
    let ghost orig = tokens_view(tokens@);
    let mut i: usize = 0;
    while i < tokens.len()
        invariant
            i <= tokens@.len() + 1,
            scan(tokens_view(tokens@), i as int, p40_f()) == scan(orig, 0, p40_f()),
        decreases tokens@.len() + 1 - i,
    {
        let ghost before = tokens_view(tokens@);
        assert(before.len() == tokens@.len());
        i = p40_step_exec(tokens, i);
        assert(tokens_view(tokens@).len() == tokens@.len());
    }
}

/// Where rule 0 of [`p40b`] applies.
pub open spec fn p40b_c0(ts: Seq<TokenView>, i: int) -> bool {
    (((0 <= i < ts.len() && ts[i].surface == "간"@) && (0 <= i < ts.len() && ts[i].pos == "VV"@)) && (0 <= i + 1 < ts.len() && seq!["NNG"@, "NNP"@, "NNB"@].contains(ts[i + 1].pos)))
}

/// Where rule 1 of [`p40b`] applies.
pub open spec fn p40b_c1(ts: Seq<TokenView>, i: int) -> bool {
    (((0 <= i < ts.len() && ts[i].surface == "온"@) && (0 <= i < ts.len() && ts[i].pos == "VV"@)) && (0 <= i + 1 < ts.len() && seq!["NNG"@, "NNP"@, "NNB"@].contains(ts[i + 1].pos)))
}

/// Where rule 2 of [`p40b`] applies.
pub open spec fn p40b_c2(ts: Seq<TokenView>, i: int) -> bool {
    (((0 <= i < ts.len() && ts[i].surface == "본"@) && (0 <= i < ts.len() && ts[i].pos == "VV"@)) && (0 <= i + 1 < ts.len() && seq!["NNG"@, "NNP"@, "NNB"@].contains(ts[i + 1].pos)))
}

/// Where rule 3 of [`p40b`] applies.
pub open spec fn p40b_c3(ts: Seq<TokenView>, i: int) -> bool {
    (((0 <= i < ts.len() && ts[i].surface == "한"@) && (0 <= i < ts.len() && ts[i].pos == "VV"@)) && (0 <= i + 1 < ts.len() && seq!["NNG"@, "NNP"@, "NNB"@].contains(ts[i + 1].pos)))
}

/// Where rule 4 of [`p40b`] applies.
pub open spec fn p40b_c4(ts: Seq<TokenView>, i: int) -> bool {
    (((0 <= i < ts.len() && ts[i].surface == "된"@) && (0 <= i < ts.len() && ts[i].pos == "VV"@)) && (0 <= i + 1 < ts.len() && seq!["NNG"@, "NNP"@, "NNB"@].contains(ts[i + 1].pos)))
}

/// Where rule 5 of [`p40b`] applies.
pub open spec fn p40b_c5(ts: Seq<TokenView>, i: int) -> bool {
    (((0 <= i < ts.len() && ts[i].surface == "난"@) && (0 <= i < ts.len() && ts[i].pos == "VV"@)) && (0 <= i + 1 < ts.len() && seq!["NNG"@, "NNP"@, "NNB"@].contains(ts[i + 1].pos)))
}

/// Where rule 6 of [`p40b`] applies.
pub open spec fn p40b_c6(ts: Seq<TokenView>, i: int) -> bool {
    (((0 <= i < ts.len() && ts[i].surface == "준"@) && (0 <= i < ts.len() && ts[i].pos == "VV"@)) && (0 <= i + 1 < ts.len() && seq!["NNG"@, "NNP"@, "NNB"@].contains(ts[i + 1].pos)))
}

/// Where rule 7 of [`p40b`] applies.
pub open spec fn p40b_c7(ts: Seq<TokenView>, i: int) -> bool {
    (((0 <= i < ts.len() && ts[i].surface == "쓴"@) && (0 <= i < ts.len() && ts[i].pos == "VV"@)) && (0 <= i + 1 < ts.len() && seq!["NNG"@, "NNP"@, "NNB"@].contains(ts[i + 1].pos)))
}

/// Where rule 8 of [`p40b`] applies.
pub open spec fn p40b_c8(ts: Seq<TokenView>, i: int) -> bool {
    (((0 <= i < ts.len() && ts[i].surface == "산"@) && (0 <= i < ts.len() && ts[i].pos == "VV"@)) && (0 <= i + 1 < ts.len() && seq!["NNG"@, "NNP"@, "NNB"@].contains(ts[i + 1].pos)))
}

/// Where rule 9 of [`p40b`] applies.
pub open spec fn p40b_c9(ts: Seq<TokenView>, i: int) -> bool {
    (((0 <= i < ts.len() && ts[i].surface == "갈"@) && (0 <= i < ts.len() && ts[i].pos == "VV"@)) && (0 <= i + 1 < ts.len() && seq!["NNG"@, "NNP"@, "NNB"@].contains(ts[i + 1].pos)))
}

/// Where rule 10 of [`p40b`] applies.
pub open spec fn p40b_c10(ts: Seq<TokenView>, i: int) -> bool {
    (((0 <= i < ts.len() && ts[i].surface == "올"@) && (0 <= i < ts.len() && ts[i].pos == "VV"@)) && (0 <= i + 1 < ts.len() && seq!["NNG"@, "NNP"@, "NNB"@].contains(ts[i + 1].pos)))
}

/// Where rule 11 of [`p40b`] applies.
pub open spec fn p40b_c11(ts: Seq<TokenView>, i: int) -> bool {
    (((0 <= i < ts.len() && ts[i].surface == "볼"@) && (0 <= i < ts.len() && ts[i].pos == "VV"@)) && (0 <= i + 1 < ts.len() && seq!["NNG"@, "NNP"@, "NNB"@].contains(ts[i + 1].pos)))
}

/// Where rule 12 of [`p40b`] applies.
pub open spec fn p40b_c12(ts: Seq<TokenView>, i: int) -> bool {
    (((0 <= i < ts.len() && ts[i].surface == "할"@) && (0 <= i < ts.len() && ts[i].pos == "VV"@)) && (0 <= i + 1 < ts.len() && seq!["NNG"@, "NNP"@, "NNB"@].contains(ts[i + 1].pos)))
}

/// Where rule 13 of [`p40b`] applies.
pub open spec fn p40b_c13(ts: Seq<TokenView>, i: int) -> bool {
    (((0 <= i < ts.len() && ts[i].surface == "될"@) && (0 <= i < ts.len() && ts[i].pos == "VV"@)) && (0 <= i + 1 < ts.len() && seq!["NNG"@, "NNP"@, "NNB"@].contains(ts[i + 1].pos)))
}

/// Where rule 14 of [`p40b`] applies.
pub open spec fn p40b_c14(ts: Seq<TokenView>, i: int) -> bool {
    (((0 <= i < ts.len() && ts[i].surface == "줄"@) && (0 <= i < ts.len() && ts[i].pos == "VV"@)) && (0 <= i + 1 < ts.len() && seq!["NNG"@, "NNP"@, "NNB"@].contains(ts[i + 1].pos)))
}

/// Where rule 15 of [`p40b`] applies.
pub open spec fn p40b_c15(ts: Seq<TokenView>, i: int) -> bool {
    (((0 <= i < ts.len() && ts[i].surface == "쓸"@) && (0 <= i < ts.len() && ts[i].pos == "VV"@)) && (0 <= i + 1 < ts.len() && seq!["NNG"@, "NNP"@, "NNB"@].contains(ts[i + 1].pos)))
}

/// Where rule 16 of [`p40b`] applies.
pub open spec fn p40b_c16(ts: Seq<TokenView>, i: int) -> bool {
    (((0 <= i < ts.len() && ts[i].surface == "살"@) && (0 <= i < ts.len() && ts[i].pos == "VV"@)) && (0 <= i + 1 < ts.len() && seq!["NNG"@, "NNP"@, "NNB"@].contains(ts[i + 1].pos)))
}

/// One step of [`p40b`] at `i`: the list after it and the next position.
pub open spec fn p40b_step(ts: Seq<TokenView>, i: int) -> (Seq<TokenView>, int) {
    if p40b_c0(ts, i) {
        (splice(ts, i, 1, seq![plain_view("가"@, "VV"@, ts[i].start_pos, ts[i].end_pos), plain_view("ㄴ"@, "ETM"@, ts[i].end_pos, ts[i].end_pos)]), i + 2)
    } else if p40b_c1(ts, i) {
        (splice(ts, i, 1, seq![plain_view("오"@, "VV"@, ts[i].start_pos, ts[i].end_pos), plain_view("ㄴ"@, "ETM"@, ts[i].end_pos, ts[i].end_pos)]), i + 2)
    } else if p40b_c2(ts, i) {
        (splice(ts, i, 1, seq![plain_view("보"@, "VV"@, ts[i].start_pos, ts[i].end_pos), plain_view("ㄴ"@, "ETM"@, ts[i].end_pos, ts[i].end_pos)]), i + 2)
    } else if p40b_c3(ts, i) {
        (splice(ts, i, 1, seq![plain_view("하"@, "VV"@, ts[i].start_pos, ts[i].end_pos), plain_view("ㄴ"@, "ETM"@, ts[i].end_pos, ts[i].end_pos)]), i + 2)
    } else if p40b_c4(ts, i) {
        (splice(ts, i, 1, seq![plain_view("되"@, "VV"@, ts[i].start_pos, ts[i].end_pos), plain_view("ㄴ"@, "ETM"@, ts[i].end_pos, ts[i].end_pos)]), i + 2)
    } else if p40b_c5(ts, i) {
        (splice(ts, i, 1, seq![plain_view("나"@, "VV"@, ts[i].start_pos, ts[i].end_pos), plain_view("ㄴ"@, "ETM"@, ts[i].end_pos, ts[i].end_pos)]), i + 2)
    } else if p40b_c6(ts, i) {
        (splice(ts, i, 1, seq![plain_view("주"@, "VV"@, ts[i].start_pos, ts[i].end_pos), plain_view("ㄴ"@, "ETM"@, ts[i].end_pos, ts[i].end_pos)]), i + 2)
    } else if p40b_c7(ts, i) {
        (splice(ts, i, 1, seq![plain_view("쓰"@, "VV"@, ts[i].start_pos, ts[i].end_pos), plain_view("ㄴ"@, "ETM"@, ts[i].end_pos, ts[i].end_pos)]), i + 2)
    } else if p40b_c8(ts, i) {
        (splice(ts, i, 1, seq![plain_view("사"@, "VV"@, ts[i].start_pos, ts[i].end_pos), plain_view("ㄴ"@, "ETM"@, ts[i].end_pos, ts[i].end_pos)]), i + 2)
    } else if p40b_c9(ts, i) {
        (splice(ts, i, 1, seq![plain_view("가"@, "VV"@, ts[i].start_pos, ts[i].end_pos), plain_view("ㄹ"@, "ETM"@, ts[i].end_pos, ts[i].end_pos)]), i + 2)
    } else if p40b_c10(ts, i) {
        (splice(ts, i, 1, seq![plain_view("오"@, "VV"@, ts[i].start_pos, ts[i].end_pos), plain_view("ㄹ"@, "ETM"@, ts[i].end_pos, ts[i].end_pos)]), i + 2)
    } else if p40b_c11(ts, i) {
        (splice(ts, i, 1, seq![plain_view("보"@, "VV"@, ts[i].start_pos, ts[i].end_pos), plain_view("ㄹ"@, "ETM"@, ts[i].end_pos, ts[i].end_pos)]), i + 2)
    } else if p40b_c12(ts, i) {
        (splice(ts, i, 1, seq![plain_view("하"@, "VV"@, ts[i].start_pos, ts[i].end_pos), plain_view("ㄹ"@, "ETM"@, ts[i].end_pos, ts[i].end_pos)]), i + 2)
    } else if p40b_c13(ts, i) {
        (splice(ts, i, 1, seq![plain_view("되"@, "VV"@, ts[i].start_pos, ts[i].end_pos), plain_view("ㄹ"@, "ETM"@, ts[i].end_pos, ts[i].end_pos)]), i + 2)
    } else if p40b_c14(ts, i) {
        (splice(ts, i, 1, seq![plain_view("주"@, "VV"@, ts[i].start_pos, ts[i].end_pos), plain_view("ㄹ"@, "ETM"@, ts[i].end_pos, ts[i].end_pos)]), i + 2)
    } else if p40b_c15(ts, i) {
        (splice(ts, i, 1, seq![plain_view("쓰"@, "VV"@, ts[i].start_pos, ts[i].end_pos), plain_view("ㄹ"@, "ETM"@, ts[i].end_pos, ts[i].end_pos)]), i + 2)
    } else if p40b_c16(ts, i) {
        (splice(ts, i, 1, seq![plain_view("사"@, "VV"@, ts[i].start_pos, ts[i].end_pos), plain_view("ㄹ"@, "ETM"@, ts[i].end_pos, ts[i].end_pos)]), i + 2)
    } else {
        (ts, i + 1)
    }
}

/// [`p40b_step`] as a function value.
pub open spec fn p40b_f() -> spec_fn(Seq<TokenView>, int) -> (Seq<TokenView>, int) {
    |ts: Seq<TokenView>, i: int| p40b_step(ts, i)
}

/// A one-syllable adnominal verb form before a noun is split (간/VV → 가/VV ㄴ/ETM).
pub open spec fn p40b(ts: Seq<TokenView>) -> Seq<TokenView> {
    scan(ts, 0, p40b_f())
}

/// Whether rule 0 of [`p40b`] applies at `i`.
fn p40b_c0_exec(tokens: &Vec<SejongToken>, i: usize) -> (r: bool)
    requires
        i < tokens@.len(),
    ensures
        r == p40b_c0(tokens_view(tokens@), i as int),
{
    assert(tokens_view(tokens@).len() == tokens@.len());
    let c1594 = surf_is(&tokens[i], "간");
    let c1595 = pos_is(&tokens[i], "VV");
    let l1597: [&str; 3] = ["NNG", "NNP", "NNB"];
    assert(crate::tag_map::strs_view(l1597@) =~= seq!["NNG"@, "NNP"@, "NNB"@]);
    let c1596 = (tokens.len() - i > 1) && in_list(&l1597, tokens[i + 1].pos.as_str());
    ((c1594 && c1595) && c1596)
}

/// Whether rule 1 of [`p40b`] applies at `i`.
fn p40b_c1_exec(tokens: &Vec<SejongToken>, i: usize) -> (r: bool)
    requires
        i < tokens@.len(),
    ensures
        r == p40b_c1(tokens_view(tokens@), i as int),
{
    assert(tokens_view(tokens@).len() == tokens@.len());
    let c1598 = surf_is(&tokens[i], "온");
    let c1599 = pos_is(&tokens[i], "VV");
    let l1601: [&str; 3] = ["NNG", "NNP", "NNB"];
    assert(crate::tag_map::strs_view(l1601@) =~= seq!["NNG"@, "NNP"@, "NNB"@]);
    let c1600 = (tokens.len() - i > 1) && in_list(&l1601, tokens[i + 1].pos.as_str());
    ((c1598 && c1599) && c1600)
}

/// Whether rule 2 of [`p40b`] applies at `i`.
fn p40b_c2_exec(tokens: &Vec<SejongToken>, i: usize) -> (r: bool)
    requires
        i < tokens@.len(),
    ensures
        r == p40b_c2(tokens_view(tokens@), i as int),
{
    assert(tokens_view(tokens@).len() == tokens@.len());
    let c1602 = surf_is(&tokens[i], "본");
    let c1603 = pos_is(&tokens[i], "VV");
    let l1605: [&str; 3] = ["NNG", "NNP", "NNB"];
    assert(crate::tag_map::strs_view(l1605@) =~= seq!["NNG"@, "NNP"@, "NNB"@]);
    let c1604 = (tokens.len() - i > 1) && in_list(&l1605, tokens[i + 1].pos.as_str());
    ((c1602 && c1603) && c1604)
}

/// Whether rule 3 of [`p40b`] applies at `i`.
fn p40b_c3_exec(tokens: &Vec<SejongToken>, i: usize) -> (r: bool)
    requires
        i < tokens@.len(),
    ensures
        r == p40b_c3(tokens_view(tokens@), i as int),
{
    assert(tokens_view(tokens@).len() == tokens@.len());
    let c1606 = surf_is(&tokens[i], "한");
    let c1607 = pos_is(&tokens[i], "VV");
    let l1609: [&str; 3] = ["NNG", "NNP", "NNB"];
    assert(crate::tag_map::strs_view(l1609@) =~= seq!["NNG"@, "NNP"@, "NNB"@]);
    let c1608 = (tokens.len() - i > 1) && in_list(&l1609, tokens[i + 1].pos.as_str());
    ((c1606 && c1607) && c1608)
}

/// Whether rule 4 of [`p40b`] applies at `i`.
fn p40b_c4_exec(tokens: &Vec<SejongToken>, i: usize) -> (r: bool)
    requires
        i < tokens@.len(),
    ensures
        r == p40b_c4(tokens_view(tokens@), i as int),
{
    assert(tokens_view(tokens@).len() == tokens@.len());
    let c1610 = surf_is(&tokens[i], "된");
    let c1611 = pos_is(&tokens[i], "VV");
    let l1613: [&str; 3] = ["NNG", "NNP", "NNB"];
    assert(crate::tag_map::strs_view(l1613@) =~= seq!["NNG"@, "NNP"@, "NNB"@]);
    let c1612 = (tokens.len() - i > 1) && in_list(&l1613, tokens[i + 1].pos.as_str());
    ((c1610 && c1611) && c1612)
}

/// Whether rule 5 of [`p40b`] applies at `i`.
fn p40b_c5_exec(tokens: &Vec<SejongToken>, i: usize) -> (r: bool)
    requires
        i < tokens@.len(),
    ensures
        r == p40b_c5(tokens_view(tokens@), i as int),
{
    assert(tokens_view(tokens@).len() == tokens@.len());
    let c1614 = surf_is(&tokens[i], "난");
    let c1615 = pos_is(&tokens[i], "VV");
    let l1617: [&str; 3] = ["NNG", "NNP", "NNB"];
    assert(crate::tag_map::strs_view(l1617@) =~= seq!["NNG"@, "NNP"@, "NNB"@]);
    let c1616 = (tokens.len() - i > 1) && in_list(&l1617, tokens[i + 1].pos.as_str());
    ((c1614 && c1615) && c1616)
}

/// Whether rule 6 of [`p40b`] applies at `i`.
fn p40b_c6_exec(tokens: &Vec<SejongToken>, i: usize) -> (r: bool)
    requires
        i < tokens@.len(),
    ensures
        r == p40b_c6(tokens_view(tokens@), i as int),
{
    assert(tokens_view(tokens@).len() == tokens@.len());
    let c1618 = surf_is(&tokens[i], "준");
    let c1619 = pos_is(&tokens[i], "VV");
    let l1621: [&str; 3] = ["NNG", "NNP", "NNB"];
    assert(crate::tag_map::strs_view(l1621@) =~= seq!["NNG"@, "NNP"@, "NNB"@]);
    let c1620 = (tokens.len() - i > 1) && in_list(&l1621, tokens[i + 1].pos.as_str());
    ((c1618 && c1619) && c1620)
}

/// Whether rule 7 of [`p40b`] applies at `i`.
fn p40b_c7_exec(tokens: &Vec<SejongToken>, i: usize) -> (r: bool)
    requires
        i < tokens@.len(),
    ensures
        r == p40b_c7(tokens_view(tokens@), i as int),
{
    assert(tokens_view(tokens@).len() == tokens@.len());
    let c1622 = surf_is(&tokens[i], "쓴");
    let c1623 = pos_is(&tokens[i], "VV");
    let l1625: [&str; 3] = ["NNG", "NNP", "NNB"];
    assert(crate::tag_map::strs_view(l1625@) =~= seq!["NNG"@, "NNP"@, "NNB"@]);
    let c1624 = (tokens.len() - i > 1) && in_list(&l1625, tokens[i + 1].pos.as_str());
    ((c1622 && c1623) && c1624)
}

/// Whether rule 8 of [`p40b`] applies at `i`.
fn p40b_c8_exec(tokens: &Vec<SejongToken>, i: usize) -> (r: bool)
    requires
        i < tokens@.len(),
    ensures
        r == p40b_c8(tokens_view(tokens@), i as int),
{
    assert(tokens_view(tokens@).len() == tokens@.len());
    let c1626 = surf_is(&tokens[i], "산");
    let c1627 = pos_is(&tokens[i], "VV");
    let l1629: [&str; 3] = ["NNG", "NNP", "NNB"];
    assert(crate::tag_map::strs_view(l1629@) =~= seq!["NNG"@, "NNP"@, "NNB"@]);
    let c1628 = (tokens.len() - i > 1) && in_list(&l1629, tokens[i + 1].pos.as_str());
    ((c1626 && c1627) && c1628)
}

/// Whether rule 9 of [`p40b`] applies at `i`.
fn p40b_c9_exec(tokens: &Vec<SejongToken>, i: usize) -> (r: bool)
    requires
        i < tokens@.len(),
    ensures
        r == p40b_c9(tokens_view(tokens@), i as int),
{
    assert(tokens_view(tokens@).len() == tokens@.len());
    let c1630 = surf_is(&tokens[i], "갈");
    let c1631 = pos_is(&tokens[i], "VV");
    let l1633: [&str; 3] = ["NNG", "NNP", "NNB"];
    assert(crate::tag_map::strs_view(l1633@) =~= seq!["NNG"@, "NNP"@, "NNB"@]);
    let c1632 = (tokens.len() - i > 1) && in_list(&l1633, tokens[i + 1].pos.as_str());
    ((c1630 && c1631) && c1632)
}

/// Whether rule 10 of [`p40b`] applies at `i`.
fn p40b_c10_exec(tokens: &Vec<SejongToken>, i: usize) -> (r: bool)
    requires
        i < tokens@.len(),
    ensures
        r == p40b_c10(tokens_view(tokens@), i as int),
{
    assert(tokens_view(tokens@).len() == tokens@.len());
    let c1634 = surf_is(&tokens[i], "올");
    let c1635 = pos_is(&tokens[i], "VV");
    let l1637: [&str; 3] = ["NNG", "NNP", "NNB"];
    assert(crate::tag_map::strs_view(l1637@) =~= seq!["NNG"@, "NNP"@, "NNB"@]);
    let c1636 = (tokens.len() - i > 1) && in_list(&l1637, tokens[i + 1].pos.as_str());
    ((c1634 && c1635) && c1636)
}

/// Whether rule 11 of [`p40b`] applies at `i`.
fn p40b_c11_exec(tokens: &Vec<SejongToken>, i: usize) -> (r: bool)
    requires
        i < tokens@.len(),
    ensures
        r == p40b_c11(tokens_view(tokens@), i as int),
{
    assert(tokens_view(tokens@).len() == tokens@.len());
    let c1638 = surf_is(&tokens[i], "볼");
    let c1639 = pos_is(&tokens[i], "VV");
    let l1641: [&str; 3] = ["NNG", "NNP", "NNB"];
    assert(crate::tag_map::strs_view(l1641@) =~= seq!["NNG"@, "NNP"@, "NNB"@]);
    let c1640 = (tokens.len() - i > 1) && in_list(&l1641, tokens[i + 1].pos.as_str());
    ((c1638 && c1639) && c1640)
}

/// Whether rule 12 of [`p40b`] applies at `i`.
fn p40b_c12_exec(tokens: &Vec<SejongToken>, i: usize) -> (r: bool)
    requires
        i < tokens@.len(),
    ensures
        r == p40b_c12(tokens_view(tokens@), i as int),
{
    assert(tokens_view(tokens@).len() == tokens@.len());
    let c1642 = surf_is(&tokens[i], "할");
    let c1643 = pos_is(&tokens[i], "VV");
    let l1645: [&str; 3] = ["NNG", "NNP", "NNB"];
    assert(crate::tag_map::strs_view(l1645@) =~= seq!["NNG"@, "NNP"@, "NNB"@]);
    let c1644 = (tokens.len() - i > 1) && in_list(&l1645, tokens[i + 1].pos.as_str());
    ((c1642 && c1643) && c1644)
}

/// Whether rule 13 of [`p40b`] applies at `i`.
fn p40b_c13_exec(tokens: &Vec<SejongToken>, i: usize) -> (r: bool)
    requires
        i < tokens@.len(),
    ensures
        r == p40b_c13(tokens_view(tokens@), i as int),
{
    assert(tokens_view(tokens@).len() == tokens@.len());
    let c1646 = surf_is(&tokens[i], "될");
    let c1647 = pos_is(&tokens[i], "VV");
    let l1649: [&str; 3] = ["NNG", "NNP", "NNB"];
    assert(crate::tag_map::strs_view(l1649@) =~= seq!["NNG"@, "NNP"@, "NNB"@]);
    let c1648 = (tokens.len() - i > 1) && in_list(&l1649, tokens[i + 1].pos.as_str());
    ((c1646 && c1647) && c1648)
}

/// Whether rule 14 of [`p40b`] applies at `i`.
fn p40b_c14_exec(tokens: &Vec<SejongToken>, i: usize) -> (r: bool)
    requires
        i < tokens@.len(),
    ensures
        r == p40b_c14(tokens_view(tokens@), i as int),
{
    assert(tokens_view(tokens@).len() == tokens@.len());
    let c1650 = surf_is(&tokens[i], "줄");
    let c1651 = pos_is(&tokens[i], "VV");
    let l1653: [&str; 3] = ["NNG", "NNP", "NNB"];
    assert(crate::tag_map::strs_view(l1653@) =~= seq!["NNG"@, "NNP"@, "NNB"@]);
    let c1652 = (tokens.len() - i > 1) && in_list(&l1653, tokens[i + 1].pos.as_str());
    ((c1650 && c1651) && c1652)
}

/// Whether rule 15 of [`p40b`] applies at `i`.
fn p40b_c15_exec(tokens: &Vec<SejongToken>, i: usize) -> (r: bool)
    requires
        i < tokens@.len(),
    ensures
        r == p40b_c15(tokens_view(tokens@), i as int),
{
    assert(tokens_view(tokens@).len() == tokens@.len());
    let c1654 = surf_is(&tokens[i], "쓸");
    let c1655 = pos_is(&tokens[i], "VV");
    let l1657: [&str; 3] = ["NNG", "NNP", "NNB"];
    assert(crate::tag_map::strs_view(l1657@) =~= seq!["NNG"@, "NNP"@, "NNB"@]);
    let c1656 = (tokens.len() - i > 1) && in_list(&l1657, tokens[i + 1].pos.as_str());
    ((c1654 && c1655) && c1656)
}

/// Whether rule 16 of [`p40b`] applies at `i`.
fn p40b_c16_exec(tokens: &Vec<SejongToken>, i: usize) -> (r: bool)
    requires
        i < tokens@.len(),
    ensures
        r == p40b_c16(tokens_view(tokens@), i as int),
{
    assert(tokens_view(tokens@).len() == tokens@.len());
    let c1658 = surf_is(&tokens[i], "살");
    let c1659 = pos_is(&tokens[i], "VV");
    let l1661: [&str; 3] = ["NNG", "NNP", "NNB"];
    assert(crate::tag_map::strs_view(l1661@) =~= seq!["NNG"@, "NNP"@, "NNB"@]);
    let c1660 = (tokens.len() - i > 1) && in_list(&l1661, tokens[i + 1].pos.as_str());
    ((c1658 && c1659) && c1660)
}

/// One step of [`p40b`] at `i`; returns the next position.
#[verifier::rlimit(50)]
fn p40b_step_exec(tokens: &mut Vec<SejongToken>, i: usize) -> (next: usize)
    requires
        i < old(tokens)@.len(),
    ensures
        (tokens_view(final(tokens)@), next as int) == p40b_step(tokens_view(old(tokens)@), i as int),
        final(tokens)@.len() - next < old(tokens)@.len() - i,
        next <= final(tokens)@.len() + 1,
{
    let len0 = tokens.len();
    assert(tokens_view(tokens@).len() == tokens@.len());
    if p40b_c0_exec(tokens, i) {
        let s1663 = owned("가");
        let s1664 = owned("VV");
        let n1665 = tokens[i].start_pos;
        let n1666 = tokens[i].end_pos;
        let t1662 = SejongToken::new(s1663.as_str(), s1664.as_str(), n1665, n1666);
        let s1668 = owned("ㄴ");
        let s1669 = owned("ETM");
        let n1670 = tokens[i].end_pos;
        let n1671 = tokens[i].end_pos;
        let t1667 = SejongToken::new(s1668.as_str(), s1669.as_str(), n1670, n1671);
        let mut nv1672: Vec<SejongToken> = Vec::new();
        push_token(&mut nv1672, t1662);
        push_token(&mut nv1672, t1667);
        splice_tokens(tokens, i, 1, nv1672);
        let _len1 = tokens.len();
        return i + 2;
    }
    if p40b_c1_exec(tokens, i) {
        let s1674 = owned("오");
        let s1675 = owned("VV");
        let n1676 = tokens[i].start_pos;
        let n1677 = tokens[i].end_pos;
        let t1673 = SejongToken::new(s1674.as_str(), s1675.as_str(), n1676, n1677);
        let s1679 = owned("ㄴ");
        let s1680 = owned("ETM");
        let n1681 = tokens[i].end_pos;
        let n1682 = tokens[i].end_pos;
        let t1678 = SejongToken::new(s1679.as_str(), s1680.as_str(), n1681, n1682);
        let mut nv1683: Vec<SejongToken> = Vec::new();
        push_token(&mut nv1683, t1673);
        push_token(&mut nv1683, t1678);
        splice_tokens(tokens, i, 1, nv1683);
        let _len1 = tokens.len();
        return i + 2;
    }
    if p40b_c2_exec(tokens, i) {
        let s1685 = owned("보");
        let s1686 = owned("VV");
        let n1687 = tokens[i].start_pos;
        let n1688 = tokens[i].end_pos;
        let t1684 = SejongToken::new(s1685.as_str(), s1686.as_str(), n1687, n1688);
        let s1690 = owned("ㄴ");
        let s1691 = owned("ETM");
        let n1692 = tokens[i].end_pos;
        let n1693 = tokens[i].end_pos;
        let t1689 = SejongToken::new(s1690.as_str(), s1691.as_str(), n1692, n1693);
        let mut nv1694: Vec<SejongToken> = Vec::new();
        push_token(&mut nv1694, t1684);
        push_token(&mut nv1694, t1689);
        splice_tokens(tokens, i, 1, nv1694);
        let _len1 = tokens.len();
        return i + 2;
    }
    if p40b_c3_exec(tokens, i) {
        let s1696 = owned("하");
        let s1697 = owned("VV");
        let n1698 = tokens[i].start_pos;
        let n1699 = tokens[i].end_pos;
        let t1695 = SejongToken::new(s1696.as_str(), s1697.as_str(), n1698, n1699);
        let s1701 = owned("ㄴ");
        let s1702 = owned("ETM");
        let n1703 = tokens[i].end_pos;
        let n1704 = tokens[i].end_pos;
        let t1700 = SejongToken::new(s1701.as_str(), s1702.as_str(), n1703, n1704);
        let mut nv1705: Vec<SejongToken> = Vec::new();
        push_token(&mut nv1705, t1695);
        push_token(&mut nv1705, t1700);
        splice_tokens(tokens, i, 1, nv1705);
        let _len1 = tokens.len();
        return i + 2;
    }
    if p40b_c4_exec(tokens, i) {
        let s1707 = owned("되");
        let s1708 = owned("VV");
        let n1709 = tokens[i].start_pos;
        let n1710 = tokens[i].end_pos;
        let t1706 = SejongToken::new(s1707.as_str(), s1708.as_str(), n1709, n1710);
        let s1712 = owned("ㄴ");
        let s1713 = owned("ETM");
        let n1714 = tokens[i].end_pos;
        let n1715 = tokens[i].end_pos;
        let t1711 = SejongToken::new(s1712.as_str(), s1713.as_str(), n1714, n1715);
        let mut nv1716: Vec<SejongToken> = Vec::new();
        push_token(&mut nv1716, t1706);
        push_token(&mut nv1716, t1711);
        splice_tokens(tokens, i, 1, nv1716);
        let _len1 = tokens.len();
        return i + 2;
    }
    if p40b_c5_exec(tokens, i) {
        let s1718 = owned("나");
        let s1719 = owned("VV");
        let n1720 = tokens[i].start_pos;
        let n1721 = tokens[i].end_pos;
        let t1717 = SejongToken::new(s1718.as_str(), s1719.as_str(), n1720, n1721);
        let s1723 = owned("ㄴ");
        let s1724 = owned("ETM");
        let n1725 = tokens[i].end_pos;
        let n1726 = tokens[i].end_pos;
        let t1722 = SejongToken::new(s1723.as_str(), s1724.as_str(), n1725, n1726);
        let mut nv1727: Vec<SejongToken> = Vec::new();
        push_token(&mut nv1727, t1717);
        push_token(&mut nv1727, t1722);
        splice_tokens(tokens, i, 1, nv1727);
        let _len1 = tokens.len();
        return i + 2;
    }
    if p40b_c6_exec(tokens, i) {
        let s1729 = owned("주");
        let s1730 = owned("VV");
        let n1731 = tokens[i].start_pos;
        let n1732 = tokens[i].end_pos;
        let t1728 = SejongToken::new(s1729.as_str(), s1730.as_str(), n1731, n1732);
        let s1734 = owned("ㄴ");
        let s1735 = owned("ETM");
        let n1736 = tokens[i].end_pos;
        let n1737 = tokens[i].end_pos;
        let t1733 = SejongToken::new(s1734.as_str(), s1735.as_str(), n1736, n1737);
        let mut nv1738: Vec<SejongToken> = Vec::new();
        push_token(&mut nv1738, t1728);
        push_token(&mut nv1738, t1733);
        splice_tokens(tokens, i, 1, nv1738);
        let _len1 = tokens.len();
        return i + 2;
    }
    if p40b_c7_exec(tokens, i) {
        let s1740 = owned("쓰");
        let s1741 = owned("VV");
        let n1742 = tokens[i].start_pos;
        let n1743 = tokens[i].end_pos;
        let t1739 = SejongToken::new(s1740.as_str(), s1741.as_str(), n1742, n1743);
        let s1745 = owned("ㄴ");
        let s1746 = owned("ETM");
        let n1747 = tokens[i].end_pos;
        let n1748 = tokens[i].end_pos;
        let t1744 = SejongToken::new(s1745.as_str(), s1746.as_str(), n1747, n1748);
        let mut nv1749: Vec<SejongToken> = Vec::new();
        push_token(&mut nv1749, t1739);
        push_token(&mut nv1749, t1744);
        splice_tokens(tokens, i, 1, nv1749);
        let _len1 = tokens.len();
        return i + 2;
    }
    if p40b_c8_exec(tokens, i) {
        let s1751 = owned("사");
        let s1752 = owned("VV");
        let n1753 = tokens[i].start_pos;
        let n1754 = tokens[i].end_pos;
        let t1750 = SejongToken::new(s1751.as_str(), s1752.as_str(), n1753, n1754);
        let s1756 = owned("ㄴ");
        let s1757 = owned("ETM");
        let n1758 = tokens[i].end_pos;
        let n1759 = tokens[i].end_pos;
        let t1755 = SejongToken::new(s1756.as_str(), s1757.as_str(), n1758, n1759);
        let mut nv1760: Vec<SejongToken> = Vec::new();
        push_token(&mut nv1760, t1750);
        push_token(&mut nv1760, t1755);
        splice_tokens(tokens, i, 1, nv1760);
        let _len1 = tokens.len();
        return i + 2;
    }
    if p40b_c9_exec(tokens, i) {
        let s1762 = owned("가");
        let s1763 = owned("VV");
        let n1764 = tokens[i].start_pos;
        let n1765 = tokens[i].end_pos;
        let t1761 = SejongToken::new(s1762.as_str(), s1763.as_str(), n1764, n1765);
        let s1767 = owned("ㄹ");
        let s1768 = owned("ETM");
        let n1769 = tokens[i].end_pos;
        let n1770 = tokens[i].end_pos;
        let t1766 = SejongToken::new(s1767.as_str(), s1768.as_str(), n1769, n1770);
        let mut nv1771: Vec<SejongToken> = Vec::new();
        push_token(&mut nv1771, t1761);
        push_token(&mut nv1771, t1766);
        splice_tokens(tokens, i, 1, nv1771);
        let _len1 = tokens.len();
        return i + 2;
    }
    if p40b_c10_exec(tokens, i) {
        let s1773 = owned("오");
        let s1774 = owned("VV");
        let n1775 = tokens[i].start_pos;
        let n1776 = tokens[i].end_pos;
        let t1772 = SejongToken::new(s1773.as_str(), s1774.as_str(), n1775, n1776);
        let s1778 = owned("ㄹ");
        let s1779 = owned("ETM");
        let n1780 = tokens[i].end_pos;
        let n1781 = tokens[i].end_pos;
        let t1777 = SejongToken::new(s1778.as_str(), s1779.as_str(), n1780, n1781);
        let mut nv1782: Vec<SejongToken> = Vec::new();
        push_token(&mut nv1782, t1772);
        push_token(&mut nv1782, t1777);
        splice_tokens(tokens, i, 1, nv1782);
        let _len1 = tokens.len();
        return i + 2;
    }
    if p40b_c11_exec(tokens, i) {
        let s1784 = owned("보");
        let s1785 = owned("VV");
        let n1786 = tokens[i].start_pos;
        let n1787 = tokens[i].end_pos;
        let t1783 = SejongToken::new(s1784.as_str(), s1785.as_str(), n1786, n1787);
        let s1789 = owned("ㄹ");
        let s1790 = owned("ETM");
        let n1791 = tokens[i].end_pos;
        let n1792 = tokens[i].end_pos;
        let t1788 = SejongToken::new(s1789.as_str(), s1790.as_str(), n1791, n1792);
        let mut nv1793: Vec<SejongToken> = Vec::new();
        push_token(&mut nv1793, t1783);
        push_token(&mut nv1793, t1788);
        splice_tokens(tokens, i, 1, nv1793);
        let _len1 = tokens.len();
        return i + 2;
    }
    if p40b_c12_exec(tokens, i) {
        let s1795 = owned("하");
        let s1796 = owned("VV");
        let n1797 = tokens[i].start_pos;
        let n1798 = tokens[i].end_pos;
        let t1794 = SejongToken::new(s1795.as_str(), s1796.as_str(), n1797, n1798);
        let s1800 = owned("ㄹ");
        let s1801 = owned("ETM");
        let n1802 = tokens[i].end_pos;
        let n1803 = tokens[i].end_pos;
        let t1799 = SejongToken::new(s1800.as_str(), s1801.as_str(), n1802, n1803);
        let mut nv1804: Vec<SejongToken> = Vec::new();
        push_token(&mut nv1804, t1794);
        push_token(&mut nv1804, t1799);
        splice_tokens(tokens, i, 1, nv1804);
        let _len1 = tokens.len();
        return i + 2;
    }
    if p40b_c13_exec(tokens, i) {
        let s1806 = owned("되");
        let s1807 = owned("VV");
        let n1808 = tokens[i].start_pos;
        let n1809 = tokens[i].end_pos;
        let t1805 = SejongToken::new(s1806.as_str(), s1807.as_str(), n1808, n1809);
        let s1811 = owned("ㄹ");
        let s1812 = owned("ETM");
        let n1813 = tokens[i].end_pos;
        let n1814 = tokens[i].end_pos;
        let t1810 = SejongToken::new(s1811.as_str(), s1812.as_str(), n1813, n1814);
        let mut nv1815: Vec<SejongToken> = Vec::new();
        push_token(&mut nv1815, t1805);
        push_token(&mut nv1815, t1810);
        splice_tokens(tokens, i, 1, nv1815);
        let _len1 = tokens.len();
        return i + 2;
    }
    if p40b_c14_exec(tokens, i) {
        let s1817 = owned("주");
        let s1818 = owned("VV");
        let n1819 = tokens[i].start_pos;
        let n1820 = tokens[i].end_pos;
        let t1816 = SejongToken::new(s1817.as_str(), s1818.as_str(), n1819, n1820);
        let s1822 = owned("ㄹ");
        let s1823 = owned("ETM");
        let n1824 = tokens[i].end_pos;
        let n1825 = tokens[i].end_pos;
        let t1821 = SejongToken::new(s1822.as_str(), s1823.as_str(), n1824, n1825);
        let mut nv1826: Vec<SejongToken> = Vec::new();
        push_token(&mut nv1826, t1816);
        push_token(&mut nv1826, t1821);
        splice_tokens(tokens, i, 1, nv1826);
        let _len1 = tokens.len();
        return i + 2;
    }
    if p40b_c15_exec(tokens, i) {
        let s1828 = owned("쓰");
        let s1829 = owned("VV");
        let n1830 = tokens[i].start_pos;
        let n1831 = tokens[i].end_pos;
        let t1827 = SejongToken::new(s1828.as_str(), s1829.as_str(), n1830, n1831);
        let s1833 = owned("ㄹ");
        let s1834 = owned("ETM");
        let n1835 = tokens[i].end_pos;
        let n1836 = tokens[i].end_pos;
        let t1832 = SejongToken::new(s1833.as_str(), s1834.as_str(), n1835, n1836);
        let mut nv1837: Vec<SejongToken> = Vec::new();
        push_token(&mut nv1837, t1827);
        push_token(&mut nv1837, t1832);
        splice_tokens(tokens, i, 1, nv1837);
        let _len1 = tokens.len();
        return i + 2;
    }
    if p40b_c16_exec(tokens, i) {
        let s1839 = owned("사");
        let s1840 = owned("VV");
        let n1841 = tokens[i].start_pos;
        let n1842 = tokens[i].end_pos;
        let t1838 = SejongToken::new(s1839.as_str(), s1840.as_str(), n1841, n1842);
        let s1844 = owned("ㄹ");
        let s1845 = owned("ETM");
        let n1846 = tokens[i].end_pos;
        let n1847 = tokens[i].end_pos;
        let t1843 = SejongToken::new(s1844.as_str(), s1845.as_str(), n1846, n1847);
        let mut nv1848: Vec<SejongToken> = Vec::new();
        push_token(&mut nv1848, t1838);
        push_token(&mut nv1848, t1843);
        splice_tokens(tokens, i, 1, nv1848);
        let _len1 = tokens.len();
        return i + 2;
    }
    i + 1
}

/// A one-syllable adnominal verb form before a noun is split (간/VV → 가/VV ㄴ/ETM).
pub fn apply_p40b(tokens: &mut Vec<SejongToken>)
    ensures
        tokens_view(final(tokens)@) == p40b(tokens_view(old(tokens)@)),
{
    let ghost orig = tokens_view(tokens@);
    let mut i: usize = 0;
    while i < tokens.len()
        invariant
            i <= tokens@.len() + 1,
            scan(tokens_view(tokens@), i as int, p40b_f()) == scan(orig, 0, p40b_f()),
        decreases tokens@.len() + 1 - i,
    {
        let ghost before = tokens_view(tokens@);
        assert(before.len() == tokens@.len());
        i = p40b_step_exec(tokens, i);
        assert(tokens_view(tokens@).len() == tokens@.len());
    }
}

/// Where rule 0 of [`p41`] applies.
pub open spec fn p41_c0(ts: Seq<TokenView>, i: int) -> bool {
    (((0 <= i < ts.len() && ts[i].surface == "하"@) && (0 <= i < ts.len() && ts[i].pos == "VX"@)) && ((0 <= i + 1 < ts.len() && ts[i + 1].surface == "합니다"@) && (0 <= i + 1 < ts.len() && ts[i + 1].pos == "EF"@)))
}

/// One step of [`p41`] at `i`: the list after it and the next position.
pub open spec fn p41_step(ts: Seq<TokenView>, i: int) -> (Seq<TokenView>, int) {
    if p41_c0(ts, i) {
        (splice(ts, i, 1, seq![]), i + 1)
    } else {
        (ts, i + 1)
    }
}

/// [`p41_step`] as a function value.
pub open spec fn p41_f() -> spec_fn(Seq<TokenView>, int) -> (Seq<TokenView>, int) {
    |ts: Seq<TokenView>, i: int| p41_step(ts, i)
}

/// 하/VX before 합니다/EF is dropped.
pub open spec fn p41(ts: Seq<TokenView>) -> Seq<TokenView> {
    scan(ts, 0, p41_f())
}

/// Whether rule 0 of [`p41`] applies at `i`.
fn p41_c0_exec(tokens: &Vec<SejongToken>, i: usize) -> (r: bool)
    requires
        i < tokens@.len(),
    ensures
        r == p41_c0(tokens_view(tokens@), i as int),
{
    assert(tokens_view(tokens@).len() == tokens@.len());
    let c1849 = surf_is(&tokens[i], "하");
    let c1850 = pos_is(&tokens[i], "VX");
    let c1851 = (tokens.len() - i > 1) && surf_is(&tokens[i + 1], "합니다");
    let c1852 = (tokens.len() - i > 1) && pos_is(&tokens[i + 1], "EF");
    ((c1849 && c1850) && (c1851 && c1852))
}

/// One step of [`p41`] at `i`; returns the next position.
fn p41_step_exec(tokens: &mut Vec<SejongToken>, i: usize) -> (next: usize)
    requires
        i < old(tokens)@.len(),
    ensures
        (tokens_view(final(tokens)@), next as int) == p41_step(tokens_view(old(tokens)@), i as int),
        final(tokens)@.len() - next < old(tokens)@.len() - i,
        next <= final(tokens)@.len() + 1,
{
    let len0 = tokens.len();
    assert(tokens_view(tokens@).len() == tokens@.len());
    if p41_c0_exec(tokens, i) {
        let mut nv1853: Vec<SejongToken> = Vec::new();
        splice_tokens(tokens, i, 1, nv1853);
        let _len1 = tokens.len();
        return i + 1;
    }
    i + 1
}

/// 하/VX before 합니다/EF is dropped.
pub fn apply_p41(tokens: &mut Vec<SejongToken>)
    ensures
        tokens_view(final(tokens)@) == p41(tokens_view(old(tokens)@)),
{
    let ghost orig = tokens_view(tokens@);
    let mut i: usize = 0;
    while i < tokens.len()
        invariant
            i <= tokens@.len() + 1,
            scan(tokens_view(tokens@), i as int, p41_f()) == scan(orig, 0, p41_f()),
        decreases tokens@.len() + 1 - i,
    {
        let ghost before = tokens_view(tokens@);
        assert(before.len() == tokens@.len());
        i = p41_step_exec(tokens, i);
        assert(tokens_view(tokens@).len() == tokens@.len());
    }
}

/// Where rule 0 of [`p42`] applies.
pub open spec fn p42_c0(ts: Seq<TokenView>, i: int) -> bool {
    ((0 <= i < ts.len() && ts[i].surface == "전에"@) && (0 <= i < ts.len() && ts[i].pos == "MAG"@))
}

/// One step of [`p42`] at `i`: the list after it and the next position.
pub open spec fn p42_step(ts: Seq<TokenView>, i: int) -> (Seq<TokenView>, int) {
    if p42_c0(ts, i) {
        (splice(ts, i, 1, seq![plain_view("전"@, "NNG"@, ts[i].start_pos, (ts[i].start_pos).saturating_add(1)), plain_view("에"@, "JKB"@, (ts[i].start_pos).saturating_add(1), ts[i].end_pos)]), i + 2)
    } else {
        (ts, i + 1)
    }
}

/// [`p42_step`] as a function value.
pub open spec fn p42_f() -> spec_fn(Seq<TokenView>, int) -> (Seq<TokenView>, int) {
    |ts: Seq<TokenView>, i: int| p42_step(ts, i)
}

/// 전에/MAG is 전/NNG 에/JKB.
pub open spec fn p42(ts: Seq<TokenView>) -> Seq<TokenView> {
    scan(ts, 0, p42_f())
}

/// Whether rule 0 of [`p42`] applies at `i`.
fn p42_c0_exec(tokens: &Vec<SejongToken>, i: usize) -> (r: bool)
    requires
        i < tokens@.len(),
    ensures
        r == p42_c0(tokens_view(tokens@), i as int),
{
    assert(tokens_view(tokens@).len() == tokens@.len());
    let c1854 = surf_is(&tokens[i], "전에");
    let c1855 = pos_is(&tokens[i], "MAG");
    (c1854 && c1855)
}

/// One step of [`p42`] at `i`; returns the next position.
fn p42_step_exec(tokens: &mut Vec<SejongToken>, i: usize) -> (next: usize)
    requires
        i < old(tokens)@.len(),
    ensures
        (tokens_view(final(tokens)@), next as int) == p42_step(tokens_view(old(tokens)@), i as int),
        final(tokens)@.len() - next < old(tokens)@.len() - i,
        next <= final(tokens)@.len() + 1,
{
    let len0 = tokens.len();
    assert(tokens_view(tokens@).len() == tokens@.len());
    if p42_c0_exec(tokens, i) {
        let s1857 = owned("전");
        let s1858 = owned("NNG");
        let n1859 = tokens[i].start_pos;
        let n1861 = tokens[i].start_pos;
        let n1860 = n1861.saturating_add(1);
        let t1856 = SejongToken::new(s1857.as_str(), s1858.as_str(), n1859, n1860);
        let s1863 = owned("에");
        let s1864 = owned("JKB");
        let n1866 = tokens[i].start_pos;
        let n1865 = n1866.saturating_add(1);
        let n1867 = tokens[i].end_pos;
        let t1862 = SejongToken::new(s1863.as_str(), s1864.as_str(), n1865, n1867);
        let mut nv1868: Vec<SejongToken> = Vec::new();
        push_token(&mut nv1868, t1856);
        push_token(&mut nv1868, t1862);
        splice_tokens(tokens, i, 1, nv1868);
        let _len1 = tokens.len();
        return i + 2;
    }
    i + 1
}

/// 전에/MAG is 전/NNG 에/JKB.
pub fn apply_p42(tokens: &mut Vec<SejongToken>)
    ensures
        tokens_view(final(tokens)@) == p42(tokens_view(old(tokens)@)),
{
    let ghost orig = tokens_view(tokens@);
    let mut i: usize = 0;
    while i < tokens.len()
        invariant
            i <= tokens@.len() + 1,
            scan(tokens_view(tokens@), i as int, p42_f()) == scan(orig, 0, p42_f()),
        decreases tokens@.len() + 1 - i,
    {
        let ghost before = tokens_view(tokens@);
        assert(before.len() == tokens@.len());
        i = p42_step_exec(tokens, i);
        assert(tokens_view(tokens@).len() == tokens@.len());
    }
}

/// Where rule 0 of [`p43`] applies.
pub open spec fn p43_c0(ts: Seq<TokenView>, i: int) -> bool {
    (((0 <= i < ts.len() && ts[i].surface == "하"@) && (0 <= i < ts.len() && ts[i].pos == "IC"@)) && ((0 <= i + 1 < ts.len() && ts[i + 1].surface == "지"@) && (0 <= i + 1 < ts.len() && ts[i + 1].pos == "VX"@)))
}

/// One step of [`p43`] at `i`: the list after it and the next position.
pub open spec fn p43_step(ts: Seq<TokenView>, i: int) -> (Seq<TokenView>, int) {
    if p43_c0(ts, i) {
        (ts.update(i, TokenView { pos: "VV"@, ..ts[i] }).update(i + 1, TokenView { pos: "EC"@, ..ts[i + 1] }), i + 1)
    } else {
        (ts, i + 1)
    }
}

/// [`p43_step`] as a function value.
pub open spec fn p43_f() -> spec_fn(Seq<TokenView>, int) -> (Seq<TokenView>, int) {
    |ts: Seq<TokenView>, i: int| p43_step(ts, i)
}

/// 하/IC 지/VX is 하/VV 지/EC.
pub open spec fn p43(ts: Seq<TokenView>) -> Seq<TokenView> {
    scan(ts, 0, p43_f())
}

/// Whether rule 0 of [`p43`] applies at `i`.
fn p43_c0_exec(tokens: &Vec<SejongToken>, i: usize) -> (r: bool)
    requires
        i < tokens@.len(),
    ensures
        r == p43_c0(tokens_view(tokens@), i as int),
{
    assert(tokens_view(tokens@).len() == tokens@.len());
    let c1869 = surf_is(&tokens[i], "하");
    let c1870 = pos_is(&tokens[i], "IC");
    let c1871 = (tokens.len() - i > 1) && surf_is(&tokens[i + 1], "지");
    let c1872 = (tokens.len() - i > 1) && pos_is(&tokens[i + 1], "VX");
    ((c1869 && c1870) && (c1871 && c1872))
}

/// One step of [`p43`] at `i`; returns the next position.
fn p43_step_exec(tokens: &mut Vec<SejongToken>, i: usize) -> (next: usize)
    requires
        i < old(tokens)@.len(),
    ensures
        (tokens_view(final(tokens)@), next as int) == p43_step(tokens_view(old(tokens)@), i as int),
        final(tokens)@.len() - next < old(tokens)@.len() - i,
        next <= final(tokens)@.len() + 1,
{
    let len0 = tokens.len();
    assert(tokens_view(tokens@).len() == tokens@.len());
    if p43_c0_exec(tokens, i) {
        let s1874 = owned("VV");
        let mut t1873 = tokens[i].duplicate();
        t1873.pos = s1874;
        let s1876 = owned("EC");
        let mut t1875 = tokens[i + 1].duplicate();
        t1875.pos = s1876;
        set_token(tokens, i, t1873);
        set_token(tokens, i + 1, t1875);
        let _len1 = tokens.len();
        return i + 1;
    }
    i + 1
}

/// 하/IC 지/VX is 하/VV 지/EC.
pub fn apply_p43(tokens: &mut Vec<SejongToken>)
    ensures
        tokens_view(final(tokens)@) == p43(tokens_view(old(tokens)@)),
{
    let ghost orig = tokens_view(tokens@);
    let mut i: usize = 0;
    while i < tokens.len()
        invariant
            i <= tokens@.len() + 1,
            scan(tokens_view(tokens@), i as int, p43_f()) == scan(orig, 0, p43_f()),
        decreases tokens@.len() + 1 - i,
    {
        let ghost before = tokens_view(tokens@);
        assert(before.len() == tokens@.len());
        i = p43_step_exec(tokens, i);
        assert(tokens_view(tokens@).len() == tokens@.len());
    }
}

/// Where [`p44`] changes a token.
pub open spec fn p44_c(ts: Seq<TokenView>, i: int) -> bool {
    ((0 <= i - 2 < ts.len() && true) && (0 <= i - 1 < ts.len() && ts[i - 1].pos == "JKS"@) && ((0 <= i < ts.len() && ts[i].surface == "있"@) && (0 <= i < ts.len() && ts[i].pos == "VX"@)))
}

/// The token [`p44`] puts at `i`.
pub open spec fn p44_t(ts: Seq<TokenView>, i: int) -> TokenView {
    TokenView { pos: "VV"@, ..ts[i] }
}

/// 있/VX after a subject particle (not first or second in the sentence) is the verb 있/VV.
pub open spec fn p44(ts: Seq<TokenView>) -> Seq<TokenView> {
    map_where(ts, |ts: Seq<TokenView>, i: int| p44_c(ts, i), |ts: Seq<TokenView>, i: int| p44_t(ts, i))
}

/// Whether [`p44`] changes the token at `i`.
fn p44_c_exec(tokens: &Vec<SejongToken>, i: usize) -> (r: bool)
    requires
        i < tokens@.len(),
    ensures
        r == p44_c(tokens_view(tokens@), i as int),
{
    assert(tokens_view(tokens@).len() == tokens@.len());
    let c1877 = (i >= 2) && true;
    let c1878 = (i >= 1) && pos_is(&tokens[i - 1], "JKS");
    let c1879 = surf_is(&tokens[i], "있");
    let c1880 = pos_is(&tokens[i], "VX");
    (c1877 && c1878 && (c1879 && c1880))
}

/// The token [`p44`] puts at `i`.
fn p44_t_exec(tokens: &Vec<SejongToken>, i: usize) -> (t: SejongToken)
    requires
        i < tokens@.len(),
        p44_c(tokens_view(tokens@), i as int),
    ensures
        t@ == p44_t(tokens_view(tokens@), i as int),
{
    assert(tokens_view(tokens@).len() == tokens@.len());
    let s1882 = owned("VV");
    let mut t1881 = tokens[i].duplicate();
    t1881.pos = s1882;
    t1881
}

/// 있/VX after a subject particle (not first or second in the sentence) is the verb 있/VV.
pub fn apply_p44(tokens: &mut Vec<SejongToken>)
    ensures
        tokens_view(final(tokens)@) == p44(tokens_view(old(tokens)@)),
{
    let ghost orig = tokens_view(tokens@);
    let mut out: Vec<SejongToken> = Vec::new();
    let mut k: usize = 0;
    while k < tokens.len()
        invariant
            k <= tokens@.len(),
            orig == tokens_view(tokens@),
            tokens_view(out@) == p44(orig).take(k as int),
        decreases tokens@.len() - k,
    {
        let t = if p44_c_exec(tokens, k) { p44_t_exec(tokens, k) } else { tokens[k].duplicate() };
        push_token(&mut out, t);
        k += 1;
        assert(tokens_view(out@) =~= p44(orig).take(k as int));
    }
    assert(p44(orig).take(k as int) =~= p44(orig));
    *tokens = out;
}

/// Verbs split from nouns and suffixes, passive and causative suffixes, honorifics and ending tags.
pub open spec fn spec_apply_verb_splitting_corrections(ts: Seq<TokenView>) -> Seq<TokenView> {
    p44(p43(p42(p41(p40b(p40(p39(p38(p37(p36(p35(p224(p34(p33(p32(p31d(p31c(p31b(p31a(p56(p30b(p30a(p29(p28(p27(p26(p25(p24(ts))))))))))))))))))))))))))))
}

/// Verbs split from nouns and suffixes, passive and causative suffixes, honorifics and ending tags.
pub fn apply_verb_splitting_corrections(tokens: &mut Vec<SejongToken>)
    ensures
        tokens_view(final(tokens)@) == spec_apply_verb_splitting_corrections(tokens_view(old(tokens)@)),
{
    apply_p24(tokens);
    apply_p25(tokens);
    apply_p26(tokens);
    apply_p27(tokens);
    apply_p28(tokens);
    apply_p29(tokens);
    apply_p30a(tokens);
    apply_p30b(tokens);
    apply_p56(tokens);
    apply_p31a(tokens);
    apply_p31b(tokens);
    apply_p31c(tokens);
    apply_p31d(tokens);
    apply_p32(tokens);
    apply_p33(tokens);
    apply_p34(tokens);
    apply_p224(tokens);
    apply_p35(tokens);
    apply_p36(tokens);
    apply_p37(tokens);
    apply_p38(tokens);
    apply_p39(tokens);
    apply_p40(tokens);
    apply_p40b(tokens);
    apply_p41(tokens);
    apply_p42(tokens);
    apply_p43(tokens);
    apply_p44(tokens);
}

} // verus!
