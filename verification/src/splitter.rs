//! Splitting a compound analysis (`갔다/VV+EF`) into Sejong morphemes.

use vstd::prelude::*;
use crate::hangul::{
    remove_jongseong_bieup, remove_jongseong_nieun, remove_jongseong_rieul, spec_remove_jong,
};
use crate::tag_map::{clone_strings, lookup_in, strings_view, strs_view, TagMap};
use crate::text::{
    char_string, chars_of, concat, contains_char, ends_with, is_prefix, is_suffix, owned,
    split_char, split_on, starts_with, str_eq, string_from_range,
};
use crate::types::EndingRule;

verus! {

/// The views of a list of (surface, tag) pairs.
pub open spec fn pairs_view(v: Seq<(String, String)>) -> Seq<(Seq<char>, Seq<char>)> {
    v.map_values(|p: (String, String)| (p.0@, p.1@))
}

/// The view of an ending rule: tag pattern, endings, target tags.
pub open spec fn rule_view(r: EndingRule) -> (Seq<char>, Seq<Seq<char>>, Seq<Seq<char>>) {
    (r.pos_pattern@, strings_view(r.endings@), strings_view(r.target_tags@))
}

/// The views of a list of ending rules.
pub open spec fn rules_view(v: Seq<EndingRule>) -> Seq<(Seq<char>, Seq<Seq<char>>, Seq<Seq<char>>)> {
    v.map_values(|r: EndingRule| rule_view(r))
}

fn pair(a: &str, b: &str) -> (p: (String, String))
    ensures
        (p.0@, p.1@) == (a@, b@),
{
    (owned(a), owned(b))
}

fn pairs1(a: &str, b: &str) -> (v: Vec<(String, String)>)
    ensures
        pairs_view(v@) == seq![(a@, b@)],
{
    let v = vec![pair(a, b)];
    assert(pairs_view(v@) =~= seq![(a@, b@)]);
    v
}

fn pairs2(a: &str, b: &str, c: &str, d: &str) -> (v: Vec<(String, String)>)
    ensures
        pairs_view(v@) == seq![(a@, b@), (c@, d@)],
{
    let v = vec![pair(a, b), pair(c, d)];
    assert(pairs_view(v@) =~= seq![(a@, b@), (c@, d@)]);
    v
}

/// Whether the tag has several parts (`+` in it).
pub fn is_compound_tag(pos: &str) -> (r: bool)
    ensures
        r == pos@.contains('+'),
{
    contains_char(pos, '+')
}

/// The tags a compound tag splits into: the table's entry, else the pieces
/// between `+`, else the tag itself.
pub open spec fn spec_split_compound_tag(
    m: Seq<(Seq<char>, Seq<Seq<char>>)>,
    pos: Seq<char>,
) -> Seq<Seq<char>> {
    match lookup_in(m, pos) {
        Some(v) => v,
        None => if pos.contains('+') {
            split_on(pos, '+')
        } else {
            seq![pos]
        },
    }
}

/// Splits a compound tag into its parts.
pub fn split_compound_tag(tag_map: &TagMap, pos: &str) -> (r: Vec<String>)
    ensures
        strings_view(r@) == spec_split_compound_tag(tag_map@, pos@),
{
    match tag_map.get(pos) {
        Some(v) => clone_strings(v),
        None => {
            if contains_char(pos, '+') {
                split_char(pos, '+')
            } else {
                let v = vec![owned(pos)];
                assert(strings_view(v@) =~= seq![pos@]);
                v
            }
        },
    }
}

/// A passive/causative ending split into its suffix and final ending: the
/// first character and the rest when there are two or more characters.
pub open spec fn spec_split_causative_ending(e: Seq<char>) -> (Seq<char>, Seq<char>) {
    if e.len() >= 2 {
        (e.take(1), e.skip(1))
    } else {
        (e, Seq::<char>::empty())
    }
}

/// Splits a passive/causative ending: "이다" → ("이", "다").
pub fn split_causative_ending(ending: &str) -> (r: (String, String))
    ensures
        (r.0@, r.1@) == spec_split_causative_ending(ending@),
{
    let patterns: [&str; 4] = ["이", "히", "리", "기"];
    let cs = chars_of(ending);
    let mut k: usize = 0;
    proof {
        reveal_strlit("이");
        reveal_strlit("히");
        reveal_strlit("리");
        reveal_strlit("기");
        assert(patterns@[0]@.len() == 1);
        assert(patterns@[1]@.len() == 1);
        assert(patterns@[2]@.len() == 1);
        assert(patterns@[3]@.len() == 1);
    }
    while k < 4
        invariant
            k <= 4,
            cs@ == ending@,
            forall|j: int| 0 <= j < 4 ==> (#[trigger] patterns@[j])@.len() == 1,
        decreases 4 - k,
    {
        let p = patterns[k];
        if starts_with(ending, p) {
            let pc = chars_of(p);
            let ef_part = string_from_range(cs.as_slice(), pc.len(), cs.len());
            if ef_part.unicode_len() > 0 {
                proof {
                    assert(p@.len() == 1);
                    assert(ending@.take(1) =~= p@);
                    assert(ending@.skip(1) =~= ef_part@);
                }
                return (owned(p), ef_part);
            }
        }
        k += 1;
    }
    if cs.len() >= 2 {
        let a = string_from_range(cs.as_slice(), 0, 1);
        let b = string_from_range(cs.as_slice(), 1, cs.len());
        assert(a@ =~= ending@.take(1));
        assert(b@ =~= ending@.skip(1));
        (a, b)
    } else {
        (owned(ending), String::new())
    }
}

/// The first pattern that is a proper prefix of `e`, with the rest of `e`.
pub open spec fn first_prefix_split(e: Seq<char>, pats: Seq<Seq<char>>) -> Option<(Seq<char>, Seq<char>)>
    decreases pats.len(),
{
    if pats.len() == 0 {
        None
    } else if is_prefix(pats[0], e) && e.len() > pats[0].len() {
        Some((pats[0], e.skip(pats[0].len() as int)))
    } else {
        first_prefix_split(e, pats.drop_first())
    }
}

fn first_prefix_split_exec(e: &str, pats: &[&str]) -> (r: Option<(String, String)>)
    ensures
        match r {
            Some(p) => first_prefix_split(e@, strs_view(pats@)) == Some((p.0@, p.1@)),
            None => first_prefix_split(e@, strs_view(pats@)).is_none(),
        },
{
    let cs = chars_of(e);
    let mut k: usize = 0;
    assert(strs_view(pats@).subrange(0, pats@.len() as int) =~= strs_view(pats@));
    while k < pats.len()
        invariant
            k <= pats@.len(),
            cs@ == e@,
            first_prefix_split(e@, strs_view(pats@)) == first_prefix_split(
                e@,
                strs_view(pats@).subrange(k as int, pats@.len() as int),
            ),
        decreases pats@.len() - k,
    {
        let ghost rest = strs_view(pats@).subrange(k as int, pats@.len() as int);
        assert(rest[0] == pats@[k as int]@);
        assert(rest.drop_first() =~= strs_view(pats@).subrange(k + 1, pats@.len() as int));
        let p = pats[k];
        if starts_with(e, p) {
            let pn = p.unicode_len();
            if cs.len() > pn {
                let rest_s = string_from_range(cs.as_slice(), pn, cs.len());
                assert(rest_s@ =~= e@.skip(pn as int));
                return Some((owned(p), rest_s));
            }
        }
        k += 1;
    }
    None
}

/// Pre-final endings tried in order: honorific compounds, then simple ones.
pub open spec fn prefinal_patterns() -> Seq<Seq<char>> {
    seq![
        "으셨"@, "셨"@, "으시었"@, "시었"@, "으시겠"@, "시겠"@,
        "었"@, "았"@, "였"@, "겠"@, "으시"@, "시"@, "더"@,
    ]
}

/// A pre-final ending split from the final ending after it.
pub open spec fn spec_split_prefinal_ending(e: Seq<char>) -> (Seq<char>, Seq<char>) {
    match first_prefix_split(e, prefinal_patterns()) {
        Some(p) => p,
        None => (e, Seq::<char>::empty()),
    }
}

/// Splits a pre-final ending from the final ending: "었다" → ("었", "다").
pub fn split_prefinal_ending(ending: &str) -> (r: (String, String))
    ensures
        (r.0@, r.1@) == spec_split_prefinal_ending(ending@),
{
    let pats: [&str; 13] = [
        "으셨", "셨", "으시었", "시었", "으시겠", "시겠", "었", "았", "였", "겠", "으시", "시", "더",
    ];
    assert(strs_view(pats@) =~= prefinal_patterns());
    match first_prefix_split_exec(ending, &pats) {
        Some(p) => p,
        None => (owned(ending), String::new()),
    }
}

/// An honorific past ending split into 시, 었 and the final ending.
pub open spec fn spec_split_honorific_past_ending(e: Seq<char>) -> (Seq<char>, Seq<char>, Seq<char>) {
    if e == "셨습니다"@ {
        ("시"@, "었"@, "습니다"@)
    } else if e == "셨습니까"@ {
        ("시"@, "었"@, "습니까"@)
    } else if e == "셨어요"@ {
        ("시"@, "었"@, "어요"@)
    } else if e == "셨어"@ {
        ("시"@, "었"@, "어"@)
    } else if e == "셨다"@ {
        ("시"@, "었"@, "다"@)
    } else if e.len() >= 3 {
        (e.take(1), e.subrange(1, 2), e.skip(2))
    } else {
        (e, Seq::<char>::empty(), Seq::<char>::empty())
    }
}

/// Splits an honorific past ending: "셨습니다" → ("시", "었", "습니다").
pub fn split_honorific_past_ending(ending: &str) -> (r: (String, String, String))
    ensures
        (r.0@, r.1@, r.2@) == spec_split_honorific_past_ending(ending@),
{
    if str_eq(ending, "셨습니다") {
        return (owned("시"), owned("었"), owned("습니다"));
    }
    if str_eq(ending, "셨습니까") {
        return (owned("시"), owned("었"), owned("습니까"));
    }
    if str_eq(ending, "셨어요") {
        return (owned("시"), owned("었"), owned("어요"));
    }
    if str_eq(ending, "셨어") {
        return (owned("시"), owned("었"), owned("어"));
    }
    if str_eq(ending, "셨다") {
        return (owned("시"), owned("었"), owned("다"));
    }
    let cs = chars_of(ending);
    if cs.len() >= 3 {
        let a = string_from_range(cs.as_slice(), 0, 1);
        let b = string_from_range(cs.as_slice(), 1, 2);
        let c = string_from_range(cs.as_slice(), 2, cs.len());
        assert(c@ =~= ending@.skip(2));
        assert(a@ =~= ending@.take(1));
        (a, b, c)
    } else {
        (owned(ending), String::new(), String::new())
    }
}

/// The morphemes of `stem` + `ending` under the target tags.
pub open spec fn spec_create_split_morphemes(
    stem: Seq<char>,
    ending: Seq<char>,
    tags: Seq<Seq<char>>,
) -> Seq<(Seq<char>, Seq<char>)> {
    if tags.len() == 2 {
        seq![(stem, tags[0]), (ending, tags[1])]
    } else if tags.len() == 3 {
        if tags[1] == "VX"@ && tags[2] == "EF"@ {
            let (vx, ef) = spec_split_causative_ending(ending);
            seq![(stem, tags[0]), (vx, tags[1]), (ef, tags[2])]
        } else {
            let (pf, fe) = spec_split_prefinal_ending(ending);
            seq![(stem, tags[0]), (pf, tags[1]), (fe, tags[2])]
        }
    } else if tags.len() == 4 {
        let (e1, e2, ef) = spec_split_honorific_past_ending(ending);
        seq![(stem, tags[0]), (e1, tags[1]), (e2, tags[2]), (ef, tags[3])]
    } else if tags.len() > 1 {
        seq![(stem, tags[0]), (ending, tags[tags.len() - 1])]
    } else if tags.len() == 1 {
        seq![(stem, tags[0])]
    } else {
        seq![(stem, arbitrary_tag())]
    }
}

/// No tag list is empty in practice; an empty one has no first tag.
pub open spec fn arbitrary_tag() -> Seq<char> {
    Seq::<char>::empty()
}

/// Builds the morphemes of a stem and an ending under the target tags.
pub fn create_split_morphemes(stem: &str, ending: &str, tags: &[String]) -> (r: Vec<(String, String)>)
    requires
        tags@.len() >= 1,
    ensures
        pairs_view(r@) == spec_create_split_morphemes(stem@, ending@, strings_view(tags@)),
{
    let ghost tv = strings_view(tags@);
    let mut result: Vec<(String, String)> = Vec::new();
    if tags.len() == 2 {
        result.push((owned(stem), tags[0].clone()));
        result.push((owned(ending), tags[1].clone()));
        assert(pairs_view(result@) =~= seq![(stem@, tv[0]), (ending@, tv[1])]);
    } else if tags.len() == 3 {
        if str_eq(tags[1].as_str(), "VX") && str_eq(tags[2].as_str(), "EF") {
            let (vx_part, ef_part) = split_causative_ending(ending);
            let ghost (gv, ge) = (vx_part@, ef_part@);
            result.push((owned(stem), tags[0].clone()));
            result.push((vx_part, tags[1].clone()));
            result.push((ef_part, tags[2].clone()));
            assert(pairs_view(result@) =~= seq![(stem@, tv[0]), (gv, tv[1]), (ge, tv[2])]);
        } else {
            let (prefinal, final_ending) = split_prefinal_ending(ending);
            let ghost (gp, gf) = (prefinal@, final_ending@);
            result.push((owned(stem), tags[0].clone()));
            result.push((prefinal, tags[1].clone()));
            result.push((final_ending, tags[2].clone()));
            assert(pairs_view(result@) =~= seq![(stem@, tv[0]), (gp, tv[1]), (gf, tv[2])]);
        }
    } else if tags.len() == 4 {
        let (ep1, ep2, ef) = split_honorific_past_ending(ending);
        let ghost (g1, g2, g3) = (ep1@, ep2@, ef@);
        result.push((owned(stem), tags[0].clone()));
        result.push((ep1, tags[1].clone()));
        result.push((ep2, tags[2].clone()));
        result.push((ef, tags[3].clone()));
        assert(pairs_view(result@) =~= seq![(stem@, tv[0]), (g1, tv[1]), (g2, tv[2]), (g3, tv[3])]);
    } else {
        result.push((owned(stem), tags[0].clone()));
        if tags.len() > 1 {
            result.push((owned(ending), tags[tags.len() - 1].clone()));
            assert(pairs_view(result@) =~= seq![(stem@, tv[0]), (ending@, tv[tv.len() - 1])]);
        } else {
            assert(pairs_view(result@) =~= seq![(stem@, tv[0])]);
        }
    }
    result
}


/// A table of contracted syllables: the syllable, the stem it stands for,
/// and the ending it carries.
pub open spec fn table_view(t: Seq<(char, &str, &str)>) -> Seq<(char, Seq<char>, Seq<char>)> {
    t.map_values(|e: (char, &str, &str)| (e.0, e.1@, e.2@))
}

/// The first entry of the table for syllable `c`.
pub open spec fn char_table_lookup(t: Seq<(char, Seq<char>, Seq<char>)>, c: char) -> Option<(Seq<char>, Seq<char>)>
    decreases t.len(),
{
    if t.len() == 0 {
        None
    } else if t[0].0 == c {
        Some((t[0].1, t[0].2))
    } else {
        char_table_lookup(t.drop_first(), c)
    }
}

fn char_table_find<'a>(t: &[(char, &'a str, &'a str)], c: char) -> (r: Option<(&'a str, &'a str)>)
    ensures
        match r {
            Some(p) => char_table_lookup(table_view(t@), c) == Some((p.0@, p.1@)),
            None => char_table_lookup(table_view(t@), c).is_none(),
        },
{
    let mut k: usize = 0;
    assert(table_view(t@).subrange(0, t@.len() as int) =~= table_view(t@));
    while k < t.len()
        invariant
            k <= t@.len(),
            char_table_lookup(table_view(t@), c) == char_table_lookup(
                table_view(t@).subrange(k as int, t@.len() as int),
                c,
            ),
        decreases t@.len() - k,
    {
        let ghost rest = table_view(t@).subrange(k as int, t@.len() as int);
        assert(rest[0] == (t@[k as int].0, t@[k as int].1@, t@[k as int].2@));
        assert(rest.drop_first() =~= table_view(t@).subrange(k + 1, t@.len() as int));
        if t[k].0 == c {
            return Some((t[k].1, t[k].2));
        }
        k += 1;
    }
    None
}

/// Syllables that contract a stem with a past-tense ending (했 = 하 + 았).
pub open spec fn contracted_stems() -> Seq<(char, Seq<char>, Seq<char>)> {
    seq![
        ('했', "하"@, "았"@), ('갔', "가"@, "았"@), ('왔', "오"@, "았"@), ('봤', "보"@, "았"@),
        ('샀', "사"@, "았"@), ('잤', "자"@, "았"@), ('됐', "되"@, "었"@), ('났', "나"@, "았"@),
        ('랐', "라"@, "았"@), ('섰', "서"@, "었"@),
    ]
}

/// Endings (final and quotative connective) that may follow a contraction.
pub open spec fn contracted_endings() -> Seq<Seq<char>> {
    seq![
        "어요"@, "어"@, "다"@, "지"@, "니"@, "나"@, "습니다"@, "습니까"@,
        "다고"@, "라고"@, "냐고"@, "자고"@,
    ]
}

/// Some pattern is a suffix of `s`.
pub open spec fn any_suffix(pats: Seq<Seq<char>>, s: Seq<char>) -> bool {
    exists|k: int| 0 <= k < pats.len() && is_suffix(#[trigger] pats[k], s)
}

fn any_suffix_exec(pats: &[&str], s: &str) -> (r: bool)
    ensures
        r == any_suffix(strs_view(pats@), s@),
{
    let mut k: usize = 0;
    while k < pats.len()
        invariant
            k <= pats@.len(),
            forall|j: int| 0 <= j < k ==> !is_suffix(#[trigger] strs_view(pats@)[j], s@),
        decreases pats@.len() - k,
    {
        if ends_with(s, pats[k]) {
            assert(is_suffix(strs_view(pats@)[k as int], s@));
            return true;
        }
        k += 1;
    }
    false
}

/// The split at the first position `i..` holding a contracted syllable
/// followed by a non-empty ending of [`contracted_endings`].
pub open spec fn contracted3_from(s: Seq<char>, tags: Seq<Seq<char>>, i: int) -> Option<Seq<(Seq<char>, Seq<char>)>>
    decreases s.len() - i,
{
    if i < 0 || i >= s.len() {
        None
    } else {
        match char_table_lookup(contracted_stems(), s[i]) {
            Some((stem, pre)) => if s.len() > i + 1 && any_suffix(contracted_endings(), s.skip(i + 1)) {
                Some(seq![(s.take(i) + stem, tags[0]), (pre, tags[1]), (s.skip(i + 1), tags[2])])
            } else {
                contracted3_from(s, tags, i + 1)
            },
            None => contracted3_from(s, tags, i + 1),
        }
    }
}

/// Three-tag contractions: 했어요 → 하 + 았 + 어요, 만났어요 → 만나 + 았 + 어요.
pub open spec fn spec_try_split_contracted(s: Seq<char>, tags: Seq<Seq<char>>) -> Option<Seq<(Seq<char>, Seq<char>)>> {
    if tags.len() != 3 || s.len() == 0 {
        None
    } else {
        contracted3_from(s, tags, 0)
    }
}

fn contracted_endings_exec() -> (r: [&'static str; 12])
    ensures
        strs_view(r@) == contracted_endings(),
{
    let r: [&'static str; 12] = [
        "어요", "어", "다", "지", "니", "나", "습니다", "습니까", "다고", "라고", "냐고", "자고",
    ];
    assert(strs_view(r@) =~= contracted_endings());
    r
}

fn try_split_contracted(surface: &str, tags: &Vec<String>) -> (r: Option<Vec<(String, String)>>)
    ensures
        match r {
            Some(v) => spec_try_split_contracted(surface@, strings_view(tags@)) == Some(pairs_view(v@)),
            None => spec_try_split_contracted(surface@, strings_view(tags@)).is_none(),
        },
{
    let ghost tv = strings_view(tags@);
    if tags.len() != 3 {
        return None;
    }
    let stems: [(char, &str, &str); 10] = [
        ('했', "하", "았"), ('갔', "가", "았"), ('왔', "오", "았"), ('봤', "보", "았"),
        ('샀', "사", "았"), ('잤', "자", "았"), ('됐', "되", "었"), ('났', "나", "았"),
        ('랐', "라", "았"), ('섰', "서", "었"),
    ];
    assert(table_view(stems@) =~= contracted_stems());
    let endings = contracted_endings_exec();
    let chars = chars_of(surface);
    if chars.len() == 0 {
        return None;
    }
    let mut i: usize = 0;
    while i < chars.len()
        invariant
            i <= chars@.len(),
            chars@ == surface@,
            tv == strings_view(tags@),
            tv.len() == 3,
            table_view(stems@) == contracted_stems(),
            strs_view(endings@) == contracted_endings(),
            contracted3_from(surface@, tv, 0) == contracted3_from(surface@, tv, i as int),
        decreases chars@.len() - i,
    {
        match char_table_find(&stems, chars[i]) {
            Some((stem, prefinal)) => {
                if chars.len() > i + 1 {
                    let suffix = string_from_range(chars.as_slice(), i + 1, chars.len());
                    assert(suffix@ =~= surface@.skip(i + 1));
                    if any_suffix_exec(&endings, suffix.as_str()) {
                        let prefix = string_from_range(chars.as_slice(), 0, i);
                        assert(prefix@ =~= surface@.take(i as int));
                        let full_stem = concat(prefix.as_str(), stem);
                        let mut v: Vec<(String, String)> = Vec::new();
                        let ghost (g1, g2, g3) = (full_stem@, prefinal@, suffix@);
                        v.push((full_stem, tags[0].clone()));
                        v.push((owned(prefinal), tags[1].clone()));
                        v.push((suffix, tags[2].clone()));
                        assert(pairs_view(v@) =~= seq![(g1, tv[0]), (g2, tv[1]), (g3, tv[2])]);
                        return Some(v);
                    }
                }
            },
            None => {},
        }
        i += 1;
    }
    None
}

/// Syllables contracting a stem with the vowel of the ending (해 = 하 + 어).
pub open spec fn vowel_contractions() -> Seq<(char, Seq<char>, Seq<char>)> {
    seq![('해', "하"@, "어"@), ('돼', "되"@, "어"@), ('봬', "뵈"@, "어"@)]
}

/// Syllables contracting a stem with a past-tense ending, for two-tag
/// analyses (봤다 analysed as VV+EF).
pub open spec fn past_contractions() -> Seq<(char, Seq<char>, Seq<char>)> {
    seq![
        ('봤', "보"@, "았"@), ('갔', "가"@, "았"@), ('왔', "오"@, "았"@), ('샀', "사"@, "았"@),
        ('잤', "자"@, "았"@), ('됐', "되"@, "었"@), ('했', "하"@, "았"@),
    ]
}

/// Two-tag contractions: 해요 → 하 + 어요; 봤다 → 보 + 았/EP + 다.
pub open spec fn spec_try_split_contracted_two_tags(s: Seq<char>, tags: Seq<Seq<char>>) -> Option<Seq<(Seq<char>, Seq<char>)>> {
    if tags.len() != 2 || s.len() == 0 {
        None
    } else {
        match char_table_lookup(vowel_contractions(), s[0]) {
            Some((stem, vowel)) => Some(seq![(stem, tags[0]), (vowel + s.skip(1), tags[1])]),
            None => match char_table_lookup(past_contractions(), s[0]) {
                Some((stem, pre)) => Some(seq![(stem, tags[0]), (pre, "EP"@), (s.skip(1), tags[1])]),
                None => None,
            },
        }
    }
}

fn try_split_contracted_two_tags(surface: &str, tags: &Vec<String>) -> (r: Option<Vec<(String, String)>>)
    ensures
        match r {
            Some(v) => spec_try_split_contracted_two_tags(surface@, strings_view(tags@)) == Some(pairs_view(v@)),
            None => spec_try_split_contracted_two_tags(surface@, strings_view(tags@)).is_none(),
        },
{
    let ghost tv = strings_view(tags@);
    if tags.len() != 2 {
        return None;
    }
    let chars = chars_of(surface);
    if chars.len() == 0 {
        return None;
    }
    let rest = string_from_range(chars.as_slice(), 1, chars.len());
    assert(rest@ =~= surface@.skip(1));
    let patterns: [(char, &str, &str); 3] = [('해', "하", "어"), ('돼', "되", "어"), ('봬', "뵈", "어")];
    assert(table_view(patterns@) =~= vowel_contractions());
    match char_table_find(&patterns, chars[0]) {
        Some((stem, vowel)) => {
            let ending = concat(vowel, rest.as_str());
            let ghost (g1, g2) = (stem@, ending@);
            let mut v: Vec<(String, String)> = Vec::new();
            v.push((owned(stem), tags[0].clone()));
            v.push((ending, tags[1].clone()));
            assert(pairs_view(v@) =~= seq![(g1, tv[0]), (g2, tv[1])]);
            return Some(v);
        },
        None => {},
    }
    let past: [(char, &str, &str); 7] = [
        ('봤', "보", "았"), ('갔', "가", "았"), ('왔', "오", "았"), ('샀', "사", "았"),
        ('잤', "자", "았"), ('됐', "되", "었"), ('했', "하", "았"),
    ];
    assert(table_view(past@) =~= past_contractions());
    match char_table_find(&past, chars[0]) {
        Some((stem, prefinal)) => {
            let ghost (g1, g2, g3) = (stem@, prefinal@, rest@);
            let mut v: Vec<(String, String)> = Vec::new();
            v.push((owned(stem), tags[0].clone()));
            v.push((owned(prefinal), owned("EP")));
            v.push((rest, tags[1].clone()));
            assert(pairs_view(v@) =~= seq![(g1, tv[0]), (g2, "EP"@), (g3, tv[1])]);
            Some(v)
        },
        None => None,
    }
}


/// Causative and passive verbs kept whole before 다 (웃기다 = 웃기 + 다).
pub open spec fn causative_verbs() -> Seq<Seq<char>> {
    seq![
        "웃기다"@, "울리다"@, "높이다"@, "낮추다"@, "늘이다"@, "줄이다"@, "살리다"@,
        "죽이다"@, "알리다"@, "먹이다"@, "재우다"@, "깨우다"@, "들리다"@, "놀리다"@,
    ]
}

/// `s` with the ㄹ of the syllable at `k` removed and everything after it
/// dropped, when that syllable ends in ㄹ.
pub open spec fn rieul_stem(s: Seq<char>, k: int) -> Option<Seq<char>> {
    if 0 <= k < s.len() {
        match spec_remove_jong(s[k], 8) {
            Some(c) => Some(s.take(k).push(c)),
            None => None,
        }
    } else {
        None
    }
}

/// The stem of a one-syllable ㅂ니다/ㅂ니까 form (합니다 → 하).
pub open spec fn bieup_stem(s: Seq<char>, suffix: Seq<char>) -> Option<Seq<char>> {
    if is_suffix(suffix, s) && s.len() == 3 {
        match spec_remove_jong(s[0], 17) {
            Some(c) => Some(seq![c]),
            None => None,
        }
    } else {
        None
    }
}

/// The special splits of `VV+EF` forms.
pub open spec fn spec_vv_ef_special(s: Seq<char>) -> Option<Seq<(Seq<char>, Seq<char>)>> {
    if causative_verbs().contains(s) {
        Some(seq![(s.take(s.len() - 1), "VV"@), ("다"@, "EF"@)])
    } else if bieup_stem(s, "니다"@).is_some() {
        Some(seq![(bieup_stem(s, "니다"@).unwrap(), "VV"@), ("ㅂ니다"@, "EF"@)])
    } else if bieup_stem(s, "니까"@).is_some() {
        Some(seq![(bieup_stem(s, "니까"@).unwrap(), "VV"@), ("ㅂ니까"@, "EF"@)])
    } else if is_suffix("게요"@, s) && s.len() >= 3 && rieul_stem(s, s.len() - 3).is_some() {
        Some(seq![(rieul_stem(s, s.len() - 3).unwrap(), "VV"@), ("ㄹ게요"@, "EF"@)])
    } else if is_suffix("까요"@, s) && s.len() >= 3 && rieul_stem(s, s.len() - 3).is_some() {
        Some(seq![(rieul_stem(s, s.len() - 3).unwrap(), "VV"@), ("ㄹ까요"@, "EF"@)])
    } else if is_suffix("까"@, s) && !is_suffix("까요"@, s) && s.len() >= 2 && rieul_stem(s, s.len() - 2).is_some() {
        Some(seq![(rieul_stem(s, s.len() - 2).unwrap(), "VV"@), ("ㄹ까"@, "EF"@)])
    } else if is_suffix("래요"@, s) && s.len() >= 3 && rieul_stem(s, s.len() - 3).is_some() {
        Some(seq![(rieul_stem(s, s.len() - 3).unwrap(), "VV"@), ("ㄹ래요"@, "EF"@)])
    } else if s == "해요"@ {
        Some(seq![("하"@, "VV"@), ("어요"@, "EF"@)])
    } else if s == "봐요"@ {
        Some(seq![("보"@, "VV"@), ("아요"@, "EF"@)])
    } else if s == "와요"@ {
        Some(seq![("오"@, "VV"@), ("아요"@, "EF"@)])
    } else if s == "해"@ {
        Some(seq![("하"@, "VV"@), ("어"@, "EF"@)])
    } else if s == "돼요"@ {
        Some(seq![("되"@, "VV"@), ("어요"@, "EF"@)])
    } else if s == "돼"@ {
        Some(seq![("되"@, "VV"@), ("어"@, "EF"@)])
    } else {
        None
    }
}

fn contains_str(list: &[&str], s: &str) -> (r: bool)
    ensures
        r == strs_view(list@).contains(s@),
{
    let mut k: usize = 0;
    while k < list.len()
        invariant
            k <= list@.len(),
            forall|j: int| 0 <= j < k ==> strs_view(list@)[j] != s@,
        decreases list@.len() - k,
    {
        if str_eq(list[k], s) {
            assert(strs_view(list@)[k as int] == s@);
            return true;
        }
        k += 1;
    }
    false
}

pub(crate) fn rieul_stem_exec(chars: &Vec<char>, k: usize) -> (r: Option<String>)
    requires
        k < chars@.len(),
    ensures
        match r {
            Some(st) => rieul_stem(chars@, k as int) == Some(st@),
            None => rieul_stem(chars@, k as int).is_none(),
        },
{
    match remove_jongseong_rieul(chars[k]) {
        Some(c) => {
            let prefix = string_from_range(chars.as_slice(), 0, k);
            let mut st = prefix;
            crate::text::push_char(&mut st, c);
            assert(st@ =~= chars@.take(k as int).push(c));
            Some(st)
        },
        None => None,
    }
}

fn bieup_stem_exec(surface: &str, chars: &Vec<char>, suffix: &str) -> (r: Option<String>)
    requires
        chars@ == surface@,
    ensures
        match r {
            Some(st) => bieup_stem(surface@, suffix@) == Some(st@),
            None => bieup_stem(surface@, suffix@).is_none(),
        },
{
    if ends_with(surface, suffix) && chars.len() == 3 {
        match remove_jongseong_bieup(chars[0]) {
            Some(c) => Some(char_string(c)),
            None => None,
        }
    } else {
        None
    }
}

fn split_vv_ef(surface: &str) -> (r: Option<Vec<(String, String)>>)
    ensures
        match r {
            Some(v) => spec_vv_ef_special(surface@) == Some(pairs_view(v@)),
            None => spec_vv_ef_special(surface@).is_none(),
        },
{
    let causatives: [&str; 14] = [
        "웃기다", "울리다", "높이다", "낮추다", "늘이다", "줄이다", "살리다",
        "죽이다", "알리다", "먹이다", "재우다", "깨우다", "들리다", "놀리다",
    ];
    assert(strs_view(causatives@) =~= causative_verbs());
    let chars = chars_of(surface);
    let n = chars.len();
    if contains_str(&causatives, surface) {
        proof {
            let k = choose|k: int| 0 <= k < causative_verbs().len() && causative_verbs()[k] == surface@;
            reveal_strlit("웃기다");
            reveal_strlit("울리다");
            reveal_strlit("높이다");
            reveal_strlit("낮추다");
            reveal_strlit("늘이다");
            reveal_strlit("줄이다");
            reveal_strlit("살리다");
            reveal_strlit("죽이다");
            reveal_strlit("알리다");
            reveal_strlit("먹이다");
            reveal_strlit("재우다");
            reveal_strlit("깨우다");
            reveal_strlit("들리다");
            reveal_strlit("놀리다");
            assert(surface@.len() == 3);
        }
        let stem = string_from_range(chars.as_slice(), 0, n - 1);
        assert(stem@ =~= surface@.take(surface@.len() - 1));
        let ghost g = stem@;
        let mut v: Vec<(String, String)> = Vec::new();
        v.push((stem, owned("VV")));
        v.push(pair("다", "EF"));
        assert(pairs_view(v@) =~= seq![(g, "VV"@), ("다"@, "EF"@)]);
        return Some(v);
    }
    match bieup_stem_exec(surface, &chars, "니다") {
        Some(st) => {
            let ghost g = st@;
            let mut v: Vec<(String, String)> = Vec::new();
            v.push((st, owned("VV")));
            v.push(pair("ㅂ니다", "EF"));
            assert(pairs_view(v@) =~= seq![(g, "VV"@), ("ㅂ니다"@, "EF"@)]);
            return Some(v);
        },
        None => {},
    }
    match bieup_stem_exec(surface, &chars, "니까") {
        Some(st) => {
            let ghost g = st@;
            let mut v: Vec<(String, String)> = Vec::new();
            v.push((st, owned("VV")));
            v.push(pair("ㅂ니까", "EF"));
            assert(pairs_view(v@) =~= seq![(g, "VV"@), ("ㅂ니까"@, "EF"@)]);
            return Some(v);
        },
        None => {},
    }
    if ends_with(surface, "게요") && n >= 3 {
        match rieul_stem_exec(&chars, n - 3) {
            Some(st) => {
                let ghost g = st@;
                let mut v: Vec<(String, String)> = Vec::new();
                v.push((st, owned("VV")));
                v.push(pair("ㄹ게요", "EF"));
                assert(pairs_view(v@) =~= seq![(g, "VV"@), ("ㄹ게요"@, "EF"@)]);
                return Some(v);
            },
            None => {},
        }
    }
    if ends_with(surface, "까요") && n >= 3 {
        match rieul_stem_exec(&chars, n - 3) {
            Some(st) => {
                let ghost g = st@;
                let mut v: Vec<(String, String)> = Vec::new();
                v.push((st, owned("VV")));
                v.push(pair("ㄹ까요", "EF"));
                assert(pairs_view(v@) =~= seq![(g, "VV"@), ("ㄹ까요"@, "EF"@)]);
                return Some(v);
            },
            None => {},
        }
    }
    if ends_with(surface, "까") && !ends_with(surface, "까요") && n >= 2 {
        match rieul_stem_exec(&chars, n - 2) {
            Some(st) => {
                let ghost g = st@;
                let mut v: Vec<(String, String)> = Vec::new();
                v.push((st, owned("VV")));
                v.push(pair("ㄹ까", "EF"));
                assert(pairs_view(v@) =~= seq![(g, "VV"@), ("ㄹ까"@, "EF"@)]);
                return Some(v);
            },
            None => {},
        }
    }
    if ends_with(surface, "래요") && n >= 3 {
        match rieul_stem_exec(&chars, n - 3) {
            Some(st) => {
                let ghost g = st@;
                let mut v: Vec<(String, String)> = Vec::new();
                v.push((st, owned("VV")));
                v.push(pair("ㄹ래요", "EF"));
                assert(pairs_view(v@) =~= seq![(g, "VV"@), ("ㄹ래요"@, "EF"@)]);
                return Some(v);
            },
            None => {},
        }
    }
    if str_eq(surface, "해요") {
        return Some(pairs2("하", "VV", "어요", "EF"));
    }
    if str_eq(surface, "봐요") {
        return Some(pairs2("보", "VV", "아요", "EF"));
    }
    if str_eq(surface, "와요") {
        return Some(pairs2("오", "VV", "아요", "EF"));
    }
    if str_eq(surface, "해") {
        return Some(pairs2("하", "VV", "어", "EF"));
    }
    if str_eq(surface, "돼요") {
        return Some(pairs2("되", "VV", "어요", "EF"));
    }
    if str_eq(surface, "돼") {
        return Some(pairs2("되", "VV", "어", "EF"));
    }
    None
}

/// The split by the first ending of the list that `s` ends with and is
/// longer than.
pub open spec fn endings_split(s: Seq<char>, endings: Seq<Seq<char>>, tags: Seq<Seq<char>>) -> Option<Seq<(Seq<char>, Seq<char>)>>
    decreases endings.len(),
{
    if endings.len() == 0 {
        None
    } else if is_suffix(endings[0], s) && s.len() > endings[0].len() {
        Some(spec_create_split_morphemes(s.take(s.len() - endings[0].len()), endings[0], tags))
    } else {
        endings_split(s, endings.drop_first(), tags)
    }
}

/// The split by the first rule for tag `pos` that has a matching ending.
pub open spec fn spec_rule_split(
    s: Seq<char>,
    pos: Seq<char>,
    rules: Seq<(Seq<char>, Seq<Seq<char>>, Seq<Seq<char>>)>,
) -> Option<Seq<(Seq<char>, Seq<char>)>>
    decreases rules.len(),
{
    if rules.len() == 0 {
        None
    } else if rules[0].0 == pos && endings_split(s, rules[0].1, rules[0].2).is_some() {
        endings_split(s, rules[0].1, rules[0].2)
    } else {
        spec_rule_split(s, pos, rules.drop_first())
    }
}

/// Every rule names at least one target tag.
pub open spec fn rules_well_formed(rules: Seq<EndingRule>) -> bool {
    forall|k: int| 0 <= k < rules.len() ==> (#[trigger] rules[k]).target_tags@.len() >= 1
}

/// The rule that splits `s` (the first rule for tag `pos` with a matching
/// ending), if any, names at least one target tag.
pub open spec fn rule_split_defined(
    s: Seq<char>,
    pos: Seq<char>,
    rules: Seq<(Seq<char>, Seq<Seq<char>>, Seq<Seq<char>>)>,
) -> bool
    decreases rules.len(),
{
    if rules.len() == 0 {
        true
    } else if rules[0].0 == pos && endings_split(s, rules[0].1, rules[0].2).is_some() {
        rules[0].2.len() >= 1
    } else {
        rule_split_defined(s, pos, rules.drop_first())
    }
}

/// Rules that all name a target tag leave no split undefined.
pub proof fn lemma_well_formed_rules_defined(s: Seq<char>, pos: Seq<char>, rules: Seq<EndingRule>)
    requires
        rules_well_formed(rules),
    ensures
        rule_split_defined(s, pos, rules_view(rules)),
    decreases rules.len(),
{
    if rules.len() > 0 {
        let rest = rules.drop_first();
        assert(rules_view(rules).drop_first() =~= rules_view(rest));
        assert forall|k: int| 0 <= k < rest.len() implies (#[trigger] rest[k]).target_tags@.len() >= 1 by {
            assert(rest[k] == rules[k + 1]);
        }
        assert(rules[0].target_tags@.len() >= 1);
        lemma_well_formed_rules_defined(s, pos, rest);
    }
}

fn endings_split_exec(surface: &str, endings: &Vec<String>, tags: &Vec<String>) -> (r: Option<Vec<(String, String)>>)
    requires
        endings_split(surface@, strings_view(endings@), strings_view(tags@)).is_some() ==> tags@.len() >= 1,
    ensures
        match r {
            Some(v) => endings_split(surface@, strings_view(endings@), strings_view(tags@)) == Some(pairs_view(v@)),
            None => endings_split(surface@, strings_view(endings@), strings_view(tags@)).is_none(),
        },
{
    let ghost ev = strings_view(endings@);
    let chars = chars_of(surface);
    let mut k: usize = 0;
    assert(ev.subrange(0, ev.len() as int) =~= ev);
    while k < endings.len()
        invariant
            k <= endings@.len(),
            ev == strings_view(endings@),
            chars@ == surface@,
            endings_split(surface@, ev, strings_view(tags@)).is_some() ==> tags@.len() >= 1,
            endings_split(surface@, ev, strings_view(tags@)) == endings_split(
                surface@,
                ev.subrange(k as int, ev.len() as int),
                strings_view(tags@),
            ),
        decreases endings@.len() - k,
    {
        let ghost rest = ev.subrange(k as int, ev.len() as int);
        assert(rest[0] == endings@[k as int]@);
        assert(rest.drop_first() =~= ev.subrange(k + 1, ev.len() as int));
        let ending = endings[k].as_str();
        if ends_with(surface, ending) {
            let m = ending.unicode_len();
            let stem_len = chars.len() - m;
            if stem_len > 0 {
                let stem = string_from_range(chars.as_slice(), 0, stem_len);
                assert(stem@ =~= surface@.take(surface@.len() - ending@.len()));
                return Some(create_split_morphemes(stem.as_str(), ending, tags.as_slice()));
            }
        }
        k += 1;
    }
    None
}

fn rule_split_exec(surface: &str, pos: &str, rules: &[EndingRule]) -> (r: Option<Vec<(String, String)>>)
    requires
        rule_split_defined(surface@, pos@, rules_view(rules@)),
    ensures
        match r {
            Some(v) => spec_rule_split(surface@, pos@, rules_view(rules@)) == Some(pairs_view(v@)),
            None => spec_rule_split(surface@, pos@, rules_view(rules@)).is_none(),
        },
{
    let ghost rv = rules_view(rules@);
    let mut k: usize = 0;
    assert(rv.subrange(0, rv.len() as int) =~= rv);
    while k < rules.len()
        invariant
            k <= rules@.len(),
            rv == rules_view(rules@),
            rule_split_defined(surface@, pos@, rv.subrange(k as int, rv.len() as int)),
            spec_rule_split(surface@, pos@, rv) == spec_rule_split(
                surface@,
                pos@,
                rv.subrange(k as int, rv.len() as int),
            ),
        decreases rules@.len() - k,
    {
        let ghost rest = rv.subrange(k as int, rv.len() as int);
        assert(rest[0] == rule_view(rules@[k as int]));
        assert(rest.drop_first() =~= rv.subrange(k + 1, rv.len() as int));
        let rule = &rules[k];
        assert(rest[0].2 == strings_view(rule.target_tags@));
        assert(rest[0].1 == strings_view(rule.endings@));
        if str_eq(rule.pos_pattern.as_str(), pos) {
            match endings_split_exec(surface, &rule.endings, &rule.target_tags) {
                Some(v) => {
                    return Some(v);
                },
                None => {},
            }
        }
        k += 1;
    }
    None
}

/// One-syllable `VV+ETM`/`VA+ETM` forms whose final ㄹ or ㄴ is the ending.
pub open spec fn spec_etm_split(s: Seq<char>, pos: Seq<char>) -> Option<Seq<(Seq<char>, Seq<char>)>> {
    let stem_tag = if is_prefix("VV"@, pos) { "VV"@ } else { "VA"@ };
    if (pos == "VV+ETM"@ || pos == "VA+ETM"@) && s.len() == 1 {
        match spec_remove_jong(s[0], 8) {
            Some(c) => Some(seq![(seq![c], stem_tag), ("ㄹ"@, "ETM"@)]),
            None => match spec_remove_jong(s[0], 4) {
                Some(c) => Some(seq![(seq![c], stem_tag), ("ㄴ"@, "ETM"@)]),
                None => None,
            },
        }
    } else {
        None
    }
}

fn split_etm(surface: &str, pos: &str) -> (r: Option<Vec<(String, String)>>)
    ensures
        match r {
            Some(v) => spec_etm_split(surface@, pos@) == Some(pairs_view(v@)),
            None => spec_etm_split(surface@, pos@).is_none(),
        },
{
    if (str_eq(pos, "VV+ETM") || str_eq(pos, "VA+ETM")) && surface.unicode_len() == 1 {
        let ch = surface.get_char(0);
        let stem_tag = if starts_with(pos, "VV") { owned("VV") } else { owned("VA") };
        let ghost tg = stem_tag@;
        match remove_jongseong_rieul(ch) {
            Some(stem_char) => {
                let st = char_string(stem_char);
                let ghost g = st@;
                let mut v: Vec<(String, String)> = Vec::new();
                v.push((st, stem_tag));
                v.push(pair("ㄹ", "ETM"));
                assert(pairs_view(v@) =~= seq![(g, tg), ("ㄹ"@, "ETM"@)]);
                return Some(v);
            },
            None => {},
        }
        match remove_jongseong_nieun(ch) {
            Some(stem_char) => {
                let st = char_string(stem_char);
                let ghost g = st@;
                let mut v: Vec<(String, String)> = Vec::new();
                v.push((st, stem_tag));
                v.push(pair("ㄴ", "ETM"));
                assert(pairs_view(v@) =~= seq![(g, tg), ("ㄴ"@, "ETM"@)]);
                return Some(v);
            },
            None => {},
        }
    }
    None
}

/// The Sejong morphemes of `surface` analysed as `pos`, tried in order:
/// plain tags, fixed special forms, pattern splits of `-야겠다` and
/// `-어지다`/`-아지다`, the `VV+EF` forms, contractions, the ending rules,
/// one-syllable `ETM` forms, and finally the whole surface under the first
/// tag.
pub open spec fn spec_split_morpheme(
    s: Seq<char>,
    pos: Seq<char>,
    m: Seq<(Seq<char>, Seq<Seq<char>>)>,
    rules: Seq<(Seq<char>, Seq<Seq<char>>, Seq<Seq<char>>)>,
) -> Seq<(Seq<char>, Seq<char>)> {
    let tags = spec_split_compound_tag(m, pos);
    if !pos.contains('+') {
        seq![(s, pos)]
    } else if pos == "EP+EP"@ && s == "셨"@ {
        seq![("시"@, "EP"@), ("었"@, "EP"@)]
    } else if tags.len() >= 2 && tags[0] == tags[1] && pos != "EP+EP"@ {
        seq![(s, tags[0])]
    } else if (pos == "EP+EF"@ || pos == "VCP+EF"@) && s == "입니다"@ {
        seq![("이"@, "VCP"@), ("습니다"@, "EF"@)]
    } else if (pos == "EP+EF"@ || pos == "VCP+EF"@) && s == "입니까"@ {
        seq![("이"@, "VCP"@), ("습니까"@, "EF"@)]
    } else if pos == "VV+EC"@ && s == "는다"@ {
        seq![("는다"@, "EF"@)]
    } else if pos == "EP+EC"@ && s == "며"@ {
        seq![("며"@, "EC"@)]
    } else if pos == "VV+EC+EP+EF"@ && is_suffix("야겠다"@, s) && s.len() >= 4 {
        seq![(s.take(s.len() - 3), "VV"@), ("아야겠"@, "EP"@), ("다"@, "EF"@)]
    } else if pos == "VV+VX+EF"@ && is_suffix("어지다"@, s) && s.len() >= 4 {
        seq![(s.take(s.len() - 3), "VV"@), ("어지"@, "VX"@), ("다"@, "EF"@)]
    } else if pos == "VV+VX+EF"@ && is_suffix("아지다"@, s) && s.len() >= 4 {
        seq![(s.take(s.len() - 3), "VV"@), ("아지"@, "VX"@), ("다"@, "EF"@)]
    } else if pos == "VV+EF"@ && spec_vv_ef_special(s).is_some() {
        spec_vv_ef_special(s).unwrap()
    } else if spec_try_split_contracted(s, tags).is_some() {
        spec_try_split_contracted(s, tags).unwrap()
    } else if spec_try_split_contracted_two_tags(s, tags).is_some() {
        spec_try_split_contracted_two_tags(s, tags).unwrap()
    } else if spec_rule_split(s, pos, rules).is_some() {
        spec_rule_split(s, pos, rules).unwrap()
    } else if spec_etm_split(s, pos).is_some() {
        spec_etm_split(s, pos).unwrap()
    } else if tags.len() > 1 {
        seq![(s, tags[0])]
    } else {
        seq![(s, pos)]
    }
}

/// The surfaces of the pieces `ps`, joined in order.
pub open spec fn joined_surfaces(ps: Seq<(Seq<char>, Seq<char>)>) -> Seq<char>
    decreases ps.len(),
{
    if ps.len() == 0 {
        Seq::empty()
    } else {
        joined_surfaces(ps.drop_last()) + ps.last().0
    }
}

/// The splits of [`spec_split_morpheme`] that rewrite the surface rather
/// than cut it: 셨 → 시 었, 입니다/입니까 → 이 습니다/습니까, the `-야겠다`
/// pattern, the special `VV+EF` forms, the contractions, the ending rules,
/// and the one-syllable `ETM` forms whose final consonant becomes the
/// ending.
pub open spec fn rewriting_split(
    s: Seq<char>,
    pos: Seq<char>,
    m: Seq<(Seq<char>, Seq<Seq<char>>)>,
    rules: Seq<(Seq<char>, Seq<Seq<char>>, Seq<Seq<char>>)>,
) -> bool {
    let tags = spec_split_compound_tag(m, pos);
    ||| (pos == "EP+EP"@ && s == "셨"@)
    ||| ((pos == "EP+EF"@ || pos == "VCP+EF"@) && (s == "입니다"@ || s == "입니까"@))
    ||| (pos == "VV+EC+EP+EF"@ && is_suffix("야겠다"@, s))
    ||| (pos == "VV+EF"@ && spec_vv_ef_special(s).is_some())
    ||| spec_try_split_contracted(s, tags).is_some()
    ||| spec_try_split_contracted_two_tags(s, tags).is_some()
    ||| spec_rule_split(s, pos, rules).is_some()
    ||| spec_etm_split(s, pos).is_some()
}

/// Every split that only cuts the surface, with no rewrite of its letters,
/// gives pieces that join back to the surface (만들어지다/VV+VX+EF →
/// 만들 어지 다).
pub proof fn lemma_split_morpheme_joins_back(
    s: Seq<char>,
    pos: Seq<char>,
    m: Seq<(Seq<char>, Seq<Seq<char>>)>,
    rules: Seq<(Seq<char>, Seq<Seq<char>>, Seq<Seq<char>>)>,
)
    requires
        !rewriting_split(s, pos, m, rules),
    ensures
        joined_surfaces(spec_split_morpheme(s, pos, m, rules)) == s,
{
    reveal_with_fuel(joined_surfaces, 4);
    reveal_strlit("어지다");
    reveal_strlit("아지다");
    reveal_strlit("어지");
    reveal_strlit("아지");
    reveal_strlit("다");
    let r = spec_split_morpheme(s, pos, m, rules);
    if pos == "VV+VX+EF"@ && is_suffix("어지다"@, s) && s.len() >= 4 && r.len() == 3 && r[1].0 == "어지"@ {
        assert(s =~= s.take(s.len() - 3) + s.subrange(s.len() - 3, s.len() as int));
        assert("어지"@ + "다"@ =~= "어지다"@);
        assert(s.take(s.len() - 3) + "어지"@ + "다"@ =~= s);
    }
    if pos == "VV+VX+EF"@ && is_suffix("아지다"@, s) && s.len() >= 4 && r.len() == 3 && r[1].0 == "아지"@ {
        assert(s =~= s.take(s.len() - 3) + s.subrange(s.len() - 3, s.len() as int));
        assert("아지"@ + "다"@ =~= "아지다"@);
        assert(s.take(s.len() - 3) + "아지"@ + "다"@ =~= s);
    }
    assert(joined_surfaces(seq![(s, pos)]) =~= s);
}

/// `split_morpheme` tries the ending rules on `s`: every special case
/// before them has failed.
pub open spec fn rules_reached(s: Seq<char>, pos: Seq<char>, m: Seq<(Seq<char>, Seq<Seq<char>>)>) -> bool {
    let tags = spec_split_compound_tag(m, pos);
    &&& pos.contains('+')
    &&& !(pos == "EP+EP"@ && s == "셨"@)
    &&& !(tags.len() >= 2 && tags[0] == tags[1] && pos != "EP+EP"@)
    &&& !((pos == "EP+EF"@ || pos == "VCP+EF"@) && s == "입니다"@)
    &&& !((pos == "EP+EF"@ || pos == "VCP+EF"@) && s == "입니까"@)
    &&& !(pos == "VV+EC"@ && s == "는다"@)
    &&& !(pos == "EP+EC"@ && s == "며"@)
    &&& !(pos == "VV+EC+EP+EF"@ && is_suffix("야겠다"@, s) && s.len() >= 4)
    &&& !(pos == "VV+VX+EF"@ && is_suffix("어지다"@, s) && s.len() >= 4)
    &&& !(pos == "VV+VX+EF"@ && is_suffix("아지다"@, s) && s.len() >= 4)
    &&& !(pos == "VV+EF"@ && spec_vv_ef_special(s).is_some())
    &&& spec_try_split_contracted(s, tags).is_none()
    &&& spec_try_split_contracted_two_tags(s, tags).is_none()
}

fn stem_split3(surface: &str, chars: &Vec<char>, mid: &str, mid_tag: &str) -> (v: Vec<(String, String)>)
    requires
        chars@ == surface@,
        surface@.len() >= 3,
    ensures
        pairs_view(v@) == seq![(surface@.take(surface@.len() - 3), "VV"@), (mid@, mid_tag@), ("다"@, "EF"@)],
{
    let stem = string_from_range(chars.as_slice(), 0, chars.len() - 3);
    assert(stem@ =~= surface@.take(surface@.len() - 3));
    let ghost g = stem@;
    let mut v: Vec<(String, String)> = Vec::new();
    v.push((stem, owned("VV")));
    v.push(pair(mid, mid_tag));
    v.push(pair("다", "EF"));
    assert(pairs_view(v@) =~= seq![(g, "VV"@), (mid@, mid_tag@), ("다"@, "EF"@)]);
    v
}

/// Splits a surface form analysed with a compound tag into morphemes:
/// "갔다"/"VV+EF" → [("가", "VV"), ("았", "EP"), ("다", "EF")].
pub fn split_morpheme(
    surface: &str,
    pos: &str,
    tag_map: &TagMap,
    ending_rules: &[EndingRule],
) -> (r: Vec<(String, String)>)
    requires
        rules_reached(surface@, pos@, tag_map@) ==> rule_split_defined(surface@, pos@, rules_view(ending_rules@)),
    ensures
        pairs_view(r@) == spec_split_morpheme(surface@, pos@, tag_map@, rules_view(ending_rules@)),
{
    if !is_compound_tag(pos) {
        return pairs1(surface, pos);
    }
    if str_eq(pos, "EP+EP") && str_eq(surface, "셨") {
        return pairs2("시", "EP", "었", "EP");
    }
    let tags = split_compound_tag(tag_map, pos);
    let ghost tv = strings_view(tags@);
    if tags.len() >= 2 && str_eq(tags[0].as_str(), tags[1].as_str()) && !str_eq(pos, "EP+EP") {
        let mut v: Vec<(String, String)> = Vec::new();
        v.push((owned(surface), tags[0].clone()));
        assert(pairs_view(v@) =~= seq![(surface@, tv[0])]);
        return v;
    }
    if str_eq(pos, "EP+EF") || str_eq(pos, "VCP+EF") {
        if str_eq(surface, "입니다") {
            return pairs2("이", "VCP", "습니다", "EF");
        } else if str_eq(surface, "입니까") {
            return pairs2("이", "VCP", "습니까", "EF");
        }
    }
    if str_eq(pos, "VV+EC") && str_eq(surface, "는다") {
        return pairs1("는다", "EF");
    }
    if str_eq(pos, "EP+EC") && str_eq(surface, "며") {
        return pairs1("며", "EC");
    }
    let chars = chars_of(surface);
    if str_eq(pos, "VV+EC+EP+EF") && ends_with(surface, "야겠다") && chars.len() >= 4 {
        return stem_split3(surface, &chars, "아야겠", "EP");
    }
    if str_eq(pos, "VV+VX+EF") {
        if ends_with(surface, "어지다") && chars.len() >= 4 {
            return stem_split3(surface, &chars, "어지", "VX");
        }
        if ends_with(surface, "아지다") && chars.len() >= 4 {
            return stem_split3(surface, &chars, "아지", "VX");
        }
    }
    if str_eq(pos, "VV+EF") {
        match split_vv_ef(surface) {
            Some(v) => {
                return v;
            },
            None => {},
        }
    }
    match try_split_contracted(surface, &tags) {
        Some(v) => {
            return v;
        },
        None => {},
    }
    match try_split_contracted_two_tags(surface, &tags) {
        Some(v) => {
            return v;
        },
        None => {},
    }
    assert(rules_reached(surface@, pos@, tag_map@));
    match rule_split_exec(surface, pos, ending_rules) {
        Some(v) => {
            return v;
        },
        None => {},
    }
    match split_etm(surface, pos) {
        Some(v) => {
            return v;
        },
        None => {},
    }
    if tags.len() > 1 {
        let mut v: Vec<(String, String)> = Vec::new();
        v.push((owned(surface), tags[0].clone()));
        assert(pairs_view(v@) =~= seq![(surface@, tv[0])]);
        return v;
    }
    pairs1(surface, pos)
}

/// Splitting always yields at least one morpheme.
pub proof fn lemma_split_morpheme_nonempty(
    s: Seq<char>,
    pos: Seq<char>,
    m: Seq<(Seq<char>, Seq<Seq<char>>)>,
    rules: Seq<(Seq<char>, Seq<Seq<char>>, Seq<Seq<char>>)>,
)
    ensures
        spec_split_morpheme(s, pos, m, rules).len() >= 1,
{
    let tags = spec_split_compound_tag(m, pos);
    lemma_contracted3_nonempty(s, tags, 0);
    lemma_rule_split_nonempty(s, pos, rules);
}

proof fn lemma_contracted3_nonempty(s: Seq<char>, tags: Seq<Seq<char>>, i: int)
    ensures
        contracted3_from(s, tags, i) matches Some(v) ==> v.len() >= 1,
    decreases s.len() - i,
{
    if 0 <= i < s.len() {
        lemma_contracted3_nonempty(s, tags, i + 1);
    }
}

proof fn lemma_endings_split_nonempty(s: Seq<char>, endings: Seq<Seq<char>>, tags: Seq<Seq<char>>)
    ensures
        endings_split(s, endings, tags) matches Some(v) ==> v.len() >= 1,
    decreases endings.len(),
{
    if endings.len() > 0 {
        lemma_endings_split_nonempty(s, endings.drop_first(), tags);
    }
}

proof fn lemma_rule_split_nonempty(s: Seq<char>, pos: Seq<char>, rules: Seq<(Seq<char>, Seq<Seq<char>>, Seq<Seq<char>>)>)
    ensures
        spec_rule_split(s, pos, rules) matches Some(v) ==> v.len() >= 1,
    decreases rules.len(),
{
    if rules.len() > 0 {
        lemma_endings_split_nonempty(s, rules[0].1, rules[0].2);
        lemma_rule_split_nonempty(s, pos, rules.drop_first());
    }
}

} // verus!
