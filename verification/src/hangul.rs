//! Hangul syllable arithmetic (U+AC00..U+D7A3) and jamo normalisation.

use vstd::prelude::*;
use crate::text::{chars_of, push_char};

verus! {

/// First precomposed Hangul syllable (가).
pub const SYLLABLE_FIRST: u32 = 0xAC00;

/// Last precomposed Hangul syllable (힣).
pub const SYLLABLE_LAST: u32 = 0xD7A3;

/// `c` is a precomposed Hangul syllable.
pub open spec fn is_syllable(c: char) -> bool {
    0xAC00 <= (c as u32) <= 0xD7A3
}

/// Index of the final consonant of a syllable (0 when there is none).
pub open spec fn jong_index(c: char) -> int {
    ((c as u32) - 0xAC00) % 28
}

/// Index of the vowel of a syllable.
pub open spec fn vowel_index(c: char) -> int {
    (((c as u32) - 0xAC00) / 28) % 21
}

/// The syllable `c` with its final consonant (of index `k`) removed, when
/// `c` is a syllable whose final consonant has index `k`.
pub open spec fn spec_remove_jong(c: char, k: int) -> Option<char> {
    if is_syllable(c) && jong_index(c) == k {
        Some(((c as u32) - k) as char)
    } else {
        None
    }
}

/// `char::from_u32`: the scalar value `u`, or `None` for a surrogate or a
/// value past U+10FFFF.
#[verifier::external_body]
fn char_from_u32(u: u32) -> (r: Option<char>)
    ensures
        (u <= 0xD7FF || (0xE000 <= u && u <= 0x10FFFF)) ==> r == Some(u as char),
        !(u <= 0xD7FF || (0xE000 <= u && u <= 0x10FFFF)) ==> r.is_none(),
{
    char::from_u32(u)
}

/// Whether `ch` is a Hangul syllable with a final consonant (받침).
pub fn has_jongseong(ch: char) -> (r: bool)
    ensures
        r == (is_syllable(ch) && jong_index(ch) != 0),
{
    let code = ch as u32;
    if SYLLABLE_FIRST <= code && code <= SYLLABLE_LAST {
        (code - SYLLABLE_FIRST) % 28 != 0
    } else {
        false
    }
}

fn remove_jong(ch: char, k: u32) -> (r: Option<char>)
    requires
        0 < k < 28,
    ensures
        r == spec_remove_jong(ch, k as int),
{
    let code = ch as u32;
    if SYLLABLE_FIRST <= code && code <= SYLLABLE_LAST {
        let jong = (code - SYLLABLE_FIRST) % 28;
        if jong == k {
            let new_code = code - k;
            char_from_u32(new_code)
        } else {
            None
        }
    } else {
        None
    }
}

/// Removes a final ㄹ: 할 → 하, 갈 → 가, 볼 → 보.
pub fn remove_jongseong_rieul(ch: char) -> (r: Option<char>)
    ensures
        r == spec_remove_jong(ch, 8),
{
    remove_jong(ch, 8)
}

/// Removes a final ㄴ: 간 → 가, 산 → 사, 온 → 오.
pub fn remove_jongseong_nieun(ch: char) -> (r: Option<char>)
    ensures
        r == spec_remove_jong(ch, 4),
{
    remove_jong(ch, 4)
}

/// Removes a final ㅂ: 합 → 하, 갑 → 가, 옵 → 오.
pub fn remove_jongseong_bieup(ch: char) -> (r: Option<char>)
    ensures
        r == spec_remove_jong(ch, 17),
{
    remove_jong(ch, 17)
}

/// The 21 medial vowels, in syllable order.
pub open spec fn vowel_table() -> Seq<char> {
    seq![
        'ㅏ', 'ㅐ', 'ㅑ', 'ㅒ', 'ㅓ', 'ㅔ', 'ㅕ', 'ㅖ', 'ㅗ', 'ㅘ', 'ㅙ', 'ㅚ', 'ㅛ', 'ㅜ',
        'ㅝ', 'ㅞ', 'ㅟ', 'ㅠ', 'ㅡ', 'ㅢ', 'ㅣ',
    ]
}

/// The vowel of a syllable; any other character is returned as it is.
pub open spec fn spec_extract_vowel(c: char) -> char {
    if is_syllable(c) {
        vowel_table()[vowel_index(c)]
    } else {
        c
    }
}

/// The vowel of a Hangul syllable (각 → ㅏ); other characters unchanged.
pub fn extract_vowel(ch: char) -> (r: char)
    ensures
        r == spec_extract_vowel(ch),
{
    let code = ch as u32;
    if SYLLABLE_FIRST <= code && code <= SYLLABLE_LAST {
        let vowel_idx = ((code - SYLLABLE_FIRST) / 28) % 21;
        let vowels: [char; 21] = [
            'ㅏ', 'ㅐ', 'ㅑ', 'ㅒ', 'ㅓ', 'ㅔ', 'ㅕ', 'ㅖ', 'ㅗ', 'ㅘ', 'ㅙ', 'ㅚ', 'ㅛ', 'ㅜ',
            'ㅝ', 'ㅞ', 'ㅟ', 'ㅠ', 'ㅡ', 'ㅢ', 'ㅣ',
        ];
        assert(vowels@ =~= vowel_table());
        vowels[vowel_idx as usize]
    } else {
        ch
    }
}

/// Compatibility jamo for the 27 final-consonant jamo U+11A8..U+11C2.
pub open spec fn jong_compat_table() -> Seq<char> {
    seq![
        'ㄱ', 'ㄲ', 'ㄳ', 'ㄴ', 'ㄵ', 'ㄶ', 'ㄷ', 'ㄹ', 'ㄺ', 'ㄻ', 'ㄼ', 'ㄽ', 'ㄾ', 'ㄿ',
        'ㅀ', 'ㅁ', 'ㅂ', 'ㅄ', 'ㅅ', 'ㅆ', 'ㅇ', 'ㅈ', 'ㅊ', 'ㅋ', 'ㅌ', 'ㅍ', 'ㅎ',
    ]
}

/// A final-consonant jamo mapped to its compatibility jamo; other
/// characters unchanged.
pub open spec fn spec_jamo_compat(c: char) -> char {
    if 0x11A8 <= (c as u32) <= 0x11C2 {
        jong_compat_table()[(c as u32) - 0x11A8]
    } else {
        c
    }
}

/// Normalises a string: every final-consonant jamo becomes the matching
/// compatibility jamo.
pub open spec fn spec_normalize_jamo(s: Seq<char>) -> Seq<char> {
    s.map_values(|c: char| spec_jamo_compat(c))
}

fn jamo_compat(c: char) -> (r: char)
    ensures
        r == spec_jamo_compat(c),
{
    let code = c as u32;
    if 0x11A8 <= code && code <= 0x11C2 {
        let table: [char; 27] = [
            'ㄱ', 'ㄲ', 'ㄳ', 'ㄴ', 'ㄵ', 'ㄶ', 'ㄷ', 'ㄹ', 'ㄺ', 'ㄻ', 'ㄼ', 'ㄽ', 'ㄾ', 'ㄿ',
            'ㅀ', 'ㅁ', 'ㅂ', 'ㅄ', 'ㅅ', 'ㅆ', 'ㅇ', 'ㅈ', 'ㅊ', 'ㅋ', 'ㅌ', 'ㅍ', 'ㅎ',
        ];
        assert(table@ =~= jong_compat_table());
        table[(code - 0x11A8) as usize]
    } else {
        c
    }
}

/// A final-consonant jamo (U+11A8..U+11C2).
pub open spec fn is_final_jamo(c: char) -> bool {
    0x11A8 <= (c as u32) <= 0x11C2
}

/// A compatibility consonant jamo (U+3131..U+314E) that can end a
/// syllable: any but ㄸ, ㅃ and ㅉ.
pub open spec fn is_final_compat_consonant(c: char) -> bool {
    0x3131 <= (c as u32) <= 0x314E && c != 'ㄸ' && c != 'ㅃ' && c != 'ㅉ'
}

proof fn lemma_jong_compat_table_increasing()
    ensures
        forall|k: int| 0 <= k < 26 ==> (jong_compat_table()[k] as u32) < (#[trigger] jong_compat_table()[k + 1] as u32),
        forall|k: int| 0 <= k < 27 ==> is_final_compat_consonant(#[trigger] jong_compat_table()[k]),
{
}

proof fn lemma_jong_compat_table_order(j: int, k: int)
    requires
        0 <= j < k < 27,
    ensures
        (jong_compat_table()[j] as u32) < (jong_compat_table()[k] as u32),
    decreases k - j,
{
    lemma_jong_compat_table_increasing();
    if j + 1 < k {
        lemma_jong_compat_table_order(j + 1, k);
        assert((jong_compat_table()[j] as u32) < (jong_compat_table()[j + 1] as u32));
    } else {
        assert((jong_compat_table()[j] as u32) < (jong_compat_table()[j + 1] as u32));
    }
}

/// Jamo normalisation maps the final consonants, in their order, onto the
/// compatibility consonants that can end a syllable, one to one: each
/// final jamo becomes such a consonant, a later final jamo a later one (so
/// distinct final jamo stay distinct), and every other character is kept.
/// (The 27 final consonants and the 27 compatibility consonants other than
/// ㄸ, ㅃ, ㅉ come in the same order, so this fixes the map: ᆷ becomes ㅁ.)
pub proof fn lemma_normalize_jamo_finals(text: Seq<char>)
    ensures
        spec_normalize_jamo(text).len() == text.len(),
        forall|k: int| 0 <= k < text.len() && is_final_jamo(text[k])
            ==> is_final_compat_consonant(#[trigger] spec_normalize_jamo(text)[k]),
        forall|k: int| 0 <= k < text.len() && !is_final_jamo(text[k])
            ==> #[trigger] spec_normalize_jamo(text)[k] == text[k],
        forall|j: int, k: int| 0 <= j < text.len() && 0 <= k < text.len() && is_final_jamo(text[j])
            && is_final_jamo(text[k]) && (text[j] as u32) < (text[k] as u32)
            ==> (#[trigger] spec_normalize_jamo(text)[j] as u32) < (#[trigger] spec_normalize_jamo(text)[k] as u32),
{
    lemma_jong_compat_table_increasing();
    let r = spec_normalize_jamo(text);
    assert forall|j: int, k: int| 0 <= j < text.len() && 0 <= k < text.len() && is_final_jamo(text[j])
        && is_final_jamo(text[k]) && (text[j] as u32) < (text[k] as u32)
        implies (#[trigger] r[j] as u32) < (#[trigger] r[k] as u32) by {
        lemma_jong_compat_table_order((text[j] as u32) - 0x11A8, (text[k] as u32) - 0x11A8);
    }
}

/// Final-consonant jamo (U+11A8..U+11C2) become compatibility jamo
/// (U+3131..U+314E); everything else is kept.
pub fn normalize_jamo(text: &str) -> (r: String)
    ensures
        r@ == spec_normalize_jamo(text@),
{
    let cs = chars_of(text);
    let mut r = String::new();
    let mut i: usize = 0;
    while i < cs.len()
        invariant
            i <= cs@.len(),
            cs@ == text@,
            r@ == spec_normalize_jamo(text@.subrange(0, i as int)),
        decreases cs@.len() - i,
    {
        let c = jamo_compat(cs[i]);
        push_char(&mut r, c);
        i += 1;
        assert(r@ =~= spec_normalize_jamo(text@.subrange(0, i as int)));
    }
    assert(text@.subrange(0, text@.len() as int) =~= text@);
    r
}

/// Normalisation keeps the length and leaves every character other than a
/// final-consonant jamo in place; normalising twice is normalising once.
pub proof fn lemma_normalize_jamo_idempotent(s: Seq<char>)
    ensures
        spec_normalize_jamo(s).len() == s.len(),
        spec_normalize_jamo(spec_normalize_jamo(s)) == spec_normalize_jamo(s),
        forall|i: int| 0 <= i < s.len() && !(0x11A8 <= (s[i] as u32) <= 0x11C2)
            ==> #[trigger] spec_normalize_jamo(s)[i] == s[i],
{
    let t = spec_normalize_jamo(s);
    assert forall|i: int| 0 <= i < t.len() implies #[trigger] spec_jamo_compat(t[i]) == t[i] by {
        let c = s[i];
        if 0x11A8 <= (c as u32) <= 0x11C2 {
            let k = (c as u32) - 0x11A8;
            assert(0x3131 <= (jong_compat_table()[k] as u32) <= 0x314E);
        }
    }
    assert(spec_normalize_jamo(t) =~= t);
}

/// `s` is not empty and its last character is a syllable with a final consonant.
pub open spec fn ends_in_jongseong(s: Seq<char>) -> bool {
    s.len() > 0 && is_syllable(s.last()) && jong_index(s.last()) != 0
}

/// `s` is not empty and its last character is not a syllable with a final consonant.
pub open spec fn ends_in_open_syllable(s: Seq<char>) -> bool {
    s.len() > 0 && !(is_syllable(s.last()) && jong_index(s.last()) != 0)
}

/// Whether `s` ends in a character with a final consonant; `None` for an empty `s`.
pub fn last_has_jongseong(s: &str) -> (r: Option<bool>)
    ensures
        s@.len() == 0 ==> r.is_none(),
        s@.len() > 0 ==> r == Some(is_syllable(s@.last()) && jong_index(s@.last()) != 0),
{
    let n = s.unicode_len();
    if n == 0 {
        None
    } else {
        Some(has_jongseong(s.get_char(n - 1)))
    }
}

/// A final-consonant jamo of an adnominal ending in compatibility form:
/// ᆫ → ㄴ, ᆯ → ㄹ, ᆷ → ㅁ; other characters unchanged.
pub open spec fn etm_jamo_char(c: char) -> char {
    if c == 'ᆫ' {
        'ㄴ'
    } else if c == 'ᆯ' {
        'ㄹ'
    } else if c == 'ᆷ' {
        'ㅁ'
    } else {
        c
    }
}

/// `s` with [`etm_jamo_char`] applied to every character.
pub open spec fn spec_etm_jamo(s: Seq<char>) -> Seq<char> {
    s.map_values(|c: char| etm_jamo_char(c))
}

/// `s` with ᆫ, ᆯ, ᆷ replaced by ㄴ, ㄹ, ㅁ.
pub fn normalize_etm_jamo(s: &str) -> (r: String)
    ensures
        r@ == spec_etm_jamo(s@),
{
    let n = s.unicode_len();
    let mut out = String::new();
    let mut i: usize = 0;
    while i < n
        invariant
            n == s@.len(),
            i <= n,
            out@ == s@.take(i as int).map_values(|c: char| etm_jamo_char(c)),
        decreases n - i,
    {
        let c = s.get_char(i);
        let d = if c == 'ᆫ' {
            'ㄴ'
        } else if c == 'ᆯ' {
            'ㄹ'
        } else if c == 'ᆷ' {
            'ㅁ'
        } else {
            c
        };
        crate::text::push_char(&mut out, d);
        i += 1;
        assert(out@ =~= s@.take(i as int).map_values(|c: char| etm_jamo_char(c)));
    }
    assert(s@.take(n as int) =~= s@);
    out
}

/// Removing a final consonant from a syllable leaves a syllable with no
/// final consonant and the same vowel (할 → 하: both have the vowel ㅏ).
pub proof fn lemma_remove_jong_keeps_vowel(c: char, k: int)
    requires
        0 < k < 28,
        spec_remove_jong(c, k) is Some,
    ensures
        is_syllable(spec_remove_jong(c, k)->0),
        jong_index(spec_remove_jong(c, k)->0) == 0,
        vowel_index(spec_remove_jong(c, k)->0) == vowel_index(c),
        spec_extract_vowel(spec_remove_jong(c, k)->0) == spec_extract_vowel(c),
{
    let x = (c as u32) - 0xAC00;
    let y = x - k;
    assert(x % 28 == k);
    assert(y % 28 == 0 && y / 28 == x / 28) by (nonlinear_arith)
        requires
            0 <= x,
            x % 28 == k,
            y == x - k,
            0 < k < 28,
    {
        let q = x / 28;
        assert(x == 28 * q + k);
        assert(y == 28 * q);
    }
    let d = spec_remove_jong(c, k)->0;
    assert(d as u32 == (c as u32) - k);
}

/// The syllables ㅇ + vowel for the 21 vowels, in vowel order (아 … 이).
pub open spec fn vowel_syllable_table() -> Seq<char> {
    seq![
        '아', '애', '야', '얘', '어', '에', '여', '예', '오', '와', '왜', '외', '요', '우',
        '워', '웨', '위', '유', '으', '의', '이',
    ]
}

/// A standalone vowel jamo (ㅏ U+314F … ㅣ U+3163) written as a full syllable
/// with the silent initial ㅇ (ㅓ → 어); any other character unchanged.
pub open spec fn spec_compose_vowel(c: char) -> char {
    if 0x314F <= (c as u32) <= 0x3163 {
        vowel_syllable_table()[(c as u32) - 0x314F]
    } else {
        c
    }
}

/// Every standalone vowel jamo of `s` composed into a full syllable.
pub open spec fn spec_compose_vowels(s: Seq<char>) -> Seq<char> {
    s.map_values(|c: char| spec_compose_vowel(c))
}

fn compose_vowel(c: char) -> (r: char)
    ensures
        r == spec_compose_vowel(c),
{
    let code = c as u32;
    if 0x314F <= code && code <= 0x3163 {
        let table: [char; 21] = [
            '아', '애', '야', '얘', '어', '에', '여', '예', '오', '와', '왜', '외', '요', '우',
            '워', '웨', '위', '유', '으', '의', '이',
        ];
        assert(table@ =~= vowel_syllable_table());
        table[(code - 0x314F) as usize]
    } else {
        c
    }
}

/// Standalone vowel jamo composed into full syllables: "ㅓ요" → "어요".
pub fn compose_vowels(text: &str) -> (r: String)
    ensures
        r@ == spec_compose_vowels(text@),
{
    let n = text.unicode_len();
    let mut out = String::new();
    let mut i: usize = 0;
    while i < n
        invariant
            n == text@.len(),
            i <= n,
            out@ == text@.take(i as int).map_values(|c: char| spec_compose_vowel(c)),
        decreases n - i,
    {
        let c = compose_vowel(text.get_char(i));
        crate::text::push_char(&mut out, c);
        i += 1;
        assert(out@ =~= text@.take(i as int).map_values(|c: char| spec_compose_vowel(c)));
    }
    assert(text@.take(n as int) =~= text@);
    out
}

} // verus!
