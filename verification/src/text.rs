//! Character-level helpers on strings, each stated over the string's view
//! as a sequence of `char`s.

use vstd::prelude::*;

verus! {

/// `suffix` is a suffix of `s`.
pub open spec fn is_suffix(suffix: Seq<char>, s: Seq<char>) -> bool {
    suffix.len() <= s.len() && s.subrange(s.len() - suffix.len(), s.len() as int) == suffix
}

/// `prefix` is a prefix of `s`.
pub open spec fn is_prefix(prefix: Seq<char>, s: Seq<char>) -> bool {
    prefix.len() <= s.len() && s.subrange(0, prefix.len() as int) == prefix
}

/// `String::push`: appends one character.
#[verifier::external_body]
pub(crate) fn push_char(s: &mut String, c: char)
    ensures
        final(s)@ == old(s)@.push(c),
{
    s.push(c);
}

/// Mapping a sequence with one more element appended.
pub proof fn lemma_map_push<A, B>(s: Seq<A>, x: A, f: spec_fn(A) -> B)
    ensures
        s.push(x).map_values(f) == s.map_values(f).push(f(x)),
{
    assert(s.push(x).map_values(f) =~= s.map_values(f).push(f(x)));
}

/// The characters of `s`, in order.
pub fn chars_of(s: &str) -> (v: Vec<char>)
    ensures
        v@ == s@,
{
    let n = s.unicode_len();
    let mut v: Vec<char> = Vec::new();
    let mut i: usize = 0;
    while i < n
        invariant
            n == s@.len(),
            i <= n,
            v@ == s@.subrange(0, i as int),
        decreases n - i,
    {
        let c = s.get_char(i);
        v.push(c);
        i += 1;
        assert(v@ =~= s@.subrange(0, i as int));
    }
    assert(v@ =~= s@);
    v
}

/// The string made of the characters `v[lo..hi]`.
pub fn string_from_range(v: &[char], lo: usize, hi: usize) -> (s: String)
    requires
        lo <= hi <= v@.len(),
    ensures
        s@ == v@.subrange(lo as int, hi as int),
{
    let mut s = String::new();
    let mut i: usize = lo;
    while i < hi
        invariant
            lo <= i <= hi <= v@.len(),
            s@ == v@.subrange(lo as int, i as int),
        decreases hi - i,
    {
        push_char(&mut s, v[i]);
        i += 1;
        assert(s@ =~= v@.subrange(lo as int, i as int));
    }
    s
}

/// The string made of all of `v`.
pub fn string_from_chars(v: &[char]) -> (s: String)
    ensures
        s@ == v@,
{
    let s = string_from_range(v, 0, v.len());
    assert(v@.subrange(0, v@.len() as int) =~= v@);
    s
}

/// An owned copy of `s`.
pub fn owned(s: &str) -> (r: String)
    ensures
        r@ == s@,
{
    s.to_owned()
}

/// The one-character string `c`.
pub fn char_string(c: char) -> (r: String)
    ensures
        r@ == seq![c],
{
    let mut r = String::new();
    push_char(&mut r, c);
    assert(r@ =~= seq![c]);
    r
}

/// `a` followed by `b`.
pub fn concat(a: &str, b: &str) -> (r: String)
    ensures
        r@ == a@ + b@,
{
    let mut r = a.to_owned();
    let bc = chars_of(b);
    let mut i: usize = 0;
    while i < bc.len()
        invariant
            i <= bc@.len(),
            bc@ == b@,
            r@ == a@ + b@.subrange(0, i as int),
        decreases bc@.len() - i,
    {
        push_char(&mut r, bc[i]);
        i += 1;
        assert(r@ =~= a@ + b@.subrange(0, i as int));
    }
    assert(b@.subrange(0, b@.len() as int) =~= b@);
    r
}

/// Character-wise equality of two strings.
pub fn str_eq(a: &str, b: &str) -> (r: bool)
    ensures
        r == (a@ == b@),
{
    let n = a.unicode_len();
    let m = b.unicode_len();
    if n != m {
        return false;
    }
    let mut i: usize = 0;
    while i < n
        invariant
            n == a@.len(),
            n == b@.len(),
            i <= n,
            forall|j: int| 0 <= j < i ==> a@[j] == b@[j],
        decreases n - i,
    {
        if a.get_char(i) != b.get_char(i) {
            return false;
        }
        i += 1;
    }
    assert(a@ =~= b@);
    true
}

/// Whether `suffix` ends `s`.
pub fn ends_with(s: &str, suffix: &str) -> (r: bool)
    ensures
        r == is_suffix(suffix@, s@),
{
    let n = s.unicode_len();
    let m = suffix.unicode_len();
    if m > n {
        return false;
    }
    let mut i: usize = 0;
    while i < m
        invariant
            n == s@.len(),
            m == suffix@.len(),
            m <= n,
            i <= m,
            forall|j: int| 0 <= j < i ==> s@[n - m + j] == suffix@[j],
        decreases m - i,
    {
        if s.get_char(n - m + i) != suffix.get_char(i) {
            assert(s@.subrange(n - m, n as int)[i as int] != suffix@[i as int]);
            return false;
        }
        i += 1;
    }
    assert(s@.subrange(n - m, n as int) =~= suffix@);
    true
}

/// Whether `prefix` begins `s`.
pub fn starts_with(s: &str, prefix: &str) -> (r: bool)
    ensures
        r == is_prefix(prefix@, s@),
{
    let n = s.unicode_len();
    let m = prefix.unicode_len();
    if m > n {
        return false;
    }
    let mut i: usize = 0;
    while i < m
        invariant
            n == s@.len(),
            m == prefix@.len(),
            m <= n,
            i <= m,
            forall|j: int| 0 <= j < i ==> s@[j] == prefix@[j],
        decreases m - i,
    {
        if s.get_char(i) != prefix.get_char(i) {
            assert(s@.subrange(0, m as int)[i as int] != prefix@[i as int]);
            return false;
        }
        i += 1;
    }
    assert(s@.subrange(0, m as int) =~= prefix@);
    true
}

/// Whether `c` occurs in `s`.
pub fn contains_char(s: &str, c: char) -> (r: bool)
    ensures
        r == s@.contains(c),
{
    let n = s.unicode_len();
    let mut i: usize = 0;
    while i < n
        invariant
            n == s@.len(),
            i <= n,
            forall|j: int| 0 <= j < i ==> s@[j] != c,
        decreases n - i,
    {
        if s.get_char(i) == c {
            assert(s@[i as int] == c);
            return true;
        }
        i += 1;
    }
    false
}

/// Number of characters of `s`.
pub fn char_count(s: &str) -> (n: usize)
    ensures
        n == s@.len(),
{
    s.unicode_len()
}


/// The pieces of `s` between occurrences of `sep` (as `str::split` with a
/// `char` pattern yields them; empty pieces included).
pub open spec fn split_on(s: Seq<char>, sep: char) -> Seq<Seq<char>>
    decreases s.len(),
{
    if s.len() == 0 {
        seq![Seq::<char>::empty()]
    } else {
        let prev = split_on(s.drop_last(), sep);
        if s.last() == sep {
            prev.push(Seq::<char>::empty())
        } else {
            prev.update(prev.len() - 1, prev.last().push(s.last()))
        }
    }
}

/// The pieces joined back together, `sep` between consecutive pieces.
pub open spec fn join_on(pieces: Seq<Seq<char>>, sep: char) -> Seq<char>
    decreases pieces.len(),
{
    if pieces.len() == 0 {
        Seq::<char>::empty()
    } else if pieces.len() == 1 {
        pieces[0]
    } else {
        join_on(pieces.drop_last(), sep).push(sep) + pieces.last()
    }
}

/// Splitting yields at least one piece, and no piece contains the separator.
pub proof fn lemma_split_on_basic(s: Seq<char>, sep: char)
    ensures
        split_on(s, sep).len() >= 1,
        forall|k: int| 0 <= k < split_on(s, sep).len() ==> !(#[trigger] split_on(s, sep)[k]).contains(sep),
    decreases s.len(),
{
    if s.len() > 0 {
        lemma_split_on_basic(s.drop_last(), sep);
        let prev = split_on(s.drop_last(), sep);
        let r = split_on(s, sep);
        assert forall|k: int| 0 <= k < r.len() implies !(#[trigger] r[k]).contains(sep) by {
            if s.last() != sep && k == prev.len() - 1 {
                let p = prev.last();
                if r[k].contains(sep) {
                    let w = choose|w: int| 0 <= w < r[k].len() && r[k][w] == sep;
                    assert(r[k] == p.push(s.last()));
                    if w < p.len() {
                        assert(p[w] == sep);
                    }
                }
            } else if k < prev.len() {
                assert(r[k] == prev[k]);
            } else {
                assert(r[k] =~= Seq::<char>::empty());
            }
        }
    }
}

/// Joining the pieces of a split with the same separator gives back the
/// original string.
pub proof fn lemma_join_split(s: Seq<char>, sep: char)
    ensures
        join_on(split_on(s, sep), sep) == s,
    decreases s.len(),
{
    if s.len() > 0 {
        let t = s.drop_last();
        lemma_join_split(t, sep);
        lemma_split_on_basic(t, sep);
        let prev = split_on(t, sep);
        if s.last() == sep {
            let r = prev.push(Seq::<char>::empty());
            assert(r.drop_last() =~= prev);
            assert(join_on(r, sep) =~= t.push(sep));
        } else {
            lemma_join_update_last(prev, sep, s.last());
        }
        assert(t.push(s.last()) =~= s);
    }
}

/// Appending a character to the last piece appends it to the join.
pub proof fn lemma_join_update_last(pieces: Seq<Seq<char>>, sep: char, c: char)
    requires
        pieces.len() >= 1,
    ensures
        join_on(pieces.update(pieces.len() - 1, pieces.last().push(c)), sep) == join_on(pieces, sep).push(c),
{
    let r = pieces.update(pieces.len() - 1, pieces.last().push(c));
    if pieces.len() == 1 {
    } else {
        assert(r.drop_last() =~= pieces.drop_last());
        assert(r.last() == pieces.last().push(c));
        assert(join_on(pieces.drop_last(), sep).push(sep) + pieces.last().push(c)
            =~= (join_on(pieces.drop_last(), sep).push(sep) + pieces.last()).push(c));
    }
}

/// The pieces of `s` between occurrences of `sep`.
pub fn split_char(s: &str, sep: char) -> (r: Vec<String>)
    ensures
        crate::tag_map::strings_view(r@) == split_on(s@, sep),
{
    let cs = chars_of(s);
    let mut pieces: Vec<String> = Vec::new();
    let mut cur: Vec<char> = Vec::new();
    let mut i: usize = 0;
    assert(s@.subrange(0, 0) =~= Seq::<char>::empty());
    assert(crate::tag_map::strings_view(pieces@).push(cur@) =~= seq![Seq::<char>::empty()]);
    while i < cs.len()
        invariant
            i <= cs@.len(),
            cs@ == s@,
            crate::tag_map::strings_view(pieces@).push(cur@) == split_on(s@.subrange(0, i as int), sep),
        decreases cs@.len() - i,
    {
        let c = cs[i];
        let ghost pre = s@.subrange(0, i as int);
        let ghost next = s@.subrange(0, i + 1);
        assert(next.drop_last() =~= pre);
        assert(next.last() == c);
        let ghost old_pieces = crate::tag_map::strings_view(pieces@);
        let ghost old_cur = cur@;
        if c == sep {
            let piece = string_from_chars(cur.as_slice());
            let ghost op = pieces@;
            pieces.push(piece);
            assert(crate::tag_map::strings_view(pieces@) =~= old_pieces.push(old_cur)) by {
                assert(pieces@ == op.push(piece));
            }
            cur = Vec::new();
            assert(crate::tag_map::strings_view(pieces@).push(cur@) =~= old_pieces.push(old_cur).push(Seq::<char>::empty()));
        } else {
            cur.push(c);
            assert(crate::tag_map::strings_view(pieces@).push(cur@) =~= old_pieces.push(old_cur).update(old_pieces.len() as int, old_cur.push(c)));
        }
        i += 1;
    }
    let last = string_from_chars(cur.as_slice());
    let ghost op = pieces@;
    let ghost old_pieces = crate::tag_map::strings_view(pieces@);
    pieces.push(last);
    assert(pieces@ == op.push(last));
    assert(crate::tag_map::strings_view(pieces@) =~= old_pieces.push(cur@));
    assert(s@.subrange(0, s@.len() as int) =~= s@);
    pieces
}

/// `c` is a white-space character (the Unicode White_Space property, which
/// `char::is_whitespace` and `str::trim` go by).
pub open spec fn is_white_space(c: char) -> bool {
    let u = c as u32;
    (0x09 <= u <= 0x0D) || u == 0x20 || u == 0x85 || u == 0xA0 || u == 0x1680
        || (0x2000 <= u <= 0x200A) || u == 0x2028 || u == 0x2029 || u == 0x202F
        || u == 0x205F || u == 0x3000
}

/// Whether `c` is white space.
pub fn is_whitespace(c: char) -> (r: bool)
    ensures
        r == is_white_space(c),
{
    let u = c as u32;
    (0x09 <= u && u <= 0x0D) || u == 0x20 || u == 0x85 || u == 0xA0 || u == 0x1680
        || (0x2000 <= u && u <= 0x200A) || u == 0x2028 || u == 0x2029 || u == 0x202F
        || u == 0x205F || u == 0x3000
}

/// `s` without its leading white space.
pub open spec fn trim_start(s: Seq<char>) -> Seq<char>
    decreases s.len(),
{
    if s.len() > 0 && is_white_space(s[0]) {
        trim_start(s.drop_first())
    } else {
        s
    }
}

/// `s` without its trailing white space.
pub open spec fn trim_end(s: Seq<char>) -> Seq<char>
    decreases s.len(),
{
    if s.len() > 0 && is_white_space(s.last()) {
        trim_end(s.drop_last())
    } else {
        s
    }
}

/// `s` without leading and trailing white space.
pub open spec fn trim(s: Seq<char>) -> Seq<char> {
    trim_end(trim_start(s))
}

/// `s` without leading and trailing white space.
pub fn trimmed(s: &str) -> (r: String)
    ensures
        r@ == trim(s@),
{
    let cs = chars_of(s);
    let n = cs.len();
    let mut lo: usize = 0;
    assert(s@.subrange(0, n as int) =~= s@);
    while lo < n && is_whitespace(cs[lo])
        invariant
            lo <= n,
            n == cs@.len(),
            cs@ == s@,
            trim_start(s@) == trim_start(s@.subrange(lo as int, n as int)),
        decreases n - lo,
    {
        let ghost t = s@.subrange(lo as int, n as int);
        assert(t.drop_first() =~= s@.subrange(lo + 1, n as int));
        lo += 1;
    }
    assert(trim_start(s@) == s@.subrange(lo as int, n as int)) by {
        assert(s@.subrange(0, n as int) =~= s@);
    }
    let mut hi: usize = n;
    while hi > lo && is_whitespace(cs[hi - 1])
        invariant
            lo <= hi <= n,
            n == cs@.len(),
            cs@ == s@,
            trim(s@) == trim_end(s@.subrange(lo as int, hi as int)),
        decreases hi - lo,
    {
        let ghost t = s@.subrange(lo as int, hi as int);
        assert(t.drop_last() =~= s@.subrange(lo as int, hi - 1));
        hi -= 1;
    }
    string_from_range(cs.as_slice(), lo, hi)
}


/// Every character is an ASCII letter.
pub open spec fn all_ascii_alpha(s: Seq<char>) -> bool {
    forall|j: int| 0 <= j < s.len() ==> ('a' <= #[trigger] s[j] <= 'z' || 'A' <= s[j] <= 'Z')
}

/// Every character is a Hangul syllable or a compatibility jamo.
pub open spec fn all_hangul(s: Seq<char>) -> bool {
    forall|j: int| 0 <= j < s.len() ==> (0xAC00 <= (#[trigger] s[j] as u32) <= 0xD7A3 || 0x3131 <= (s[j] as u32) <= 0x318E)
}

/// Whether every character is an ASCII letter.
pub fn is_all_ascii_alpha(s: &str) -> (r: bool)
    ensures
        r == all_ascii_alpha(s@),
{
    let n = s.unicode_len();
    let mut i: usize = 0;
    while i < n
        invariant
            n == s@.len(),
            i <= n,
            forall|j: int| 0 <= j < i ==> ('a' <= #[trigger] s@[j] <= 'z' || 'A' <= s@[j] <= 'Z'),
        decreases n - i,
    {
        let c = s.get_char(i);
        if !(('a' <= c && c <= 'z') || ('A' <= c && c <= 'Z')) {
            return false;
        }
        i += 1;
    }
    true
}

/// Whether every character is a Hangul syllable or a compatibility jamo.
pub fn is_all_hangul(s: &str) -> (r: bool)
    ensures
        r == all_hangul(s@),
{
    let n = s.unicode_len();
    let mut i: usize = 0;
    while i < n
        invariant
            n == s@.len(),
            i <= n,
            forall|j: int| 0 <= j < i ==> (0xAC00 <= (#[trigger] s@[j] as u32) <= 0xD7A3 || 0x3131 <= (s@[j] as u32) <= 0x318E),
        decreases n - i,
    {
        let c = s.get_char(i) as u32;
        if !((0xAC00 <= c && c <= 0xD7A3) || (0x3131 <= c && c <= 0x318E)) {
            return false;
        }
        i += 1;
    }
    true
}

/// The last character of `s`, if any.
pub fn last_char(s: &str) -> (r: Option<char>)
    ensures
        s@.len() == 0 ==> r.is_none(),
        s@.len() > 0 ==> r == Some(s@.last()),
{
    let n = s.unicode_len();
    if n == 0 {
        None
    } else {
        Some(s.get_char(n - 1))
    }
}

/// `s` with every trailing occurrence of `c` removed (`str::trim_end_matches`
/// with a one-character pattern).
pub open spec fn trim_char_end(s: Seq<char>, c: char) -> Seq<char>
    decreases s.len(),
{
    if s.len() > 0 && s.last() == c {
        trim_char_end(s.drop_last(), c)
    } else {
        s
    }
}

/// Removing trailing `c`s from a prefix that still ends in `c` gives what
/// removing them from the whole gives.
proof fn lemma_trim_char_end_prefix(s: Seq<char>, c: char, n: int)
    requires
        0 <= n <= s.len(),
        forall|j: int| n <= j < s.len() ==> s[j] == c,
    ensures
        trim_char_end(s, c) == trim_char_end(s.take(n), c),
    decreases s.len() - n,
{
    if n < s.len() {
        assert(s.drop_last() =~= s.take(s.len() - 1));
        lemma_trim_char_end_prefix(s.drop_last(), c, n);
        assert(s.drop_last().take(n) =~= s.take(n));
    } else {
        assert(s.take(n) =~= s);
    }
}

/// `s` with every trailing `c` removed.
pub fn trim_end_char(s: &str, c: char) -> (r: String)
    ensures
        r@ == trim_char_end(s@, c),
{
    let cs = chars_of(s);
    let mut n: usize = cs.len();
    while n > 0 && cs[n - 1] == c
        invariant
            cs@ == s@,
            n <= cs@.len(),
            forall|j: int| n <= j < cs@.len() ==> cs@[j] == c,
        decreases n,
    {
        n -= 1;
    }
    proof {
        lemma_trim_char_end_prefix(s@, c, n as int);
        let t = s@.take(n as int);
        if t.len() > 0 {
            assert(t.last() == s@[n - 1]);
        }
        assert(trim_char_end(t, c) == t);
        assert(s@.subrange(0, n as int) =~= t);
    }
    string_from_range(&cs, 0, n)
}

/// `sub` occurs in `s` at some position.
pub open spec fn has_infix(s: Seq<char>, sub: Seq<char>) -> bool {
    exists|k: int| 0 <= k && k + sub.len() <= s.len() && #[trigger] s.subrange(k, k + sub.len()) == sub
}

/// Whether `sub` occurs in `s` (`str::contains` with a string pattern).
pub fn contains_str(s: &str, sub: &str) -> (r: bool)
    ensures
        r == has_infix(s@, sub@),
{
    let cs = chars_of(s);
    let ps = chars_of(sub);
    if ps.len() > cs.len() {
        return false;
    }
    let total = cs.len();
    let n = total - ps.len();
    let mut k: usize = 0;
    while k <= n
        invariant
            total == cs@.len(),
            cs@ == s@,
            ps@ == sub@,
            n + ps@.len() == cs@.len(),
            k <= n + 1,
            forall|j: int| 0 <= j < k ==> #[trigger] s@.subrange(j, j + sub@.len()) != sub@,
        decreases n + 1 - k,
    {
        let mut m: usize = 0;
        let mut same = true;
        while m < ps.len()
            invariant
                total == cs@.len(),
                cs@ == s@,
                ps@ == sub@,
                n + ps@.len() == cs@.len(),
                k <= n,
                m <= ps@.len(),
                same == (forall|t: int| 0 <= t < m ==> cs@[k + t] == ps@[t]),
            decreases ps@.len() - m,
        {
            if cs[k + m] != ps[m] {
                same = false;
            }
            m += 1;
        }
        if same {
            assert(s@.subrange(k as int, k + sub@.len()) =~= sub@);
            return true;
        }
        assert(s@.subrange(k as int, k + sub@.len()) != sub@) by {
            let t = choose|t: int| 0 <= t < ps@.len() && cs@[k + t] != ps@[t];
            assert(s@.subrange(k as int, k + sub@.len())[t] != sub@[t]);
        }
        assert(ps@.len() > 0);
        k += 1;
    }
    false
}

/// Splitting `a + b`, where `b` holds no separator, extends the last piece of
/// `a`'s split by `b`.
pub proof fn lemma_split_on_append(a: Seq<char>, b: Seq<char>, sep: char)
    requires
        !b.contains(sep),
    ensures
        split_on(a + b, sep) == split_on(a, sep).update(
            split_on(a, sep).len() - 1,
            split_on(a, sep).last() + b,
        ),
    decreases b.len(),
{
    lemma_split_on_basic(a, sep);
    let sa = split_on(a, sep);
    if b.len() == 0 {
        assert(a + b =~= a);
        assert(sa.last() + b =~= sa.last());
        assert(sa.update(sa.len() - 1, sa.last() + b) =~= sa);
    } else {
        let b0 = b.drop_last();
        let c = b.last();
        assert(!b0.contains(sep)) by {
            if b0.contains(sep) {
                let w = choose|w: int| 0 <= w < b0.len() && b0[w] == sep;
                assert(b[w] == sep);
            }
        }
        assert(c != sep) by {
            assert(b[b.len() - 1] == c);
        }
        lemma_split_on_append(a, b0, sep);
        assert((a + b).drop_last() =~= a + b0);
        assert((a + b).last() == c);
        let prev = split_on(a + b0, sep);
        assert(prev.len() == sa.len());
        assert(prev.last() == sa.last() + b0);
        assert(prev.last().push(c) =~= sa.last() + b);
        assert(split_on(a + b, sep) == prev.update(prev.len() - 1, prev.last().push(c)));
        assert(prev.update(prev.len() - 1, sa.last() + b) =~= sa.update(sa.len() - 1, sa.last() + b));
    }
}

/// Splitting the join of pieces that hold no separator gives back the pieces.
pub proof fn lemma_split_join(pieces: Seq<Seq<char>>, sep: char)
    requires
        pieces.len() >= 1,
        forall|k: int| 0 <= k < pieces.len() ==> !(#[trigger] pieces[k]).contains(sep),
    ensures
        split_on(join_on(pieces, sep), sep) == pieces,
    decreases pieces.len(),
{
    if pieces.len() == 1 {
        let e = Seq::<char>::empty();
        lemma_split_on_append(e, pieces[0], sep);
        assert(e + pieces[0] =~= pieces[0]);
        assert(split_on(e, sep) =~= seq![e]);
        assert(e + pieces[0] =~= pieces[0]);
        assert(seq![e].update(0, e + pieces[0]) =~= pieces);
    } else {
        let init = pieces.drop_last();
        assert forall|k: int| 0 <= k < init.len() implies !(#[trigger] init[k]).contains(sep) by {
            assert(init[k] == pieces[k]);
        }
        lemma_split_join(init, sep);
        let j = join_on(init, sep);
        assert(!pieces.last().contains(sep)) by {
            assert(pieces[pieces.len() - 1] == pieces.last());
        }
        lemma_split_on_append(j.push(sep), pieces.last(), sep);
        assert(j.push(sep).drop_last() =~= j);
        let sp = split_on(j.push(sep), sep);
        assert(sp == init.push(Seq::<char>::empty()));
        assert(Seq::<char>::empty() + pieces.last() =~= pieces.last());
        assert(sp.update(sp.len() - 1, sp.last() + pieces.last()) =~= pieces);
    }
}

} // verus!
