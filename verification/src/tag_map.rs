//! The table that splits a compound part-of-speech tag into its parts.

use vstd::prelude::*;
use crate::text::{owned, str_eq};

verus! {

/// The views of a list of strings.
pub open spec fn strings_view(v: Seq<String>) -> Seq<Seq<char>> {
    v.map_values(|s: String| s@)
}

/// The views of a list of string slices.
pub open spec fn strs_view(v: Seq<&str>) -> Seq<Seq<char>> {
    v.map_values(|s: &str| s@)
}

/// One entry of the table: a compound tag and its parts.
pub open spec fn entry_view(e: (String, Vec<String>)) -> (Seq<char>, Seq<Seq<char>>) {
    (e.0@, strings_view(e.1@))
}

/// The value of the first entry whose key is `key`.
pub open spec fn lookup_in(entries: Seq<(Seq<char>, Seq<Seq<char>>)>, key: Seq<char>) -> Option<Seq<Seq<char>>>
    decreases entries.len(),
{
    if entries.len() == 0 {
        None
    } else if entries[0].0 == key {
        Some(entries[0].1)
    } else {
        lookup_in(entries.drop_first(), key)
    }
}

/// No two entries of `entries` have the same key.
pub open spec fn keys_distinct(entries: Seq<(Seq<char>, Seq<Seq<char>>)>) -> bool {
    forall|i: int, j: int| 0 <= i < j < entries.len() ==> entries[i].0 != entries[j].0
}

/// A table from compound tags to their parts; no tag has two entries.
pub struct TagMap {
    entries: Vec<(String, Vec<String>)>,
}

impl View for TagMap {
    type V = Seq<(Seq<char>, Seq<Seq<char>>)>;

    closed spec fn view(&self) -> Seq<(Seq<char>, Seq<Seq<char>>)> {
        self.entries@.map_values(|e: (String, Vec<String>)| entry_view(e))
    }
}

/// The tag table of the Sejong conversion, entry by entry.
pub open spec fn spec_tag_entries() -> Seq<(Seq<char>, Seq<Seq<char>>)> {
    seq![
        ("VV+EF"@, seq!["VV"@, "EF"@]),
        ("VV+EC"@, seq!["VV"@, "EC"@]),
        ("VV+ETM"@, seq!["VV"@, "ETM"@]),
        ("VV+ETN"@, seq!["VV"@, "ETN"@]),
        ("VV+EP"@, seq!["VV"@, "EP"@]),
        ("VV+EP+EF"@, seq!["VV"@, "EP"@, "EF"@]),
        ("VV+EP+EC"@, seq!["VV"@, "EP"@, "EC"@]),
        ("VV+EP+EP+EF"@, seq!["VV"@, "EP"@, "EP"@, "EF"@]),
        ("VA+EF"@, seq!["VA"@, "EF"@]),
        ("VA+EC"@, seq!["VA"@, "EC"@]),
        ("VA+ETM"@, seq!["VA"@, "ETM"@]),
        ("VA+EP"@, seq!["VA"@, "EP"@]),
        ("VA+EP+EF"@, seq!["VA"@, "EP"@, "EF"@]),
        ("VA+EP+EC"@, seq!["VA"@, "EP"@, "EC"@]),
        ("VV+EP+ETM"@, seq!["VV"@, "EP"@, "ETM"@]),
        ("VA+EP+ETM"@, seq!["VA"@, "EP"@, "ETM"@]),
        ("VA+ETN"@, seq!["VA"@, "ETN"@]),
        ("VX+EF"@, seq!["VX"@, "EF"@]),
        ("VX+EC"@, seq!["VX"@, "EC"@]),
        ("VX+EP"@, seq!["VX"@, "EP"@]),
        ("VX+EP+EF"@, seq!["VX"@, "EP"@, "EF"@]),
        ("VV+VX+EF"@, seq!["VV"@, "VX"@, "EF"@]),
        ("VCP+EF"@, seq!["VCP"@, "EF"@]),
        ("VCN+EF"@, seq!["VCN"@, "EF"@]),
        ("EP+EF"@, seq!["VCP"@, "EF"@]),
        ("EP+EP"@, seq!["EP"@, "EP"@]),
        ("NNG+JKS"@, seq!["NNG"@, "JKS"@]),
        ("NNG+JKC"@, seq!["NNG"@, "JKC"@]),
        ("NNG+JKG"@, seq!["NNG"@, "JKG"@]),
        ("NNG+JKO"@, seq!["NNG"@, "JKO"@]),
        ("NNG+JKB"@, seq!["NNG"@, "JKB"@]),
        ("NNG+JKV"@, seq!["NNG"@, "JKV"@]),
        ("NNG+JKQ"@, seq!["NNG"@, "JKQ"@]),
        ("NNP+JKS"@, seq!["NNP"@, "JKS"@]),
        ("NNP+JKO"@, seq!["NNP"@, "JKO"@]),
        ("NNP+JKB"@, seq!["NNP"@, "JKB"@]),
        ("NP+JKS"@, seq!["NP"@, "JKS"@]),
        ("NP+JKO"@, seq!["NP"@, "JKO"@]),
        ("NP+JKB"@, seq!["NP"@, "JKB"@]),
        ("NNG+JX"@, seq!["NNG"@, "JX"@]),
        ("NNP+JX"@, seq!["NNP"@, "JX"@]),
        ("NP+JX"@, seq!["NP"@, "JX"@]),
        ("NNG+JC"@, seq!["NNG"@, "JC"@]),
    ]
}

/// The character of `k` at `p` as a number, 0 past the end.
spec fn char_at(k: Seq<char>, p: int) -> int {
    if p < k.len() { k[p] as int } else { 0 }
}

/// The first eleven characters of `k` as the digits of a number in base
/// 128: keys of ASCII characters that differ there get different numbers.
spec fn key_code(k: Seq<char>) -> int {
    char_at(k, 0) * 1180591620717411303424
        + char_at(k, 1) * 9223372036854775808
        + char_at(k, 2) * 72057594037927936
        + char_at(k, 3) * 562949953421312
        + char_at(k, 4) * 4398046511104
        + char_at(k, 5) * 34359738368
        + char_at(k, 6) * 268435456
        + char_at(k, 7) * 2097152
        + char_at(k, 8) * 16384
        + char_at(k, 9) * 128
        + char_at(k, 10) * 1
}

/// No tag has two entries in the Sejong tag table.
#[verifier::rlimit(100)]
proof fn lemma_tag_entries_distinct()
    ensures
        keys_distinct(spec_tag_entries()),
{
    reveal_strlit("VV+EF");
    reveal_strlit("VV+EC");
    reveal_strlit("VV+ETM");
    reveal_strlit("VV+ETN");
    reveal_strlit("VV+EP");
    reveal_strlit("VV+EP+EF");
    reveal_strlit("VV+EP+EC");
    reveal_strlit("VV+EP+EP+EF");
    reveal_strlit("VA+EF");
    reveal_strlit("VA+EC");
    reveal_strlit("VA+ETM");
    reveal_strlit("VA+EP");
    reveal_strlit("VA+EP+EF");
    reveal_strlit("VA+EP+EC");
    reveal_strlit("VV+EP+ETM");
    reveal_strlit("VA+EP+ETM");
    reveal_strlit("VA+ETN");
    reveal_strlit("VX+EF");
    reveal_strlit("VX+EC");
    reveal_strlit("VX+EP");
    reveal_strlit("VX+EP+EF");
    reveal_strlit("VV+VX+EF");
    reveal_strlit("VCP+EF");
    reveal_strlit("VCN+EF");
    reveal_strlit("EP+EF");
    reveal_strlit("EP+EP");
    reveal_strlit("NNG+JKS");
    reveal_strlit("NNG+JKC");
    reveal_strlit("NNG+JKG");
    reveal_strlit("NNG+JKO");
    reveal_strlit("NNG+JKB");
    reveal_strlit("NNG+JKV");
    reveal_strlit("NNG+JKQ");
    reveal_strlit("NNP+JKS");
    reveal_strlit("NNP+JKO");
    reveal_strlit("NNP+JKB");
    reveal_strlit("NP+JKS");
    reveal_strlit("NP+JKO");
    reveal_strlit("NP+JKB");
    reveal_strlit("NNG+JX");
    reveal_strlit("NNP+JX");
    reveal_strlit("NP+JX");
    reveal_strlit("NNG+JC");
    let es = spec_tag_entries();
    assert forall|i: int, j: int| 0 <= i < j < es.len() implies es[i].0 != es[j].0 by {
        assert(key_code(es[i].0) != key_code(es[j].0));
    }
}

/// Copies of the strings `v`.
pub fn clone_strings(v: &Vec<String>) -> (r: Vec<String>)
    ensures
        strings_view(r@) == strings_view(v@),
{
    let mut r: Vec<String> = Vec::new();
    let mut i: usize = 0;
    while i < v.len()
        invariant
            i <= v@.len(),
            strings_view(r@) == strings_view(v@.subrange(0, i as int)),
        decreases v@.len() - i,
    {
        let ghost old_r = r@;
        let x = v[i].clone();
        r.push(x);
        i += 1;
        assert(r@ == old_r.push(x));
        assert(strings_view(old_r).len() == i - 1);
        assert forall|j: int| 0 <= j < i implies #[trigger] strings_view(r@)[j] == strings_view(v@.subrange(0, i as int))[j] by {
            if j < i - 1 {
                assert(strings_view(old_r)[j] == strings_view(v@.subrange(0, i - 1))[j]);
                assert(r@[j] == old_r[j]);
            } else {
                assert(r@[j] == x);
            }
        }
        assert(strings_view(r@) =~= strings_view(v@.subrange(0, i as int)));
    }
    assert(v@.subrange(0, v@.len() as int) =~= v@);
    r
}

fn entry2(key: &str, a: &str, b: &str) -> (e: (String, Vec<String>))
    ensures
        entry_view(e) == (key@, seq![a@, b@]),
{
    let v = vec![owned(a), owned(b)];
    assert(strings_view(v@) =~= seq![a@, b@]);
    (owned(key), v)
}

fn entry3(key: &str, a: &str, b: &str, c: &str) -> (e: (String, Vec<String>))
    ensures
        entry_view(e) == (key@, seq![a@, b@, c@]),
{
    let v = vec![owned(a), owned(b), owned(c)];
    assert(strings_view(v@) =~= seq![a@, b@, c@]);
    (owned(key), v)
}

fn entry4(key: &str, a: &str, b: &str, c: &str, d: &str) -> (e: (String, Vec<String>))
    ensures
        entry_view(e) == (key@, seq![a@, b@, c@, d@]),
{
    let v = vec![owned(a), owned(b), owned(c), owned(d)];
    assert(strings_view(v@) =~= seq![a@, b@, c@, d@]);
    (owned(key), v)
}

impl TagMap {
    #[verifier::type_invariant]
    spec fn inv(self) -> bool {
        keys_distinct(self@)
    }

    /// The parts of the compound tag `key`, if the table has it; no other
    /// entry has that key.
    pub fn get(&self, key: &str) -> (r: Option<&Vec<String>>)
        ensures
            keys_distinct(self@),
            match r {
                Some(v) => lookup_in(self@, key@) == Some(strings_view(v@)),
                None => lookup_in(self@, key@).is_none(),
            },
    {
        proof {
            use_type_invariant(self);
        }
        let mut i: usize = 0;
        assert(self@.subrange(0, self@.len() as int) =~= self@);
        while i < self.entries.len()
            invariant
                i <= self@.len(),
                self@.len() == self.entries@.len(),
                keys_distinct(self@),
                lookup_in(self@, key@) == lookup_in(self@.subrange(i as int, self@.len() as int), key@),
            decreases self@.len() - i,
        {
            let ghost rest = self@.subrange(i as int, self@.len() as int);
            assert(rest[0] == entry_view(self.entries@[i as int]));
            if str_eq(self.entries[i].0.as_str(), key) {
                return Some(&self.entries[i].1);
            }
            assert(rest.drop_first() =~= self@.subrange(i + 1, self@.len() as int));
            i += 1;
        }
        None
    }
}

/// The Sejong tag table: each compound tag of mecab-ko-dic with the tags
/// it is split into.
#[verifier::rlimit(60)]
pub fn init_tag_map() -> (m: TagMap)
    ensures
        m@ == spec_tag_entries(),
        keys_distinct(m@),
{
    let mut entries: Vec<(String, Vec<String>)> = Vec::new();
    entries.push(entry2("VV+EF", "VV", "EF"));
    entries.push(entry2("VV+EC", "VV", "EC"));
    entries.push(entry2("VV+ETM", "VV", "ETM"));
    entries.push(entry2("VV+ETN", "VV", "ETN"));
    entries.push(entry2("VV+EP", "VV", "EP"));
    entries.push(entry3("VV+EP+EF", "VV", "EP", "EF"));
    entries.push(entry3("VV+EP+EC", "VV", "EP", "EC"));
    entries.push(entry4("VV+EP+EP+EF", "VV", "EP", "EP", "EF"));
    entries.push(entry2("VA+EF", "VA", "EF"));
    entries.push(entry2("VA+EC", "VA", "EC"));
    entries.push(entry2("VA+ETM", "VA", "ETM"));
    entries.push(entry2("VA+EP", "VA", "EP"));
    entries.push(entry3("VA+EP+EF", "VA", "EP", "EF"));
    entries.push(entry3("VA+EP+EC", "VA", "EP", "EC"));
    entries.push(entry3("VV+EP+ETM", "VV", "EP", "ETM"));
    entries.push(entry3("VA+EP+ETM", "VA", "EP", "ETM"));
    entries.push(entry2("VA+ETN", "VA", "ETN"));
    entries.push(entry2("VX+EF", "VX", "EF"));
    entries.push(entry2("VX+EC", "VX", "EC"));
    entries.push(entry2("VX+EP", "VX", "EP"));
    entries.push(entry3("VX+EP+EF", "VX", "EP", "EF"));
    entries.push(entry3("VV+VX+EF", "VV", "VX", "EF"));
    entries.push(entry2("VCP+EF", "VCP", "EF"));
    entries.push(entry2("VCN+EF", "VCN", "EF"));
    entries.push(entry2("EP+EF", "VCP", "EF"));
    entries.push(entry2("EP+EP", "EP", "EP"));
    entries.push(entry2("NNG+JKS", "NNG", "JKS"));
    entries.push(entry2("NNG+JKC", "NNG", "JKC"));
    entries.push(entry2("NNG+JKG", "NNG", "JKG"));
    entries.push(entry2("NNG+JKO", "NNG", "JKO"));
    entries.push(entry2("NNG+JKB", "NNG", "JKB"));
    entries.push(entry2("NNG+JKV", "NNG", "JKV"));
    entries.push(entry2("NNG+JKQ", "NNG", "JKQ"));
    entries.push(entry2("NNP+JKS", "NNP", "JKS"));
    entries.push(entry2("NNP+JKO", "NNP", "JKO"));
    entries.push(entry2("NNP+JKB", "NNP", "JKB"));
    entries.push(entry2("NP+JKS", "NP", "JKS"));
    entries.push(entry2("NP+JKO", "NP", "JKO"));
    entries.push(entry2("NP+JKB", "NP", "JKB"));
    entries.push(entry2("NNG+JX", "NNG", "JX"));
    entries.push(entry2("NNP+JX", "NNP", "JX"));
    entries.push(entry2("NP+JX", "NP", "JX"));
    entries.push(entry2("NNG+JC", "NNG", "JC"));
    proof {
        assert(entries@.map_values(|e: (String, Vec<String>)| entry_view(e)) =~= spec_tag_entries());
        lemma_tag_entries_distinct();
    }
    TagMap { entries }
}

} // verus!
