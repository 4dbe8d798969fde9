//! The converter from mecab-ko-dic tokens to Sejong corpus tokens.

use vstd::prelude::*;
use crate::hangul::{normalize_jamo as hangul_normalize_jamo, spec_normalize_jamo};
use crate::splitter::{
    is_compound_tag, pairs_view, rules_view, rules_well_formed, spec_split_compound_tag,
    spec_split_morpheme, split_compound_tag, split_morpheme, spec_split_prefinal_ending,
};
use crate::tag_map::{init_tag_map, spec_tag_entries, strings_view, TagMap};
use crate::text::{char_count, concat, join_on, owned, split_char, split_on, str_eq, trim, trimmed};
use crate::types::{
    plain_view, split_view, DecomposedMorpheme, EndingRule, SejongToken, Token, TokenView,
};

verus! {

/// The views of decomposed morphemes as (surface, tag) pairs.
pub open spec fn morphemes_view(v: Seq<DecomposedMorpheme>) -> Seq<(Seq<char>, Seq<char>)> {
    v.map_values(|m: DecomposedMorpheme| (m.surface@, m.pos@))
}

/// A piece of a decomposition that names something (not empty, not `*`).
pub open spec fn is_named(s: Seq<char>) -> bool {
    s.len() > 0 && s != "*"@
}

/// The morpheme written by one `surface/POS/*` piece, if it names both.
pub open spec fn parse_piece(part: Seq<char>) -> Option<(Seq<char>, Seq<char>)> {
    let p = trim(part);
    let segs = split_on(p, '/');
    if p.len() > 0 && segs.len() >= 2 && is_named(segs[0]) && is_named(segs[1]) {
        Some((segs[0], segs[1]))
    } else {
        None
    }
}

/// The morphemes written by the pieces, in order, skipping the others.
pub open spec fn parse_pieces(parts: Seq<Seq<char>>) -> Seq<(Seq<char>, Seq<char>)>
    decreases parts.len(),
{
    if parts.len() == 0 {
        Seq::empty()
    } else {
        let prev = parse_pieces(parts.drop_last());
        match parse_piece(parts.last()) {
            Some(m) => prev.push(m),
            None => prev,
        }
    }
}

/// The morphemes of a decomposition column `stem/POS/*+ending/POS/*`.
pub open spec fn spec_parse_decomposition(d: Seq<char>) -> Seq<(Seq<char>, Seq<char>)> {
    if d.len() == 0 || d == "*"@ {
        Seq::empty()
    } else {
        parse_pieces(split_on(d, '+'))
    }
}

/// The decomposition column (the eighth comma-separated feature), trimmed,
/// when it names something.
pub open spec fn spec_extract_decomposition(features: Seq<char>) -> Option<Seq<char>> {
    let fields = split_on(features, ',');
    if fields.len() >= 8 && is_named(trim(fields[7])) {
        Some(trim(fields[7]))
    } else {
        None
    }
}

/// Tokens for consecutive pieces of one analysis, each placed after the
/// previous one (offsets saturate at `usize::MAX`).
pub open spec fn place_pieces(
    pieces: Seq<(Seq<char>, Seq<char>)>,
    cur: usize,
    orig_surface: Seq<char>,
    orig_pos: Seq<char>,
) -> Seq<TokenView>
    decreases pieces.len(),
{
    if pieces.len() == 0 {
        Seq::empty()
    } else {
        let end = cur.saturating_add(pieces[0].0.len() as usize);
        seq![split_view(pieces[0].0, pieces[0].1, cur, end, orig_surface, orig_pos)]
            + place_pieces(pieces.drop_first(), end, orig_surface, orig_pos)
    }
}

/// The decomposition the converter uses for `token`, if any: the column is
/// enabled and present, the token is not one of those the dictionary
/// decomposes wrongly, its tags joined by `+` are the token's tag, and a
/// single morpheme keeps the token's surface.
pub open spec fn spec_used_decomposition(
    use_decomposition: bool,
    surface: Seq<char>,
    pos: Seq<char>,
    features: Seq<char>,
) -> Option<Seq<(Seq<char>, Seq<char>)>> {
    let skip = surface == "는다"@ && pos == "VV+EC"@;
    let forced = pos == "VV+EF"@ && (surface == "들리다"@ || surface == "놀리다"@);
    if use_decomposition && features.len() > 0 && !skip && !forced {
        match spec_extract_decomposition(features) {
            Some(d) => {
                let ms = spec_parse_decomposition(d);
                if ms.len() > 0 && join_on(ms.map_values(|m: (Seq<char>, Seq<char>)| m.1), '+') == pos
                    && !(ms.len() == 1 && ms[0].0 != surface) {
                    Some(ms)
                } else {
                    None
                }
            },
            None => None,
        }
    } else {
        None
    }
}

/// The Sejong tokens of one analyser token.
pub open spec fn spec_convert_token(
    use_decomposition: bool,
    m: Seq<(Seq<char>, Seq<Seq<char>>)>,
    rules: Seq<(Seq<char>, Seq<Seq<char>>, Seq<Seq<char>>)>,
    surface: Seq<char>,
    pos: Seq<char>,
    features: Seq<char>,
    start: usize,
    end: usize,
) -> Seq<TokenView> {
    match spec_used_decomposition(use_decomposition, surface, pos, features) {
        Some(ms) => place_pieces(ms, start, surface, pos),
        None => {
            let ps = spec_split_morpheme(surface, pos, m, rules);
            if ps.len() == 1 {
                seq![plain_view(surface, ps[0].1, start, end)]
            } else {
                place_pieces(ps, start, surface, pos)
            }
        },
    }
}

/// The views of a list of tokens.
pub open spec fn tokens_view(v: Seq<SejongToken>) -> Seq<TokenView> {
    v.map_values(|t: SejongToken| t@)
}

/// One token in the Sejong text format: the normalised surface, `/`, the tag.
pub open spec fn spec_format_token(t: TokenView) -> Seq<char> {
    spec_normalize_jamo(t.surface) + "/"@ + t.pos
}

/// Tokens in the Sejong text format, separated by single spaces.
pub open spec fn spec_format_sejong(ts: Seq<TokenView>) -> Seq<char> {
    join_on(ts.map_values(|t: TokenView| spec_format_token(t)), ' ')
}

fn morphemes_to_pieces(ms: &Vec<DecomposedMorpheme>) -> (r: Vec<(String, String)>)
    ensures
        pairs_view(r@) == morphemes_view(ms@),
{
    let mut r: Vec<(String, String)> = Vec::new();
    let mut i: usize = 0;
    while i < ms.len()
        invariant
            i <= ms@.len(),
            pairs_view(r@) == morphemes_view(ms@).subrange(0, i as int),
        decreases ms@.len() - i,
    {
        let ghost old_r = r@;
        let p = (ms[i].surface.clone(), ms[i].pos.clone());
        r.push(p);
        i += 1;
        assert(r@ == old_r.push(p));
        assert(pairs_view(old_r).len() == i - 1);
        assert(pairs_view(r@) =~= morphemes_view(ms@).subrange(0, i as int)) by {
            assert forall|j: int| 0 <= j < i implies #[trigger] pairs_view(r@)[j] == morphemes_view(ms@).subrange(0, i as int)[j] by {
                if j < i - 1 {
                    assert(pairs_view(old_r)[j] == morphemes_view(ms@).subrange(0, i - 1)[j]);
                    assert(r@[j] == old_r[j]);
                }
            }
        }
    }
    assert(morphemes_view(ms@).subrange(0, ms@.len() as int) =~= morphemes_view(ms@));
    r
}

/// Places the pieces of one analysis after `start`.
fn place(pieces: &Vec<(String, String)>, start: usize, orig_surface: &str, orig_pos: &str) -> (r: Vec<SejongToken>)
    ensures
        tokens_view(r@) == place_pieces(pairs_view(pieces@), start, orig_surface@, orig_pos@),
{
    let ghost pv = pairs_view(pieces@);
    let mut result: Vec<SejongToken> = Vec::new();
    let mut current = start;
    let mut i: usize = 0;
    assert(pv.subrange(0, pv.len() as int) =~= pv);
    assert(tokens_view(result@) + place_pieces(pv.subrange(0, pv.len() as int), start, orig_surface@, orig_pos@)
        =~= place_pieces(pv, start, orig_surface@, orig_pos@));
    while i < pieces.len()
        invariant
            i <= pieces@.len(),
            pv == pairs_view(pieces@),
            tokens_view(result@) + place_pieces(pv.subrange(i as int, pv.len() as int), current, orig_surface@, orig_pos@)
                == place_pieces(pv, start, orig_surface@, orig_pos@),
        decreases pieces@.len() - i,
    {
        let ghost rest = pv.subrange(i as int, pv.len() as int);
        assert(rest[0] == (pieces@[i as int].0@, pieces@[i as int].1@));
        assert(rest.drop_first() =~= pv.subrange(i + 1, pv.len() as int));
        let char_len = char_count(pieces[i].0.as_str());
        let end_pos = current.saturating_add(char_len);
        let t = SejongToken::from_split(pieces[i].0.as_str(), pieces[i].1.as_str(), current, end_pos, orig_surface, orig_pos);
        let ghost old_res = result@;
        result.push(t);
        assert(tokens_view(result@) =~= tokens_view(old_res).push(t@)) by {
            assert(result@ == old_res.push(t));
            assert forall|j: int| 0 <= j < result@.len() implies #[trigger] tokens_view(result@)[j] == tokens_view(old_res).push(t@)[j] by {
                if j < old_res.len() {
                    assert(result@[j] == old_res[j]);
                }
            }
        }
        assert(tokens_view(result@) + place_pieces(rest.drop_first(), end_pos, orig_surface@, orig_pos@)
            =~= tokens_view(old_res) + place_pieces(rest, current, orig_surface@, orig_pos@));
        current = end_pos;
        i += 1;
    }
    assert(place_pieces(pv.subrange(pv.len() as int, pv.len() as int), current, orig_surface@, orig_pos@) =~= Seq::<TokenView>::empty());
    assert(tokens_view(result@) =~= tokens_view(result@) + Seq::<TokenView>::empty());
    result
}

/// The tags of the morphemes joined by `+`.
fn join_tags(ms: &Vec<DecomposedMorpheme>) -> (r: String)
    requires
        ms@.len() >= 1,
    ensures
        r@ == join_on(morphemes_view(ms@).map_values(|m: (Seq<char>, Seq<char>)| m.1), '+'),
{
    let ghost tags = morphemes_view(ms@).map_values(|m: (Seq<char>, Seq<char>)| m.1);
    let mut r = ms[0].pos.clone();
    let mut i: usize = 1;
    assert(tags.subrange(0, 1) =~= seq![tags[0]]);
    while i < ms.len()
        invariant
            1 <= i <= ms@.len(),
            tags == morphemes_view(ms@).map_values(|m: (Seq<char>, Seq<char>)| m.1),
            r@ == join_on(tags.subrange(0, i as int), '+'),
        decreases ms@.len() - i,
    {
        let ghost prev = tags.subrange(0, i as int);
        let ghost next = tags.subrange(0, i + 1);
        assert(next.drop_last() =~= prev);
        assert(next.last() == ms@[i as int].pos@);
        let mut piece = String::new();
        crate::text::push_char(&mut piece, '+');
        let with_sep = concat(r.as_str(), piece.as_str());
        r = concat(with_sep.as_str(), ms[i].pos.as_str());
        assert(r@ =~= join_on(prev, '+').push('+') + ms@[i as int].pos@);
        i += 1;
    }
    assert(tags.subrange(0, tags.len() as int) =~= tags);
    r
}

/// The Sejong tokens of each analyser token, in order, before the corrections.
pub open spec fn spec_convert_each(
    use_decomposition: bool,
    m: Seq<(Seq<char>, Seq<Seq<char>>)>,
    rules: Seq<(Seq<char>, Seq<Seq<char>>, Seq<Seq<char>>)>,
    tokens: Seq<Token>,
) -> Seq<Seq<TokenView>> {
    tokens.map_values(|t: Token| spec_convert_token(
        use_decomposition, m, rules, t.surface@, t.pos@, t.features@, t.start_pos, t.end_pos))
}

/// The correction pipeline applied to freshly converted tokens: the
/// decomposition repairs, the token merges, the `-세요` splits, and the
/// context corrections, in that order.
pub open spec fn spec_correct(ts: Seq<TokenView>) -> Seq<TokenView> {
    crate::corrections::spec_apply_context_corrections(
        crate::postprocess::spec_vv_seyo_splits(
            crate::merges::spec_token_merges(
                crate::postprocess::spec_decomposition_corrections(ts))))
}

/// Converts mecab-ko-dic tokens into the Sejong corpus format.
pub struct SejongConverter {
    tag_map: TagMap,
    ending_rules: Vec<EndingRule>,
    use_decomposition: bool,
}

impl Default for SejongConverter {
    /// The same converter as [`SejongConverter::new`].
    fn default() -> (c: SejongConverter)
        ensures
            c.spec_tag_map() == spec_tag_entries(),
            c.spec_rules() == Seq::<(Seq<char>, Seq<Seq<char>>, Seq<Seq<char>>)>::empty(),
            c.spec_use_decomposition(),
    {
        SejongConverter::new()
    }
}

impl SejongConverter {
    #[verifier::type_invariant]
    spec fn inv(self) -> bool {
        rules_well_formed(self.ending_rules@)
    }

    /// The tag table in use.
    pub closed spec fn spec_tag_map(&self) -> Seq<(Seq<char>, Seq<Seq<char>>)> {
        self.tag_map@
    }

    /// The ending rules in use.
    pub closed spec fn spec_rules(&self) -> Seq<(Seq<char>, Seq<Seq<char>>, Seq<Seq<char>>)> {
        rules_view(self.ending_rules@)
    }

    /// Whether the decomposition column is used.
    pub closed spec fn spec_use_decomposition(&self) -> bool {
        self.use_decomposition
    }

    /// A converter with the Sejong tag table, no ending rules, and the
    /// decomposition column enabled. With no ending rules, splitting never
    /// goes by a rule; every other case of `split_morpheme` still applies.
    pub fn new() -> (c: SejongConverter)
        ensures
            c.spec_tag_map() == spec_tag_entries(),
            c.spec_rules() == Seq::<(Seq<char>, Seq<Seq<char>>, Seq<Seq<char>>)>::empty(),
            c.spec_use_decomposition(),
    {
        let c = SejongConverter {
            tag_map: init_tag_map(),
            ending_rules: Vec::new(),
            use_decomposition: true,
        };
        assert(rules_view(c.ending_rules@) =~= Seq::<(Seq<char>, Seq<Seq<char>>, Seq<Seq<char>>)>::empty());
        c
    }

    /// The same converter with the decomposition column switched on or off.
    pub fn with_decomposition(self, use_decomposition: bool) -> (c: SejongConverter)
        ensures
            c.spec_tag_map() == self.spec_tag_map(),
            c.spec_rules() == self.spec_rules(),
            c.spec_use_decomposition() == use_decomposition,
    {
        proof {
            use_type_invariant(&self);
        }
        SejongConverter {
            tag_map: self.tag_map,
            ending_rules: self.ending_rules,
            use_decomposition,
        }
    }

    /// The morphemes of a decomposition column:
    /// `가깝/VA/*+아/EC/*` → [("가깝", "VA"), ("아", "EC")].
    pub fn parse_decomposition(decomposition: &str) -> (r: Vec<DecomposedMorpheme>)
        ensures
            morphemes_view(r@) == spec_parse_decomposition(decomposition@),
    {
        let mut result: Vec<DecomposedMorpheme> = Vec::new();
        if decomposition.unicode_len() == 0 || str_eq(decomposition, "*") {
            assert(morphemes_view(result@) =~= Seq::<(Seq<char>, Seq<char>)>::empty());
            return result;
        }
        let parts = split_char(decomposition, '+');
        let ghost pv = strings_view(parts@);
        let mut i: usize = 0;
        assert(morphemes_view(result@) =~= parse_pieces(pv.subrange(0, 0)));
        while i < parts.len()
            invariant
                i <= parts@.len(),
                pv == strings_view(parts@),
                pv == split_on(decomposition@, '+'),
                morphemes_view(result@) == parse_pieces(pv.subrange(0, i as int)),
            decreases parts@.len() - i,
        {
            let ghost pre = pv.subrange(0, i as int);
            let ghost next = pv.subrange(0, i + 1);
            assert(next.drop_last() =~= pre);
            assert(next.last() == parts@[i as int]@);
            let part = trimmed(parts[i].as_str());
            if part.unicode_len() > 0 {
                let segments = split_char(part.as_str(), '/');
                let ghost sv = strings_view(segments@);
                if segments.len() >= 2 {
                    let surface = &segments[0];
                    let pos = &segments[1];
                    assert(sv[0] == surface@ && sv[1] == pos@);
                    if surface.unicode_len() > 0 && !str_eq(surface.as_str(), "*")
                        && pos.unicode_len() > 0 && !str_eq(pos.as_str(), "*") {
                        let m = DecomposedMorpheme { surface: surface.clone(), pos: pos.clone() };
                        let ghost old_r = result@;
                        result.push(m);
                        assert(morphemes_view(result@) =~= morphemes_view(old_r).push((m.surface@, m.pos@))) by {
                            assert(result@ == old_r.push(m));
                            assert forall|j: int| 0 <= j < result@.len() implies #[trigger] morphemes_view(result@)[j]
                                == morphemes_view(old_r).push((m.surface@, m.pos@))[j] by {
                                if j < old_r.len() {
                                    assert(result@[j] == old_r[j]);
                                }
                            }
                        }
                    }
                }
            }
            i += 1;
        }
        assert(pv.subrange(0, pv.len() as int) =~= pv);
        result
    }

    /// The decomposition column of a feature string, if it names something.
    pub fn extract_decomposition(features: &str) -> (r: Option<String>)
        ensures
            match r {
                Some(d) => spec_extract_decomposition(features@) == Some(d@),
                None => spec_extract_decomposition(features@).is_none(),
            },
    {
        let fields = split_char(features, ',');
        let ghost fv = strings_view(fields@);
        if fields.len() >= 8 {
            assert(fv[7] == fields@[7]@);
            let decomp = trimmed(fields[7].as_str());
            if decomp.unicode_len() > 0 && !str_eq(decomp.as_str(), "*") {
                return Some(decomp);
            }
        }
        None
    }

    /// Whether `pos` is a compound tag.
    pub fn is_compound_tag(&self, pos: &str) -> (r: bool)
        ensures
            r == pos@.contains('+'),
    {
        is_compound_tag(pos)
    }

    /// The tags a compound tag splits into.
    pub fn split_compound_tag(&self, pos: &str) -> (r: Vec<String>)
        ensures
            strings_view(r@) == spec_split_compound_tag(self.spec_tag_map(), pos@),
    {
        split_compound_tag(&self.tag_map, pos)
    }

    /// The morphemes of `surface` analysed as `pos`.
    pub fn split_morpheme(&self, surface: &str, pos: &str) -> (r: Vec<(String, String)>)
        ensures
            pairs_view(r@) == spec_split_morpheme(surface@, pos@, self.spec_tag_map(), self.spec_rules()),
    {
        proof {
            use_type_invariant(self);
            crate::splitter::lemma_well_formed_rules_defined(surface@, pos@, self.ending_rules@);
        }
        split_morpheme(surface, pos, &self.tag_map, self.ending_rules.as_slice())
    }

    /// The Sejong tokens of one analyser token: from the decomposition
    /// column when it can be trusted, else by splitting the surface.
    pub fn convert_token(&self, token: &Token) -> (r: Vec<SejongToken>)
        ensures
            tokens_view(r@) == spec_convert_token(
                self.spec_use_decomposition(),
                self.spec_tag_map(),
                self.spec_rules(),
                token.surface@,
                token.pos@,
                token.features@,
                token.start_pos,
                token.end_pos,
            ),
    {
        let surface = token.surface.as_str();
        let pos = token.pos.as_str();
        let skip_decomposition = str_eq(surface, "는다") && str_eq(pos, "VV+EC");
        let force_rule_based = str_eq(pos, "VV+EF") && (str_eq(surface, "들리다") || str_eq(surface, "놀리다"));
        if self.use_decomposition && token.features.unicode_len() > 0 && !skip_decomposition && !force_rule_based {
            match Self::extract_decomposition(token.features.as_str()) {
                Some(decomp) => {
                    let morphemes = Self::parse_decomposition(decomp.as_str());
                    if morphemes.len() > 0 {
                        let decomp_pos = join_tags(&morphemes);
                        if str_eq(decomp_pos.as_str(), pos) {
                            if morphemes.len() == 1 && !str_eq(morphemes[0].surface.as_str(), surface) {
                                assert(morphemes_view(morphemes@)[0].0 == morphemes@[0].surface@);
                            } else {
                                assert(morphemes@.len() == 1 ==> morphemes_view(morphemes@)[0].0 == morphemes@[0].surface@);
                                return Self::morphemes_to_sejong_tokens(&morphemes, token);
                            }
                        }
                    }
                },
                None => {},
            }
        }
        let morphemes = self.split_morpheme(surface, pos);
        if morphemes.len() == 1 {
            assert(pairs_view(morphemes@)[0].1 == morphemes@[0].1@);
            let t = SejongToken::new(surface, morphemes[0].1.as_str(), token.start_pos, token.end_pos);
            let v = vec![t];
            assert(tokens_view(v@) =~= seq![t@]);
            return v;
        }
        place(&morphemes, token.start_pos, surface, pos)
    }

    /// The tokens of decomposed morphemes, placed one after another from the
    /// start of the analyser token and recording it as their origin.
    fn morphemes_to_sejong_tokens(morphemes: &Vec<DecomposedMorpheme>, original_token: &Token) -> (r: Vec<SejongToken>)
        ensures
            tokens_view(r@) == place_pieces(
                morphemes_view(morphemes@),
                original_token.start_pos,
                original_token.surface@,
                original_token.pos@,
            ),
    {
        let pieces = morphemes_to_pieces(morphemes);
        place(&pieces, original_token.start_pos, original_token.surface.as_str(), original_token.pos.as_str())
    }

    /// Converts a list of analyser tokens: each token is converted, then the
    /// decomposition repairs, the token merges, the `-세요` splits and the
    /// context corrections are applied, in that order. No other step runs: in
    /// particular no table forces the tag of a given word.
    pub fn convert_tokens(&self, tokens: &[Token]) -> (r: Vec<SejongToken>)
        ensures
            tokens_view(r@) == spec_correct(spec_convert_each(
                self.spec_use_decomposition(),
                self.spec_tag_map(),
                self.spec_rules(),
                tokens@,
            ).flatten()),
    {
        let ghost each = spec_convert_each(self.spec_use_decomposition(), self.spec_tag_map(), self.spec_rules(), tokens@);
        let mut out: Vec<SejongToken> = Vec::new();
        let mut k: usize = 0;
        while k < tokens.len()
            invariant
                k <= tokens@.len(),
                each == spec_convert_each(self.spec_use_decomposition(), self.spec_tag_map(), self.spec_rules(), tokens@),
                tokens_view(out@) == each.take(k as int).flatten(),
            decreases tokens@.len() - k,
        {
            proof {
                assert(each.take(k + 1) =~= each.take(k as int).push(each[k as int]));
                each.take(k as int).lemma_flatten_push(each[k as int]);
            }
            let converted = self.convert_token(&tokens[k]);
            crate::rewrite::append_tokens(&mut out, converted);
            k += 1;
        }
        assert(each.take(k as int) =~= each);
        crate::postprocess::apply_decomposition_corrections(&mut out);
        crate::merges::apply_token_merges(&mut out);
        let mut out = crate::postprocess::apply_vv_seyo_splits(out);
        crate::corrections::apply_context_corrections(&mut out);
        out
    }

    /// Converts analyser tokens and formats the result as Sejong text.
    pub fn tokens_to_sejong_string(&self, tokens: &[Token]) -> (r: String)
        ensures
            r@ == spec_format_sejong(spec_correct(spec_convert_each(
                self.spec_use_decomposition(),
                self.spec_tag_map(),
                self.spec_rules(),
                tokens@,
            ).flatten())),
    {
        let sejong_tokens = self.convert_tokens(tokens);
        self.format_sejong(sejong_tokens.as_slice())
    }

    /// Tokens in the Sejong text format: `surface/TAG` separated by spaces,
    /// with final-consonant jamo normalised.
    pub fn format_sejong(&self, tokens: &[SejongToken]) -> (r: String)
        ensures
            r@ == spec_format_sejong(tokens_view(tokens@)),
    {
        format_tokens(tokens)
    }

    /// Jamo in a string made into their standard written forms: standalone
    /// vowel jamo (ㅏ, ㅓ, ㅣ, …) are composed into full syllables with the
    /// silent initial ㅇ ("ㅓ요" → "어요"), and final-consonant jamo become
    /// compatibility jamo ("ᆯ까" → "ㄹ까").
    pub fn normalize_jamo(text: &str) -> (r: String)
        ensures
            r@ == crate::hangul::spec_compose_vowels(spec_normalize_jamo(text@)),
    {
        let consonants = hangul_normalize_jamo(text);
        crate::hangul::compose_vowels(consonants.as_str())
    }

    /// Splits a pre-final ending from the final ending after it.
    pub fn split_prefinal_ending(ending: &str) -> (r: (String, String))
        ensures
            (r.0@, r.1@) == spec_split_prefinal_ending(ending@),
    {
        crate::splitter::split_prefinal_ending(ending)
    }
}

fn format_one(t: &SejongToken) -> (r: String)
    ensures
        r@ == spec_format_token(t@),
{
    let normalized = hangul_normalize_jamo(t.surface.as_str());
    let with_slash = concat(normalized.as_str(), "/");
    concat(with_slash.as_str(), t.pos.as_str())
}

/// Tokens in the Sejong text format.
pub fn format_tokens(tokens: &[SejongToken]) -> (r: String)
    ensures
        r@ == spec_format_sejong(tokens_view(tokens@)),
{
    let ghost fs = tokens_view(tokens@).map_values(|t: TokenView| spec_format_token(t));
    let mut r = String::new();
    if tokens.len() == 0 {
        assert(fs =~= Seq::<Seq<char>>::empty());
        return r;
    }
    r = format_one(&tokens[0]);
    let mut i: usize = 1;
    assert(fs.subrange(0, 1) =~= seq![fs[0]]);
    while i < tokens.len()
        invariant
            1 <= i <= tokens@.len(),
            fs == tokens_view(tokens@).map_values(|t: TokenView| spec_format_token(t)),
            r@ == join_on(fs.subrange(0, i as int), ' '),
        decreases tokens@.len() - i,
    {
        let ghost prev = fs.subrange(0, i as int);
        let ghost next = fs.subrange(0, i + 1);
        assert(next.drop_last() =~= prev);
        let one = format_one(&tokens[i]);
        assert(next.last() == one@);
        let mut sep = String::new();
        crate::text::push_char(&mut sep, ' ');
        let with_sep = concat(r.as_str(), sep.as_str());
        r = concat(with_sep.as_str(), one.as_str());
        assert(r@ =~= join_on(prev, ' ').push(' ') + one@);
        i += 1;
    }
    assert(fs.subrange(0, fs.len() as int) =~= fs);
    r
}

/// The tokens placed for the pieces of one analysis keep the pieces'
/// surfaces and tags, record the analysis as their origin, and follow one
/// another: the first starts at `cur`, each starts where the one before it
/// ended, and each ends its surface's length after its start (below the
/// largest offset, where offsets stop growing).
pub proof fn lemma_place_pieces_contiguous(
    pieces: Seq<(Seq<char>, Seq<char>)>,
    cur: usize,
    orig_surface: Seq<char>,
    orig_pos: Seq<char>,
)
    ensures
        place_pieces(pieces, cur, orig_surface, orig_pos).len() == pieces.len(),
        pieces.len() > 0 ==> place_pieces(pieces, cur, orig_surface, orig_pos)[0].start_pos == cur,
        forall|k: int| 0 <= k < pieces.len() ==> {
            let t = #[trigger] place_pieces(pieces, cur, orig_surface, orig_pos)[k];
            &&& t.surface == pieces[k].0
            &&& t.pos == pieces[k].1
            &&& t.original_surface == Some(orig_surface)
            &&& t.original_pos == Some(orig_pos)
        },
        forall|k: int| 0 <= k < pieces.len() - 1 ==>
            (#[trigger] place_pieces(pieces, cur, orig_surface, orig_pos)[k]).end_pos
                == place_pieces(pieces, cur, orig_surface, orig_pos)[k + 1].start_pos,
        forall|k: int| 0 <= k < pieces.len() ==> {
            let t = #[trigger] place_pieces(pieces, cur, orig_surface, orig_pos)[k];
            t.start_pos + t.surface.len() <= usize::MAX ==> t.end_pos == t.start_pos + t.surface.len()
        },
    decreases pieces.len(),
{
    if pieces.len() > 0 {
        let end = cur.saturating_add(pieces[0].0.len() as usize);
        let rest = pieces.drop_first();
        lemma_place_pieces_contiguous(rest, end, orig_surface, orig_pos);
        let r = place_pieces(pieces, cur, orig_surface, orig_pos);
        let rr = place_pieces(rest, end, orig_surface, orig_pos);
        assert(r == seq![split_view(pieces[0].0, pieces[0].1, cur, end, orig_surface, orig_pos)] + rr);
        assert forall|k: int| 0 <= k < pieces.len() implies {
            let t = #[trigger] r[k];
            &&& t.surface == pieces[k].0
            &&& t.pos == pieces[k].1
            &&& t.original_surface == Some(orig_surface)
            &&& t.original_pos == Some(orig_pos)
        } by {
            if k > 0 {
                assert(r[k] == rr[k - 1]);
                assert(rest[k - 1] == pieces[k]);
            }
        }
        assert forall|k: int| 0 <= k < pieces.len() - 1 implies (#[trigger] r[k]).end_pos == r[k + 1].start_pos by {
            assert(r[k + 1] == rr[k]);
            if k > 0 {
                assert(r[k] == rr[k - 1]);
            }
        }
        assert forall|k: int| 0 <= k < pieces.len() implies {
            let t = #[trigger] r[k];
            t.start_pos + t.surface.len() <= usize::MAX ==> t.end_pos == t.start_pos + t.surface.len()
        } by {
            if k > 0 {
                assert(r[k] == rr[k - 1]);
            }
        }
    }
}

/// With the decomposition column switched off (`with_decomposition(false)`),
/// a token converts the same whatever its feature columns hold.
pub proof fn lemma_features_unused_without_decomposition(
    m: Seq<(Seq<char>, Seq<Seq<char>>)>,
    rules: Seq<(Seq<char>, Seq<Seq<char>>, Seq<Seq<char>>)>,
    surface: Seq<char>,
    pos: Seq<char>,
    features1: Seq<char>,
    features2: Seq<char>,
    start: usize,
    end: usize,
)
    ensures
        spec_convert_token(false, m, rules, surface, pos, features1, start, end)
            == spec_convert_token(false, m, rules, surface, pos, features2, start, end),
{
}

/// A space never appears in the normalised form of a string without spaces.
proof fn lemma_normalize_keeps_no_space(s: Seq<char>)
    requires
        !s.contains(' '),
    ensures
        !spec_normalize_jamo(s).contains(' '),
{
    let t = spec_normalize_jamo(s);
    if t.contains(' ') {
        let w = choose|w: int| 0 <= w < t.len() && t[w] == ' ';
        let c = s[w];
        if 0x11A8 <= (c as u32) <= 0x11C2 {
            let k = (c as u32) - 0x11A8;
            assert(0x3131 <= (crate::hangul::jong_compat_table()[k] as u32) <= 0x314E);
        }
        assert(s[w] == ' ');
    }
}

/// Formatted text splits at spaces back into the formatted tokens, one piece
/// per token, when no surface and no tag holds a space.
pub proof fn lemma_format_splits_per_token(ts: Seq<TokenView>)
    requires
        ts.len() >= 1,
        forall|k: int| 0 <= k < ts.len() ==> !(#[trigger] ts[k]).surface.contains(' ') && !ts[k].pos.contains(' '),
    ensures
        split_on(spec_format_sejong(ts), ' ') == ts.map_values(|t: TokenView| spec_format_token(t)),
{
    let fs = ts.map_values(|t: TokenView| spec_format_token(t));
    assert forall|k: int| 0 <= k < fs.len() implies !(#[trigger] fs[k]).contains(' ') by {
        let t = ts[k];
        lemma_normalize_keeps_no_space(t.surface);
        let n = spec_normalize_jamo(t.surface);
        assert(fs[k] == n + "/"@ + t.pos);
        if fs[k].contains(' ') {
            let w = choose|w: int| 0 <= w < fs[k].len() && fs[k][w] == ' ';
            reveal_strlit("/");
            if w < n.len() {
                assert(n[w] == ' ');
            } else if w == n.len() {
                assert(fs[k][w] == '/');
            } else {
                assert(t.pos[w - n.len() - 1] == ' ');
            }
        }
    }
    crate::text::lemma_split_join(fs, ' ');
}

/// The tokens of one analyser token are never none; the first starts at the
/// token's start and each starts where the one before it ended. Either the
/// token is kept whole (its surface and offsets, with a possibly new tag), or
/// every piece ends its surface's length after its start (below the largest
/// offset).
pub proof fn lemma_convert_token_offsets(
    use_decomposition: bool,
    m: Seq<(Seq<char>, Seq<Seq<char>>)>,
    rules: Seq<(Seq<char>, Seq<Seq<char>>, Seq<Seq<char>>)>,
    surface: Seq<char>,
    pos: Seq<char>,
    features: Seq<char>,
    start: usize,
    end: usize,
)
    ensures
        ({
            let r = spec_convert_token(use_decomposition, m, rules, surface, pos, features, start, end);
            &&& r.len() >= 1
            &&& r[0].start_pos == start
            &&& forall|k: int| 0 <= k < r.len() - 1 ==> (#[trigger] r[k]).end_pos == r[k + 1].start_pos
            &&& (r == seq![plain_view(surface, r[0].pos, start, end)]
                || forall|k: int| 0 <= k < r.len() ==> (#[trigger] r[k]).start_pos + r[k].surface.len() <= usize::MAX
                    ==> r[k].end_pos == r[k].start_pos + r[k].surface.len())
        }),
{
    match spec_used_decomposition(use_decomposition, surface, pos, features) {
        Some(ms) => {
            lemma_place_pieces_contiguous(ms, start, surface, pos);
        },
        None => {
            let ps = spec_split_morpheme(surface, pos, m, rules);
            crate::splitter::lemma_split_morpheme_nonempty(surface, pos, m, rules);
            if ps.len() != 1 {
                lemma_place_pieces_contiguous(ps, start, surface, pos);
            }
        },
    }
}

} // verus!
