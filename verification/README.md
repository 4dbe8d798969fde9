# mecab_ko_core (Sejong conversion)

Conversion of mecab-ko-dic analyses into the Sejong corpus format, written in
Verus. mecab-ko-dic joins stems and endings into one token (`갔다/VV+EF`); the
Sejong corpus keeps them apart (`갔/VV 다/EF`).

Layout of `src/`:

- `text`, `hangul`: character-level helpers (splitting, trimming, Hangul
  syllable arithmetic, jamo normalisation), each stated over `Seq<char>`.
- `types`: `SejongToken`, the analyser `Token`, and their views.
- `tag_map`, `splitter`: the compound-tag table and the rules that split a
  surface form into morphemes.
- `converter`: `SejongConverter`, which converts analyser tokens (through the
  decomposition column or the splitting rules), runs the correction pipeline,
  and formats the result.
- `postprocess`, `merges`: repairs of wrong decompositions and merges of
  wrongly split tokens.
- `rewrite`: primitive edits of a token list, and the shapes of the correction
  passes (`scan`, `map_where`, `expand_where`).
- `corrections` and its submodules: the context-based corrections, one spec
  function and one verified function per pass, composed in order.

Every public function states its result exactly over the views; the proof
functions `lemma_*` state the laws that relate several functions.
