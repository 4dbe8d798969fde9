//! The token types that flow through the conversion.

use vstd::prelude::*;
use crate::text::owned;

verus! {

/// A token of the Sejong corpus format.
#[derive(Debug, Clone)]
pub struct SejongToken {
    /// Surface form.
    pub surface: String,
    /// Part-of-speech tag.
    pub pos: String,
    /// Start offset in the input.
    pub start_pos: usize,
    /// End offset in the input.
    pub end_pos: usize,
    /// Surface of the analysis this token was split from, if any.
    pub original_surface: Option<String>,
    /// Tag of the analysis this token was split from, if any.
    pub original_pos: Option<String>,
}

/// The mathematical content of a [`SejongToken`].
pub struct TokenView {
    pub surface: Seq<char>,
    pub pos: Seq<char>,
    pub start_pos: usize,
    pub end_pos: usize,
    pub original_surface: Option<Seq<char>>,
    pub original_pos: Option<Seq<char>>,
}

pub open spec fn opt_view(o: Option<String>) -> Option<Seq<char>> {
    match o {
        Some(s) => Some(s@),
        None => None,
    }
}

impl View for SejongToken {
    type V = TokenView;

    open spec fn view(&self) -> TokenView {
        TokenView {
            surface: self.surface@,
            pos: self.pos@,
            start_pos: self.start_pos,
            end_pos: self.end_pos,
            original_surface: opt_view(self.original_surface),
            original_pos: opt_view(self.original_pos),
        }
    }
}

/// The view of a plain token: no original analysis recorded.
pub open spec fn plain_view(surface: Seq<char>, pos: Seq<char>, start: usize, end: usize) -> TokenView {
    TokenView {
        surface,
        pos,
        start_pos: start,
        end_pos: end,
        original_surface: None,
        original_pos: None,
    }
}

/// The view of a token split from the analysis `orig_surface/orig_pos`.
pub open spec fn split_view(
    surface: Seq<char>,
    pos: Seq<char>,
    start: usize,
    end: usize,
    orig_surface: Seq<char>,
    orig_pos: Seq<char>,
) -> TokenView {
    TokenView {
        surface,
        pos,
        start_pos: start,
        end_pos: end,
        original_surface: Some(orig_surface),
        original_pos: Some(orig_pos),
    }
}

/// Copy of an optional string.
pub fn copy_opt(o: &Option<String>) -> (r: Option<String>)
    ensures
        opt_view(r) == opt_view(*o),
{
    match o {
        Some(s) => Some(s.clone()),
        None => None,
    }
}

impl SejongToken {
    /// A token with no record of an original analysis.
    pub fn new(surface: &str, pos: &str, start_pos: usize, end_pos: usize) -> (t: SejongToken)
        ensures
            t@ == plain_view(surface@, pos@, start_pos, end_pos),
    {
        SejongToken {
            surface: owned(surface),
            pos: owned(pos),
            start_pos,
            end_pos,
            original_surface: None,
            original_pos: None,
        }
    }

    /// A token split from the analysis `original_surface/original_pos`.
    pub fn from_split(
        surface: &str,
        pos: &str,
        start_pos: usize,
        end_pos: usize,
        original_surface: &str,
        original_pos: &str,
    ) -> (t: SejongToken)
        ensures
            t@ == split_view(surface@, pos@, start_pos, end_pos, original_surface@, original_pos@),
    {
        SejongToken {
            surface: owned(surface),
            pos: owned(pos),
            start_pos,
            end_pos,
            original_surface: Some(owned(original_surface)),
            original_pos: Some(owned(original_pos)),
        }
    }

    /// A copy of this token.
    pub fn duplicate(&self) -> (t: SejongToken)
        ensures
            t@ == self@,
    {
        SejongToken {
            surface: self.surface.clone(),
            pos: self.pos.clone(),
            start_pos: self.start_pos,
            end_pos: self.end_pos,
            original_surface: copy_opt(&self.original_surface),
            original_pos: copy_opt(&self.original_pos),
        }
    }
}

/// One morpheme of a dictionary decomposition (`surface/POS`).
#[derive(Debug, Clone)]
pub struct DecomposedMorpheme {
    /// Surface form.
    pub surface: String,
    /// Part-of-speech tag.
    pub pos: String,
}

/// A rule that splits an ending off a compound analysis.
#[derive(Debug, Clone)]
pub struct EndingRule {
    /// The compound tag the rule applies to (e.g. `VV+EF`).
    pub pos_pattern: String,
    /// Endings tried in order.
    pub endings: Vec<String>,
    /// Tags given to the stem and the ending parts.
    pub target_tags: Vec<String>,
}

/// A token produced by the morphological analyser.
#[derive(Debug, Clone)]
pub struct Token {
    /// Surface form.
    pub surface: String,
    /// Part-of-speech tag, possibly compound (`VV+EF`).
    pub pos: String,
    /// Comma-separated dictionary feature columns.
    pub features: String,
    /// Start offset in the input, in characters.
    pub start_pos: usize,
    /// End offset in the input, in characters.
    pub end_pos: usize,
}

} // verus!
