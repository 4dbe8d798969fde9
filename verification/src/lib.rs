//! Conversion of mecab-ko-dic analyses into the Sejong corpus format.
//!
//! mecab-ko-dic joins verb stems and endings into one token (`갔다/VV+EF`);
//! the Sejong corpus keeps them apart (`갔/VV 다/EF`). This crate splits
//! compound analyses, repairs known mis-analyses, and formats the result.

pub mod text;
pub mod types;
pub mod hangul;
pub mod tag_map;
pub mod splitter;
pub mod converter;
pub mod postprocess;
pub mod rewrite;
pub mod merges;
pub mod corrections;
