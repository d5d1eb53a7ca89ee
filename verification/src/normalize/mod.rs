//! The text normalisation pipeline: paragraphs, preprocessing, tokens,
//! context, and the words that are spoken.

pub mod types;
pub mod helpers;
pub mod preprocessor;
pub mod lexer;
pub mod parser;
pub mod generator;

use vstd::prelude::*;
use crate::normalize::generator::{generate_text, spec_generate};
use crate::normalize::lexer::{spec_tokenize, tokenize};
use crate::normalize::parser::{parse_context, spec_parse_context};
use crate::normalize::preprocessor::{preprocess_text, spec_fix_paragraphs, spec_preprocess, step0_fix_paragraphs};
use crate::stress::StressDict;
use crate::text::{from_chars, squash_ws, squash_ws_chars, to_chars, is_single_spaced, law_squash_single_spaced};

verus! {

/// What the whole pipeline makes of a text: its paragraphs joined, the text
/// prepared, cut into tokens, read in context and written out as words, with
/// the runs of whitespace squashed to single spaces.
pub open spec fn spec_normalize(text: Seq<char>, d: Map<Seq<char>, Seq<char>>) -> Seq<char> {
    squash_ws(spec_generate(spec_parse_context(spec_tokenize(spec_preprocess(spec_fix_paragraphs(text)))), d))
}

/// Normalises a text for speech with the stress dictionary `dict`.
pub fn normalize_text(text: &str, dict: &StressDict) -> (r: String)
    ensures
        r@ == spec_normalize(text@, dict@),
{
    let prepared = step0_fix_paragraphs(text);
    let preprocessed = preprocess_text(prepared.as_str());
    let raw_tokens = tokenize(preprocessed.as_str());
    let resolved = parse_context(raw_tokens);
    let generated = generate_text(resolved, dict);
    let g = to_chars(generated.as_str());
    let squashed = squash_ws_chars(g.as_slice());
    from_chars(squashed.as_slice())
}


/// What the pipeline gives is single-spaced: words joined by one plain
/// space, with no whitespace at the ends.
pub proof fn law_normalize_single_spaced(text: Seq<char>, d: Map<Seq<char>, Seq<char>>)
    ensures
        is_single_spaced(spec_normalize(text, d)),
{
    law_squash_single_spaced(
        spec_generate(spec_parse_context(spec_tokenize(spec_preprocess(spec_fix_paragraphs(text)))), d),
    );
}

} // verus!
