//! Phonetic matching of a query against a text.

use ib_pinyin::{matcher::PinyinMatcher, pinyin::PinyinNotation};
use vstd::prelude::*;

verus! {

/// Whether `PinyinMatcher` (full pinyin and pinyin initials, in ASCII) finds
/// the query anywhere in the text.
pub uninterp spec fn pinyin_match(query: Seq<char>, text: Seq<char>) -> bool;

/// Relies on `ib_pinyin::matcher::PinyinMatcher::is_match`, built for the
/// query with the ASCII and ASCII-first-letter notations: the answer depends
/// on the query and the text alone.
#[verifier::external_body]
pub fn match_pinyin(input: &str, text: &str) -> (r: bool)
    ensures
        r == pinyin_match(input@, text@),
{
    let matcher = PinyinMatcher::builder(input)
        .pinyin_notations(PinyinNotation::Ascii | PinyinNotation::AsciiFirstLetter)
        .build();
    matcher.is_match(text)
}

} // verus!
