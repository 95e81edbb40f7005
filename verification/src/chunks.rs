//! Splitting a text into chunks for embedding.

use crate::gate::texts;
use vstd::prelude::*;

verus! {

/// The size that a chunk is filled up to.
pub const MIN_CHARACTERS: usize = 500;

/// The size that no chunk reaches.
pub const MAX_CHARACTERS: usize = 2048;

/// The chunks that the text splitter cuts `text` into when a chunk is to
/// hold `desired` characters and fewer than `limit`.
pub uninterp spec fn chunks_of(text: Seq<char>, desired: int, limit: int) -> Seq<Seq<char>>;

/// Calls `text_splitter::TextSplitter::new` with the range from `desired` to
/// `limit` and then `chunks` on the text. The result is the splitter's
/// answer for these arguments; how it picks the boundaries is not restated.
#[verifier::external_body]
fn split_chunks(text: &str, desired: usize, limit: usize) -> (parts: Vec<String>)
    requires
        0 < desired < limit,
    ensures
        texts(parts@) == chunks_of(text@, desired as int, limit as int),
{
    let splitter = text_splitter::TextSplitter::new(desired..limit);
    let mut parts = Vec::new();
    for part in splitter.chunks(text) {
        parts.push(part.to_string());
    }
    parts
}

/// Splits a text into chunks of [`MIN_CHARACTERS`] characters and fewer than
/// [`MAX_CHARACTERS`], at the boundaries that the text splitter picks.
pub fn split_text(characters: &String) -> (parts: Vec<String>)
    ensures
        texts(parts@) == chunks_of(characters@, 500, 2048),
{
    split_chunks(characters.as_str(), MIN_CHARACTERS, MAX_CHARACTERS)
}

} // verus!
