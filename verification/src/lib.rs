//! Wikitext generation helpers for the Battle Cats wiki: stage identifiers,
//! selector and file-name parsing, and the text fragments that make up pages.

pub mod decimal_digits;
pub mod meta;
pub mod stage;
pub mod text;
pub mod wiki_data;
pub mod wiki_files;
pub mod wikitext;

use vstd::prelude::*;

verus! {

} // verus!
