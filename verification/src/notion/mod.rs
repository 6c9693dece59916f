//! A typed model of Notion's block and rich-text objects as its API writes
//! them, with helpers that create blocks.
//!
//! The types mirror the API's JSON objects field for field; the helpers
//! create blocks with the default color and no identifiers, which the API
//! fills in.
pub mod blocks;
pub mod code;
pub mod headings;
pub mod list;
pub mod paragraph;
pub mod quote;
pub mod text;
pub mod toggleable;

use vstd::prelude::*;

verus! {

/// The sum of two numbers, when it fits in a `u64`.
pub fn add(left: u64, right: u64) -> (r: u64)
    requires
        left + right <= u64::MAX,
    ensures
        r == left + right,
{
    left + right
}

} // verus!
