//! Conversion of Pandoc documents into Notion blocks and rich text.
//!
//! Pandoc inlines become Notion rich text with their formatting, and each
//! supported Pandoc block becomes the matching Notion block; a visitor walks
//! a document and dispatches each block to its converter.
pub mod block_dispatcher;
pub mod pandoc_block_visitor;
pub mod pandoc_code;
pub mod pandoc_divider;
pub mod pandoc_heading;
pub mod pandoc_list;
pub mod pandoc_paragraph;
pub mod pandoc_quote;
pub mod pandoc_text;
pub mod visitor;

use crate::notion_api::{BlockType, NotionBlock, SBlockType, SNotionBlock};
use crate::strings::string_of;
use vstd::prelude::*;

verus! {

/// A new Notion block as the converters make it: object `block`, not
/// archived, with the given identifier, parent, children flag and content.
pub open spec fn new_block(
    id: Option<Seq<char>>,
    parent: Option<Seq<char>>,
    has_children: bool,
    t: SBlockType,
) -> SNotionBlock {
    SNotionBlock {
        object: Some("block"@),
        id,
        parent,
        archived: Some(false),
        has_children: Some(has_children),
        block_type: t,
    }
}

/// A new Notion block: object `block`, not archived, with the given
/// identifier, parent, children flag and content.
pub fn make_block(id: Option<String>, parent: Option<String>, has_children: bool, block_type: BlockType) -> (r: NotionBlock)
    ensures
        r@ == new_block(
            crate::notion_api::opt_view(id),
            crate::notion_api::opt_view(parent),
            has_children,
            crate::notion_api::block_type_view(block_type),
        ),
{
    NotionBlock {
        object: Some(string_of("block")),
        id,
        parent,
        archived: Some(false),
        has_children: Some(has_children),
        block_type,
    }
}

} // verus!
