//! Conversion of Pandoc horizontal rules into Notion dividers.
use crate::notion_api::{BlockType, NotionBlock, SBlockType, SNotionBlock};
use crate::p2n::pandoc_text::ConversionError;
use crate::p2n::{make_block, new_block};
use crate::pandoc::{Block, SBlock};
use vstd::prelude::*;

verus! {

/// The Notion divider that the converters make.
pub open spec fn divider_block() -> SNotionBlock {
    new_block(None, None, false, SBlockType::Divider)
}

/// Builds a Notion divider block.
pub struct NotionDividerBuilder {}

impl NotionDividerBuilder {
    /// A divider builder.
    pub fn new() -> (r: Self) {
        NotionDividerBuilder {}
    }

    /// A Notion divider with no identifier, no parent and no children.
    pub fn build(self) -> (r: NotionBlock)
        ensures
            r@ == divider_block(),
    {
        make_block(None, None, false, BlockType::Divider)
    }
}

/// Converts Pandoc horizontal rules into Notion dividers.
pub struct PandocDividerConverter {}

impl PandocDividerConverter {
    /// A divider converter.
    pub fn new() -> (r: Self) {
        PandocDividerConverter {}
    }

    /// A Notion divider for a horizontal rule; `None` for any other block.
    /// The parent is not used.
    pub fn convert(&self, block: &Block, parent_id: Option<String>) -> (r: Result<Option<NotionBlock>, ConversionError>)
        ensures
            r is Ok,
            match block@ {
                SBlock::HorizontalRule => r->Ok_0 is Some && r->Ok_0->0@ == divider_block(),
                _ => r->Ok_0 is None,
            },
    {
        match block {
            Block::HorizontalRule => Ok(Some(NotionDividerBuilder::new().build())),
            _ => Ok(None),
        }
    }

    /// A Notion divider for a horizontal rule; `None` for any other block.
    pub fn try_convert(&self, block: &Block, parent_id: Option<String>) -> (r: Result<Option<NotionBlock>, ConversionError>)
        ensures
            r is Ok,
            match block@ {
                SBlock::HorizontalRule => r->Ok_0 is Some && r->Ok_0->0@ == divider_block(),
                _ => r->Ok_0 is None,
            },
    {
        self.convert(block, None)
    }
}

} // verus!
