//! Conversion of Notion dividers into Pandoc horizontal rules.
use crate::n2p::ConversionConfig;
use crate::notion_api::{BlockType, NotionBlock, SBlockType};
use crate::pandoc::{Block, SBlock};
use vstd::prelude::*;

verus! {

/// A Notion divider as a Pandoc horizontal rule; `None` for any other kind
/// of block.
pub fn convert_notion_divider(block: &NotionBlock, config: &ConversionConfig) -> (r: Option<Block>)
    ensures
        match block@.block_type {
            SBlockType::Divider => r is Some && r->0@ == SBlock::HorizontalRule,
            _ => r is None,
        },
{
    match &block.block_type {
        BlockType::Divider => Some(Block::HorizontalRule),
        _ => None,
    }
}

/// A Notion divider as a Pandoc horizontal rule; `None` for any other kind
/// of block.
pub fn try_convert_to_divider(block: &NotionBlock, config: &ConversionConfig) -> (r: Option<Block>)
    ensures
        match block@.block_type {
            SBlockType::Divider => r is Some && r->0@ == SBlock::HorizontalRule,
            _ => r is None,
        },
{
    convert_notion_divider(block, config)
}

} // verus!
