//! Heading blocks.
use crate::notion::blocks::{bare_block, Block, BlockColor, BlockContent};
use crate::notion::text::RichTextObject;
use vstd::prelude::*;

verus! {

/// The content of a heading block.
#[derive(Debug)]
pub struct HeadingProperties {
    pub rich_text: Vec<RichTextObject>,
    pub color: BlockColor,
    pub is_toggleable: bool,
    pub children: Option<Vec<Block>>,
}

impl Default for HeadingProperties {
    /// No text, the default color, not toggleable, no children.
    fn default() -> (r: HeadingProperties)
        ensures
            r.rich_text@.len() == 0,
            r.color == BlockColor::Default,
            !r.is_toggleable,
            r.children is None,
    {
        HeadingProperties {
            rich_text: Vec::new(),
            color: BlockColor::Default,
            is_toggleable: false,
            children: None,
        }
    }
}

/// A level 1 heading with the given text, in the default color, not toggleable.
pub fn create_heading1(rich_text: Vec<RichTextObject>) -> (r: Block)
    ensures
        r == bare_block(BlockContent::Heading1 { heading_1: HeadingProperties { rich_text, color: BlockColor::Default, is_toggleable: false, children: None } }),
{
    Block {
        object: None,
        id: None,
        parent: None,
        has_children: None,
        content: BlockContent::Heading1 { heading_1: HeadingProperties { rich_text, color: BlockColor::Default, is_toggleable: false, children: None } },
    }
}

/// A level 2 heading with the given text, in the default color, not toggleable.
pub fn create_heading2(rich_text: Vec<RichTextObject>) -> (r: Block)
    ensures
        r == bare_block(BlockContent::Heading2 { heading_2: HeadingProperties { rich_text, color: BlockColor::Default, is_toggleable: false, children: None } }),
{
    Block {
        object: None,
        id: None,
        parent: None,
        has_children: None,
        content: BlockContent::Heading2 { heading_2: HeadingProperties { rich_text, color: BlockColor::Default, is_toggleable: false, children: None } },
    }
}

/// A level 3 heading with the given text, in the default color, not toggleable.
pub fn create_heading3(rich_text: Vec<RichTextObject>) -> (r: Block)
    ensures
        r == bare_block(BlockContent::Heading3 { heading_3: HeadingProperties { rich_text, color: BlockColor::Default, is_toggleable: false, children: None } }),
{
    Block {
        object: None,
        id: None,
        parent: None,
        has_children: None,
        content: BlockContent::Heading3 { heading_3: HeadingProperties { rich_text, color: BlockColor::Default, is_toggleable: false, children: None } },
    }
}

/// A toggleable level 1 heading with the given text and children, in the
/// default color.
pub fn create_toggleable_heading1(rich_text: Vec<RichTextObject>, children: Vec<Block>) -> (r: Block)
    ensures
        r == bare_block(BlockContent::Heading1 { heading_1: HeadingProperties { rich_text, color: BlockColor::Default, is_toggleable: true, children: Some(children) } }),
{
    Block {
        object: None,
        id: None,
        parent: None,
        has_children: None,
        content: BlockContent::Heading1 { heading_1: HeadingProperties { rich_text, color: BlockColor::Default, is_toggleable: true, children: Some(children) } },
    }
}

/// A toggleable level 2 heading with the given text and children, in the
/// default color.
pub fn create_toggleable_heading2(rich_text: Vec<RichTextObject>, children: Vec<Block>) -> (r: Block)
    ensures
        r == bare_block(BlockContent::Heading2 { heading_2: HeadingProperties { rich_text, color: BlockColor::Default, is_toggleable: true, children: Some(children) } }),
{
    Block {
        object: None,
        id: None,
        parent: None,
        has_children: None,
        content: BlockContent::Heading2 { heading_2: HeadingProperties { rich_text, color: BlockColor::Default, is_toggleable: true, children: Some(children) } },
    }
}

/// A toggleable level 3 heading with the given text and children, in the
/// default color.
pub fn create_toggleable_heading3(rich_text: Vec<RichTextObject>, children: Vec<Block>) -> (r: Block)
    ensures
        r == bare_block(BlockContent::Heading3 { heading_3: HeadingProperties { rich_text, color: BlockColor::Default, is_toggleable: true, children: Some(children) } }),
{
    Block {
        object: None,
        id: None,
        parent: None,
        has_children: None,
        content: BlockContent::Heading3 { heading_3: HeadingProperties { rich_text, color: BlockColor::Default, is_toggleable: true, children: Some(children) } },
    }
}

} // verus!
