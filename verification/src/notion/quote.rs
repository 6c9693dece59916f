//! Quote blocks.
use crate::notion::blocks::{bare_block, Block, BlockColor, BlockContent};
use crate::notion::text::RichTextObject;
use vstd::prelude::*;

verus! {

/// The content of a quote block.
#[derive(Debug)]
pub struct QuoteProperties {
    pub rich_text: Vec<RichTextObject>,
    pub color: BlockColor,
    pub children: Option<Vec<Block>>,
}

impl Default for QuoteProperties {
    /// No text, the default color, no children.
    fn default() -> (r: QuoteProperties)
        ensures
            r.rich_text@.len() == 0,
            r.color == BlockColor::Default,
            r.children is None,
    {
        QuoteProperties { rich_text: Vec::new(), color: BlockColor::Default, children: None }
    }
}

/// A quote with the given text, in the default color.
pub fn create_quote(rich_text: Vec<RichTextObject>) -> (r: Block)
    ensures
        r == bare_block(
            BlockContent::Quote {
                quote: QuoteProperties { rich_text, color: BlockColor::Default, children: None },
            },
        ),
{
    Block {
        object: None,
        id: None,
        parent: None,
        has_children: None,
        content: BlockContent::Quote {
            quote: QuoteProperties { rich_text, color: BlockColor::Default, children: None },
        },
    }
}

/// A quote with the given text and children, in the default color.
pub fn create_quote_with_children(rich_text: Vec<RichTextObject>, children: Vec<Block>) -> (r: Block)
    ensures
        r == bare_block(
            BlockContent::Quote {
                quote: QuoteProperties {
                    rich_text,
                    color: BlockColor::Default,
                    children: Some(children),
                },
            },
        ),
{
    Block {
        object: None,
        id: None,
        parent: None,
        has_children: None,
        content: BlockContent::Quote {
            quote: QuoteProperties { rich_text, color: BlockColor::Default, children: Some(children) },
        },
    }
}

} // verus!
