//! Block objects.
use crate::notion::code::CodeProperties;
use crate::notion::headings::HeadingProperties;
use crate::notion::list::{BulletedListItemProperties, NumberedListItemProperties, ToDoProperties};
use crate::notion::paragraph::ParagraphProperties;
use crate::notion::quote::QuoteProperties;
use vstd::prelude::*;

verus! {

/// The color of a block.
#[derive(Debug, Clone, Copy, PartialEq, Eq, Structural)]
pub enum BlockColor {
    Default,
    Gray,
    Brown,
    Orange,
    Yellow,
    Green,
    Blue,
    Purple,
    Pink,
    Red,
    GrayBackground,
    BrownBackground,
    OrangeBackground,
    YellowBackground,
    GreenBackground,
    BlueBackground,
    PurpleBackground,
    PinkBackground,
    RedBackground,
}

impl Default for BlockColor {
    /// The default color.
    fn default() -> (r: BlockColor)
        ensures
            r == BlockColor::Default,
    {
        BlockColor::Default
    }
}

/// Where a block sits: in a page, at the top of the workspace, or under a
/// block.
#[derive(Debug)]
pub enum BlockParent {
    Page { page_id: String },
    Workspace { workspace: bool },
    Block { block_id: String },
}

/// A reference to a user.
#[derive(Debug)]
pub struct UserReference {
    pub object: String,
    pub id: String,
}

/// A block object.  The fields that only the API's responses carry are
/// optional.
#[derive(Debug)]
pub struct Block {
    pub object: Option<String>,
    pub id: Option<String>,
    pub parent: Option<BlockParent>,
    pub has_children: Option<bool>,
    /// The block's kind and content.
    pub content: BlockContent,
}

/// The kind and content of a block.
#[derive(Debug)]
pub enum BlockContent {
    /// Paragraph block
    Paragraph { paragraph: ParagraphProperties },
    /// Heading 1 block
    Heading1 { heading_1: HeadingProperties },
    /// Heading 2 block
    Heading2 { heading_2: HeadingProperties },
    /// Heading 3 block
    Heading3 { heading_3: HeadingProperties },
    /// Quote block
    Quote { quote: QuoteProperties },
    /// Bulleted list item block
    BulletedListItem { bulleted_list_item: BulletedListItemProperties },
    /// Numbered list item block
    NumberedListItem { numbered_list_item: NumberedListItemProperties },
    /// To-do list item block
    ToDo { to_do: ToDoProperties },
    /// Code block
    Code { code: CodeProperties },
}

/// A block with the given content and none of the fields that only the
/// API's responses carry.
pub open spec fn bare_block(content: BlockContent) -> Block {
    Block { object: None, id: None, parent: None, has_children: None, content }
}

} // verus!
