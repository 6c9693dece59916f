//! List item blocks.
use crate::notion::blocks::{bare_block, Block, BlockColor, BlockContent};
use crate::notion::text::RichTextObject;
use vstd::prelude::*;

verus! {

/// The content of a bulleted list item.
#[derive(Debug)]
pub struct BulletedListItemProperties {
    pub rich_text: Vec<RichTextObject>,
    pub color: BlockColor,
    pub children: Option<Vec<Block>>,
}

/// The content of a numbered list item.
#[derive(Debug)]
pub struct NumberedListItemProperties {
    pub rich_text: Vec<RichTextObject>,
    pub color: BlockColor,
    pub children: Option<Vec<Block>>,
}

/// The content of a to-do item.
#[derive(Debug)]
pub struct ToDoProperties {
    pub rich_text: Vec<RichTextObject>,
    pub checked: bool,
    pub color: BlockColor,
    pub children: Option<Vec<Block>>,
}

impl Default for BulletedListItemProperties {
    /// No text, the default color, no children.
    fn default() -> (r: BulletedListItemProperties)
        ensures
            r.rich_text@.len() == 0,
            r.color == BlockColor::Default,
            r.children is None,
    {
        BulletedListItemProperties { rich_text: Vec::new(), color: BlockColor::Default, children: None }
    }
}

impl Default for NumberedListItemProperties {
    /// No text, the default color, no children.
    fn default() -> (r: NumberedListItemProperties)
        ensures
            r.rich_text@.len() == 0,
            r.color == BlockColor::Default,
            r.children is None,
    {
        NumberedListItemProperties { rich_text: Vec::new(), color: BlockColor::Default, children: None }
    }
}

impl Default for ToDoProperties {
    /// No text, unchecked, the default color, no children.
    fn default() -> (r: ToDoProperties)
        ensures
            r.rich_text@.len() == 0,
            !r.checked,
            r.color == BlockColor::Default,
            r.children is None,
    {
        ToDoProperties { rich_text: Vec::new(), checked: false, color: BlockColor::Default, children: None }
    }
}

/// A bulleted list item with the given text, in the default color.
pub fn create_bulleted_list_item(rich_text: Vec<RichTextObject>) -> (r: Block)
    ensures
        r == bare_block(BlockContent::BulletedListItem { bulleted_list_item: BulletedListItemProperties { rich_text, color: BlockColor::Default, children: None } }),
{
    Block {
        object: None,
        id: None,
        parent: None,
        has_children: None,
        content: BlockContent::BulletedListItem { bulleted_list_item: BulletedListItemProperties { rich_text, color: BlockColor::Default, children: None } },
    }
}

/// A bulleted list item with the given text and children, in the default
/// color.
pub fn create_bulleted_list_item_with_children(rich_text: Vec<RichTextObject>, children: Vec<Block>) -> (r: Block)
    ensures
        r == bare_block(BlockContent::BulletedListItem { bulleted_list_item: BulletedListItemProperties { rich_text, color: BlockColor::Default, children: Some(children) } }),
{
    Block {
        object: None,
        id: None,
        parent: None,
        has_children: None,
        content: BlockContent::BulletedListItem { bulleted_list_item: BulletedListItemProperties { rich_text, color: BlockColor::Default, children: Some(children) } },
    }
}

/// A numbered list item with the given text, in the default color.
pub fn create_numbered_list_item(rich_text: Vec<RichTextObject>) -> (r: Block)
    ensures
        r == bare_block(BlockContent::NumberedListItem { numbered_list_item: NumberedListItemProperties { rich_text, color: BlockColor::Default, children: None } }),
{
    Block {
        object: None,
        id: None,
        parent: None,
        has_children: None,
        content: BlockContent::NumberedListItem { numbered_list_item: NumberedListItemProperties { rich_text, color: BlockColor::Default, children: None } },
    }
}

/// A numbered list item with the given text and children, in the default
/// color.
pub fn create_numbered_list_item_with_children(rich_text: Vec<RichTextObject>, children: Vec<Block>) -> (r: Block)
    ensures
        r == bare_block(BlockContent::NumberedListItem { numbered_list_item: NumberedListItemProperties { rich_text, color: BlockColor::Default, children: Some(children) } }),
{
    Block {
        object: None,
        id: None,
        parent: None,
        has_children: None,
        content: BlockContent::NumberedListItem { numbered_list_item: NumberedListItemProperties { rich_text, color: BlockColor::Default, children: Some(children) } },
    }
}

/// A to-do item with the given text and check mark, in the default color.
pub fn create_to_do(rich_text: Vec<RichTextObject>, checked: bool) -> (r: Block)
    ensures
        r == bare_block(BlockContent::ToDo { to_do: ToDoProperties { rich_text, checked, color: BlockColor::Default, children: None } }),
{
    Block {
        object: None,
        id: None,
        parent: None,
        has_children: None,
        content: BlockContent::ToDo { to_do: ToDoProperties { rich_text, checked, color: BlockColor::Default, children: None } },
    }
}

/// A to-do item with the given text, check mark and children, in the
/// default color.
pub fn create_to_do_with_children(rich_text: Vec<RichTextObject>, checked: bool, children: Vec<Block>) -> (r: Block)
    ensures
        r == bare_block(BlockContent::ToDo { to_do: ToDoProperties { rich_text, checked, color: BlockColor::Default, children: Some(children) } }),
{
    Block {
        object: None,
        id: None,
        parent: None,
        has_children: None,
        content: BlockContent::ToDo { to_do: ToDoProperties { rich_text, checked, color: BlockColor::Default, children: Some(children) } },
    }
}

} // verus!
