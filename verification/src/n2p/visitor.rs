//! The visitor of Notion blocks: a way to walk a tree of blocks that
//! converts each block, by kind, into Pandoc blocks.
use crate::notion_api::{
    notion_blocks_view, BulletedListItemValue, CodeValue, HeadingsValue, NotionBlock, NumberedListItemValue,
    ParagraphValue, QuoteValue, SNotionBlock, ToDoValue, ToggleValue,
};
use crate::n2p::notion_block_visitor::spec_children;
use crate::pandoc::{blocks_view, Block, SBlock};
use vstd::prelude::*;

verus! {

/// Converts Notion blocks, one method per kind.
pub trait NotionBlockVisitor {
    /// The Pandoc blocks this visitor makes of a block.
    spec fn visited(&self, b: SNotionBlock) -> Seq<SBlock>;

    /// The Pandoc blocks this visitor makes of a sequence of children.
    spec fn visited_children(&self, cs: Seq<SNotionBlock>) -> Seq<SBlock>;

    /// Converts a block by its kind.
    fn visit_block(&self, block: &NotionBlock) -> (r: Vec<Block>)
        ensures
            blocks_view(r@) == self.visited(block@),
    ;

    /// See [`NotionToPandocVisitor::visit_paragraph`].
    fn visit_paragraph(&self, block: &NotionBlock, paragraph: &ParagraphValue) -> Vec<Block>;

    /// See [`NotionToPandocVisitor::visit_heading_1`].
    fn visit_heading_1(&self, block: &NotionBlock, heading: &HeadingsValue) -> Vec<Block>;

    /// See [`NotionToPandocVisitor::visit_heading_2`].
    fn visit_heading_2(&self, block: &NotionBlock, heading: &HeadingsValue) -> Vec<Block>;

    /// See [`NotionToPandocVisitor::visit_heading_3`].
    fn visit_heading_3(&self, block: &NotionBlock, heading: &HeadingsValue) -> Vec<Block>;

    /// See [`NotionToPandocVisitor::visit_quote`].
    fn visit_quote(&self, block: &NotionBlock, quote: &QuoteValue) -> Vec<Block>;

    /// See [`NotionToPandocVisitor::visit_code`].
    fn visit_code(&self, block: &NotionBlock, code: &CodeValue) -> Vec<Block>;

    /// See [`NotionToPandocVisitor::visit_bulleted_list_item`].
    fn visit_bulleted_list_item(&self, block: &NotionBlock, item: &BulletedListItemValue) -> Vec<Block>;

    /// See [`NotionToPandocVisitor::visit_numbered_list_item`].
    fn visit_numbered_list_item(&self, block: &NotionBlock, item: &NumberedListItemValue) -> Vec<Block>;

    /// See [`NotionToPandocVisitor::visit_todo`].
    fn visit_todo(&self, block: &NotionBlock, todo: &ToDoValue) -> Vec<Block>;

    /// See [`NotionToPandocVisitor::visit_divider`].
    fn visit_divider(&self, block: &NotionBlock) -> Vec<Block>;

    /// See [`NotionToPandocVisitor::visit_toggle`].
    fn visit_toggle(&self, block: &NotionBlock, toggle: &ToggleValue) -> Vec<Block>;

    /// See [`NotionToPandocVisitor::visit_unsupported`].
    fn visit_unsupported(&self, block: &NotionBlock) -> Vec<Block>;

    /// Converts the children of a block.
    fn process_children(&self, children: &Vec<NotionBlock>) -> (r: Vec<Block>)
        ensures
            blocks_view(r@) == self.visited_children(notion_blocks_view(children@)),
    ;

    /// Copies of the children of a block of a kind whose children are
    /// converted (see [`spec_children`]).
    fn get_children(&self, block: &NotionBlock) -> (r: Vec<NotionBlock>)
        ensures
            notion_blocks_view(r@) == spec_children(block@.block_type),
    ;
}

/// A block that a visitor can convert.
pub trait NotionBlockVisitable {
    /// What `visitor` makes of this block.
    fn accept<V: NotionBlockVisitor>(&self, visitor: &V) -> Vec<Block>;
}

impl NotionBlockVisitable for NotionBlock {
    fn accept<V: NotionBlockVisitor>(&self, visitor: &V) -> (r: Vec<Block>)
        ensures
            blocks_view(r@) == visitor.visited(self@),
    {
        visitor.visit_block(self)
    }
}

} // verus!
