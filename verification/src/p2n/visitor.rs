//! The visitor of Pandoc blocks: a way to walk a document that converts each
//! block, by kind, into Notion blocks.
use crate::notion_api::{notion_blocks_view, NotionBlock, SNotionBlock};
use crate::p2n::pandoc_text::ConversionError;
use crate::pandoc::{blocks_view, Attr, Block, Inline, SBlock};
use vstd::prelude::*;

verus! {

/// Converts Pandoc blocks, one method per kind.
pub trait PandocBlockVisitor {
    /// What this visitor makes of a block under a parent: the Notion blocks,
    /// or the text of the conversion error.
    spec fn visited(&self, b: SBlock, parent: Option<Seq<char>>) -> Result<Seq<SNotionBlock>, Seq<char>>;

    /// What this visitor makes of a sequence of blocks under a parent.
    spec fn visited_blocks(&self, bs: Seq<SBlock>, parent: Option<Seq<char>>) -> Result<
        Seq<SNotionBlock>,
        Seq<char>,
    >;

    /// Converts a block by its kind.
    fn visit_block(&self, block: &Block, parent_id: Option<String>) -> (r: Result<Vec<NotionBlock>, ConversionError>)
        ensures
            match self.visited(block@, crate::notion_api::opt_view(parent_id)) {
                Ok(bs) => r is Ok && notion_blocks_view(r->Ok_0@) == bs,
                Err(_) => r is Err,
            },
    ;

    /// See [`crate::p2n::pandoc_block_visitor::PandocToNotionVisitor::visit_paragraph`].
    fn visit_paragraph(&self, inlines: &[Inline], parent_id: Option<String>) -> Result<Vec<NotionBlock>, ConversionError>;

    /// See [`crate::p2n::pandoc_block_visitor::PandocToNotionVisitor::visit_header`].
    fn visit_header(&self, level: i32, attr: &Attr, inlines: &[Inline], parent_id: Option<String>) -> Result<
        Vec<NotionBlock>,
        ConversionError,
    >;

    /// See [`crate::p2n::pandoc_block_visitor::PandocToNotionVisitor::visit_plain`].
    fn visit_plain(&self, inlines: &[Inline], parent_id: Option<String>) -> Result<Vec<NotionBlock>, ConversionError>;

    /// See [`crate::p2n::pandoc_block_visitor::PandocToNotionVisitor::visit_unsupported`].
    fn visit_unsupported(&self, block: &Block, parent_id: Option<String>) -> Result<Vec<NotionBlock>, ConversionError>;

    /// Converts a sequence of blocks, in order.
    fn process_blocks(&self, blocks: &[Block], parent_id: Option<String>) -> (r: Result<Vec<NotionBlock>, ConversionError>)
        ensures
            match self.visited_blocks(blocks_view(blocks@), crate::notion_api::opt_view(parent_id)) {
                Ok(bs) => r is Ok && notion_blocks_view(r->Ok_0@) == bs,
                Err(_) => r is Err,
            },
    ;
}

/// A Pandoc block that a visitor can convert.
pub trait PandocBlockVisitable {
    /// What `visitor` makes of this block under the given parent.
    fn accept<V: PandocBlockVisitor>(&self, visitor: &V, parent_id: Option<String>) -> Result<
        Vec<NotionBlock>,
        ConversionError,
    >;
}

impl PandocBlockVisitable for Block {
    fn accept<V: PandocBlockVisitor>(&self, visitor: &V, parent_id: Option<String>) -> (r: Result<
        Vec<NotionBlock>,
        ConversionError,
    >)
        ensures
            match visitor.visited(self@, crate::notion_api::opt_view(parent_id)) {
                Ok(bs) => r is Ok && notion_blocks_view(r->Ok_0@) == bs,
                Err(_) => r is Err,
            },
    {
        visitor.visit_block(self, parent_id)
    }
}

} // verus!
