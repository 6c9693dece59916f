//! Conversion of Notion quotes into Pandoc block quotes.
use crate::n2p::notion_paragraph::{color_span, spec_color_span};
use crate::n2p::notion_text::{spec_convert_rich_texts, NotionTextConverter};
use crate::n2p::ConversionConfig;
use crate::notion_api::{BlockType, NotionBlock, SBlockType, STextValue, TextColor};
use crate::pandoc::{
    blocks_view, items_view, lemma_blocks_view_add, lemma_items_view_add, Block, SBlock,
};
use vstd::prelude::*;

verus! {

broadcast use {vstd::std_specs::vec::group_vec_axioms, crate::pandoc::group_pandoc_view};

/// Builds a Pandoc block quote, keeping its content in the order added.
pub struct QuoteBuilder {
    content: Vec<Block>,
}

impl View for QuoteBuilder {
    type V = Seq<SBlock>;

    closed spec fn view(&self) -> Seq<SBlock> {
        blocks_view(self.content@)
    }
}

impl QuoteBuilder {
    /// A builder with no content.
    pub fn new() -> (r: Self)
        ensures
            r@ == Seq::<SBlock>::empty(),
    {
        QuoteBuilder { content: Vec::new() }
    }

    /// Appends a block to the content.
    pub fn add_content(self, block: Block) -> (r: Self)
        ensures
            r@ == self@.push(block@),
    {
        let mut s = self;
        let ghost before = s.content@;
        s.content.push(block);
        assert(s.content@.drop_last() =~= before);
        s
    }

    /// Appends blocks to the content, in order.
    pub fn add_content_blocks(self, blocks: Vec<Block>) -> (r: Self)
        ensures
            r@ == self@ + blocks_view(blocks@),
    {
        let mut s = self;
        let mut blocks = blocks;
        let ghost a = s.content@;
        let ghost b = blocks@;
        s.content.append(&mut blocks);
        proof {
            lemma_blocks_view_add(a, b);
        }
        s
    }

    /// The Pandoc block quote.
    pub fn build(self) -> (r: Block)
        ensures
            r@ == SBlock::BlockQuote(self@),
    {
        Block::BlockQuote(self.content)
    }

    /// The blocks of a document, each rebuilt with the same content so that
    /// nested block quotes keep their order.
    pub fn process_document_quotes(blocks: Vec<Block>) -> (r: Vec<Block>)
        ensures
            blocks_view(r@) == blocks_view(blocks@),
    {
        Self::process_blocks(blocks)
    }

    fn process_blocks(blocks: Vec<Block>) -> (r: Vec<Block>)
        ensures
            blocks_view(r@) == blocks_view(blocks@),
        decreases blocks,
    {
        let ghost bv = blocks@;
        let mut out: Vec<Block> = Vec::new();
        for b in it: blocks
            invariant
                it.seq() == bv,
                blocks_view(out@) == blocks_view(bv.take(it.index() as int)),
        {
            let ghost i = it.index();
            let p = Self::process_block(b);
            let ghost before = out@;
            out.push(p);
            proof {
                assert(bv.take(i + 1).drop_last() =~= bv.take(i));
                assert(out@.drop_last() =~= before);
            }
        }
        assert(bv.take(bv.len() as int) =~= bv);
        out
    }

    fn process_items(items: Vec<Vec<Block>>) -> (r: Vec<Vec<Block>>)
        ensures
            items_view(r@) == items_view(items@),
        decreases items,
    {
        let ghost iv = items@;
        let mut out: Vec<Vec<Block>> = Vec::new();
        for item in it: items
            invariant
                it.seq() == iv,
                items_view(out@) == items_view(iv.take(it.index() as int)),
        {
            let ghost i = it.index();
            let p = Self::process_blocks(item);
            let ghost before = out@;
            out.push(p);
            proof {
                assert(iv.take(i + 1).drop_last() =~= iv.take(i));
                assert(out@.drop_last() =~= before);
            }
        }
        assert(iv.take(iv.len() as int) =~= iv);
        out
    }

    /// A block rebuilt with the same content; block quotes and list items
    /// are rebuilt recursively.
    fn process_block(block: Block) -> (r: Block)
        ensures
            r@ == block@,
        decreases block,
    {
        match block {
            Block::BlockQuote(content) => Block::BlockQuote(Self::process_blocks(content)),
            Block::Para(inlines) => Block::Para(inlines),
            Block::Plain(inlines) => Block::Plain(inlines),
            Block::BulletList(items) => Block::BulletList(Self::process_items(items)),
            Block::OrderedList(attrs, items) => Block::OrderedList(attrs, Self::process_items(items)),
            other => other,
        }
    }
}

/// The Pandoc block quote made from a Notion quote: a paragraph of its text
/// (in a colored `Span` when it has text), then the converted children.
pub open spec fn spec_quote_from_notion(q: STextValue, preserve: bool, children: Seq<SBlock>) -> SBlock {
    let inl = spec_convert_rich_texts(q.rich_text);
    SBlock::BlockQuote(
        seq![
            SBlock::Para(
                match q.color {
                    Some(c) => spec_color_span(inl, c, preserve),
                    None => inl,
                },
            ),
        ] + children,
    )
}

/// A Notion quote, with its already converted children, as a Pandoc block
/// quote; `None` for any other kind of block.
pub fn convert_notion_quote(block: &NotionBlock, config: &ConversionConfig, children_blocks: Vec<Block>) -> (r: Option<Block>)
    ensures
        match block@.block_type {
            SBlockType::Quote(q) => r is Some && r->0@ == spec_quote_from_notion(
                q,
                config.preserve_attributes,
                blocks_view(children_blocks@),
            ),
            _ => r is None,
        },
{
    match &block.block_type {
        BlockType::Quote { quote } => {
            let inlines = NotionTextConverter::convert(quote.rich_text.as_slice());
            let processed = color_span(inlines, &quote.color, config);
            let paragraph = Block::Para(processed);
            let builder = QuoteBuilder::new().add_content(paragraph).add_content_blocks(children_blocks);
            Some(builder.build())
        },
        _ => None,
    }
}

/// A Notion quote, without children, as a Pandoc block quote; `None` for any
/// other kind of block.
pub fn try_convert_to_quote(block: &NotionBlock, config: &ConversionConfig) -> (r: Option<Block>)
    ensures
        match block@.block_type {
            SBlockType::Quote(q) => r is Some && r->0@ == spec_quote_from_notion(
                q,
                config.preserve_attributes,
                Seq::empty(),
            ),
            _ => r is None,
        },
{
    convert_notion_quote(block, config, Vec::new())
}

} // verus!
