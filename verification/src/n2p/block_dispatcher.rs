//! A table from block kind names to converters, used to convert single
//! Notion blocks without walking their children.
use crate::n2p::notion_heading::{convert_notion_heading, spec_convert_heading};
use crate::n2p::notion_paragraph::{convert_notion_paragraph, spec_paragraph_from_notion};
use crate::n2p::ConversionConfig;
use crate::notion_api::{lemma_notion_blocks_view, notion_blocks_view, BlockType, NotionBlock, SBlockType, SNotionBlock};
use crate::pandoc::{blocks_view, lemma_blocks_view_add, Block, SBlock};
use crate::strings::string_of;
use vstd::hash_map::StringHashMap;
use vstd::prelude::*;

verus! {

broadcast use {vstd::std_specs::vec::group_vec_axioms, crate::pandoc::group_pandoc_view, lemma_notion_blocks_view};

/// A converter that the dispatcher can hold.
#[derive(Debug, Clone, Copy, PartialEq, Eq, Structural)]
pub enum BlockConverter {
    /// Converts headings, with the heading converter.
    Heading,
    /// Converts paragraphs, with the paragraph converter and the default
    /// configuration.
    Paragraph,
}

/// What a converter gives for a block: `None` when it does not apply.
pub open spec fn spec_apply(c: BlockConverter, b: SNotionBlock) -> Option<Seq<SBlock>> {
    match c {
        BlockConverter::Heading => match spec_convert_heading(b.block_type) {
            Some(h) => Some(seq![h]),
            None => None,
        },
        BlockConverter::Paragraph => match b.block_type {
            SBlockType::Paragraph(p) => Some(seq![spec_paragraph_from_notion(p, false)]),
            _ => None,
        },
    }
}

impl BlockConverter {
    /// The blocks that this converter makes from `block`, `None` when it does
    /// not apply.
    pub fn apply(&self, block: &NotionBlock) -> (r: Option<Vec<Block>>)
        ensures
            match spec_apply(*self, block@) {
                Some(bs) => r is Some && blocks_view(r->0@) == bs,
                None => r is None,
            },
    {
        let converted = match self {
            BlockConverter::Heading => convert_notion_heading(block),
            BlockConverter::Paragraph => convert_notion_paragraph(block, &ConversionConfig::default()),
        };
        match converted {
            Some(b) => {
                let mut v = Vec::new();
                v.push(b);
                assert(blocks_view(v@) =~= seq![v@[0]@]);
                Some(v)
            },
            None => None,
        }
    }
}

/// The name under which the dispatcher looks up a block's converter;
/// `unsupported` for the kinds it has no name for.
pub open spec fn dispatch_name(t: SBlockType) -> Seq<char> {
    match t {
        SBlockType::Heading1(_) => "heading_1"@,
        SBlockType::Heading2(_) => "heading_2"@,
        SBlockType::Heading3(_) => "heading_3"@,
        SBlockType::Paragraph(_) => "paragraph"@,
        SBlockType::BulletedListItem(_) => "bulleted_list_item"@,
        SBlockType::NumberedListItem(_) => "numbered_list_item"@,
        SBlockType::ToDo(_) => "to_do"@,
        SBlockType::Toggle(_) => "toggle"@,
        SBlockType::Code(_) => "code"@,
        SBlockType::Quote(_) => "quote"@,
        SBlockType::Callout => "callout"@,
        SBlockType::Divider => "divider"@,
        SBlockType::Image => "image"@,
        SBlockType::Video => "video"@,
        SBlockType::File => "file"@,
        SBlockType::Bookmark => "bookmark"@,
        SBlockType::Equation => "equation"@,
        _ => "unsupported"@,
    }
}

/// The converters registered by default: the heading converter under
/// `heading_1`, `heading_2` and `heading_3`, the paragraph converter under
/// `paragraph`.
pub open spec fn default_converters() -> Map<Seq<char>, BlockConverter> {
    Map::empty().insert("heading_1"@, BlockConverter::Heading).insert(
        "heading_2"@,
        BlockConverter::Heading,
    ).insert("heading_3"@, BlockConverter::Heading).insert("paragraph"@, BlockConverter::Paragraph)
}

/// The blocks that a table of converters makes from one block: those of the
/// converter registered under the block's name, nothing when there is none
/// or it does not apply.
pub open spec fn spec_dispatch(m: Map<Seq<char>, BlockConverter>, b: SNotionBlock) -> Seq<SBlock> {
    let name = dispatch_name(b.block_type);
    if m.contains_key(name) {
        match spec_apply(m[name], b) {
            Some(bs) => bs,
            None => Seq::empty(),
        }
    } else {
        Seq::empty()
    }
}

/// The blocks that a table of converters makes from each block of `bs`, in
/// order.
pub open spec fn spec_dispatch_all(m: Map<Seq<char>, BlockConverter>, bs: Seq<SNotionBlock>) -> Seq<SBlock>
    decreases bs.len(),
{
    if bs.len() == 0 {
        Seq::empty()
    } else {
        spec_dispatch_all(m, bs.drop_last()) + spec_dispatch(m, bs.last())
    }
}

/// Converts single Notion blocks by the converter registered for their kind.
pub struct NotionToPandocDispatcher {
    converters: StringHashMap<BlockConverter>,
}

impl View for NotionToPandocDispatcher {
    type V = Map<Seq<char>, BlockConverter>;

    closed spec fn view(&self) -> Map<Seq<char>, BlockConverter> {
        self.converters@
    }
}

impl NotionToPandocDispatcher {
    /// A dispatcher holding the default converters.
    pub fn new() -> (r: Self)
        ensures
            r@ == default_converters(),
    {
        let mut dispatcher = NotionToPandocDispatcher { converters: StringHashMap::new() };
        dispatcher.register_default_converters();
        dispatcher
    }

    fn register_default_converters(&mut self)
        ensures
            final(self)@ == old(self)@.insert("heading_1"@, BlockConverter::Heading).insert(
                "heading_2"@,
                BlockConverter::Heading,
            ).insert("heading_3"@, BlockConverter::Heading).insert(
                "paragraph"@,
                BlockConverter::Paragraph,
            ),
    {
        self.register_converter("heading_1", BlockConverter::Heading);
        self.register_converter("heading_2", BlockConverter::Heading);
        self.register_converter("heading_3", BlockConverter::Heading);
        self.register_converter("paragraph", BlockConverter::Paragraph);
    }

    /// Registers `converter` under the name `block_type`, replacing any
    /// converter registered under that name.
    pub fn register_converter(&mut self, block_type: &'static str, converter: BlockConverter)
        ensures
            final(self)@ == old(self)@.insert(block_type@, converter),
    {
        self.converters.insert(string_of(block_type), converter);
    }

    fn lookup(&self, name: &str) -> (r: Option<BlockConverter>)
        ensures
            self@.contains_key(name@) ==> r == Some(self@[name@]),
            !self@.contains_key(name@) ==> r is None,
    {
        match self.converters.get(name) {
            Some(c) => Some(*c),
            None => None,
        }
    }

    /// The blocks that the converter registered for the block's kind makes
    /// from it; nothing when no converter is registered or it does not apply.
    pub fn convert(&self, block: &NotionBlock) -> (r: Vec<Block>)
        ensures
            blocks_view(r@) == spec_dispatch(self@, block@),
    {
        let block_type = self.get_block_type(block);
        match self.lookup(block_type) {
            Some(converter) => match converter.apply(block) {
                Some(blocks) => {
                    return blocks;
                },
                None => {},
            },
            None => {},
        }
        Vec::new()
    }

    fn get_block_type(&self, block: &NotionBlock) -> (r: &'static str)
        ensures
            r@ == dispatch_name(block@.block_type),
    {
        match &block.block_type {
            BlockType::Heading1 { .. } => "heading_1",
            BlockType::Heading2 { .. } => "heading_2",
            BlockType::Heading3 { .. } => "heading_3",
            BlockType::Paragraph { .. } => "paragraph",
            BlockType::BulletedListItem { .. } => "bulleted_list_item",
            BlockType::NumberedListItem { .. } => "numbered_list_item",
            BlockType::ToDo { .. } => "to_do",
            BlockType::Toggle { .. } => "toggle",
            BlockType::Code { .. } => "code",
            BlockType::Quote { .. } => "quote",
            BlockType::Callout => "callout",
            BlockType::Divider => "divider",
            BlockType::Image => "image",
            BlockType::Video => "video",
            BlockType::File => "file",
            BlockType::Bookmark => "bookmark",
            BlockType::Equation => "equation",
            _ => "unsupported",
        }
    }

    /// The blocks made from each of `blocks`, in order.
    pub fn convert_blocks(&self, blocks: &Vec<NotionBlock>) -> (r: Vec<Block>)
        ensures
            blocks_view(r@) == spec_dispatch_all(self@, notion_blocks_view(blocks@)),
    {
        let ghost bv = notion_blocks_view(blocks@);
        let mut result: Vec<Block> = Vec::new();
        let n = blocks.len();
        for i in 0..n
            invariant
                n == blocks@.len(),
                bv == notion_blocks_view(blocks@),
                blocks_view(result@) == spec_dispatch_all(self@, bv.take(i as int)),
        {
            let ghost head = result@;
            let mut converted = self.convert(&blocks[i]);
            let ghost tail = converted@;
            result.append(&mut converted);
            proof {
                lemma_blocks_view_add(head, tail);
                assert(bv.take(i + 1).drop_last() =~= bv.take(i as int));
                lemma_notion_blocks_view(blocks@);
                assert(bv[i as int] == blocks@[i as int]@);
                assert(bv.take(i + 1).last() == bv[i as int]);
            }
        }
        assert(bv.take(n as int) =~= bv);
        result
    }
}

/// The blocks that a dispatcher with the default converters makes from one
/// block.
pub fn convert_block(block: &NotionBlock) -> (r: Vec<Block>)
    ensures
        blocks_view(r@) == spec_dispatch(default_converters(), block@),
{
    NotionToPandocDispatcher::new().convert(block)
}

/// The blocks that a dispatcher with the default converters makes from each
/// of `blocks`, in order.
pub fn convert_blocks(blocks: &Vec<NotionBlock>) -> (r: Vec<Block>)
    ensures
        blocks_view(r@) == spec_dispatch_all(default_converters(), notion_blocks_view(blocks@)),
{
    NotionToPandocDispatcher::new().convert_blocks(blocks)
}

} // verus!
