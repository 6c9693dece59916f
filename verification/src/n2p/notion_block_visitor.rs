//! The visitor that walks a tree of Notion blocks and converts each block,
//! children first, into Pandoc blocks.
use crate::n2p::notion_code::{spec_code_from_notion, try_convert_to_code};
use crate::n2p::notion_divider::try_convert_to_divider;
use crate::n2p::notion_heading::{spec_convert_heading, try_convert_to_heading};
use crate::n2p::notion_list::{
    convert_notion_bulleted_list, convert_notion_numbered_list, convert_notion_todo,
    spec_bulleted_from_notion, spec_collect_document_lists, spec_numbered_from_notion,
    spec_todo_from_notion, ListBuilder,
};
use crate::n2p::notion_paragraph::{spec_paragraph_from_notion, try_convert_to_paragraph};
use crate::n2p::notion_quote::{convert_notion_quote, spec_quote_from_notion, QuoteBuilder};
use crate::n2p::notion_toggle::{convert_notion_toggle, spec_toggle_from_notion};
use crate::n2p::visitor::NotionBlockVisitor;
use crate::n2p::ConversionConfig;
use crate::notion_api::{
    block_type_name, children_view, lemma_notion_blocks_view, notion_blocks_view, BlockType, BulletedListItemValue,
    CodeValue, HeadingsValue, NotionBlock, NumberedListItemValue, ParagraphValue, QuoteValue,
    SBlockType, SNotionBlock, ToDoValue, ToggleValue,
};
use crate::pandoc::{blocks_view, inlines_view, empty_attr, lemma_blocks_view_add, Attr, Block, Inline, SAttr, SBlock, SInline};
use crate::strings::string_of;
use vstd::prelude::*;

verus! {

broadcast use {vstd::std_specs::vec::group_vec_axioms, crate::pandoc::group_pandoc_view, lemma_notion_blocks_view};

/// The blocks that stand for a block that is not converted: a `Div` holding
/// the paragraph `Unsupported block type`; when attributes are preserved the
/// `Div` has the class `unsupported-block` and a `data-block-type` attribute
/// with the name of the block's kind.
pub open spec fn spec_unsupported(t: SBlockType, config: ConversionConfig) -> Seq<SBlock> {
    let attr = if config.preserve_attributes {
        SAttr {
            identifier: Seq::empty(),
            classes: seq!["unsupported-block"@],
            attributes: seq![("data-block-type"@, block_type_name(t))],
        }
    } else {
        empty_attr()
    };
    seq![SBlock::Div(attr, seq![SBlock::Para(seq![SInline::Str("Unsupported block type"@)])])]
}

/// The children of a block kind that can have children; empty otherwise or
/// when it has none.
pub open spec fn spec_children(t: SBlockType) -> Seq<SNotionBlock> {
    let c = match t {
        SBlockType::Paragraph(v) => v.children,
        SBlockType::BulletedListItem(v) => v.children,
        SBlockType::NumberedListItem(v) => v.children,
        SBlockType::ToDo(v) => v.children,
        SBlockType::Quote(v) => v.children,
        _ => None,
    };
    match c {
        Some(s) => s,
        None => Seq::empty(),
    }
}

/// The Pandoc blocks made from one Notion block and, recursively, its
/// children.  A paragraph is followed by its converted children; a quote
/// and a list item hold theirs; headings and code blocks are converted
/// alone; any other kind becomes the unsupported-block `Div`.
pub open spec fn spec_visit_block(b: SNotionBlock, config: ConversionConfig) -> Seq<SBlock>
    decreases b,
{
    let preserve = config.preserve_attributes;
    match b.block_type {
        SBlockType::Paragraph(p) => seq![spec_paragraph_from_notion(p, preserve)] + match p.children {
            Some(ch) => spec_process_children(ch, config),
            None => Seq::empty(),
        },
        SBlockType::Heading1(h) => seq![spec_convert_heading(b.block_type)->0],
        SBlockType::Heading2(h) => seq![spec_convert_heading(b.block_type)->0],
        SBlockType::Heading3(h) => seq![spec_convert_heading(b.block_type)->0],
        SBlockType::Quote(q) => seq![
            spec_quote_from_notion(
                q,
                preserve,
                match q.children {
                    Some(ch) => spec_process_children(ch, config),
                    None => Seq::empty(),
                },
            ),
        ],
        SBlockType::Code(c) => seq![spec_code_from_notion(c, preserve)],
        SBlockType::BulletedListItem(v) => seq![
            spec_bulleted_from_notion(
                v,
                preserve,
                match v.children {
                    Some(ch) => spec_process_children(ch, config),
                    None => Seq::empty(),
                },
            ),
        ],
        SBlockType::NumberedListItem(v) => seq![
            spec_numbered_from_notion(
                v,
                preserve,
                match v.children {
                    Some(ch) => spec_process_children(ch, config),
                    None => Seq::empty(),
                },
            ),
        ],
        SBlockType::ToDo(v) => seq![
            spec_todo_from_notion(
                v,
                preserve,
                match v.children {
                    Some(ch) => spec_process_children(ch, config),
                    None => Seq::empty(),
                },
            ),
        ],
        _ => spec_unsupported(b.block_type, config),
    }
}

/// The Pandoc blocks made from each block of `cs`, in order.
pub open spec fn spec_process_children(cs: Seq<SNotionBlock>, config: ConversionConfig) -> Seq<SBlock>
    decreases cs,
{
    if cs.len() == 0 {
        Seq::empty()
    } else {
        spec_process_children(cs.drop_last(), config) + spec_visit_block(cs.last(), config)
    }
}

/// A document converted: its blocks converted in order, then consecutive list
/// items merged into single lists.
pub open spec fn spec_convert_document(cs: Seq<SNotionBlock>, config: ConversionConfig) -> Seq<SBlock> {
    spec_collect_document_lists(spec_process_children(cs, config))
}

/// Converts Notion blocks into Pandoc blocks with a given configuration.
pub struct NotionToPandocVisitor {
    config: ConversionConfig,
}

impl View for NotionToPandocVisitor {
    type V = ConversionConfig;

    closed spec fn view(&self) -> ConversionConfig {
        self.config
    }
}

impl NotionToPandocVisitor {
    /// A visitor with the default configuration.
    pub fn new() -> (r: Self)
        ensures
            !r@.preserve_attributes,
            !r@.escape_markdown,
            !r@.render_toggle_div,
    {
        NotionToPandocVisitor { config: ConversionConfig::default() }
    }

    /// A visitor with the given configuration.
    pub fn with_config(config: ConversionConfig) -> (r: Self)
        ensures
            r@ == config,
    {
        NotionToPandocVisitor { config }
    }

    /// A document converted: each block (with its children) converted in
    /// order, consecutive list items merged into single lists, and block
    /// quotes put in order.
    pub fn convert_blocks(&self, blocks: &Vec<NotionBlock>) -> (r: Vec<Block>)
        ensures
            blocks_view(r@) == spec_convert_document(notion_blocks_view(blocks@), self@),
    {
        let raw_blocks = self.process_children(blocks);
        let with_lists = ListBuilder::collect_document_lists(raw_blocks);
        QuoteBuilder::process_document_quotes(with_lists)
    }

    /// The Pandoc blocks made from a block and, recursively, its children.
    pub fn visit_block(&self, block: &NotionBlock) -> (r: Vec<Block>)
        ensures
            blocks_view(r@) == spec_visit_block(block@, self@),
        decreases block,
    {
        match &block.block_type {
            BlockType::Paragraph { paragraph } => self.visit_paragraph(block, paragraph),
            BlockType::Heading1 { heading_1 } => self.visit_heading_1(block, heading_1),
            BlockType::Heading2 { heading_2 } => self.visit_heading_2(block, heading_2),
            BlockType::Heading3 { heading_3 } => self.visit_heading_3(block, heading_3),
            BlockType::Quote { quote } => self.visit_quote(block, quote),
            BlockType::Code { code } => self.visit_code(block, code),
            BlockType::BulletedListItem { bulleted_list_item } => self.visit_bulleted_list_item(
                block,
                bulleted_list_item,
            ),
            BlockType::NumberedListItem { numbered_list_item } => self.visit_numbered_list_item(
                block,
                numbered_list_item,
            ),
            BlockType::ToDo { to_do } => self.visit_todo(block, to_do),
            _ => self.visit_unsupported(block),
        }
    }

    fn converted_children(&self, children: &Option<Vec<NotionBlock>>) -> (r: Vec<Block>)
        ensures
            blocks_view(r@) == match *children {
                Some(ch) => spec_process_children(notion_blocks_view(ch@), self@),
                None => Seq::empty(),
            },
        decreases *children,
    {
        match children {
            Some(ch) => {
                if ch.len() > 0 {
                    self.process_children(ch)
                } else {
                    Vec::new()
                }
            },
            None => Vec::new(),
        }
    }

    /// A paragraph block converted, followed by its converted children.
    pub fn visit_paragraph(&self, block: &NotionBlock, paragraph: &ParagraphValue) -> (r: Vec<Block>)
        ensures
            blocks_view(r@) == match block@.block_type {
                SBlockType::Paragraph(p) => seq![spec_paragraph_from_notion(p, self@.preserve_attributes)],
                _ => Seq::<SBlock>::empty(),
            } + match children_view(paragraph.children) {
                Some(ch) => spec_process_children(ch, self@),
                None => Seq::empty(),
            },
        decreases *paragraph,
    {
        let mut result = Vec::new();
        match try_convert_to_paragraph(block, &self.config) {
            Some(b) => result.push(b),
            None => {},
        }
        let ghost head = result@;
        let mut rest = self.converted_children(&paragraph.children);
        let ghost tail = rest@;
        result.append(&mut rest);
        proof {
            lemma_blocks_view_add(head, tail);
        }
        result
    }

    fn one(block: Option<Block>) -> (r: Vec<Block>)
        ensures
            blocks_view(r@) == match block {
                Some(b) => seq![b@],
                None => Seq::<SBlock>::empty(),
            },
    {
        let mut v = Vec::new();
        match block {
            Some(b) => v.push(b),
            None => {},
        }
        v
    }

    /// A level 1 heading block converted.
    pub fn visit_heading_1(&self, block: &NotionBlock, heading: &HeadingsValue) -> (r: Vec<Block>)
        ensures
            blocks_view(r@) == match spec_convert_heading(block@.block_type) {
                Some(b) => seq![b],
                None => Seq::<SBlock>::empty(),
            },
    {
        Self::one(try_convert_to_heading(block))
    }

    /// A level 2 heading block converted.
    pub fn visit_heading_2(&self, block: &NotionBlock, heading: &HeadingsValue) -> (r: Vec<Block>)
        ensures
            blocks_view(r@) == match spec_convert_heading(block@.block_type) {
                Some(b) => seq![b],
                None => Seq::<SBlock>::empty(),
            },
    {
        Self::one(try_convert_to_heading(block))
    }

    /// A level 3 heading block converted.
    pub fn visit_heading_3(&self, block: &NotionBlock, heading: &HeadingsValue) -> (r: Vec<Block>)
        ensures
            blocks_view(r@) == match spec_convert_heading(block@.block_type) {
                Some(b) => seq![b],
                None => Seq::<SBlock>::empty(),
            },
    {
        Self::one(try_convert_to_heading(block))
    }

    /// A quote block converted, holding its converted children.
    pub fn visit_quote(&self, block: &NotionBlock, quote: &QuoteValue) -> (r: Vec<Block>)
        ensures
            blocks_view(r@) == match block@.block_type {
                SBlockType::Quote(q) => seq![
                    spec_quote_from_notion(
                        q,
                        self@.preserve_attributes,
                        match children_view(quote.children) {
                            Some(ch) => spec_process_children(ch, self@),
                            None => Seq::empty(),
                        },
                    ),
                ],
                _ => Seq::<SBlock>::empty(),
            },
        decreases *quote,
    {
        let children_blocks = self.converted_children(&quote.children);
        Self::one(convert_notion_quote(block, &self.config, children_blocks))
    }

    /// A code block converted.
    pub fn visit_code(&self, block: &NotionBlock, code: &CodeValue) -> (r: Vec<Block>)
        ensures
            blocks_view(r@) == match block@.block_type {
                SBlockType::Code(c) => seq![spec_code_from_notion(c, self@.preserve_attributes)],
                _ => Seq::<SBlock>::empty(),
            },
    {
        Self::one(try_convert_to_code(block, &self.config))
    }

    /// A bulleted list item converted, holding its converted children.
    pub fn visit_bulleted_list_item(&self, block: &NotionBlock, item: &BulletedListItemValue) -> (r: Vec<Block>)
        ensures
            blocks_view(r@) == match block@.block_type {
                SBlockType::BulletedListItem(v) => seq![
                    spec_bulleted_from_notion(
                        v,
                        self@.preserve_attributes,
                        match children_view(item.children) {
                            Some(ch) => spec_process_children(ch, self@),
                            None => Seq::empty(),
                        },
                    ),
                ],
                _ => spec_unsupported(block@.block_type, self@),
            },
        decreases *item,
    {
        let children_blocks = self.converted_children(&item.children);
        match convert_notion_bulleted_list(block, &self.config, children_blocks) {
            Some(b) => Self::one(Some(b)),
            None => self.visit_unsupported(block),
        }
    }

    /// A numbered list item converted, holding its converted children.
    pub fn visit_numbered_list_item(&self, block: &NotionBlock, item: &NumberedListItemValue) -> (r: Vec<Block>)
        ensures
            blocks_view(r@) == match block@.block_type {
                SBlockType::NumberedListItem(v) => seq![
                    spec_numbered_from_notion(
                        v,
                        self@.preserve_attributes,
                        match children_view(item.children) {
                            Some(ch) => spec_process_children(ch, self@),
                            None => Seq::empty(),
                        },
                    ),
                ],
                _ => spec_unsupported(block@.block_type, self@),
            },
        decreases *item,
    {
        let children_blocks = self.converted_children(&item.children);
        match convert_notion_numbered_list(block, &self.config, children_blocks) {
            Some(b) => Self::one(Some(b)),
            None => self.visit_unsupported(block),
        }
    }

    /// A to-do item converted, holding its converted children.
    pub fn visit_todo(&self, block: &NotionBlock, todo: &ToDoValue) -> (r: Vec<Block>)
        ensures
            blocks_view(r@) == match block@.block_type {
                SBlockType::ToDo(v) => seq![
                    spec_todo_from_notion(
                        v,
                        self@.preserve_attributes,
                        match children_view(todo.children) {
                            Some(ch) => spec_process_children(ch, self@),
                            None => Seq::empty(),
                        },
                    ),
                ],
                _ => spec_unsupported(block@.block_type, self@),
            },
        decreases *todo,
    {
        let children_blocks = self.converted_children(&todo.children);
        match convert_notion_todo(block, &self.config, children_blocks) {
            Some(b) => Self::one(Some(b)),
            None => self.visit_unsupported(block),
        }
    }

    /// A divider block converted to a horizontal rule; nothing for any other
    /// kind of block.
    pub fn visit_divider(&self, block: &NotionBlock) -> (r: Vec<Block>)
        ensures
            blocks_view(r@) == match block@.block_type {
                SBlockType::Divider => seq![SBlock::HorizontalRule],
                _ => Seq::<SBlock>::empty(),
            },
    {
        Self::one(try_convert_to_divider(block, &self.config))
    }

    /// A toggle block converted; nothing for any other kind of block.
    pub fn visit_toggle(&self, block: &NotionBlock, toggle: &ToggleValue) -> (r: Vec<Block>)
        ensures
            blocks_view(r@) == match block@.block_type {
                SBlockType::Toggle(v) => seq![spec_toggle_from_notion(v, self@)],
                _ => Seq::<SBlock>::empty(),
            },
    {
        Self::one(convert_notion_toggle(block, &self.config))
    }

    /// The `Div` that stands for a block that is not converted.
    pub fn visit_unsupported(&self, block: &NotionBlock) -> (r: Vec<Block>)
        ensures
            blocks_view(r@) == spec_unsupported(block@.block_type, self@),
    {
        let attr = if self.config.preserve_attributes {
            let mut classes = Vec::new();
            classes.push(string_of("unsupported-block"));
            let mut attributes = Vec::new();
            attributes.push((string_of("data-block-type"), block.block_type.api_name()));
            let a = Attr { identifier: String::new(), classes, attributes };
            assert(a@.classes =~= seq!["unsupported-block"@]);
            assert(a@.attributes =~= seq![("data-block-type"@, block_type_name(block@.block_type))]);
            a
        } else {
            Attr::new()
        };
        let mut inlines = Vec::new();
        inlines.push(Inline::Str(string_of("Unsupported block type")));
        let mut content = Vec::new();
        content.push(Block::Para(inlines));
        let mut v = Vec::new();
        v.push(Block::Div(attr, content));
        proof {
            assert(inlines_view(inlines@) =~= seq![SInline::Str("Unsupported block type"@)]);
            assert(blocks_view(content@) =~= seq![SBlock::Para(seq![SInline::Str("Unsupported block type"@)])]);
            assert(blocks_view(v@) =~= spec_unsupported(block@.block_type, self@));
        }
        v
    }

    /// Copies of the children a block carries, for the kinds whose children
    /// are converted (see [`spec_children`]); none for the others.
    pub fn get_children(&self, block: &NotionBlock) -> (r: Vec<NotionBlock>)
        ensures
            notion_blocks_view(r@) == spec_children(block@.block_type),
    {
        let c = match &block.block_type {
            BlockType::Paragraph { paragraph } => &paragraph.children,
            BlockType::BulletedListItem { bulleted_list_item } => &bulleted_list_item.children,
            BlockType::NumberedListItem { numbered_list_item } => &numbered_list_item.children,
            BlockType::ToDo { to_do } => &to_do.children,
            BlockType::Quote { quote } => &quote.children,
            _ => {
                let r: Vec<NotionBlock> = Vec::new();
                assert(notion_blocks_view(r@) =~= Seq::empty());
                return r;
            },
        };
        match c {
            Some(v) => crate::block_copy::copy_blocks(v),
            None => {
                let r: Vec<NotionBlock> = Vec::new();
                assert(notion_blocks_view(r@) =~= Seq::empty());
                r
            },
        }
    }

    /// The Pandoc blocks made from each of `children`, in order.
    pub fn process_children(&self, children: &Vec<NotionBlock>) -> (r: Vec<Block>)
        ensures
            blocks_view(r@) == spec_process_children(notion_blocks_view(children@), self@),
        decreases children,
    {
        let ghost cv = notion_blocks_view(children@);
        let mut result: Vec<Block> = Vec::new();
        let n = children.len();
        for i in 0..n
            invariant
                n == children@.len(),
                cv == notion_blocks_view(children@),
                blocks_view(result@) == spec_process_children(cv.take(i as int), self@),
        {
            let ghost head = result@;
            assert(decreases_to!(children => children@[i as int]));
            let mut converted = self.visit_block(&children[i]);
            let ghost tail = converted@;
            result.append(&mut converted);
            proof {
                lemma_blocks_view_add(head, tail);
                assert(cv.take(i + 1).drop_last() =~= cv.take(i as int));
                lemma_notion_blocks_view(children@);
                assert(cv[i as int] == children@[i as int]@);
                assert(cv.take(i + 1).last() == cv[i as int]);
            }
        }
        assert(cv.take(n as int) =~= cv);
        result
    }
}

impl NotionBlockVisitor for NotionToPandocVisitor {
    open spec fn visited(&self, b: SNotionBlock) -> Seq<SBlock> {
        spec_visit_block(b, self@)
    }

    open spec fn visited_children(&self, cs: Seq<SNotionBlock>) -> Seq<SBlock> {
        spec_process_children(cs, self@)
    }

    fn visit_block(&self, block: &NotionBlock) -> (r: Vec<Block>) {
        NotionToPandocVisitor::visit_block(self, block)
    }

    fn visit_paragraph(&self, block: &NotionBlock, paragraph: &ParagraphValue) -> (r: Vec<Block>)
        ensures
            blocks_view(r@) == match block@.block_type {
                SBlockType::Paragraph(p) => seq![spec_paragraph_from_notion(p, self@.preserve_attributes)],
                _ => Seq::<SBlock>::empty(),
            } + match children_view(paragraph.children) {
                Some(ch) => spec_process_children(ch, self@),
                None => Seq::empty(),
            },
    {
        NotionToPandocVisitor::visit_paragraph(self, block, paragraph)
    }

    fn visit_heading_1(&self, block: &NotionBlock, heading: &HeadingsValue) -> (r: Vec<Block>)
        ensures
            blocks_view(r@) == match spec_convert_heading(block@.block_type) {
                Some(b) => seq![b],
                None => Seq::<SBlock>::empty(),
            },
    {
        NotionToPandocVisitor::visit_heading_1(self, block, heading)
    }

    fn visit_heading_2(&self, block: &NotionBlock, heading: &HeadingsValue) -> (r: Vec<Block>)
        ensures
            blocks_view(r@) == match spec_convert_heading(block@.block_type) {
                Some(b) => seq![b],
                None => Seq::<SBlock>::empty(),
            },
    {
        NotionToPandocVisitor::visit_heading_2(self, block, heading)
    }

    fn visit_heading_3(&self, block: &NotionBlock, heading: &HeadingsValue) -> (r: Vec<Block>)
        ensures
            blocks_view(r@) == match spec_convert_heading(block@.block_type) {
                Some(b) => seq![b],
                None => Seq::<SBlock>::empty(),
            },
    {
        NotionToPandocVisitor::visit_heading_3(self, block, heading)
    }

    fn visit_quote(&self, block: &NotionBlock, quote: &QuoteValue) -> (r: Vec<Block>)
        ensures
            blocks_view(r@) == match block@.block_type {
                SBlockType::Quote(q) => seq![
                    spec_quote_from_notion(
                        q,
                        self@.preserve_attributes,
                        match children_view(quote.children) {
                            Some(ch) => spec_process_children(ch, self@),
                            None => Seq::empty(),
                        },
                    ),
                ],
                _ => Seq::<SBlock>::empty(),
            },
    {
        NotionToPandocVisitor::visit_quote(self, block, quote)
    }

    fn visit_code(&self, block: &NotionBlock, code: &CodeValue) -> (r: Vec<Block>)
        ensures
            blocks_view(r@) == match block@.block_type {
                SBlockType::Code(c) => seq![spec_code_from_notion(c, self@.preserve_attributes)],
                _ => Seq::<SBlock>::empty(),
            },
    {
        NotionToPandocVisitor::visit_code(self, block, code)
    }

    fn visit_bulleted_list_item(&self, block: &NotionBlock, item: &BulletedListItemValue) -> (r: Vec<Block>)
        ensures
            blocks_view(r@) == match block@.block_type {
                SBlockType::BulletedListItem(v) => seq![
                    spec_bulleted_from_notion(
                        v,
                        self@.preserve_attributes,
                        match children_view(item.children) {
                            Some(ch) => spec_process_children(ch, self@),
                            None => Seq::empty(),
                        },
                    ),
                ],
                _ => spec_unsupported(block@.block_type, self@),
            },
    {
        NotionToPandocVisitor::visit_bulleted_list_item(self, block, item)
    }

    fn visit_numbered_list_item(&self, block: &NotionBlock, item: &NumberedListItemValue) -> (r: Vec<Block>)
        ensures
            blocks_view(r@) == match block@.block_type {
                SBlockType::NumberedListItem(v) => seq![
                    spec_numbered_from_notion(
                        v,
                        self@.preserve_attributes,
                        match children_view(item.children) {
                            Some(ch) => spec_process_children(ch, self@),
                            None => Seq::empty(),
                        },
                    ),
                ],
                _ => spec_unsupported(block@.block_type, self@),
            },
    {
        NotionToPandocVisitor::visit_numbered_list_item(self, block, item)
    }

    fn visit_todo(&self, block: &NotionBlock, todo: &ToDoValue) -> (r: Vec<Block>)
        ensures
            blocks_view(r@) == match block@.block_type {
                SBlockType::ToDo(v) => seq![
                    spec_todo_from_notion(
                        v,
                        self@.preserve_attributes,
                        match children_view(todo.children) {
                            Some(ch) => spec_process_children(ch, self@),
                            None => Seq::empty(),
                        },
                    ),
                ],
                _ => spec_unsupported(block@.block_type, self@),
            },
    {
        NotionToPandocVisitor::visit_todo(self, block, todo)
    }

    fn visit_divider(&self, block: &NotionBlock) -> (r: Vec<Block>)
        ensures
            blocks_view(r@) == match block@.block_type {
                SBlockType::Divider => seq![SBlock::HorizontalRule],
                _ => Seq::<SBlock>::empty(),
            },
    {
        NotionToPandocVisitor::visit_divider(self, block)
    }

    fn visit_toggle(&self, block: &NotionBlock, toggle: &ToggleValue) -> (r: Vec<Block>)
        ensures
            blocks_view(r@) == match block@.block_type {
                SBlockType::Toggle(v) => seq![spec_toggle_from_notion(v, self@)],
                _ => Seq::<SBlock>::empty(),
            },
    {
        NotionToPandocVisitor::visit_toggle(self, block, toggle)
    }

    fn visit_unsupported(&self, block: &NotionBlock) -> (r: Vec<Block>)
        ensures
            blocks_view(r@) == spec_unsupported(block@.block_type, self@),
    {
        NotionToPandocVisitor::visit_unsupported(self, block)
    }

    fn process_children(&self, children: &Vec<NotionBlock>) -> (r: Vec<Block>) {
        NotionToPandocVisitor::process_children(self, children)
    }

    fn get_children(&self, block: &NotionBlock) -> (r: Vec<NotionBlock>) {
        NotionToPandocVisitor::get_children(self, block)
    }
}

} // verus!
