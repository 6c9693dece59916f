//! The visitor that walks Pandoc blocks and converts each into Notion
//! blocks.
use crate::notion_api::{
    lemma_notion_blocks_view_add, notion_blocks_view, opt_view, BlockType, NotionBlock,
    ParagraphValue, RichText, SBlockType, SNotionBlock, SRichText, STextValue, Text,
};
use crate::p2n::pandoc_heading::{spec_heading_from_header, PandocHeadingConverter};
use crate::p2n::pandoc_paragraph::{spec_paragraph_from_inlines, PandocParagraphConverter};
use crate::p2n::pandoc_text::{unsupported_with, ConversionError};
use crate::p2n::visitor::PandocBlockVisitor;
use crate::p2n::{make_block, new_block};
use crate::pandoc::{
    block_rendering, blocks_view, inlines_view, render_block, Attr, Block, Inline, SBlock, SInline,
};
use crate::strings::{push_str, string_of};
use vstd::prelude::*;

verus! {

broadcast use {
    vstd::std_specs::vec::group_vec_axioms,
    crate::pandoc::group_pandoc_view,
    crate::notion_api::lemma_notion_blocks_view,
};

/// The text of the paragraph that stands for a Pandoc block with no Notion
/// counterpart.
pub open spec fn unsupported_message(b: SBlock) -> Seq<char> {
    "Unsupported Pandoc block type: "@ + block_rendering(b)
}

/// The Notion paragraph that stands for a Pandoc block with no Notion
/// counterpart: one text object naming the block, under the given parent.
pub open spec fn spec_unsupported_block(b: SBlock, parent: Option<Seq<char>>) -> SNotionBlock {
    let m = unsupported_message(b);
    new_block(
        Some(Seq::empty()),
        parent,
        false,
        SBlockType::Paragraph(
            STextValue {
                rich_text: seq![
                    SRichText::Text {
                        content: m,
                        link: None,
                        annotations: None,
                        plain_text: Some(m),
                        href: None,
                    },
                ],
                color: None,
                children: None,
            },
        ),
    )
}

/// One result as a sequence of at most one block.
pub open spec fn one_block(r: Result<SNotionBlock, Seq<char>>) -> Result<Seq<SNotionBlock>, Seq<char>> {
    match r {
        Ok(b) => Ok(seq![b]),
        Err(d) => Err(d),
    }
}

/// The Notion blocks made from one Pandoc block: a paragraph or plain text a
/// Notion paragraph, a header a Notion heading under the parent, any other
/// block the paragraph that names it.  Or the conversion error.
pub open spec fn spec_visit_pandoc_block(b: SBlock, parent: Option<Seq<char>>) -> Result<Seq<SNotionBlock>, Seq<char>> {
    match b {
        SBlock::Para(inl) => one_block(spec_paragraph_from_inlines(inl)),
        SBlock::Plain(inl) => one_block(spec_paragraph_from_inlines(inl)),
        SBlock::Header(level, a, inl) => one_block(
            spec_heading_from_header(level, a.classes, a.attributes, inl, parent),
        ),
        _ => Ok(seq![spec_unsupported_block(b, parent)]),
    }
}

/// The Notion blocks made from each of `bs`, in order, or the first
/// conversion error.
pub open spec fn spec_process_pandoc_blocks(bs: Seq<SBlock>, parent: Option<Seq<char>>) -> Result<Seq<SNotionBlock>, Seq<char>>
    decreases bs.len(),
{
    if bs.len() == 0 {
        Ok(Seq::empty())
    } else {
        match spec_process_pandoc_blocks(bs.drop_last(), parent) {
            Ok(done) => match spec_visit_pandoc_block(bs.last(), parent) {
                Ok(more) => Ok(done + more),
                Err(d) => Err(d),
            },
            Err(d) => Err(d),
        }
    }
}

fn clone_parent(p: &Option<String>) -> (r: Option<String>)
    ensures
        opt_view(r) == opt_view(*p),
{
    match p {
        Some(s) => Some(s.clone()),
        None => None,
    }
}

/// Converts Pandoc blocks into Notion blocks.
pub struct PandocToNotionVisitor {
    paragraph_converter: PandocParagraphConverter,
    heading_converter: PandocHeadingConverter,
}

impl PandocToNotionVisitor {
    /// A visitor.
    pub fn new() -> (r: Self) {
        PandocToNotionVisitor {
            paragraph_converter: PandocParagraphConverter::new(),
            heading_converter: PandocHeadingConverter::new(),
        }
    }

    /// The Notion blocks made from `blocks`, in order, headings under the
    /// given parent; or the first conversion error.
    pub fn convert_blocks(&self, blocks: &[Block], parent_id: Option<String>) -> (r: Result<Vec<NotionBlock>, ConversionError>)
        ensures
            match spec_process_pandoc_blocks(blocks_view(blocks@), opt_view(parent_id)) {
                Ok(bs) => r is Ok && notion_blocks_view(r->Ok_0@) == bs,
                Err(d) => r is Err && unsupported_with(r->Err_0, d),
            },
    {
        self.process_blocks(blocks, parent_id)
    }

    /// The Notion blocks made from one Pandoc block.
    pub fn visit_block(&self, block: &Block, parent_id: Option<String>) -> (r: Result<Vec<NotionBlock>, ConversionError>)
        ensures
            match spec_visit_pandoc_block(block@, opt_view(parent_id)) {
                Ok(bs) => r is Ok && notion_blocks_view(r->Ok_0@) == bs,
                Err(d) => r is Err && unsupported_with(r->Err_0, d),
            },
    {
        match block {
            Block::Para(inlines) => self.visit_paragraph(inlines.as_slice(), parent_id),
            Block::Plain(inlines) => self.visit_plain(inlines.as_slice(), parent_id),
            Block::Header(level, attr, inlines) => self.visit_header(
                *level,
                attr,
                inlines.as_slice(),
                parent_id,
            ),
            _ => self.visit_unsupported(block, parent_id),
        }
    }

    fn single(r: Result<NotionBlock, ConversionError>) -> (out: Result<Vec<NotionBlock>, ConversionError>)
        ensures
            match r {
                Ok(b) => out is Ok && notion_blocks_view(out->Ok_0@) == seq![b@],
                Err(e) => out == Err::<Vec<NotionBlock>, ConversionError>(e),
            },
    {
        match r {
            Ok(b) => {
                let mut v = Vec::new();
                v.push(b);
                assert(notion_blocks_view(v@) =~= seq![v@[0]@]);
                Ok(v)
            },
            Err(e) => Err(e),
        }
    }

    /// The Notion paragraph made from a paragraph's inlines.  The parent is
    /// not used.
    pub fn visit_paragraph(&self, inlines: &[Inline], parent_id: Option<String>) -> (r: Result<Vec<NotionBlock>, ConversionError>)
        ensures
            match one_block(spec_paragraph_from_inlines(inlines_view(inlines@))) {
                Ok(bs) => r is Ok && notion_blocks_view(r->Ok_0@) == bs,
                Err(d) => r is Err && unsupported_with(r->Err_0, d),
            },
    {
        Self::single(self.paragraph_converter.convert_inlines(inlines))
    }

    /// The Notion heading made from a header, under the given parent.
    pub fn visit_header(&self, level: i32, attr: &Attr, inlines: &[Inline], parent_id: Option<String>) -> (r: Result<Vec<NotionBlock>, ConversionError>)
        ensures
            match one_block(
                spec_heading_from_header(
                    level,
                    attr@.classes,
                    attr@.attributes,
                    inlines_view(inlines@),
                    opt_view(parent_id),
                ),
            ) {
                Ok(bs) => r is Ok && notion_blocks_view(r->Ok_0@) == bs,
                Err(d) => r is Err && unsupported_with(r->Err_0, d),
            },
    {
        Self::single(self.heading_converter.convert_header(level, attr, inlines, parent_id))
    }

    /// Plain text, converted as a paragraph.
    pub fn visit_plain(&self, inlines: &[Inline], parent_id: Option<String>) -> (r: Result<Vec<NotionBlock>, ConversionError>)
        ensures
            match one_block(spec_paragraph_from_inlines(inlines_view(inlines@))) {
                Ok(bs) => r is Ok && notion_blocks_view(r->Ok_0@) == bs,
                Err(d) => r is Err && unsupported_with(r->Err_0, d),
            },
    {
        self.visit_paragraph(inlines, parent_id)
    }

    /// The paragraph that stands for a block with no Notion counterpart.
    pub fn visit_unsupported(&self, block: &Block, parent_id: Option<String>) -> (r: Result<Vec<NotionBlock>, ConversionError>)
        ensures
            r is Ok,
            notion_blocks_view(r->Ok_0@) == seq![spec_unsupported_block(block@, opt_view(parent_id))],
    {
        let mut message = string_of("Unsupported Pandoc block type: ");
        let rendering = render_block(block);
        push_str(&mut message, rendering.as_str());
        let text = RichText::Text {
            text: Text { content: message.clone(), link: None },
            annotations: None,
            plain_text: Some(message),
            href: None,
        };
        let mut rich_text = Vec::new();
        rich_text.push(text);
        let paragraph = ParagraphValue { rich_text, color: None, children: None };
        let b = make_block(Some(String::new()), parent_id, false, BlockType::Paragraph { paragraph });
        proof {
            assert(crate::notion_api::rich_texts_view(paragraph.rich_text@) =~= seq![
                SRichText::Text {
                    content: unsupported_message(block@),
                    link: None,
                    annotations: None,
                    plain_text: Some(unsupported_message(block@)),
                    href: None,
                },
            ]);
        }
        Self::single(Ok(b))
    }

    /// The Notion blocks made from each of `blocks`, in order.
    pub fn process_blocks(&self, blocks: &[Block], parent_id: Option<String>) -> (r: Result<Vec<NotionBlock>, ConversionError>)
        ensures
            match spec_process_pandoc_blocks(blocks_view(blocks@), opt_view(parent_id)) {
                Ok(bs) => r is Ok && notion_blocks_view(r->Ok_0@) == bs,
                Err(d) => r is Err && unsupported_with(r->Err_0, d),
            },
    {
        let ghost bv = blocks_view(blocks@);
        let ghost pv = opt_view(parent_id);
        let mut result: Vec<NotionBlock> = Vec::new();
        let n = blocks.len();
        assert(notion_blocks_view(result@) =~= Seq::<SNotionBlock>::empty());
        for i in 0..n
            invariant
                n == blocks@.len(),
                bv == blocks_view(blocks@),
                pv == opt_view(parent_id),
                spec_process_pandoc_blocks(bv.take(i as int), pv) == Ok::<Seq<SNotionBlock>, Seq<char>>(
                    notion_blocks_view(result@),
                ),
        {
            proof {
                crate::pandoc::lemma_blocks_view(blocks@);
                assert(bv.take(i + 1).drop_last() =~= bv.take(i as int));
                assert(bv.take(i + 1).last() == blocks@[i as int]@);
            }
            match self.visit_block(&blocks[i], clone_parent(&parent_id)) {
                Ok(more) => {
                    let ghost a = result@;
                    let ghost b = more@;
                    let mut more = more;
                    result.append(&mut more);
                    proof {
                        lemma_notion_blocks_view_add(a, b);
                    }
                },
                Err(e) => {
                    proof {
                        lemma_process_error_propagates(bv, pv, i + 1);
                    }
                    return Err(e);
                },
            }
        }
        assert(bv.take(n as int) =~= bv);
        Ok(result)
    }
}

impl PandocBlockVisitor for PandocToNotionVisitor {
    open spec fn visited(&self, b: SBlock, parent: Option<Seq<char>>) -> Result<Seq<SNotionBlock>, Seq<char>> {
        spec_visit_pandoc_block(b, parent)
    }

    open spec fn visited_blocks(&self, bs: Seq<SBlock>, parent: Option<Seq<char>>) -> Result<
        Seq<SNotionBlock>,
        Seq<char>,
    > {
        spec_process_pandoc_blocks(bs, parent)
    }

    fn visit_block(&self, block: &Block, parent_id: Option<String>) -> (r: Result<Vec<NotionBlock>, ConversionError>)
        ensures
            match spec_visit_pandoc_block(block@, opt_view(parent_id)) {
                Ok(bs) => r is Ok && notion_blocks_view(r->Ok_0@) == bs,
                Err(d) => r is Err && unsupported_with(r->Err_0, d),
            },
    {
        PandocToNotionVisitor::visit_block(self, block, parent_id)
    }

    fn visit_paragraph(&self, inlines: &[Inline], parent_id: Option<String>) -> (r: Result<Vec<NotionBlock>, ConversionError>)
        ensures
            match one_block(spec_paragraph_from_inlines(inlines_view(inlines@))) {
                Ok(bs) => r is Ok && notion_blocks_view(r->Ok_0@) == bs,
                Err(d) => r is Err && unsupported_with(r->Err_0, d),
            },
    {
        PandocToNotionVisitor::visit_paragraph(self, inlines, parent_id)
    }

    fn visit_header(&self, level: i32, attr: &Attr, inlines: &[Inline], parent_id: Option<String>) -> (r: Result<
        Vec<NotionBlock>,
        ConversionError,
    >)
        ensures
            match one_block(
                spec_heading_from_header(
                    level,
                    attr@.classes,
                    attr@.attributes,
                    inlines_view(inlines@),
                    opt_view(parent_id),
                ),
            ) {
                Ok(bs) => r is Ok && notion_blocks_view(r->Ok_0@) == bs,
                Err(d) => r is Err && unsupported_with(r->Err_0, d),
            },
    {
        PandocToNotionVisitor::visit_header(self, level, attr, inlines, parent_id)
    }

    fn visit_plain(&self, inlines: &[Inline], parent_id: Option<String>) -> (r: Result<Vec<NotionBlock>, ConversionError>)
        ensures
            match one_block(spec_paragraph_from_inlines(inlines_view(inlines@))) {
                Ok(bs) => r is Ok && notion_blocks_view(r->Ok_0@) == bs,
                Err(d) => r is Err && unsupported_with(r->Err_0, d),
            },
    {
        PandocToNotionVisitor::visit_plain(self, inlines, parent_id)
    }

    fn visit_unsupported(&self, block: &Block, parent_id: Option<String>) -> (r: Result<Vec<NotionBlock>, ConversionError>)
        ensures
            r is Ok,
            notion_blocks_view(r->Ok_0@) == seq![spec_unsupported_block(block@, opt_view(parent_id))],
    {
        PandocToNotionVisitor::visit_unsupported(self, block, parent_id)
    }

    fn process_blocks(&self, blocks: &[Block], parent_id: Option<String>) -> (r: Result<Vec<NotionBlock>, ConversionError>)
        ensures
            match spec_process_pandoc_blocks(blocks_view(blocks@), opt_view(parent_id)) {
                Ok(bs) => r is Ok && notion_blocks_view(r->Ok_0@) == bs,
                Err(d) => r is Err && unsupported_with(r->Err_0, d),
            },
    {
        PandocToNotionVisitor::process_blocks(self, blocks, parent_id)
    }
}

/// Once a block fails to convert, the conversion of the whole sequence fails
/// the same way.
proof fn lemma_process_error_propagates(bs: Seq<SBlock>, parent: Option<Seq<char>>, k: int)
    requires
        0 <= k <= bs.len(),
        spec_process_pandoc_blocks(bs.take(k), parent) is Err,
    ensures
        spec_process_pandoc_blocks(bs, parent) == spec_process_pandoc_blocks(bs.take(k), parent),
    decreases bs.len(),
{
    if k == bs.len() {
        assert(bs.take(k) =~= bs);
    } else {
        let d = bs.drop_last();
        assert(d.take(k) =~= bs.take(k));
        lemma_process_error_propagates(d, parent, k);
    }
}

} // verus!
