//! Conversion of Pandoc block quotes into Notion quotes.
use crate::notion_api::{
    children_view, notion_blocks_view, rich_texts_view, BlockType, NotionBlock, QuoteValue, RichText,
    SBlockType, SNotionBlock, SRichText, STextValue, Text, TextColor,
};
use crate::p2n::pandoc_paragraph::{
    extract_color_from_inlines, has_some_children, spec_inlines_color, spec_paragraph_block,
    NotionParagraphBuilder, SParagraphBuilder,
};
use crate::p2n::pandoc_text::{spec_convert_inlines, unsupported_with, ConversionError, PandocTextConverter};
use crate::p2n::{make_block, new_block};
use crate::pandoc::{block_rendering, blocks_view, inlines_view, render_block, Block, SBlock, SInline};
use crate::strings::{push_str, string_of};
use vstd::prelude::*;

verus! {

broadcast use {
    vstd::std_specs::vec::group_vec_axioms,
    crate::pandoc::group_pandoc_view,
    crate::notion_api::lemma_notion_blocks_view,
};

/// View of [`NotionQuoteBuilder`].
pub struct SQuoteBuilder {
    pub rich_text: Seq<SRichText>,
    pub color: TextColor,
    pub children: Option<Seq<SNotionBlock>>,
}

/// The Notion quote that a builder in the state `b` builds.
pub open spec fn spec_quote_block(b: SQuoteBuilder) -> SNotionBlock {
    new_block(
        None,
        None,
        has_some_children(b.children),
        SBlockType::Quote(STextValue { rich_text: b.rich_text, color: Some(b.color), children: b.children }),
    )
}

/// Builds a Notion quote block.
pub struct NotionQuoteBuilder {
    rich_text: Vec<RichText>,
    color: TextColor,
    children: Option<Vec<NotionBlock>>,
}

impl View for NotionQuoteBuilder {
    type V = SQuoteBuilder;

    closed spec fn view(&self) -> SQuoteBuilder {
        SQuoteBuilder {
            rich_text: rich_texts_view(self.rich_text@),
            color: self.color,
            children: children_view(self.children),
        }
    }
}

impl NotionQuoteBuilder {
    /// A builder with no text, the default color and no children.
    pub fn new() -> (r: Self)
        ensures
            r@ == (SQuoteBuilder { rich_text: Seq::empty(), color: TextColor::Default, children: None }),
    {
        let r = NotionQuoteBuilder { rich_text: Vec::new(), color: TextColor::Default, children: None };
        assert(r@.rich_text =~= Seq::<SRichText>::empty());
        r
    }

    /// Sets the text.
    pub fn rich_text(self, rich_text: Vec<RichText>) -> (r: Self)
        ensures
            r@ == (SQuoteBuilder { rich_text: rich_texts_view(rich_text@), ..self@ }),
    {
        NotionQuoteBuilder { rich_text, ..self }
    }

    /// Appends a rich-text object to the text.
    pub fn add_rich_text(self, text: RichText) -> (r: Self)
        ensures
            r@ == (SQuoteBuilder { rich_text: self@.rich_text.push(text@), ..self@ }),
    {
        let mut s = self;
        let ghost before = s.rich_text@;
        s.rich_text.push(text);
        assert(rich_texts_view(s.rich_text@) =~= rich_texts_view(before).push(text@));
        s
    }

    /// Sets the color.
    pub fn color(self, color: TextColor) -> (r: Self)
        ensures
            r@ == (SQuoteBuilder { color, ..self@ }),
    {
        NotionQuoteBuilder { color, ..self }
    }

    /// Sets the children, unless there are none.
    pub fn children(self, children: Vec<NotionBlock>) -> (r: Self)
        ensures
            r@ == (if children@.len() > 0 {
                SQuoteBuilder { children: Some(notion_blocks_view(children@)), ..self@ }
            } else {
                self@
            }),
    {
        if children.len() > 0 {
            NotionQuoteBuilder { children: Some(children), ..self }
        } else {
            self
        }
    }

    /// The Notion quote, flagged as having children when it has some.
    pub fn build(self) -> (r: NotionBlock)
        ensures
            r@ == spec_quote_block(self@),
    {
        let has_children = match &self.children {
            Some(c) => c.len() > 0,
            None => false,
        };
        let quote = QuoteValue { rich_text: self.rich_text, color: self.color, children: self.children };
        make_block(None, None, has_children, BlockType::Quote { quote })
    }
}

/// The text of the paragraph that stands for a block that a quote cannot
/// hold.
pub open spec fn quote_placeholder_text(b: SBlock) -> Seq<char> {
    "Unsupported block in quote: "@ + block_rendering(b)
}

/// A paragraph holding only `text`, as a text object with no formatting
/// information.
pub open spec fn placeholder_paragraph(text: Seq<char>) -> SNotionBlock {
    spec_paragraph_block(
        SParagraphBuilder {
            rich_text: seq![
                SRichText::Text {
                    content: text,
                    link: None,
                    annotations: None,
                    plain_text: None,
                    href: None,
                },
            ],
            color: None,
            children: None,
        },
    )
}

/// The text and color that the first block of a block quote gives: a
/// paragraph its rich text and the color of a single `Span` around it, plain
/// text its rich text in the default color, any other block nothing.  Or the
/// conversion error of its inlines.
pub open spec fn spec_quote_head(b0: SBlock) -> Result<(Seq<SRichText>, TextColor), Seq<char>> {
    match b0 {
        SBlock::Para(inl) => match spec_convert_inlines(inl) {
            Ok(rts) => Ok(
                (
                    rts,
                    match spec_inlines_color(inl) {
                        Some(c) => c,
                        None => TextColor::Default,
                    },
                ),
            ),
            Err(d) => Err(d),
        },
        SBlock::Plain(inl) => match spec_convert_inlines(inl) {
            Ok(rts) => Ok((rts, TextColor::Default)),
            Err(d) => Err(d),
        },
        _ => Ok((Seq::empty(), TextColor::Default)),
    }
}

/// The Notion quote made from the blocks of a Pandoc block quote.  The first
/// block gives the text: a paragraph its rich text and the color of a single
/// `Span` around it, plain text its rich text.  Each later block becomes a
/// child: a nested block quote a nested quote, a paragraph or plain text a
/// Notion paragraph, any other block a paragraph naming it.  Or the first
/// conversion error, in that order.
pub open spec fn spec_quote_from_blocks(bs: Seq<SBlock>) -> Result<SNotionBlock, Seq<char>>
    decreases bs,
{
    if bs.len() == 0 {
        Ok(spec_quote_block(SQuoteBuilder { rich_text: Seq::empty(), color: TextColor::Default, children: None }))
    } else {
        let head = spec_quote_head(bs[0]);
        match head {
            Ok(h) => match spec_quote_children(bs.skip(1)) {
                Ok(children) => Ok(
                    spec_quote_block(
                        SQuoteBuilder {
                            rich_text: h.0,
                            color: h.1,
                            children: if children.len() > 0 {
                                Some(children)
                            } else {
                                None
                            },
                        },
                    ),
                ),
                Err(d) => Err(d),
            },
            Err(d) => Err(d),
        }
    }
}

/// The children made from the later blocks of a block quote, in order, or
/// the first conversion error.
pub open spec fn spec_quote_children(cs: Seq<SBlock>) -> Result<Seq<SNotionBlock>, Seq<char>>
    decreases cs,
{
    if cs.len() == 0 {
        Ok(Seq::empty())
    } else {
        match spec_quote_children(cs.drop_last()) {
            Ok(done) => match spec_quote_child(cs.last()) {
                Ok(b) => Ok(done.push(b)),
                Err(d) => Err(d),
            },
            Err(d) => Err(d),
        }
    }
}

/// The child made from one later block of a block quote.
pub open spec fn spec_quote_child(c: SBlock) -> Result<SNotionBlock, Seq<char>>
    decreases c,
{
    match c {
        SBlock::BlockQuote(nested) => spec_quote_from_blocks(nested),
        SBlock::Para(inl) => match spec_convert_inlines(inl) {
            Ok(rts) => Ok(
                spec_paragraph_block(SParagraphBuilder { rich_text: rts, color: None, children: None }),
            ),
            Err(d) => Err(d),
        },
        SBlock::Plain(inl) => match spec_convert_inlines(inl) {
            Ok(rts) => Ok(
                spec_paragraph_block(SParagraphBuilder { rich_text: rts, color: None, children: None }),
            ),
            Err(d) => Err(d),
        },
        _ => Ok(placeholder_paragraph(quote_placeholder_text(c))),
    }
}

/// Converts Pandoc block quotes into Notion quotes.
pub struct PandocQuoteConverter {
    text_converter: PandocTextConverter,
}

impl PandocQuoteConverter {
    /// A quote converter.
    pub fn new() -> (r: Self) {
        PandocQuoteConverter { text_converter: PandocTextConverter::new() }
    }

    /// The Notion quote made from the blocks of a Pandoc block quote (see
    /// [`spec_quote_from_blocks`]).
    pub fn convert(&self, blocks: &[Block]) -> (r: Result<NotionBlock, ConversionError>)
        ensures
            match spec_quote_from_blocks(blocks_view(blocks@)) {
                Ok(b) => r is Ok && r->Ok_0@ == b,
                Err(d) => r is Err && unsupported_with(r->Err_0, d),
            },
        decreases blocks@, 0nat,
    {
        let ghost bv = blocks_view(blocks@);
        if blocks.len() == 0 {
            return Ok(NotionQuoteBuilder::new().build());
        }
        let mut builder = NotionQuoteBuilder::new();
        proof {
            crate::pandoc::lemma_blocks_view(blocks@);
        }
        match &blocks[0] {
            Block::Para(inlines) => {
                let rich_text = match self.text_converter.convert(inlines.as_slice()) {
                    Ok(rt) => rt,
                    Err(e) => {
                        return Err(e);
                    },
                };
                let color = match extract_color_from_inlines(inlines.as_slice()) {
                    Some(c) => c,
                    None => TextColor::Default,
                };
                builder = builder.rich_text(rich_text);
                builder = builder.color(color);
            },
            Block::Plain(inlines) => {
                let rich_text = match self.text_converter.convert(inlines.as_slice()) {
                    Ok(rt) => rt,
                    Err(e) => {
                        return Err(e);
                    },
                };
                builder = builder.rich_text(rich_text);
            },
            _ => {},
        }
        let ghost rest = bv.skip(1);
        let mut children: Vec<NotionBlock> = Vec::new();
        let n = blocks.len();
        let mut i: usize = 1;
        assert(rest.take(0) =~= Seq::<SBlock>::empty());
        while i < n
            invariant
                1 <= i <= n,
                n == blocks@.len(),
                bv == blocks_view(blocks@),
                rest == bv.skip(1),
                spec_quote_head(bv[0]) == Ok::<(Seq<SRichText>, TextColor), Seq<char>>(
                    (builder@.rich_text, builder@.color),
                ),
                builder@.children is None,
                spec_quote_children(rest.take(i - 1)) == Ok::<Seq<SNotionBlock>, Seq<char>>(
                    notion_blocks_view(children@),
                ),
            decreases n - i,
        {
            proof {
                crate::pandoc::lemma_blocks_view(blocks@);
                assert(rest.take(i as int).drop_last() =~= rest.take(i - 1));
                assert(rest.take(i as int).last() == blocks@[i as int]@);
            }
            assert(decreases_to!(blocks@ => blocks@[i as int]));
            match self.convert_child(&blocks[i]) {
                Ok(child) => {
                    let ghost before = children@;
                    children.push(child);
                    assert(children@.drop_last() =~= before);
                },
                Err(e) => {
                    proof {
                        lemma_children_error_propagates(rest, i as int);
                    }
                    return Err(e);
                },
            }
            i = i + 1;
        }
        assert(rest.take(n - 1) =~= rest);
        if children.len() > 0 {
            builder = builder.children(children);
        }
        Ok(builder.build())
    }

    fn convert_child(&self, child: &Block) -> (r: Result<NotionBlock, ConversionError>)
        ensures
            match spec_quote_child(child@) {
                Ok(b) => r is Ok && r->Ok_0@ == b,
                Err(d) => r is Err && unsupported_with(r->Err_0, d),
            },
        decreases *child, 0nat,
    {
        match child {
            Block::BlockQuote(nested) => self.convert(nested.as_slice()),
            Block::Para(inlines) => match self.text_converter.convert(inlines.as_slice()) {
                Ok(rt) => Ok(NotionParagraphBuilder::new().rich_text(rt).build()),
                Err(e) => Err(e),
            },
            Block::Plain(inlines) => match self.text_converter.convert(inlines.as_slice()) {
                Ok(rt) => Ok(NotionParagraphBuilder::new().rich_text(rt).build()),
                Err(e) => Err(e),
            },
            _ => {
                let mut message = string_of("Unsupported block in quote: ");
                let rendering = render_block(child);
                push_str(&mut message, rendering.as_str());
                let text = RichText::Text {
                    text: Text { content: message, link: None },
                    annotations: None,
                    plain_text: None,
                    href: None,
                };
                Ok(NotionParagraphBuilder::new().add_rich_text(text).build())
            },
        }
    }

    /// The Notion quote made from a Pandoc block quote; `None` for any other
    /// block.  The parent is not used.
    pub fn try_convert(&self, block: &Block, parent_id: Option<String>) -> (r: Result<Option<NotionBlock>, ConversionError>)
        ensures
            match block@ {
                SBlock::BlockQuote(bs) => match spec_quote_from_blocks(bs) {
                    Ok(b) => r is Ok && r->Ok_0 is Some && r->Ok_0->0@ == b,
                    Err(d) => r is Err && unsupported_with(r->Err_0, d),
                },
                _ => r is Ok && r->Ok_0 is None,
            },
    {
        match block {
            Block::BlockQuote(blocks) => match self.convert(blocks.as_slice()) {
                Ok(b) => Ok(Some(b)),
                Err(e) => Err(e),
            },
            _ => Ok(None),
        }
    }

    /// The Notion quote made from the blocks of a nested block quote.
    pub fn process_nested_quote(&self, blocks: &[Block]) -> (r: Result<NotionBlock, ConversionError>)
        ensures
            match spec_quote_from_blocks(blocks_view(blocks@)) {
                Ok(b) => r is Ok && r->Ok_0@ == b,
                Err(d) => r is Err && unsupported_with(r->Err_0, d),
            },
    {
        self.convert(blocks)
    }
}

/// Once a child of a block quote fails to convert, the conversion of all
/// children fails the same way.
proof fn lemma_children_error_propagates(cs: Seq<SBlock>, k: int)
    requires
        0 <= k <= cs.len(),
        spec_quote_children(cs.take(k)) is Err,
    ensures
        spec_quote_children(cs) == spec_quote_children(cs.take(k)),
    decreases cs.len(),
{
    if k == cs.len() {
        assert(cs.take(k) =~= cs);
    } else {
        let d = cs.drop_last();
        assert(d.take(k) =~= cs.take(k));
        lemma_children_error_propagates(d, k);
    }
}

} // verus!
