//! Conversion of Notion paragraphs into Pandoc paragraphs.
use crate::n2p::notion_text::{spec_convert_rich_texts, NotionTextConverter};
use crate::n2p::ConversionConfig;
use crate::notion_api::{color_name, rich_texts_view, BlockType, NotionBlock, SBlockType, STextValue, TextColor};
use crate::pandoc::{empty_attr, inlines_view, Attr, Block, Inline, SAttr, SBlock, SInline};
use crate::strings::string_of;
use vstd::prelude::*;

verus! {

broadcast use {vstd::std_specs::vec::group_vec_axioms, crate::pandoc::group_pandoc_view};

/// The attribute that carries a Notion color: `data-color` set to the
/// color's name when attributes are preserved, empty otherwise.
pub open spec fn color_attr(c: TextColor, preserve: bool) -> SAttr {
    if preserve {
        SAttr { attributes: seq![("data-color"@, color_name(c))], ..empty_attr() }
    } else {
        empty_attr()
    }
}

/// Inlines in a Notion color: nothing when there are none, else a single
/// `Span` with the color's attribute around all of them.
pub open spec fn spec_color_span(inl: Seq<SInline>, c: TextColor, preserve: bool) -> Seq<SInline> {
    if inl.len() == 0 {
        Seq::empty()
    } else {
        seq![SInline::Span(color_attr(c, preserve), inl)]
    }
}

/// Inlines in a Notion color: nothing when there are none, else a single
/// `Span` with the color's attribute around all of them.
pub fn color_span(inlines: Vec<Inline>, color: &TextColor, config: &ConversionConfig) -> (r: Vec<
    Inline,
>)
    ensures
        inlines_view(r@) == spec_color_span(
            inlines_view(inlines@),
            *color,
            config.preserve_attributes,
        ),
{
    if inlines.len() == 0 {
        return Vec::new();
    }
    let attr = if config.preserve_attributes {
        Attr::with_attribute(string_of("data-color"), string_of(color.name()))
    } else {
        Attr::new()
    };
    let ghost iv = inlines_view(inlines@);
    let mut v = Vec::new();
    v.push(Inline::Span(attr, inlines));
    assert(inlines_view(v@) =~= seq![SInline::Span(color_attr(*color, config.preserve_attributes), iv)]);
    v
}

/// Builds a Pandoc paragraph.
pub struct ParagraphBuilder {
    inlines: Vec<Inline>,
}

impl View for ParagraphBuilder {
    type V = Seq<SInline>;

    closed spec fn view(&self) -> Seq<SInline> {
        inlines_view(self.inlines@)
    }
}

impl ParagraphBuilder {
    /// A builder with no inlines.
    pub fn new() -> (r: Self)
        ensures
            r@ == Seq::<SInline>::empty(),
    {
        ParagraphBuilder { inlines: Vec::new() }
    }

    /// Sets the inlines.
    pub fn inlines(self, inlines: Vec<Inline>) -> (r: Self)
        ensures
            r@ == inlines_view(inlines@),
    {
        ParagraphBuilder { inlines }
    }

    /// Appends an inline.
    pub fn add_inline(self, inline: Inline) -> (r: Self)
        ensures
            r@ == self@.push(inline@),
    {
        let mut s = self;
        let ghost before = s.inlines@;
        s.inlines.push(inline);
        assert(s.inlines@.drop_last() =~= before);
        s
    }

    /// The Pandoc paragraph.
    pub fn build(self) -> (r: Block)
        ensures
            r@ == SBlock::Para(self@),
    {
        Block::Para(self.inlines)
    }
}

/// The Pandoc paragraph made from a Notion paragraph: its text as inlines,
/// in a colored `Span` when it has a color.
pub open spec fn spec_paragraph_from_notion(p: STextValue, preserve: bool) -> SBlock {
    let inl = spec_convert_rich_texts(p.rich_text);
    SBlock::Para(
        match p.color {
            Some(c) => spec_color_span(inl, c, preserve),
            None => inl,
        },
    )
}

/// A Notion paragraph as a Pandoc paragraph (its children are not
/// converted here); `None` for any other kind of block.
pub fn convert_notion_paragraph(block: &NotionBlock, config: &ConversionConfig) -> (r: Option<Block>)
    ensures
        match block@.block_type {
            SBlockType::Paragraph(p) => r is Some && r->0@ == spec_paragraph_from_notion(
                p,
                config.preserve_attributes,
            ),
            _ => r is None,
        },
{
    match &block.block_type {
        BlockType::Paragraph { paragraph } => {
            let inlines = NotionTextConverter::convert(paragraph.rich_text.as_slice());
            let styled = match &paragraph.color {
                Some(color) => color_span(inlines, color, config),
                None => inlines,
            };
            Some(ParagraphBuilder::new().inlines(styled).build())
        },
        _ => None,
    }
}

/// A Notion paragraph as a Pandoc paragraph; `None` for any other kind of
/// block.
pub fn try_convert_to_paragraph(block: &NotionBlock, config: &ConversionConfig) -> (r: Option<Block>)
    ensures
        match block@.block_type {
            SBlockType::Paragraph(p) => r is Some && r->0@ == spec_paragraph_from_notion(
                p,
                config.preserve_attributes,
            ),
            _ => r is None,
        },
{
    convert_notion_paragraph(block, config)
}

} // verus!
