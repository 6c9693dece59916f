//! Conversion of Pandoc paragraphs into Notion paragraphs, and the reading of
//! a Notion color from Pandoc attributes.
use crate::notion_api::{
    children_view, notion_blocks_view, rich_texts_view, BlockType, NotionBlock, ParagraphValue,
    RichText, SBlockType, SNotionBlock, SRichText, STextValue, TextColor,
};
use crate::p2n::pandoc_text::{spec_convert_inlines, unsupported_with, ConversionError, PandocTextConverter};
use crate::p2n::{make_block, new_block};
use crate::pandoc::{inlines_view, pairs_view, Attr, Block, Inline, SAttr, SBlock, SInline};
use crate::strings::{chars_eq_str, chars_of, lowercase, str_eq, to_lowercase};
use vstd::prelude::*;

verus! {

broadcast use {
    vstd::std_specs::vec::group_vec_axioms,
    crate::pandoc::group_pandoc_view,
    crate::notion_api::lemma_notion_blocks_view,
};

/// The Notion color that a lower-cased color name stands for (`red`,
/// `blue_background` or `bluebackground`, ...); the default color for any
/// other name.
pub open spec fn color_from_name(n: Seq<char>) -> TextColor {
    if n == "blue"@ {
        TextColor::Blue
    } else if n == "brown"@ {
        TextColor::Brown
    } else if n == "default"@ {
        TextColor::Default
    } else if n == "gray"@ {
        TextColor::Gray
    } else if n == "green"@ {
        TextColor::Green
    } else if n == "orange"@ {
        TextColor::Orange
    } else if n == "pink"@ {
        TextColor::Pink
    } else if n == "purple"@ {
        TextColor::Purple
    } else if n == "red"@ {
        TextColor::Red
    } else if n == "yellow"@ {
        TextColor::Yellow
    } else if n == "blue_background"@ || n == "bluebackground"@ {
        TextColor::BlueBackground
    } else if n == "brown_background"@ || n == "brownbackground"@ {
        TextColor::BrownBackground
    } else if n == "gray_background"@ || n == "graybackground"@ {
        TextColor::GrayBackground
    } else if n == "green_background"@ || n == "greenbackground"@ {
        TextColor::GreenBackground
    } else if n == "orange_background"@ || n == "orangebackground"@ {
        TextColor::OrangeBackground
    } else if n == "pink_background"@ || n == "pinkbackground"@ {
        TextColor::PinkBackground
    } else if n == "purple_background"@ || n == "purplebackground"@ {
        TextColor::PurpleBackground
    } else if n == "red_background"@ || n == "redbackground"@ {
        TextColor::RedBackground
    } else if n == "yellow_background"@ || n == "yellowbackground"@ {
        TextColor::YellowBackground
    } else {
        TextColor::Default
    }
}

/// The color that key-value attributes give: decided by the first pair
/// whose key is `data-color` or `color`, whose value is lower-cased and read
/// as a color name; `None` when there is no such pair.
pub open spec fn spec_attr_color(attrs: Seq<(Seq<char>, Seq<char>)>) -> Option<TextColor>
    decreases attrs.len(),
{
    if attrs.len() == 0 {
        None
    } else if attrs[0].0 == "data-color"@ || attrs[0].0 == "color"@ {
        Some(color_from_name(lowercase(attrs[0].1)))
    } else {
        spec_attr_color(attrs.skip(1))
    }
}

/// The color of inlines: that of their attributes when they are a single
/// `Span`, `None` otherwise.
pub open spec fn spec_inlines_color(inl: Seq<SInline>) -> Option<TextColor> {
    if inl.len() == 1 && inl[0] is Span {
        spec_attr_color(inl[0]->Span_0.attributes)
    } else {
        None
    }
}

fn color_from_name_exec(n: &Vec<char>) -> (r: TextColor)
    ensures
        r == color_from_name(n@),
{
    if chars_eq_str(n, "blue") {
        TextColor::Blue
    } else if chars_eq_str(n, "brown") {
        TextColor::Brown
    } else if chars_eq_str(n, "default") {
        TextColor::Default
    } else if chars_eq_str(n, "gray") {
        TextColor::Gray
    } else if chars_eq_str(n, "green") {
        TextColor::Green
    } else if chars_eq_str(n, "orange") {
        TextColor::Orange
    } else if chars_eq_str(n, "pink") {
        TextColor::Pink
    } else if chars_eq_str(n, "purple") {
        TextColor::Purple
    } else if chars_eq_str(n, "red") {
        TextColor::Red
    } else if chars_eq_str(n, "yellow") {
        TextColor::Yellow
    } else if chars_eq_str(n, "blue_background") || chars_eq_str(n, "bluebackground") {
        TextColor::BlueBackground
    } else if chars_eq_str(n, "brown_background") || chars_eq_str(n, "brownbackground") {
        TextColor::BrownBackground
    } else if chars_eq_str(n, "gray_background") || chars_eq_str(n, "graybackground") {
        TextColor::GrayBackground
    } else if chars_eq_str(n, "green_background") || chars_eq_str(n, "greenbackground") {
        TextColor::GreenBackground
    } else if chars_eq_str(n, "orange_background") || chars_eq_str(n, "orangebackground") {
        TextColor::OrangeBackground
    } else if chars_eq_str(n, "pink_background") || chars_eq_str(n, "pinkbackground") {
        TextColor::PinkBackground
    } else if chars_eq_str(n, "purple_background") || chars_eq_str(n, "purplebackground") {
        TextColor::PurpleBackground
    } else if chars_eq_str(n, "red_background") || chars_eq_str(n, "redbackground") {
        TextColor::RedBackground
    } else if chars_eq_str(n, "yellow_background") || chars_eq_str(n, "yellowbackground") {
        TextColor::YellowBackground
    } else {
        TextColor::Default
    }
}

/// The color that an attribute's key-value pairs give (see
/// [`spec_attr_color`]).
pub fn extract_color_from_attr(attr: &Attr) -> (r: Option<TextColor>)
    ensures
        r == spec_attr_color(attr@.attributes),
{
    let ghost av = pairs_view(attr.attributes@);
    let n = attr.attributes.len();
    assert(av.skip(0) =~= av);
    for i in 0..n
        invariant
            n == attr.attributes@.len(),
            av == pairs_view(attr.attributes@),
            av == attr@.attributes,
            spec_attr_color(av) == spec_attr_color(av.skip(i as int)),
    {
        let key = attr.attributes[i].0.as_str();
        proof {
            assert(av.skip(i as int)[0] == av[i as int]);
            assert(av.skip(i as int).skip(1) =~= av.skip(i + 1));
        }
        if str_eq(key, "data-color") || str_eq(key, "color") {
            let lower = to_lowercase(attr.attributes[i].1.as_str());
            let chars = chars_of(lower.as_str());
            return Some(color_from_name_exec(&chars));
        }
    }
    assert(av.skip(n as int) =~= Seq::<(Seq<char>, Seq<char>)>::empty());
    None
}

/// The color of inlines (see [`spec_inlines_color`]).
pub fn extract_color_from_inlines(inlines: &[Inline]) -> (r: Option<TextColor>)
    ensures
        r == spec_inlines_color(inlines_view(inlines@)),
{
    if inlines.len() == 1 {
        match &inlines[0] {
            Inline::Span(attr, _) => {
                proof {
                    crate::pandoc::lemma_inlines_view(inlines@);
                }
                assert(inlines_view(inlines@)[0] == inlines@[0]@);
                return extract_color_from_attr(attr);
            },
            _ => {},
        }
    }
    None
}

/// View of [`NotionParagraphBuilder`].
pub struct SParagraphBuilder {
    pub rich_text: Seq<SRichText>,
    pub color: Option<TextColor>,
    pub children: Option<Seq<SNotionBlock>>,
}

/// Whether optional children are present and not empty.
pub open spec fn has_some_children(c: Option<Seq<SNotionBlock>>) -> bool {
    match c {
        Some(s) => s.len() > 0,
        None => false,
    }
}

/// The Notion paragraph that a builder in the state `b` builds.
pub open spec fn spec_paragraph_block(b: SParagraphBuilder) -> SNotionBlock {
    new_block(
        None,
        None,
        has_some_children(b.children),
        SBlockType::Paragraph(STextValue { rich_text: b.rich_text, color: b.color, children: b.children }),
    )
}

/// Builds a Notion paragraph block.
pub struct NotionParagraphBuilder {
    rich_text: Vec<RichText>,
    color: Option<TextColor>,
    children: Option<Vec<NotionBlock>>,
}

impl View for NotionParagraphBuilder {
    type V = SParagraphBuilder;

    closed spec fn view(&self) -> SParagraphBuilder {
        SParagraphBuilder {
            rich_text: rich_texts_view(self.rich_text@),
            color: self.color,
            children: children_view(self.children),
        }
    }
}

impl NotionParagraphBuilder {
    /// A builder with no text, no color and no children.
    pub fn new() -> (r: Self)
        ensures
            r@ == (SParagraphBuilder { rich_text: Seq::empty(), color: None, children: None }),
    {
        let r = NotionParagraphBuilder { rich_text: Vec::new(), color: None, children: None };
        assert(r@.rich_text =~= Seq::<SRichText>::empty());
        r
    }

    /// Sets the text.
    pub fn rich_text(self, rich_text: Vec<RichText>) -> (r: Self)
        ensures
            r@ == (SParagraphBuilder { rich_text: rich_texts_view(rich_text@), ..self@ }),
    {
        NotionParagraphBuilder { rich_text, ..self }
    }

    /// Appends a rich-text object to the text.
    pub fn add_rich_text(self, text: RichText) -> (r: Self)
        ensures
            r@ == (SParagraphBuilder { rich_text: self@.rich_text.push(text@), ..self@ }),
    {
        let mut s = self;
        let ghost before = s.rich_text@;
        s.rich_text.push(text);
        assert(rich_texts_view(s.rich_text@) =~= rich_texts_view(before).push(text@));
        s
    }

    /// Sets the color.
    pub fn color(self, color: TextColor) -> (r: Self)
        ensures
            r@ == (SParagraphBuilder { color: Some(color), ..self@ }),
    {
        NotionParagraphBuilder { color: Some(color), ..self }
    }

    /// Sets the children, unless there are none.
    pub fn children(self, children: Vec<NotionBlock>) -> (r: Self)
        ensures
            r@ == (if children@.len() > 0 {
                SParagraphBuilder { children: Some(notion_blocks_view(children@)), ..self@ }
            } else {
                self@
            }),
    {
        if children.len() > 0 {
            NotionParagraphBuilder { children: Some(children), ..self }
        } else {
            self
        }
    }

    /// The Notion paragraph, flagged as having children when it has some.
    pub fn build(self) -> (r: NotionBlock)
        ensures
            r@ == spec_paragraph_block(self@),
    {
        let has_children = match &self.children {
            Some(c) => c.len() > 0,
            None => false,
        };
        let paragraph = ParagraphValue { rich_text: self.rich_text, color: self.color, children: self.children };
        make_block(None, None, has_children, BlockType::Paragraph { paragraph })
    }
}

/// The Notion paragraph made from a Pandoc paragraph's inlines: their rich
/// text, in the color of a single `Span` that holds them all; or the
/// conversion error of the inlines.
pub open spec fn spec_paragraph_from_inlines(inl: Seq<SInline>) -> Result<SNotionBlock, Seq<char>> {
    match spec_convert_inlines(inl) {
        Ok(rts) => Ok(
            spec_paragraph_block(
                SParagraphBuilder { rich_text: rts, color: spec_inlines_color(inl), children: None },
            ),
        ),
        Err(d) => Err(d),
    }
}

/// Converts Pandoc paragraphs into Notion paragraphs.
#[derive(Clone)]
pub struct PandocParagraphConverter {
    text_converter: PandocTextConverter,
}

impl PandocParagraphConverter {
    /// A paragraph converter.
    pub fn new() -> (r: Self) {
        PandocParagraphConverter { text_converter: PandocTextConverter::new() }
    }

    /// The Notion paragraph made from the inlines of a paragraph.
    pub fn convert_inlines(&self, inlines: &[Inline]) -> (r: Result<NotionBlock, ConversionError>)
        ensures
            match spec_paragraph_from_inlines(inlines_view(inlines@)) {
                Ok(b) => r is Ok && r->Ok_0@ == b,
                Err(d) => r is Err && unsupported_with(r->Err_0, d),
            },
    {
        let rich_text = match self.text_converter.convert(inlines) {
            Ok(rt) => rt,
            Err(e) => {
                return Err(e);
            },
        };
        let color = extract_color_from_inlines(inlines);
        let mut builder = NotionParagraphBuilder::new().rich_text(rich_text);
        match color {
            Some(c) => {
                builder = builder.color(c);
            },
            None => {},
        }
        Ok(builder.build())
    }

    /// The Notion paragraph made from a Pandoc paragraph; `None` for any
    /// other block.  The parent is not used.
    pub fn convert(&self, block: &Block, parent_id: Option<String>) -> (r: Result<Option<NotionBlock>, ConversionError>)
        ensures
            match block@ {
                SBlock::Para(inl) => match spec_paragraph_from_inlines(inl) {
                    Ok(b) => r is Ok && r->Ok_0 is Some && r->Ok_0->0@ == b,
                    Err(d) => r is Err && unsupported_with(r->Err_0, d),
                },
                _ => r is Ok && r->Ok_0 is None,
            },
    {
        match block {
            Block::Para(inlines) => match self.convert_inlines(inlines.as_slice()) {
                Ok(b) => Ok(Some(b)),
                Err(e) => Err(e),
            },
            _ => Ok(None),
        }
    }

    /// The Notion paragraph made from a Pandoc paragraph; `None` for any
    /// other block.
    pub fn try_convert(&self, block: &Block, parent_id: Option<String>) -> (r: Result<Option<NotionBlock>, ConversionError>)
        ensures
            match block@ {
                SBlock::Para(inl) => match spec_paragraph_from_inlines(inl) {
                    Ok(b) => r is Ok && r->Ok_0 is Some && r->Ok_0->0@ == b,
                    Err(d) => r is Err && unsupported_with(r->Err_0, d),
                },
                _ => r is Ok && r->Ok_0 is None,
            },
    {
        self.convert(block, None)
    }
}

} // verus!
