//! Conversion of Pandoc headers into Notion headings.
use crate::notion_api::{
    opt_view, rich_texts_view, BlockType, HeadingsValue, NotionBlock, RichText, SBlockType,
    SHeadingsValue, SNotionBlock, SRichText, TextColor,
};
use crate::p2n::pandoc_paragraph::{extract_color_from_attr, spec_attr_color};
use crate::p2n::pandoc_text::{spec_convert_inlines, unsupported_with, ConversionError, PandocTextConverter};
use crate::p2n::{make_block, new_block};
use crate::pandoc::{inlines_view, strings_view, Attr, Block, Inline, SBlock, SInline};
use crate::strings::str_eq;
use vstd::prelude::*;

verus! {

broadcast use {vstd::std_specs::vec::group_vec_axioms, crate::pandoc::group_pandoc_view};

/// A heading level kept within Notion's levels 1 to 3.
pub open spec fn clamp_level(level: u8) -> u8 {
    if level > 3 {
        3
    } else if level < 1 {
        1
    } else {
        level
    }
}

/// View of [`NotionHeadingBuilder`].
pub struct SHeadingBuilder {
    pub rich_text: Seq<SRichText>,
    pub color: Option<TextColor>,
    pub is_toggleable: Option<bool>,
    pub level: u8,
    pub parent_id: Option<Seq<char>>,
}

/// The Notion heading that a builder in the state `b` builds: a level 1, 2
/// or 3 heading (level 1 for any other level), with an empty identifier.
pub open spec fn spec_heading_block(b: SHeadingBuilder) -> SNotionBlock {
    let h = SHeadingsValue { rich_text: b.rich_text, color: b.color, is_toggleable: b.is_toggleable };
    new_block(
        Some(Seq::empty()),
        b.parent_id,
        false,
        if b.level == 2 {
            SBlockType::Heading2(h)
        } else if b.level == 3 {
            SBlockType::Heading3(h)
        } else {
            SBlockType::Heading1(h)
        },
    )
}

/// Builds a Notion heading block.
pub struct NotionHeadingBuilder {
    rich_text: Vec<RichText>,
    color: Option<TextColor>,
    is_toggleable: Option<bool>,
    level: u8,
    parent_id: Option<String>,
}

impl View for NotionHeadingBuilder {
    type V = SHeadingBuilder;

    closed spec fn view(&self) -> SHeadingBuilder {
        SHeadingBuilder {
            rich_text: rich_texts_view(self.rich_text@),
            color: self.color,
            is_toggleable: self.is_toggleable,
            level: self.level,
            parent_id: opt_view(self.parent_id),
        }
    }
}

impl NotionHeadingBuilder {
    /// A level 1 builder with no text, color, toggle flag or parent.
    pub fn new() -> (r: Self)
        ensures
            r@ == (SHeadingBuilder {
                rich_text: Seq::empty(),
                color: None,
                is_toggleable: None,
                level: 1,
                parent_id: None,
            }),
    {
        let r = NotionHeadingBuilder {
            rich_text: Vec::new(),
            color: None,
            is_toggleable: None,
            level: 1,
            parent_id: None,
        };
        assert(r@.rich_text =~= Seq::<SRichText>::empty());
        r
    }

    /// Sets the text.
    pub fn rich_text(self, rich_text: Vec<RichText>) -> (r: Self)
        ensures
            r@ == (SHeadingBuilder { rich_text: rich_texts_view(rich_text@), ..self@ }),
    {
        NotionHeadingBuilder { rich_text, ..self }
    }

    /// Sets the color.
    pub fn color(self, color: TextColor) -> (r: Self)
        ensures
            r@ == (SHeadingBuilder { color: Some(color), ..self@ }),
    {
        NotionHeadingBuilder { color: Some(color), ..self }
    }

    /// Sets whether the heading is toggleable.
    pub fn is_toggleable(self, toggleable: bool) -> (r: Self)
        ensures
            r@ == (SHeadingBuilder { is_toggleable: Some(toggleable), ..self@ }),
    {
        NotionHeadingBuilder { is_toggleable: Some(toggleable), ..self }
    }

    /// Sets the level, kept within 1 to 3.
    pub fn level(self, level: u8) -> (r: Self)
        ensures
            r@ == (SHeadingBuilder { level: clamp_level(level), ..self@ }),
            1 <= r@.level <= 3,
    {
        let l = if level > 3 {
            3
        } else if level < 1 {
            1
        } else {
            level
        };
        NotionHeadingBuilder { level: l, ..self }
    }

    /// Sets the parent page.
    pub fn parent_id(self, id: String) -> (r: Self)
        ensures
            r@ == (SHeadingBuilder { parent_id: Some(id@), ..self@ }),
    {
        NotionHeadingBuilder { parent_id: Some(id), ..self }
    }

    /// The Notion heading.
    pub fn build(self) -> (r: NotionBlock)
        ensures
            r@ == spec_heading_block(self@),
    {
        let heading = HeadingsValue {
            rich_text: self.rich_text,
            color: self.color,
            is_toggleable: self.is_toggleable,
        };
        let block_type = if self.level == 2 {
            BlockType::Heading2 { heading_2: heading }
        } else if self.level == 3 {
            BlockType::Heading3 { heading_3: heading }
        } else {
            BlockType::Heading1 { heading_1: heading }
        };
        make_block(Some(String::new()), self.parent_id, false, block_type)
    }
}

/// Whether classes make a heading toggleable: `Some(true)` when one of them
/// is `toggleable`, `None` otherwise.
pub open spec fn spec_toggleable(classes: Seq<Seq<char>>) -> Option<bool> {
    if classes.contains("toggleable"@) {
        Some(true)
    } else {
        None
    }
}

/// The Notion heading made from a Pandoc header: its rich text; its level,
/// truncated to a byte and kept within 1 to 3; the color of its attributes;
/// toggleable when it has the class `toggleable`; under the given parent.
/// Or the conversion error of its inlines.
pub open spec fn spec_heading_from_header(
    level: i32,
    classes: Seq<Seq<char>>,
    attributes: Seq<(Seq<char>, Seq<char>)>,
    inl: Seq<SInline>,
    parent: Option<Seq<char>>,
) -> Result<SNotionBlock, Seq<char>> {
    match spec_convert_inlines(inl) {
        Ok(rts) => Ok(
            spec_heading_block(
                SHeadingBuilder {
                    rich_text: rts,
                    color: spec_attr_color(attributes),
                    is_toggleable: spec_toggleable(classes),
                    level: clamp_level(level as u8),
                    parent_id: parent,
                },
            ),
        ),
        Err(d) => Err(d),
    }
}

/// Converts Pandoc headers into Notion headings.
#[derive(Clone)]
pub struct PandocHeadingConverter {
    text_converter: PandocTextConverter,
}

impl PandocHeadingConverter {
    /// A heading converter.
    pub fn new() -> (r: Self) {
        PandocHeadingConverter { text_converter: PandocTextConverter::new() }
    }

    /// The Notion heading made from a Pandoc header, under the given parent
    /// page; `None` for any other block.
    pub fn convert(&self, block: &Block, parent_id: Option<String>) -> (r: Result<Option<NotionBlock>, ConversionError>)
        ensures
            match block@ {
                SBlock::Header(level, a, inl) => match spec_heading_from_header(
                    level,
                    a.classes,
                    a.attributes,
                    inl,
                    opt_view(parent_id),
                ) {
                    Ok(b) => r is Ok && r->Ok_0 is Some && r->Ok_0->0@ == b,
                    Err(d) => r is Err && unsupported_with(r->Err_0, d),
                },
                _ => r is Ok && r->Ok_0 is None,
            },
    {
        match block {
            Block::Header(level, attr, inlines) => match self.convert_header(
                *level,
                attr,
                inlines.as_slice(),
                parent_id,
            ) {
                Ok(b) => Ok(Some(b)),
                Err(e) => Err(e),
            },
            _ => Ok(None),
        }
    }

    /// The Notion heading made from the level, attribute and inlines of a
    /// Pandoc header, under the given parent page.
    pub fn convert_header(&self, level: i32, attr: &Attr, inlines: &[Inline], parent_id: Option<String>) -> (r: Result<NotionBlock, ConversionError>)
        ensures
            match spec_heading_from_header(
                level,
                attr@.classes,
                attr@.attributes,
                inlines_view(inlines@),
                opt_view(parent_id),
            ) {
                Ok(b) => r is Ok && r->Ok_0@ == b,
                Err(d) => r is Err && unsupported_with(r->Err_0, d),
            },
    {
        let rich_text = match self.text_converter.convert(inlines) {
            Ok(rt) => rt,
            Err(e) => {
                return Err(e);
            },
        };
        let color = extract_color_from_attr(attr);
        let toggleable = self.is_toggleable_from_classes(&attr.classes);
        let mut builder = NotionHeadingBuilder::new().rich_text(rich_text).level(level as u8);
        match color {
            Some(c) => {
                builder = builder.color(c);
            },
            None => {},
        }
        match toggleable {
            Some(t) => {
                builder = builder.is_toggleable(t);
            },
            None => {},
        }
        match parent_id {
            Some(id) => {
                builder = builder.parent_id(id);
            },
            None => {},
        }
        Ok(builder.build())
    }

    /// The Notion heading made from a Pandoc header; `None` for any other
    /// block.
    pub fn try_convert(&self, block: &Block, parent_id: Option<String>) -> (r: Result<Option<NotionBlock>, ConversionError>)
        ensures
            match block@ {
                SBlock::Header(level, a, inl) => match spec_heading_from_header(
                    level,
                    a.classes,
                    a.attributes,
                    inl,
                    opt_view(parent_id),
                ) {
                    Ok(b) => r is Ok && r->Ok_0 is Some && r->Ok_0->0@ == b,
                    Err(d) => r is Err && unsupported_with(r->Err_0, d),
                },
                _ => r is Ok && r->Ok_0 is None,
            },
    {
        self.convert(block, parent_id)
    }

    /// `Some(true)` when one of `classes` is `toggleable`, `None` otherwise.
    pub fn is_toggleable_from_classes(&self, classes: &Vec<String>) -> (r: Option<bool>)
        ensures
            r == spec_toggleable(strings_view(classes@)),
    {
        let ghost cv = strings_view(classes@);
        let n = classes.len();
        for i in 0..n
            invariant
                n == classes@.len(),
                cv == strings_view(classes@),
                forall|j: int| 0 <= j < i ==> cv[j] != "toggleable"@,
        {
            if str_eq(classes[i].as_str(), "toggleable") {
                assert(cv[i as int] == "toggleable"@);
                return Some(true);
            }
        }
        None
    }
}

/// A header of level 1, 2 or 3 becomes a Notion heading of the same level,
/// a header of a deeper level (up to 255) a level 3 heading, and a level 0
/// header a level 1 heading.
pub proof fn law_heading_level_clamped(
    level: i32,
    classes: Seq<Seq<char>>,
    attributes: Seq<(Seq<char>, Seq<char>)>,
    inl: Seq<SInline>,
    parent: Option<Seq<char>>,
)
    requires
        0 <= level <= 255,
    ensures
        spec_heading_from_header(level, classes, attributes, inl, parent) matches Ok(b) ==> {
            &&& (level <= 1 ==> b.block_type is Heading1)
            &&& (level == 2 ==> b.block_type is Heading2)
            &&& (level >= 3 ==> b.block_type is Heading3)
        },
{
    assert((level as u8) as int == level);
}

} // verus!
