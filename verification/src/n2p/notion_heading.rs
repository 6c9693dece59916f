//! Conversion of Notion headings into Pandoc headers.
use crate::n2p::notion_code::{plain_texts, spec_plain_texts};
use crate::n2p::notion_text::{spec_convert_rich_texts, NotionTextConverter};
use crate::notion_api::{
    color_name, rich_texts_view, BlockType, HeadingsValue, NotionBlock, RichText, SBlockType,
    SHeadingsValue, SRichText,
};
use crate::pandoc::{inlines_view, pairs_view, strings_view, Attr, Block, Inline, SAttr, SBlock, SInline};
use crate::strings::{char_is_alphanumeric, chars_of, is_alphanumeric, lowercase, string_from_chars, string_of, to_lowercase};
use vstd::prelude::*;

verus! {

broadcast use {vstd::std_specs::vec::group_vec_axioms, crate::pandoc::group_pandoc_view};

/// A character of an identifier: spaces and characters that are not
/// alphanumeric become `-`.
pub open spec fn slug_char(c: char) -> char {
    if c == ' ' {
        '-'
    } else if is_alphanumeric(c) {
        c
    } else {
        '-'
    }
}

/// Each `--`, read from left to right without overlap, replaced by `-`.
pub open spec fn collapse_dashes(s: Seq<char>) -> Seq<char>
    decreases s.len(),
{
    if s.len() == 0 {
        Seq::empty()
    } else if s.len() >= 2 && s[0] == '-' && s[1] == '-' {
        seq!['-'] + collapse_dashes(s.skip(2))
    } else {
        seq![s[0]] + collapse_dashes(s.skip(1))
    }
}

/// An identifier made from text: lower-cased, with every character that is
/// a space or not alphanumeric turned into `-`, then each `--` into `-`.
pub open spec fn spec_slug(text: Seq<char>) -> Seq<char> {
    collapse_dashes(lowercase(text).map_values(|c: char| slug_char(c)))
}

/// The identifier of a heading with the given rich text.
pub open spec fn spec_heading_id(rich_text: Seq<SRichText>) -> Seq<char> {
    spec_slug(spec_plain_texts(rich_text))
}

/// An identifier made from text: lower-cased, with every character that is
/// a space or not alphanumeric turned into `-`, then each `--` into `-`.
pub fn slug(text: &str) -> (r: String)
    ensures
        r@ == spec_slug(text@),
{
    let lower = to_lowercase(text);
    let chars = chars_of(lower.as_str());
    let mut mapped: Vec<char> = Vec::new();
    let n = chars.len();
    for i in 0..n
        invariant
            n == chars@.len(),
            chars@ == lowercase(text@),
            mapped@ == chars@.take(i as int).map_values(|c: char| slug_char(c)),
    {
        let c = chars[i];
        let m = if c == ' ' {
            '-'
        } else if char_is_alphanumeric(c) {
            c
        } else {
            '-'
        };
        mapped.push(m);
        assert(chars@.take(i + 1).map_values(|c: char| slug_char(c)) =~= chars@.take(
            i as int,
        ).map_values(|c: char| slug_char(c)).push(slug_char(c)));
    }
    assert(chars@.take(n as int) =~= chars@);
    let ghost full = mapped@;
    let mut out: Vec<char> = Vec::new();
    let mut i: usize = 0;
    let m = mapped.len();
    assert(full.skip(0) =~= full);
    assert(out@ + collapse_dashes(full) =~= collapse_dashes(full));
    while i < m
        invariant
            m == mapped@.len(),
            mapped@ == full,
            i <= m,
            out@ + collapse_dashes(full.skip(i as int)) == collapse_dashes(full),
        decreases m - i,
    {
        let ghost rest = full.skip(i as int);
        if i + 1 < m && mapped[i] == '-' && mapped[i + 1] == '-' {
            out.push('-');
            assert(rest.skip(2) =~= full.skip(i + 2));
            assert(out@ + collapse_dashes(full.skip(i + 2)) =~= out@.drop_last() + (seq!['-']
                + collapse_dashes(rest.skip(2))));
            i = i + 2;
        } else {
            out.push(mapped[i]);
            assert(rest.skip(1) =~= full.skip(i + 1));
            assert(out@ + collapse_dashes(full.skip(i + 1)) =~= out@.drop_last() + (seq![rest[0]]
                + collapse_dashes(rest.skip(1))));
            i = i + 1;
        }
    }
    assert(full.skip(m as int) =~= Seq::<char>::empty());
    assert(out@ + Seq::<char>::empty() =~= out@);
    string_from_chars(&out)
}

/// The identifier of a heading: its plain text made into a slug.
pub fn generate_heading_id(rich_text: &Vec<RichText>) -> (r: String)
    ensures
        r@ == spec_heading_id(rich_texts_view(rich_text@)),
{
    let plain = plain_texts(rich_text);
    slug(plain.as_str())
}

/// View of [`HeadingBuilder`].
pub struct SHeadingBuilder {
    pub level: i32,
    pub rich_text: Seq<SInline>,
    pub identifier: Seq<char>,
    pub classes: Seq<Seq<char>>,
    pub attributes: Seq<(Seq<char>, Seq<char>)>,
}

/// Builds a Pandoc header.
pub struct HeadingBuilder {
    level: i32,
    rich_text: Vec<Inline>,
    identifier: String,
    classes: Vec<String>,
    attributes: Vec<(String, String)>,
}

impl View for HeadingBuilder {
    type V = SHeadingBuilder;

    closed spec fn view(&self) -> SHeadingBuilder {
        SHeadingBuilder {
            level: self.level,
            rich_text: inlines_view(self.rich_text@),
            identifier: self.identifier@,
            classes: strings_view(self.classes@),
            attributes: pairs_view(self.attributes@),
        }
    }
}

impl HeadingBuilder {
    /// A level 1 builder with no text, identifier, classes or attributes.
    pub fn new() -> (r: Self)
        ensures
            r@ == (SHeadingBuilder {
                level: 1,
                rich_text: Seq::empty(),
                identifier: Seq::empty(),
                classes: Seq::empty(),
                attributes: Seq::empty(),
            }),
    {
        let r = HeadingBuilder {
            level: 1,
            rich_text: Vec::new(),
            identifier: String::new(),
            classes: Vec::new(),
            attributes: Vec::new(),
        };
        assert(r@.rich_text =~= Seq::<SInline>::empty());
        assert(r@.classes =~= Seq::<Seq<char>>::empty());
        assert(r@.attributes =~= Seq::<(Seq<char>, Seq<char>)>::empty());
        r
    }

    /// Sets the level.
    pub fn level(self, level: i32) -> (r: Self)
        ensures
            r@ == (SHeadingBuilder { level, ..self@ }),
    {
        HeadingBuilder { level, ..self }
    }

    /// Sets the text.
    pub fn rich_text(self, rich_text: Vec<Inline>) -> (r: Self)
        ensures
            r@ == (SHeadingBuilder { rich_text: inlines_view(rich_text@), ..self@ }),
    {
        HeadingBuilder { rich_text, ..self }
    }

    /// Sets the identifier.
    pub fn identifier(self, identifier: String) -> (r: Self)
        ensures
            r@ == (SHeadingBuilder { identifier: identifier@, ..self@ }),
    {
        HeadingBuilder { identifier, ..self }
    }

    /// Sets the classes.
    pub fn classes(self, classes: Vec<String>) -> (r: Self)
        ensures
            r@ == (SHeadingBuilder { classes: strings_view(classes@), ..self@ }),
    {
        HeadingBuilder { classes, ..self }
    }

    /// Appends a class.
    pub fn add_class(self, class: String) -> (r: Self)
        ensures
            r@ == (SHeadingBuilder { classes: self@.classes.push(class@), ..self@ }),
    {
        let mut s = self;
        let ghost old_classes = s.classes@;
        s.classes.push(class);
        assert(strings_view(s.classes@) =~= strings_view(old_classes).push(class@));
        s
    }

    /// Sets the key-value attributes.
    pub fn attributes(self, attributes: Vec<(String, String)>) -> (r: Self)
        ensures
            r@ == (SHeadingBuilder { attributes: pairs_view(attributes@), ..self@ }),
    {
        HeadingBuilder { attributes, ..self }
    }

    /// Appends a key-value attribute.
    pub fn add_attribute(self, key: String, value: String) -> (r: Self)
        ensures
            r@ == (SHeadingBuilder { attributes: self@.attributes.push((key@, value@)), ..self@ }),
    {
        let mut s = self;
        let ghost old_attrs = s.attributes@;
        s.attributes.push((key, value));
        assert(pairs_view(s.attributes@) =~= pairs_view(old_attrs).push((key@, value@)));
        s
    }

    /// The Pandoc header.
    pub fn build(self) -> (r: Block)
        ensures
            r@ == SBlock::Header(
                self@.level,
                SAttr {
                    identifier: self@.identifier,
                    classes: self@.classes,
                    attributes: self@.attributes,
                },
                self@.rich_text,
            ),
    {
        Block::Header(
            self.level,
            Attr { identifier: self.identifier, classes: self.classes, attributes: self.attributes },
            self.rich_text,
        )
    }
}

/// The Pandoc header made from a Notion heading of the given level: its text
/// as inlines; an identifier from its text when it has text; a `data-color`
/// attribute when it has a color; the class `toggleable` when it is
/// toggleable.
pub open spec fn spec_heading_from_notion(h: SHeadingsValue, level: i32) -> SBlock {
    SBlock::Header(
        level,
        SAttr {
            identifier: if h.rich_text.len() > 0 {
                spec_heading_id(h.rich_text)
            } else {
                Seq::empty()
            },
            classes: if h.is_toggleable == Some(true) {
                seq!["toggleable"@]
            } else {
                Seq::empty()
            },
            attributes: match h.color {
                Some(c) => seq![("data-color"@, color_name(c))],
                None => Seq::empty(),
            },
        },
        spec_convert_rich_texts(h.rich_text),
    )
}

/// The Pandoc header made from a Notion block, if it is a heading.
pub open spec fn spec_convert_heading(t: SBlockType) -> Option<SBlock> {
    match t {
        SBlockType::Heading1(h) => Some(spec_heading_from_notion(h, 1)),
        SBlockType::Heading2(h) => Some(spec_heading_from_notion(h, 2)),
        SBlockType::Heading3(h) => Some(spec_heading_from_notion(h, 3)),
        _ => None,
    }
}

fn build_heading_from_notion(heading: &HeadingsValue, level: i32) -> (r: Block)
    ensures
        r@ == spec_heading_from_notion(
            SHeadingsValue {
                rich_text: rich_texts_view(heading.rich_text@),
                color: heading.color,
                is_toggleable: heading.is_toggleable,
            },
            level,
        ),
{
    let inlines = NotionTextConverter::convert(heading.rich_text.as_slice());
    let mut builder = HeadingBuilder::new().level(level).rich_text(inlines);
    if heading.rich_text.len() > 0 {
        let id = generate_heading_id(&heading.rich_text);
        builder = builder.identifier(id);
    }
    match heading.color {
        Some(color) => {
            builder = builder.add_attribute(string_of("data-color"), string_of(color.name()));
        },
        None => {},
    }
    match heading.is_toggleable {
        Some(true) => {
            builder = builder.add_class(string_of("toggleable"));
        },
        _ => {},
    }
    let ghost b = builder@;
    assert(b.classes =~= (if heading.is_toggleable == Some(true) {
        seq!["toggleable"@]
    } else {
        Seq::empty()
    }));
    assert(b.attributes =~= match heading.color {
        Some(c) => seq![("data-color"@, color_name(c))],
        None => Seq::empty(),
    });
    builder.build()
}

/// A Notion heading as a Pandoc header; `None` for any other kind of block.
pub fn convert_notion_heading(block: &NotionBlock) -> (r: Option<Block>)
    ensures
        match spec_convert_heading(block@.block_type) {
            Some(b) => r is Some && r->0@ == b,
            None => r is None,
        },
{
    match &block.block_type {
        BlockType::Heading1 { heading_1 } => Some(build_heading_from_notion(heading_1, 1)),
        BlockType::Heading2 { heading_2 } => Some(build_heading_from_notion(heading_2, 2)),
        BlockType::Heading3 { heading_3 } => Some(build_heading_from_notion(heading_3, 3)),
        _ => None,
    }
}

/// A Notion heading as a Pandoc header; `None` for any other kind of block.
pub fn try_convert_to_heading(block: &NotionBlock) -> (r: Option<Block>)
    ensures
        match spec_convert_heading(block@.block_type) {
            Some(b) => r is Some && r->0@ == b,
            None => r is None,
        },
{
    convert_notion_heading(block)
}

} // verus!
