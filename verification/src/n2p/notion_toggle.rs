//! Conversion of Notion toggles into Pandoc blocks.
use crate::n2p::notion_heading::{slug, spec_heading_id};
use crate::n2p::notion_code::plain_texts;
use crate::n2p::notion_text::{spec_convert_rich_texts, NotionTextConverter};
use crate::n2p::ConversionConfig;
use crate::notion_api::{color_name, rich_texts_view, BlockType, NotionBlock, RichText, SBlockType, STextValue, ToggleValue};
use crate::pandoc::{
    blocks_view, inlines_view, lemma_blocks_view_add, pairs_view, strings_view, Attr, Block, Inline,
    SAttr, SBlock, SInline,
};
use crate::strings::{push_str, string_of};
use vstd::prelude::*;

verus! {

broadcast use {vstd::std_specs::vec::group_vec_axioms, crate::pandoc::group_pandoc_view};

/// View of [`ToggleBuilder`].
pub struct SToggleBuilder {
    pub rich_text: Seq<SInline>,
    pub identifier: Seq<char>,
    pub classes: Seq<Seq<char>>,
    pub attributes: Seq<(Seq<char>, Seq<char>)>,
    pub children: Seq<SBlock>,
}

/// The content of a toggle `Div`: its text as a paragraph (followed by an
/// empty paragraph when there are children), or an empty paragraph when
/// there is no text; then the children.
pub open spec fn toggle_content(rich_text: Seq<SInline>, children: Seq<SBlock>) -> Seq<SBlock> {
    let head = if rich_text.len() > 0 {
        if children.len() > 0 {
            seq![SBlock::Para(rich_text), SBlock::Para(Seq::empty())]
        } else {
            seq![SBlock::Para(rich_text)]
        }
    } else {
        seq![SBlock::Para(Seq::empty())]
    };
    head + children
}

/// The `Div` that a builder in the state `b` builds.
pub open spec fn spec_toggle_build(b: SToggleBuilder) -> SBlock {
    SBlock::Div(
        SAttr { identifier: b.identifier, classes: b.classes, attributes: b.attributes },
        toggle_content(b.rich_text, b.children),
    )
}

/// Builds the Pandoc `Div` of a toggle.
pub struct ToggleBuilder {
    rich_text: Vec<Inline>,
    identifier: String,
    classes: Vec<String>,
    attributes: Vec<(String, String)>,
    children: Vec<Block>,
}

impl View for ToggleBuilder {
    type V = SToggleBuilder;

    closed spec fn view(&self) -> SToggleBuilder {
        SToggleBuilder {
            rich_text: inlines_view(self.rich_text@),
            identifier: self.identifier@,
            classes: strings_view(self.classes@),
            attributes: pairs_view(self.attributes@),
            children: blocks_view(self.children@),
        }
    }
}

impl ToggleBuilder {
    /// A builder with the class `toggle` and nothing else.
    pub fn new() -> (r: Self)
        ensures
            r@ == (SToggleBuilder {
                rich_text: Seq::empty(),
                identifier: Seq::empty(),
                classes: seq!["toggle"@],
                attributes: Seq::empty(),
                children: Seq::empty(),
            }),
    {
        let mut classes = Vec::new();
        classes.push(string_of("toggle"));
        let r = ToggleBuilder {
            rich_text: Vec::new(),
            identifier: String::new(),
            classes,
            attributes: Vec::new(),
            children: Vec::new(),
        };
        assert(r@.rich_text =~= Seq::<SInline>::empty());
        assert(r@.classes =~= seq!["toggle"@]);
        assert(r@.attributes =~= Seq::<(Seq<char>, Seq<char>)>::empty());
        assert(r@.children =~= Seq::<SBlock>::empty());
        r
    }

    /// Sets the text.
    pub fn rich_text(self, rich_text: Vec<Inline>) -> (r: Self)
        ensures
            r@ == (SToggleBuilder { rich_text: inlines_view(rich_text@), ..self@ }),
    {
        ToggleBuilder { rich_text, ..self }
    }

    /// Sets the identifier.
    pub fn identifier(self, identifier: String) -> (r: Self)
        ensures
            r@ == (SToggleBuilder { identifier: identifier@, ..self@ }),
    {
        ToggleBuilder { identifier, ..self }
    }

    /// Sets the classes.
    pub fn classes(self, classes: Vec<String>) -> (r: Self)
        ensures
            r@ == (SToggleBuilder { classes: strings_view(classes@), ..self@ }),
    {
        ToggleBuilder { classes, ..self }
    }

    /// Appends a class.
    pub fn add_class(self, class: String) -> (r: Self)
        ensures
            r@ == (SToggleBuilder { classes: self@.classes.push(class@), ..self@ }),
    {
        let mut s = self;
        let ghost old_classes = s.classes@;
        s.classes.push(class);
        assert(strings_view(s.classes@) =~= strings_view(old_classes).push(class@));
        s
    }

    /// Sets the key-value attributes.
    pub fn attributes(self, attributes: Vec<(String, String)>) -> (r: Self)
        ensures
            r@ == (SToggleBuilder { attributes: pairs_view(attributes@), ..self@ }),
    {
        ToggleBuilder { attributes, ..self }
    }

    /// Appends a key-value attribute.
    pub fn add_attribute(self, key: String, value: String) -> (r: Self)
        ensures
            r@ == (SToggleBuilder { attributes: self@.attributes.push((key@, value@)), ..self@ }),
    {
        let mut s = self;
        let ghost old_attrs = s.attributes@;
        s.attributes.push((key, value));
        assert(pairs_view(s.attributes@) =~= pairs_view(old_attrs).push((key@, value@)));
        s
    }

    /// Sets the children.
    pub fn children(self, children: Vec<Block>) -> (r: Self)
        ensures
            r@ == (SToggleBuilder { children: blocks_view(children@), ..self@ }),
    {
        ToggleBuilder { children, ..self }
    }

    /// Appends a child block.
    pub fn add_child(self, child: Block) -> (r: Self)
        ensures
            r@ == (SToggleBuilder { children: self@.children.push(child@), ..self@ }),
    {
        let mut s = self;
        let ghost old_children = s.children@;
        s.children.push(child);
        assert(s.children@.drop_last() =~= old_children);
        s
    }

    /// The Pandoc `Div` with the builder's attributes and content.
    pub fn build(self) -> (r: Block)
        ensures
            r@ == spec_toggle_build(self@),
    {
        let ghost sv = self@;
        let mut content: Vec<Block> = Vec::new();
        if self.rich_text.len() > 0 {
            content.push(Block::Para(self.rich_text));
            if self.children.len() > 0 {
                content.push(Block::Para(Vec::new()));
            }
        } else {
            content.push(Block::Para(Vec::new()));
        }
        let ghost head = content@;
        assert(blocks_view(head) =~= toggle_content(sv.rich_text, sv.children).take(
            head.len() as int,
        ));
        let mut children = self.children;
        let ghost tail = children@;
        content.append(&mut children);
        proof {
            lemma_blocks_view_add(head, tail);
            assert(blocks_view(content@) =~= toggle_content(sv.rich_text, sv.children));
        }
        Block::Div(
            Attr { identifier: self.identifier, classes: self.classes, attributes: self.attributes },
            content,
        )
    }
}

/// The identifier of a toggle with the given rich text: `toggle-` followed by
/// its plain text made into a slug.
pub open spec fn spec_toggle_id(rich_text: Seq<crate::notion_api::SRichText>) -> Seq<char> {
    "toggle-"@ + spec_heading_id(rich_text)
}

/// The Pandoc block made from a Notion toggle.  Unless toggles are rendered
/// as divs, a paragraph of its text.  Otherwise a `Div` of class `toggle`
/// holding its text; when attributes are preserved, the `Div` carries an
/// identifier made from the text (if there is text) and a `data-color`
/// attribute.
pub open spec fn spec_toggle_from_notion(v: STextValue, config: ConversionConfig) -> SBlock {
    let inl = spec_convert_rich_texts(v.rich_text);
    if !config.render_toggle_div {
        SBlock::Para(inl)
    } else {
        spec_toggle_build(
            SToggleBuilder {
                rich_text: inl,
                identifier: if config.preserve_attributes && v.rich_text.len() > 0 {
                    spec_toggle_id(v.rich_text)
                } else {
                    Seq::empty()
                },
                classes: seq!["toggle"@],
                attributes: if config.preserve_attributes {
                    seq![("data-color"@, color_name(v.color->0))]
                } else {
                    Seq::empty()
                },
                children: Seq::empty(),
            },
        )
    }
}

/// The identifier of a toggle: `toggle-` followed by its plain text made
/// into a slug.
pub fn generate_toggle_id(rich_text: &Vec<RichText>) -> (r: String)
    ensures
        r@ == spec_toggle_id(rich_texts_view(rich_text@)),
{
    let plain = plain_texts(rich_text);
    let s = slug(plain.as_str());
    let mut id = string_of("toggle-");
    push_str(&mut id, s.as_str());
    id
}

fn build_toggle_from_notion(toggle: &ToggleValue, config: &ConversionConfig) -> (r: Block)
    ensures
        r@ == spec_toggle_from_notion(
            STextValue {
                rich_text: rich_texts_view(toggle.rich_text@),
                color: Some(toggle.color),
                children: crate::notion_api::children_view(toggle.children),
            },
            *config,
        ),
{
    let inlines = NotionTextConverter::convert(toggle.rich_text.as_slice());
    if !config.render_toggle_div {
        if inlines.len() == 0 {
            return Block::Para(Vec::new());
        } else {
            return Block::Para(inlines);
        }
    }
    let mut builder = ToggleBuilder::new().rich_text(inlines);
    if config.preserve_attributes {
        if toggle.rich_text.len() > 0 {
            let id = generate_toggle_id(&toggle.rich_text);
            builder = builder.identifier(id);
        }
        builder = builder.add_attribute(string_of("data-color"), string_of(toggle.color.name()));
    }
    let ghost b = builder@;
    assert(b.attributes =~= (if config.preserve_attributes {
        seq![("data-color"@, color_name(toggle.color))]
    } else {
        Seq::empty()
    }));
    builder.build()
}

/// A Notion toggle as a Pandoc block; `None` for any other kind of block.
pub fn convert_notion_toggle(block: &NotionBlock, config: &ConversionConfig) -> (r: Option<Block>)
    ensures
        match block@.block_type {
            SBlockType::Toggle(v) => r is Some && r->0@ == spec_toggle_from_notion(v, *config),
            _ => r is None,
        },
{
    match &block.block_type {
        BlockType::Toggle { toggle } => Some(build_toggle_from_notion(toggle, config)),
        _ => None,
    }
}

/// A Notion toggle as a Pandoc block; `None` for any other kind of block.
pub fn try_convert_to_toggle(block: &NotionBlock, config: &ConversionConfig) -> (r: Option<Block>)
    ensures
        match block@.block_type {
            SBlockType::Toggle(v) => r is Some && r->0@ == spec_toggle_from_notion(v, *config),
            _ => r is None,
        },
{
    convert_notion_toggle(block, config)
}

} // verus!
