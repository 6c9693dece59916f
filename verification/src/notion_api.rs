//! The part of the Notion API's block and rich-text objects that the
//! converters read and build.
//!
//! Field names follow the Notion API.  Each executable type has a view (`@`)
//! into a mathematical twin whose strings are `Seq<char>`; contracts are
//! stated over those views.  Block kinds whose content the converters never
//! read carry no content here.
use vstd::prelude::*;

verus! {

broadcast use vstd::std_specs::vec::group_vec_axioms;

/// Colors of text and blocks.
#[derive(PartialEq, Eq, Structural, Clone, Copy, Debug)]
pub enum TextColor {
    Default,
    Gray,
    Brown,
    Orange,
    Yellow,
    Green,
    Blue,
    Purple,
    Pink,
    Red,
    GrayBackground,
    BrownBackground,
    OrangeBackground,
    YellowBackground,
    GreenBackground,
    BlueBackground,
    PurpleBackground,
    PinkBackground,
    RedBackground,
}

/// The name of a color as Rust's `Debug` writes it (`Red`, `BlueBackground`, ...).
pub open spec fn color_name(c: TextColor) -> Seq<char> {
    match c {
        TextColor::Default => "Default"@,
        TextColor::Gray => "Gray"@,
        TextColor::Brown => "Brown"@,
        TextColor::Orange => "Orange"@,
        TextColor::Yellow => "Yellow"@,
        TextColor::Green => "Green"@,
        TextColor::Blue => "Blue"@,
        TextColor::Purple => "Purple"@,
        TextColor::Pink => "Pink"@,
        TextColor::Red => "Red"@,
        TextColor::GrayBackground => "GrayBackground"@,
        TextColor::BrownBackground => "BrownBackground"@,
        TextColor::OrangeBackground => "OrangeBackground"@,
        TextColor::YellowBackground => "YellowBackground"@,
        TextColor::GreenBackground => "GreenBackground"@,
        TextColor::BlueBackground => "BlueBackground"@,
        TextColor::PurpleBackground => "PurpleBackground"@,
        TextColor::PinkBackground => "PinkBackground"@,
        TextColor::RedBackground => "RedBackground"@,
    }
}

impl TextColor {
    /// The name of the color as Rust's `Debug` writes it.
    pub fn name(&self) -> (r: &'static str)
        ensures
            r@ == color_name(*self),
    {
        match self {
            TextColor::Default => "Default",
            TextColor::Gray => "Gray",
            TextColor::Brown => "Brown",
            TextColor::Orange => "Orange",
            TextColor::Yellow => "Yellow",
            TextColor::Green => "Green",
            TextColor::Blue => "Blue",
            TextColor::Purple => "Purple",
            TextColor::Pink => "Pink",
            TextColor::Red => "Red",
            TextColor::GrayBackground => "GrayBackground",
            TextColor::BrownBackground => "BrownBackground",
            TextColor::OrangeBackground => "OrangeBackground",
            TextColor::YellowBackground => "YellowBackground",
            TextColor::GreenBackground => "GreenBackground",
            TextColor::BlueBackground => "BlueBackground",
            TextColor::PurpleBackground => "PurpleBackground",
            TextColor::PinkBackground => "PinkBackground",
            TextColor::RedBackground => "RedBackground",
        }
    }
}

/// Formatting of a piece of rich text.
#[derive(PartialEq, Eq, Structural, Clone, Copy, Debug)]
pub struct Annotations {
    pub bold: bool,
    pub italic: bool,
    pub strikethrough: bool,
    pub underline: bool,
    pub code: bool,
    pub color: TextColor,
}

/// Annotations with no formatting and the default color.
pub open spec fn default_annotations() -> Annotations {
    Annotations {
        bold: false,
        italic: false,
        strikethrough: false,
        underline: false,
        code: false,
        color: TextColor::Default,
    }
}

impl Default for Annotations {
    /// No formatting and the default color.
    fn default() -> (r: Annotations)
        ensures
            r == default_annotations(),
    {
        Annotations::plain()
    }
}

impl Annotations {
    /// No formatting and the default color.
    pub fn plain() -> (r: Annotations)
        ensures
            r == default_annotations(),
    {
        Annotations {
            bold: false,
            italic: false,
            strikethrough: false,
            underline: false,
            code: false,
            color: TextColor::Default,
        }
    }
}

/// Languages of code blocks.
#[derive(PartialEq, Eq, Structural, Clone, Copy, Debug)]
pub enum Language {
    Abap,
    Arduino,
    Bash,
    Basic,
    C,
    Clojure,
    Coffeescript,
    CPlusPlus,
    CSharp,
    Css,
    Dart,
    Diff,
    Docker,
    Elixir,
    Elm,
    Erlang,
    Flow,
    Fortran,
    FSharp,
    Gherkin,
    Glsl,
    Go,
    Graphql,
    Groovy,
    Haskell,
    Html,
    Java,
    Javascript,
    Json,
    Julia,
    Kotlin,
    Latex,
    Less,
    Lisp,
    Livescript,
    Lua,
    Makefile,
    Markdown,
    Markup,
    Matlab,
    Mermaid,
    Nix,
    ObjectiveC,
    Ocaml,
    Pascal,
    Perl,
    Php,
    PlainText,
    Powershell,
    Prolog,
    Protobuf,
    Python,
    R,
    Reason,
    Ruby,
    Rust,
    Sass,
    Scala,
    Scheme,
    Scss,
    Shell,
    Sql,
    Swift,
    Solidity,
    Typescript,
    VbNet,
    Verilog,
    Vhdl,
    VisualBasic,
    Webassembly,
    Xml,
    Yaml,
    JavaOrCOrCPlusPlusOrCSharp,
}

/// A link target.
#[derive(Debug)]
pub struct Link {
    pub url: String,
}

/// Content of a text rich-text object.
#[derive(Debug)]
pub struct Text {
    pub content: String,
    pub link: Option<Link>,
}

/// Content of an equation rich-text object.
#[derive(Debug)]
pub struct Equation {
    pub expression: String,
}

/// A rich-text object.  A mention keeps what the converters read of it.
#[derive(Debug)]
pub enum RichText {
    Empty,
    Equation {
        equation: Equation,
        annotations: Annotations,
        plain_text: String,
        href: Option<String>,
    },
    Mention { annotations: Annotations, plain_text: String, href: Option<String> },
    Text {
        text: Text,
        annotations: Option<Annotations>,
        plain_text: Option<String>,
        href: Option<String>,
    },
}

/// View of [`RichText`].
pub enum SRichText {
    Empty,
    Equation {
        expression: Seq<char>,
        annotations: Annotations,
        plain_text: Seq<char>,
        href: Option<Seq<char>>,
    },
    Mention { annotations: Annotations, plain_text: Seq<char>, href: Option<Seq<char>> },
    Text {
        content: Seq<char>,
        link: Option<Seq<char>>,
        annotations: Option<Annotations>,
        plain_text: Option<Seq<char>>,
        href: Option<Seq<char>>,
    },
}

/// The characters of an optional string.
pub open spec fn opt_view(s: Option<String>) -> Option<Seq<char>> {
    match s {
        Some(x) => Some(x@),
        None => None,
    }
}

impl View for RichText {
    type V = SRichText;

    open spec fn view(&self) -> SRichText {
        match self {
            RichText::Empty => SRichText::Empty,
            RichText::Equation { equation, annotations, plain_text, href } => SRichText::Equation {
                expression: equation.expression@,
                annotations: *annotations,
                plain_text: plain_text@,
                href: opt_view(*href),
            },
            RichText::Mention { annotations, plain_text, href } => SRichText::Mention {
                annotations: *annotations,
                plain_text: plain_text@,
                href: opt_view(*href),
            },
            RichText::Text { text, annotations, plain_text, href } => SRichText::Text {
                content: text.content@,
                link: match text.link {
                    Some(l) => Some(l.url@),
                    None => None,
                },
                annotations: *annotations,
                plain_text: opt_view(*plain_text),
                href: opt_view(*href),
            },
        }
    }
}

/// The views of a sequence of rich-text objects.
pub open spec fn rich_texts_view(s: Seq<RichText>) -> Seq<SRichText> {
    s.map_values(|r: RichText| r@)
}

/// The plain text that a rich-text object carries, as the Notion client's
/// `RichText::plain_text` reports it.
pub open spec fn spec_plain_text(r: SRichText) -> Option<Seq<char>> {
    match r {
        SRichText::Empty => None,
        SRichText::Equation { plain_text, .. } => Some(plain_text),
        SRichText::Mention { plain_text, .. } => Some(plain_text),
        SRichText::Text { plain_text, .. } => plain_text,
    }
}

impl RichText {
    /// The plain text of this object, if it has one.
    pub fn plain_text(&self) -> (r: Option<String>)
        ensures
            opt_view(r) == spec_plain_text(self@),
    {
        match self {
            RichText::Empty => None,
            RichText::Equation { plain_text, .. } => Some(plain_text.clone()),
            RichText::Mention { plain_text, .. } => Some(plain_text.clone()),
            RichText::Text { plain_text, .. } => match plain_text {
                Some(p) => Some(p.clone()),
                None => None,
            },
        }
    }
}

/// Content of a paragraph block.
#[derive(Debug)]
pub struct ParagraphValue {
    pub rich_text: Vec<RichText>,
    pub color: Option<TextColor>,
    pub children: Option<Vec<NotionBlock>>,
}

/// Content of a heading block.
#[derive(Debug)]
pub struct HeadingsValue {
    pub rich_text: Vec<RichText>,
    pub color: Option<TextColor>,
    pub is_toggleable: Option<bool>,
}

/// Content of a quote block.
#[derive(Debug)]
pub struct QuoteValue {
    pub rich_text: Vec<RichText>,
    pub color: TextColor,
    pub children: Option<Vec<NotionBlock>>,
}

/// Content of a code block.
#[derive(Debug)]
pub struct CodeValue {
    pub caption: Vec<RichText>,
    pub rich_text: Vec<RichText>,
    pub language: Language,
}

/// Content of a bulleted list item.
#[derive(Debug)]
pub struct BulletedListItemValue {
    pub rich_text: Vec<RichText>,
    pub color: TextColor,
    pub children: Option<Vec<NotionBlock>>,
}

/// Content of a numbered list item.
#[derive(Debug)]
pub struct NumberedListItemValue {
    pub rich_text: Vec<RichText>,
    pub color: TextColor,
    pub children: Option<Vec<NotionBlock>>,
}

/// Content of a to-do item.
#[derive(Debug)]
pub struct ToDoValue {
    pub rich_text: Vec<RichText>,
    pub checked: Option<bool>,
    pub color: Option<TextColor>,
    pub children: Option<Vec<NotionBlock>>,
}

/// Content of a toggle block.
#[derive(Debug)]
pub struct ToggleValue {
    pub rich_text: Vec<RichText>,
    pub color: TextColor,
    pub children: Option<Vec<NotionBlock>>,
}

/// The kind of a block and its content.
#[derive(Debug)]
pub enum BlockType {
    Paragraph { paragraph: ParagraphValue },
    Heading1 { heading_1: HeadingsValue },
    Heading2 { heading_2: HeadingsValue },
    Heading3 { heading_3: HeadingsValue },
    Quote { quote: QuoteValue },
    Code { code: CodeValue },
    BulletedListItem { bulleted_list_item: BulletedListItemValue },
    NumberedListItem { numbered_list_item: NumberedListItemValue },
    ToDo { to_do: ToDoValue },
    Toggle { toggle: ToggleValue },
    Divider,
    Callout,
    Image,
    Table,
    TableRow,
    File,
    Video,
    Bookmark,
    Equation,
    /// Any other kind, by its API name (`child_page`, `embed`, ...).
    Other(String),
}

/// A block.  `parent` is the page identifier of a page parent.
#[derive(Debug)]
pub struct NotionBlock {
    pub object: Option<String>,
    pub id: Option<String>,
    pub parent: Option<String>,
    pub archived: Option<bool>,
    pub has_children: Option<bool>,
    pub block_type: BlockType,
}

/// View of the text content shared by several block kinds.
pub struct STextValue {
    pub rich_text: Seq<SRichText>,
    pub color: Option<TextColor>,
    pub children: Option<Seq<SNotionBlock>>,
}

/// View of [`HeadingsValue`].
pub struct SHeadingsValue {
    pub rich_text: Seq<SRichText>,
    pub color: Option<TextColor>,
    pub is_toggleable: Option<bool>,
}

/// View of [`CodeValue`].
pub struct SCodeValue {
    pub caption: Seq<SRichText>,
    pub rich_text: Seq<SRichText>,
    pub language: Language,
}

/// View of [`ToDoValue`].
pub struct SToDoValue {
    pub rich_text: Seq<SRichText>,
    pub checked: Option<bool>,
    pub color: Option<TextColor>,
    pub children: Option<Seq<SNotionBlock>>,
}

/// View of [`BlockType`].  Kinds whose color is not optional in the API carry
/// `Some(color)` in their view.
pub enum SBlockType {
    Paragraph(STextValue),
    Heading1(SHeadingsValue),
    Heading2(SHeadingsValue),
    Heading3(SHeadingsValue),
    Quote(STextValue),
    Code(SCodeValue),
    BulletedListItem(STextValue),
    NumberedListItem(STextValue),
    ToDo(SToDoValue),
    Toggle(STextValue),
    Divider,
    Callout,
    Image,
    Table,
    TableRow,
    File,
    Video,
    Bookmark,
    Equation,
    Other(Seq<char>),
}

/// View of [`NotionBlock`].
pub struct SNotionBlock {
    pub object: Option<Seq<char>>,
    pub id: Option<Seq<char>>,
    pub parent: Option<Seq<char>>,
    pub archived: Option<bool>,
    pub has_children: Option<bool>,
    pub block_type: SBlockType,
}

/// The views of a sequence of blocks.
pub open spec fn notion_blocks_view(s: Seq<NotionBlock>) -> Seq<SNotionBlock>
    decreases s,
{
    if s.len() == 0 {
        Seq::empty()
    } else {
        notion_blocks_view(s.drop_last()).push(notion_block_view(s.last()))
    }
}

/// The view of optional children.
pub open spec fn children_view(c: Option<Vec<NotionBlock>>) -> Option<Seq<SNotionBlock>>
    decreases c,
{
    match c {
        Some(v) => Some(notion_blocks_view(v@)),
        None => None,
    }
}

/// The name that the Notion API gives a block kind (`paragraph`,
/// `heading_1`, `bulleted_list_item`, ...).
pub open spec fn block_type_name(t: SBlockType) -> Seq<char> {
    match t {
        SBlockType::Paragraph(_) => "paragraph"@,
        SBlockType::Heading1(_) => "heading_1"@,
        SBlockType::Heading2(_) => "heading_2"@,
        SBlockType::Heading3(_) => "heading_3"@,
        SBlockType::Quote(_) => "quote"@,
        SBlockType::Code(_) => "code"@,
        SBlockType::BulletedListItem(_) => "bulleted_list_item"@,
        SBlockType::NumberedListItem(_) => "numbered_list_item"@,
        SBlockType::ToDo(_) => "to_do"@,
        SBlockType::Toggle(_) => "toggle"@,
        SBlockType::Divider => "divider"@,
        SBlockType::Callout => "callout"@,
        SBlockType::Image => "image"@,
        SBlockType::Table => "table"@,
        SBlockType::TableRow => "table_row"@,
        SBlockType::File => "file"@,
        SBlockType::Video => "video"@,
        SBlockType::Bookmark => "bookmark"@,
        SBlockType::Equation => "equation"@,
        SBlockType::Other(s) => s,
    }
}

impl BlockType {
    /// The name that the Notion API gives this block kind.
    pub fn api_name(&self) -> (r: String)
        ensures
            r@ == block_type_name(block_type_view(*self)),
    {
        let name: &str = match self {
            BlockType::Paragraph { .. } => "paragraph",
            BlockType::Heading1 { .. } => "heading_1",
            BlockType::Heading2 { .. } => "heading_2",
            BlockType::Heading3 { .. } => "heading_3",
            BlockType::Quote { .. } => "quote",
            BlockType::Code { .. } => "code",
            BlockType::BulletedListItem { .. } => "bulleted_list_item",
            BlockType::NumberedListItem { .. } => "numbered_list_item",
            BlockType::ToDo { .. } => "to_do",
            BlockType::Toggle { .. } => "toggle",
            BlockType::Divider => "divider",
            BlockType::Callout => "callout",
            BlockType::Image => "image",
            BlockType::Table => "table",
            BlockType::TableRow => "table_row",
            BlockType::File => "file",
            BlockType::Video => "video",
            BlockType::Bookmark => "bookmark",
            BlockType::Equation => "equation",
            BlockType::Other(s) => {
                return s.clone();
            },
        };
        String::from_str(name)
    }
}

/// The view of a block's kind and content.
pub open spec fn block_type_view(t: BlockType) -> SBlockType
    decreases t,
{
    match t {
        BlockType::Paragraph { paragraph } => SBlockType::Paragraph(
            STextValue {
                rich_text: rich_texts_view(paragraph.rich_text@),
                color: paragraph.color,
                children: children_view(paragraph.children),
            },
        ),
        BlockType::Heading1 { heading_1 } => SBlockType::Heading1(headings_view(heading_1)),
        BlockType::Heading2 { heading_2 } => SBlockType::Heading2(headings_view(heading_2)),
        BlockType::Heading3 { heading_3 } => SBlockType::Heading3(headings_view(heading_3)),
        BlockType::Quote { quote } => SBlockType::Quote(
            STextValue {
                rich_text: rich_texts_view(quote.rich_text@),
                color: Some(quote.color),
                children: children_view(quote.children),
            },
        ),
        BlockType::Code { code } => SBlockType::Code(
            SCodeValue {
                caption: rich_texts_view(code.caption@),
                rich_text: rich_texts_view(code.rich_text@),
                language: code.language,
            },
        ),
        BlockType::BulletedListItem { bulleted_list_item } => SBlockType::BulletedListItem(
            STextValue {
                rich_text: rich_texts_view(bulleted_list_item.rich_text@),
                color: Some(bulleted_list_item.color),
                children: children_view(bulleted_list_item.children),
            },
        ),
        BlockType::NumberedListItem { numbered_list_item } => SBlockType::NumberedListItem(
            STextValue {
                rich_text: rich_texts_view(numbered_list_item.rich_text@),
                color: Some(numbered_list_item.color),
                children: children_view(numbered_list_item.children),
            },
        ),
        BlockType::ToDo { to_do } => SBlockType::ToDo(
            SToDoValue {
                rich_text: rich_texts_view(to_do.rich_text@),
                checked: to_do.checked,
                color: to_do.color,
                children: children_view(to_do.children),
            },
        ),
        BlockType::Toggle { toggle } => SBlockType::Toggle(
            STextValue {
                rich_text: rich_texts_view(toggle.rich_text@),
                color: Some(toggle.color),
                children: children_view(toggle.children),
            },
        ),
        BlockType::Divider => SBlockType::Divider,
        BlockType::Callout => SBlockType::Callout,
        BlockType::Image => SBlockType::Image,
        BlockType::Table => SBlockType::Table,
        BlockType::TableRow => SBlockType::TableRow,
        BlockType::File => SBlockType::File,
        BlockType::Video => SBlockType::Video,
        BlockType::Bookmark => SBlockType::Bookmark,
        BlockType::Equation => SBlockType::Equation,
        BlockType::Other(s) => SBlockType::Other(s@),
    }
}

/// The view of a heading's content.
pub open spec fn headings_view(h: HeadingsValue) -> SHeadingsValue {
    SHeadingsValue {
        rich_text: rich_texts_view(h.rich_text@),
        color: h.color,
        is_toggleable: h.is_toggleable,
    }
}

/// The view of one block.
pub open spec fn notion_block_view(b: NotionBlock) -> SNotionBlock
    decreases b,
{
    SNotionBlock {
        object: opt_view(b.object),
        id: opt_view(b.id),
        parent: opt_view(b.parent),
        archived: b.archived,
        has_children: b.has_children,
        block_type: block_type_view(b.block_type),
    }
}

impl View for NotionBlock {
    type V = SNotionBlock;

    open spec fn view(&self) -> SNotionBlock {
        notion_block_view(*self)
    }
}

/// The views of a sequence of blocks, element by element.
pub broadcast proof fn lemma_notion_blocks_view(s: Seq<NotionBlock>)
    ensures
        #[trigger] notion_blocks_view(s).len() == s.len(),
        forall|i: int| 0 <= i < s.len() ==> #[trigger] notion_blocks_view(s)[i] == s[i]@,
    decreases s.len(),
{
    if s.len() > 0 {
        lemma_notion_blocks_view(s.drop_last());
    }
}

/// The view of a concatenation of blocks.
pub proof fn lemma_notion_blocks_view_add(a: Seq<NotionBlock>, b: Seq<NotionBlock>)
    ensures
        notion_blocks_view(a + b) == notion_blocks_view(a) + notion_blocks_view(b),
{
    broadcast use lemma_notion_blocks_view;

    assert(notion_blocks_view(a + b) =~= notion_blocks_view(a) + notion_blocks_view(b));
}

} // verus!
