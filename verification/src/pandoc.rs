//! The part of Pandoc's document model that the converters read and build.
//!
//! Each executable type has a view (`@`) into a mathematical twin whose
//! strings are `Seq<char>` and whose lists are `Seq`s; contracts are stated
//! over those views.  Constructors that the converters never look into are
//! kept as `Other`: what is read of the element, and its `Debug` rendering.
use vstd::prelude::*;

verus! {

broadcast use vstd::std_specs::vec::group_vec_axioms;

/// Kind of a math element.
#[derive(PartialEq, Eq, Structural, Clone, Copy, Debug)]
pub enum MathType {
    DisplayMath,
    InlineMath,
}

/// Numbering style of an ordered list.
#[derive(PartialEq, Eq, Structural, Clone, Copy, Debug)]
pub enum ListNumberStyle {
    DefaultStyle,
    Example,
    Decimal,
    LowerRoman,
    UpperRoman,
    LowerAlpha,
    UpperAlpha,
}

/// Delimiter of an ordered list's numbers.
#[derive(PartialEq, Eq, Structural, Clone, Copy, Debug)]
pub enum ListNumberDelim {
    DefaultDelim,
    Period,
    OneParen,
    TwoParens,
}

/// Attributes of an ordered list.
#[derive(PartialEq, Eq, Structural, Clone, Copy, Debug)]
pub struct ListAttributes {
    pub start_number: i32,
    pub style: ListNumberStyle,
    pub delim: ListNumberDelim,
}

/// Identifier, classes and key-value attributes of an element.
#[derive(Debug)]
pub struct Attr {
    pub identifier: String,
    pub classes: Vec<String>,
    pub attributes: Vec<(String, String)>,
}

/// Target of a link.
#[derive(Debug)]
pub struct Target {
    pub url: String,
    pub title: String,
}

/// Inline elements.
#[derive(Debug)]
pub enum Inline {
    Str(String),
    Emph(Vec<Inline>),
    Strong(Vec<Inline>),
    Strikeout(Vec<Inline>),
    Code(Attr, String),
    Space,
    SoftBreak,
    LineBreak,
    Math(MathType, String),
    Link(Attr, Vec<Inline>, Target),
    Span(Attr, Vec<Inline>),
    /// Any other Pandoc inline (`Underline`, `Superscript`, `Quoted`,
    /// `Cite`, `Image`, `Note`, ...): its constructor name and its `Debug`
    /// rendering.
    Other(String, String),
}

/// Block elements.
#[derive(Debug)]
pub enum Block {
    Plain(Vec<Inline>),
    Para(Vec<Inline>),
    CodeBlock(Attr, String),
    BlockQuote(Vec<Block>),
    OrderedList(ListAttributes, Vec<Vec<Block>>),
    BulletList(Vec<Vec<Block>>),
    Header(i32, Attr, Vec<Inline>),
    HorizontalRule,
    Div(Attr, Vec<Block>),
    Null,
    /// Any other Pandoc block: what is read of it, and its `Debug`
    /// rendering.
    Other(OtherBlock, String),
}

/// What is read of a Pandoc block that no converter handles.
#[derive(Debug)]
pub enum OtherBlock {
    /// A `LineBlock`, by its number of lines.
    LineBlock(usize),
    /// A `RawBlock`: the `Debug` rendering of its format, and its text.
    RawBlock(String, String),
    /// A `DefinitionList`, by its number of entries.
    DefinitionList(usize),
    /// A `Table`.
    Table,
    /// A `Figure`, with the blocks it holds.
    Figure(Vec<Block>),
}

/// View of [`Attr`].
pub struct SAttr {
    pub identifier: Seq<char>,
    pub classes: Seq<Seq<char>>,
    pub attributes: Seq<(Seq<char>, Seq<char>)>,
}

/// View of [`Target`].
pub struct STarget {
    pub url: Seq<char>,
    pub title: Seq<char>,
}

/// View of [`Inline`].
pub enum SInline {
    Str(Seq<char>),
    Emph(Seq<SInline>),
    Strong(Seq<SInline>),
    Strikeout(Seq<SInline>),
    Code(SAttr, Seq<char>),
    Space,
    SoftBreak,
    LineBreak,
    Math(MathType, Seq<char>),
    Link(SAttr, Seq<SInline>, STarget),
    Span(SAttr, Seq<SInline>),
    Other(Seq<char>, Seq<char>),
}

/// View of [`Block`].
pub enum SBlock {
    Plain(Seq<SInline>),
    Para(Seq<SInline>),
    CodeBlock(SAttr, Seq<char>),
    BlockQuote(Seq<SBlock>),
    OrderedList(ListAttributes, Seq<Seq<SBlock>>),
    BulletList(Seq<Seq<SBlock>>),
    Header(i32, SAttr, Seq<SInline>),
    HorizontalRule,
    Div(SAttr, Seq<SBlock>),
    Null,
    Other(SOtherBlock, Seq<char>),
}

/// View of [`OtherBlock`].
pub enum SOtherBlock {
    LineBlock(nat),
    RawBlock(Seq<char>, Seq<char>),
    DefinitionList(nat),
    Table,
    Figure(Seq<SBlock>),
}

/// The characters of each string.
pub open spec fn strings_view(s: Seq<String>) -> Seq<Seq<char>> {
    s.map_values(|x: String| x@)
}

/// The characters of each key and value.
pub open spec fn pairs_view(s: Seq<(String, String)>) -> Seq<(Seq<char>, Seq<char>)> {
    s.map_values(|p: (String, String)| (p.0@, p.1@))
}

impl View for Attr {
    type V = SAttr;

    open spec fn view(&self) -> SAttr {
        SAttr {
            identifier: self.identifier@,
            classes: strings_view(self.classes@),
            attributes: pairs_view(self.attributes@),
        }
    }
}

impl View for Target {
    type V = STarget;

    open spec fn view(&self) -> STarget {
        STarget { url: self.url@, title: self.title@ }
    }
}

/// The views of a sequence of inlines.
pub open spec fn inlines_view(s: Seq<Inline>) -> Seq<SInline>
    decreases s,
{
    if s.len() == 0 {
        Seq::empty()
    } else {
        inlines_view(s.drop_last()).push(inline_view(s.last()))
    }
}

/// The view of one inline.
pub open spec fn inline_view(x: Inline) -> SInline
    decreases x,
{
    match x {
        Inline::Str(s) => SInline::Str(s@),
        Inline::Emph(v) => SInline::Emph(inlines_view(v@)),
        Inline::Strong(v) => SInline::Strong(inlines_view(v@)),
        Inline::Strikeout(v) => SInline::Strikeout(inlines_view(v@)),
        Inline::Code(a, s) => SInline::Code(a@, s@),
        Inline::Space => SInline::Space,
        Inline::SoftBreak => SInline::SoftBreak,
        Inline::LineBreak => SInline::LineBreak,
        Inline::Math(t, s) => SInline::Math(t, s@),
        Inline::Link(a, v, t) => SInline::Link(a@, inlines_view(v@), t@),
        Inline::Span(a, v) => SInline::Span(a@, inlines_view(v@)),
        Inline::Other(n, d) => SInline::Other(n@, d@),
    }
}

impl View for Inline {
    type V = SInline;

    open spec fn view(&self) -> SInline {
        inline_view(*self)
    }
}

/// The views of a sequence of blocks.
pub open spec fn blocks_view(s: Seq<Block>) -> Seq<SBlock>
    decreases s,
{
    if s.len() == 0 {
        Seq::empty()
    } else {
        blocks_view(s.drop_last()).push(block_view(s.last()))
    }
}

/// The views of a sequence of list items.
pub open spec fn items_view(s: Seq<Vec<Block>>) -> Seq<Seq<SBlock>>
    decreases s,
{
    if s.len() == 0 {
        Seq::empty()
    } else {
        items_view(s.drop_last()).push(blocks_view(s.last()@))
    }
}

/// The view of one block.
pub open spec fn block_view(b: Block) -> SBlock
    decreases b,
{
    match b {
        Block::Plain(v) => SBlock::Plain(inlines_view(v@)),
        Block::Para(v) => SBlock::Para(inlines_view(v@)),
        Block::CodeBlock(a, s) => SBlock::CodeBlock(a@, s@),
        Block::BlockQuote(v) => SBlock::BlockQuote(blocks_view(v@)),
        Block::OrderedList(la, items) => SBlock::OrderedList(la, items_view(items@)),
        Block::BulletList(items) => SBlock::BulletList(items_view(items@)),
        Block::Header(l, a, v) => SBlock::Header(l, a@, inlines_view(v@)),
        Block::HorizontalRule => SBlock::HorizontalRule,
        Block::Div(a, v) => SBlock::Div(a@, blocks_view(v@)),
        Block::Null => SBlock::Null,
        Block::Other(o, d) => SBlock::Other(other_block_view(o), d@),
    }
}

/// The view of what is read of an unhandled block.
pub open spec fn other_block_view(o: OtherBlock) -> SOtherBlock
    decreases o,
{
    match o {
        OtherBlock::LineBlock(n) => SOtherBlock::LineBlock(n as nat),
        OtherBlock::RawBlock(f, t) => SOtherBlock::RawBlock(f@, t@),
        OtherBlock::DefinitionList(n) => SOtherBlock::DefinitionList(n as nat),
        OtherBlock::Table => SOtherBlock::Table,
        OtherBlock::Figure(v) => SOtherBlock::Figure(blocks_view(v@)),
    }
}

impl View for OtherBlock {
    type V = SOtherBlock;

    open spec fn view(&self) -> SOtherBlock {
        other_block_view(*self)
    }
}

impl View for Block {
    type V = SBlock;

    open spec fn view(&self) -> SBlock {
        block_view(*self)
    }
}

/// The views of a sequence of inlines, element by element.
pub broadcast proof fn lemma_inlines_view(s: Seq<Inline>)
    ensures
        #[trigger] inlines_view(s).len() == s.len(),
        forall|i: int| 0 <= i < s.len() ==> #[trigger] inlines_view(s)[i] == s[i]@,
    decreases s.len(),
{
    if s.len() > 0 {
        lemma_inlines_view(s.drop_last());
    }
}

/// The views of a sequence of blocks, element by element.
pub broadcast proof fn lemma_blocks_view(s: Seq<Block>)
    ensures
        #[trigger] blocks_view(s).len() == s.len(),
        forall|i: int| 0 <= i < s.len() ==> #[trigger] blocks_view(s)[i] == s[i]@,
    decreases s.len(),
{
    if s.len() > 0 {
        lemma_blocks_view(s.drop_last());
    }
}

/// The views of a sequence of list items, element by element.
pub broadcast proof fn lemma_items_view(s: Seq<Vec<Block>>)
    ensures
        #[trigger] items_view(s).len() == s.len(),
        forall|i: int| 0 <= i < s.len() ==> #[trigger] items_view(s)[i] == blocks_view(s[i]@),
    decreases s.len(),
{
    if s.len() > 0 {
        lemma_items_view(s.drop_last());
    }
}

/// The view of a concatenation of inlines.
pub proof fn lemma_inlines_view_add(a: Seq<Inline>, b: Seq<Inline>)
    ensures
        inlines_view(a + b) == inlines_view(a) + inlines_view(b),
{
    broadcast use lemma_inlines_view;

    assert(inlines_view(a + b) =~= inlines_view(a) + inlines_view(b));
}

/// The view of a concatenation of blocks.
pub proof fn lemma_blocks_view_add(a: Seq<Block>, b: Seq<Block>)
    ensures
        blocks_view(a + b) == blocks_view(a) + blocks_view(b),
{
    broadcast use lemma_blocks_view;

    assert(blocks_view(a + b) =~= blocks_view(a) + blocks_view(b));
}

/// The view of a concatenation of list items.
pub proof fn lemma_items_view_add(a: Seq<Vec<Block>>, b: Seq<Vec<Block>>)
    ensures
        items_view(a + b) == items_view(a) + items_view(b),
{
    broadcast use lemma_items_view;

    assert(items_view(a + b) =~= items_view(a) + items_view(b));
}

pub broadcast group group_pandoc_view {
    lemma_inlines_view,
    lemma_blocks_view,
    lemma_items_view,
}

/// The empty attribute: no identifier, classes or key-value pairs.
pub open spec fn empty_attr() -> SAttr {
    SAttr { identifier: Seq::empty(), classes: Seq::empty(), attributes: Seq::empty() }
}

impl Attr {
    /// An attribute with no identifier, classes or key-value pairs.
    pub fn new() -> (r: Attr)
        ensures
            r@ == empty_attr(),
    {
        let r = Attr { identifier: String::new(), classes: Vec::new(), attributes: Vec::new() };
        assert(r@.classes =~= Seq::<Seq<char>>::empty());
        assert(r@.attributes =~= Seq::<(Seq<char>, Seq<char>)>::empty());
        r
    }

    /// An attribute whose only content is the given class.
    pub fn with_class(class: String) -> (r: Attr)
        ensures
            r@ == (SAttr { classes: seq![class@], ..empty_attr() }),
    {
        let mut classes = Vec::new();
        classes.push(class);
        let r = Attr { identifier: String::new(), classes, attributes: Vec::new() };
        assert(r@.classes =~= seq![class@]);
        assert(r@.attributes =~= Seq::<(Seq<char>, Seq<char>)>::empty());
        r
    }

    /// An attribute whose only content is the given key-value pair.
    pub fn with_attribute(key: String, value: String) -> (r: Attr)
        ensures
            r@ == (SAttr { attributes: seq![(key@, value@)], ..empty_attr() }),
    {
        let mut attributes = Vec::new();
        attributes.push((key, value));
        let r = Attr { identifier: String::new(), classes: Vec::new(), attributes };
        assert(r@.classes =~= Seq::<Seq<char>>::empty());
        assert(r@.attributes =~= seq![(key@, value@)]);
        r
    }
}

/// The `Debug` rendering of a block with the given view, as Rust's derived
/// `Debug` writes it.
pub uninterp spec fn block_debug(b: SBlock) -> Seq<char>;

/// Formats a block with `format!("{:?}", ..)`, whose output the derived
/// `Debug` of these types decides.  What it writes is named by `block_debug`
/// and not restated here.
#[verifier::external_body]
fn debug_block(b: &Block) -> (r: String)
    ensures
        r@ == block_debug(b@),
{
    format!("{:?}", b)
}

/// How a block is shown in messages: the recorded rendering of a block that
/// is kept as `Other`, the `Debug` rendering of any other block.
pub open spec fn block_rendering(b: SBlock) -> Seq<char> {
    match b {
        SBlock::Other(_, d) => d,
        _ => block_debug(b),
    }
}

/// How a block is shown in messages (see [`block_rendering`]).
pub fn render_block(b: &Block) -> (r: String)
    ensures
        r@ == block_rendering(b@),
{
    match b {
        Block::Other(_, d) => d.clone(),
        _ => debug_block(b),
    }
}

} // verus!
