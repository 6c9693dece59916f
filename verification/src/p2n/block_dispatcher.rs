//! A table from Pandoc block kind names to converters, used to convert
//! single Pandoc blocks into single Notion blocks.
use crate::notion_api::{lemma_notion_blocks_view, notion_blocks_view, opt_view, NotionBlock, SNotionBlock};
use crate::p2n::pandoc_heading::{spec_heading_from_header, PandocHeadingConverter};
use crate::p2n::pandoc_paragraph::{spec_paragraph_from_inlines, PandocParagraphConverter};
use crate::p2n::pandoc_text::{unsupported_with, ConversionError};
use crate::pandoc::{blocks_view, Block, OtherBlock, SBlock, SOtherBlock};
use crate::strings::str_eq;
use vstd::prelude::*;

verus! {

broadcast use {vstd::std_specs::vec::group_vec_axioms, crate::pandoc::group_pandoc_view, lemma_notion_blocks_view};

/// A converter that the dispatcher can hold.
#[derive(Debug, Clone, Copy, PartialEq, Eq, Structural)]
pub enum PandocBlockConverter {
    /// Converts headers, with the heading converter.
    Heading,
    /// Converts paragraphs, with the paragraph converter.
    Paragraph,
}

/// What a converter gives for a block under a parent: `None` when it does
/// not apply, or the conversion error.
pub open spec fn spec_apply(c: PandocBlockConverter, b: SBlock, parent: Option<Seq<char>>) -> Result<Option<SNotionBlock>, Seq<char>> {
    match c {
        PandocBlockConverter::Heading => match b {
            SBlock::Header(level, a, inl) => match spec_heading_from_header(
                level,
                a.classes,
                a.attributes,
                inl,
                parent,
            ) {
                Ok(nb) => Ok(Some(nb)),
                Err(d) => Err(d),
            },
            _ => Ok(None),
        },
        PandocBlockConverter::Paragraph => match b {
            SBlock::Para(inl) => match spec_paragraph_from_inlines(inl) {
                Ok(nb) => Ok(Some(nb)),
                Err(d) => Err(d),
            },
            _ => Ok(None),
        },
    }
}

/// The name under which the dispatcher looks up a block's converter: the
/// Pandoc constructor's name.
pub open spec fn pandoc_kind_name(b: SBlock) -> Seq<char> {
    match b {
        SBlock::Header(..) => "Header"@,
        SBlock::Para(_) => "Para"@,
        SBlock::Plain(_) => "Plain"@,
        SBlock::CodeBlock(..) => "CodeBlock"@,
        SBlock::BlockQuote(_) => "BlockQuote"@,
        SBlock::OrderedList(..) => "OrderedList"@,
        SBlock::BulletList(_) => "BulletList"@,
        SBlock::HorizontalRule => "HorizontalRule"@,
        SBlock::Div(..) => "Div"@,
        SBlock::Null => "Null"@,
        SBlock::Other(o, _) => other_kind_name(o),
    }
}

/// The Pandoc constructor's name of an unhandled block.
pub open spec fn other_kind_name(o: SOtherBlock) -> Seq<char> {
    match o {
        SOtherBlock::LineBlock(_) => "LineBlock"@,
        SOtherBlock::RawBlock(..) => "RawBlock"@,
        SOtherBlock::DefinitionList(_) => "DefinitionList"@,
        SOtherBlock::Table => "Table"@,
        SOtherBlock::Figure(_) => "Figure"@,
    }
}

/// The table that a sequence of registrations builds: each later
/// registration of a name replaces the earlier one.
pub open spec fn registrations_map(s: Seq<(&'static str, PandocBlockConverter)>) -> Map<Seq<char>, PandocBlockConverter>
    decreases s.len(),
{
    if s.len() == 0 {
        Map::empty()
    } else {
        registrations_map(s.drop_last()).insert(s.last().0@, s.last().1)
    }
}

/// The converters registered by default: the heading converter under
/// `Header`, the paragraph converter under `Para`.
pub open spec fn default_converters() -> Map<Seq<char>, PandocBlockConverter> {
    Map::empty().insert("Header"@, PandocBlockConverter::Heading).insert(
        "Para"@,
        PandocBlockConverter::Paragraph,
    )
}

/// What a table of converters makes from one block: the result of the
/// converter registered under the block's name, `None` when there is none.
pub open spec fn spec_dispatch(m: Map<Seq<char>, PandocBlockConverter>, b: SBlock, parent: Option<Seq<char>>) -> Result<Option<SNotionBlock>, Seq<char>> {
    let name = pandoc_kind_name(b);
    if m.contains_key(name) {
        spec_apply(m[name], b, parent)
    } else {
        Ok(None)
    }
}

/// The blocks that a table of converters makes from each of `bs`, in order,
/// skipping those it makes nothing of; or the first conversion error.
pub open spec fn spec_dispatch_all(m: Map<Seq<char>, PandocBlockConverter>, bs: Seq<SBlock>, parent: Option<Seq<char>>) -> Result<Seq<SNotionBlock>, Seq<char>>
    decreases bs.len(),
{
    if bs.len() == 0 {
        Ok(Seq::empty())
    } else {
        match spec_dispatch_all(m, bs.drop_last(), parent) {
            Ok(done) => match spec_dispatch(m, bs.last(), parent) {
                Ok(Some(nb)) => Ok(done.push(nb)),
                Ok(None) => Ok(done),
                Err(d) => Err(d),
            },
            Err(d) => Err(d),
        }
    }
}

/// Converts single Pandoc blocks by the converter registered for their kind.
#[derive(Clone)]
pub struct PandocToNotionDispatcher {
    converters: Vec<(&'static str, PandocBlockConverter)>,
    heading_converter: PandocHeadingConverter,
    paragraph_converter: PandocParagraphConverter,
}

impl View for PandocToNotionDispatcher {
    type V = Map<Seq<char>, PandocBlockConverter>;

    closed spec fn view(&self) -> Map<Seq<char>, PandocBlockConverter> {
        registrations_map(self.converters@)
    }
}

fn clone_parent(p: &Option<String>) -> (r: Option<String>)
    ensures
        opt_view(r) == opt_view(*p),
{
    match p {
        Some(s) => Some(s.clone()),
        None => None,
    }
}

impl PandocToNotionDispatcher {
    /// A dispatcher holding the default converters.
    pub fn new() -> (r: Self)
        ensures
            r@ == default_converters(),
    {
        let mut dispatcher = PandocToNotionDispatcher {
            converters: Vec::new(),
            heading_converter: PandocHeadingConverter::new(),
            paragraph_converter: PandocParagraphConverter::new(),
        };
        dispatcher.register_default_converters();
        dispatcher
    }

    fn register_default_converters(&mut self)
        ensures
            final(self)@ == old(self)@.insert("Header"@, PandocBlockConverter::Heading).insert(
                "Para"@,
                PandocBlockConverter::Paragraph,
            ),
    {
        self.register_converter("Header", PandocBlockConverter::Heading);
        self.register_converter("Para", PandocBlockConverter::Paragraph);
    }

    /// Registers `converter` under the name `block_type`, replacing any
    /// converter registered under that name.
    pub fn register_converter(&mut self, block_type: &'static str, converter: PandocBlockConverter)
        ensures
            final(self)@ == old(self)@.insert(block_type@, converter),
    {
        let ghost before = self.converters@;
        self.converters.push((block_type, converter));
        assert(self.converters@.drop_last() =~= before);
    }

    fn lookup(&self, name: &str) -> (r: Option<PandocBlockConverter>)
        ensures
            self@.contains_key(name@) ==> r == Some(self@[name@]),
            !self@.contains_key(name@) ==> r is None,
    {
        let ghost all = self.converters@;
        let mut i = self.converters.len();
        while i > 0
            invariant
                i <= all.len(),
                all == self.converters@,
                forall|j: int| i <= j < all.len() ==> all[j].0@ != name@,
            decreases i,
        {
            let entry = &self.converters[i - 1];
            if str_eq(entry.0, name) {
                proof {
                    lemma_lookup_suffix(all, i as int, name@);
                    assert(all.take(i as int).drop_last() =~= all.take(i - 1));
                }
                return Some(entry.1);
            }
            i = i - 1;
        }
        proof {
            lemma_lookup_suffix(all, 0, name@);
        }
        None
    }

    /// What the converter registered for the block's kind makes of it, under
    /// the given parent; `None` when no converter is registered.
    pub fn convert(&self, block: &Block, parent_id: Option<String>) -> (r: Result<Option<NotionBlock>, ConversionError>)
        ensures
            match spec_dispatch(self@, block@, opt_view(parent_id)) {
                Ok(Some(nb)) => r is Ok && r->Ok_0 is Some && r->Ok_0->0@ == nb,
                Ok(None) => r is Ok && r->Ok_0 is None,
                Err(d) => r is Err && unsupported_with(r->Err_0, d),
            },
    {
        let block_type = self.get_block_type(block);
        match self.lookup(block_type) {
            Some(PandocBlockConverter::Heading) => self.heading_converter.convert(block, parent_id),
            Some(PandocBlockConverter::Paragraph) => self.paragraph_converter.convert(block, parent_id),
            None => Ok(None),
        }
    }

    fn get_block_type<'a>(&self, block: &'a Block) -> (r: &'a str)
        ensures
            r@ == pandoc_kind_name(block@),
    {
        match block {
            Block::Header(..) => "Header",
            Block::Para(_) => "Para",
            Block::Plain(_) => "Plain",
            Block::CodeBlock(..) => "CodeBlock",
            Block::BlockQuote(_) => "BlockQuote",
            Block::OrderedList(..) => "OrderedList",
            Block::BulletList(_) => "BulletList",
            Block::HorizontalRule => "HorizontalRule",
            Block::Div(..) => "Div",
            Block::Null => "Null",
            Block::Other(OtherBlock::LineBlock(_), _) => "LineBlock",
            Block::Other(OtherBlock::RawBlock(..), _) => "RawBlock",
            Block::Other(OtherBlock::DefinitionList(_), _) => "DefinitionList",
            Block::Other(OtherBlock::Table, _) => "Table",
            Block::Other(OtherBlock::Figure(_), _) => "Figure",
        }
    }

    /// The Notion blocks made from each of `blocks`, in order, skipping those
    /// no converter makes anything of; or the first conversion error.
    pub fn convert_blocks(&self, blocks: &[Block], parent_id: Option<String>) -> (r: Result<Vec<NotionBlock>, ConversionError>)
        ensures
            match spec_dispatch_all(self@, blocks_view(blocks@), opt_view(parent_id)) {
                Ok(bs) => r is Ok && notion_blocks_view(r->Ok_0@) == bs,
                Err(d) => r is Err && unsupported_with(r->Err_0, d),
            },
    {
        let ghost bv = blocks_view(blocks@);
        let ghost pv = opt_view(parent_id);
        let mut result: Vec<NotionBlock> = Vec::new();
        let n = blocks.len();
        assert(notion_blocks_view(result@) =~= Seq::<SNotionBlock>::empty());
        for i in 0..n
            invariant
                n == blocks@.len(),
                bv == blocks_view(blocks@),
                pv == opt_view(parent_id),
                spec_dispatch_all(self@, bv.take(i as int), pv) == Ok::<Seq<SNotionBlock>, Seq<char>>(
                    notion_blocks_view(result@),
                ),
        {
            proof {
                crate::pandoc::lemma_blocks_view(blocks@);
                assert(bv.take(i + 1).drop_last() =~= bv.take(i as int));
                assert(bv.take(i + 1).last() == blocks@[i as int]@);
            }
            match self.convert(&blocks[i], clone_parent(&parent_id)) {
                Ok(Some(nb)) => {
                    let ghost before = result@;
                    result.push(nb);
                    assert(result@.drop_last() =~= before);
                },
                Ok(None) => {},
                Err(e) => {
                    proof {
                        lemma_dispatch_error_propagates(self@, bv, pv, i + 1);
                    }
                    return Err(e);
                },
            }
        }
        assert(bv.take(n as int) =~= bv);
        Ok(result)
    }
}

/// Registrations after the `i`-th that do not name `k` leave the entry of
/// `k` as the first `i` registrations made it.
proof fn lemma_lookup_suffix(s: Seq<(&'static str, PandocBlockConverter)>, i: int, k: Seq<char>)
    requires
        0 <= i <= s.len(),
        forall|j: int| i <= j < s.len() ==> s[j].0@ != k,
    ensures
        registrations_map(s).contains_key(k) == registrations_map(s.take(i)).contains_key(k),
        registrations_map(s).contains_key(k) ==> registrations_map(s)[k] == registrations_map(
            s.take(i),
        )[k],
    decreases s.len(),
{
    if i == s.len() {
        assert(s.take(i) =~= s);
    } else {
        let d = s.drop_last();
        assert(d.take(i) =~= s.take(i));
        lemma_lookup_suffix(d, i, k);
    }
}

/// Once a block fails to convert, the conversion of the whole sequence fails
/// the same way.
proof fn lemma_dispatch_error_propagates(
    m: Map<Seq<char>, PandocBlockConverter>,
    bs: Seq<SBlock>,
    parent: Option<Seq<char>>,
    k: int,
)
    requires
        0 <= k <= bs.len(),
        spec_dispatch_all(m, bs.take(k), parent) is Err,
    ensures
        spec_dispatch_all(m, bs, parent) == spec_dispatch_all(m, bs.take(k), parent),
    decreases bs.len(),
{
    if k == bs.len() {
        assert(bs.take(k) =~= bs);
    } else {
        let d = bs.drop_last();
        assert(d.take(k) =~= bs.take(k));
        lemma_dispatch_error_propagates(m, d, parent, k);
    }
}

/// What a dispatcher with the default converters makes of one block.
pub fn convert_block(block: &Block, parent_id: Option<String>) -> (r: Result<Option<NotionBlock>, ConversionError>)
    ensures
        match spec_dispatch(default_converters(), block@, opt_view(parent_id)) {
            Ok(Some(nb)) => r is Ok && r->Ok_0 is Some && r->Ok_0->0@ == nb,
            Ok(None) => r is Ok && r->Ok_0 is None,
            Err(d) => r is Err && unsupported_with(r->Err_0, d),
        },
{
    PandocToNotionDispatcher::new().convert(block, parent_id)
}

/// What a dispatcher with the default converters makes of each of
/// `blocks`, in order.
pub fn convert_blocks(blocks: &[Block], parent_id: Option<String>) -> (r: Result<Vec<NotionBlock>, ConversionError>)
    ensures
        match spec_dispatch_all(default_converters(), blocks_view(blocks@), opt_view(parent_id)) {
            Ok(bs) => r is Ok && notion_blocks_view(r->Ok_0@) == bs,
            Err(d) => r is Err && unsupported_with(r->Err_0, d),
        },
{
    PandocToNotionDispatcher::new().convert_blocks(blocks, parent_id)
}

} // verus!
