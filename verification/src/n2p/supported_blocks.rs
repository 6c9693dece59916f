//! The Notion block kinds that the converter knows, and which of them it
//! converts.
use crate::notion_api::{BlockType, NotionBlock, SBlockType};
use vstd::prelude::*;

verus! {

/// A block kind known to the Notion to Pandoc converter.
#[derive(Debug, Clone, Copy, PartialEq, Eq, Structural)]
pub enum SupportedBlockType {
    /// Paragraph block
    Paragraph,
    /// Level 1 heading
    Heading1,
    /// Level 2 heading
    Heading2,
    /// Level 3 heading
    Heading3,
    /// Quote block
    Quote,
    /// Code block
    Code,
    /// Bulleted list item
    BulletedListItem,
    /// Numbered list item
    NumberedListItem,
    /// To-do list item
    ToDo,
    /// Toggle block
    Toggle,
    /// Divider (horizontal rule)
    Divider,
    /// Callout block
    Callout,
    /// Image block
    Image,
    /// Table block
    Table,
    /// Table row block
    TableRow,
    /// File block
    File,
    /// Video block
    Video,
}

/// Every known block kind, in declaration order.
pub open spec fn all_types() -> Seq<SupportedBlockType> {
    seq![
        SupportedBlockType::Paragraph,
        SupportedBlockType::Heading1,
        SupportedBlockType::Heading2,
        SupportedBlockType::Heading3,
        SupportedBlockType::Quote,
        SupportedBlockType::Code,
        SupportedBlockType::BulletedListItem,
        SupportedBlockType::NumberedListItem,
        SupportedBlockType::ToDo,
        SupportedBlockType::Toggle,
        SupportedBlockType::Divider,
        SupportedBlockType::Callout,
        SupportedBlockType::Image,
        SupportedBlockType::Table,
        SupportedBlockType::TableRow,
        SupportedBlockType::File,
        SupportedBlockType::Video,
    ]
}

/// The block kinds that are converted, in the order the converter lists
/// them.
pub open spec fn implemented_types() -> Seq<SupportedBlockType> {
    seq![
        SupportedBlockType::Paragraph,
        SupportedBlockType::Heading1,
        SupportedBlockType::Heading2,
        SupportedBlockType::Heading3,
        SupportedBlockType::Quote,
        SupportedBlockType::Code,
        SupportedBlockType::BulletedListItem,
        SupportedBlockType::NumberedListItem,
        SupportedBlockType::ToDo,
        SupportedBlockType::Divider,
    ]
}

/// The known kind of a block, if it has one.
pub open spec fn spec_supported_type(t: SBlockType) -> Option<SupportedBlockType> {
    match t {
        SBlockType::Paragraph(_) => Some(SupportedBlockType::Paragraph),
        SBlockType::Heading1(_) => Some(SupportedBlockType::Heading1),
        SBlockType::Heading2(_) => Some(SupportedBlockType::Heading2),
        SBlockType::Heading3(_) => Some(SupportedBlockType::Heading3),
        SBlockType::Quote(_) => Some(SupportedBlockType::Quote),
        SBlockType::Code(_) => Some(SupportedBlockType::Code),
        SBlockType::BulletedListItem(_) => Some(SupportedBlockType::BulletedListItem),
        SBlockType::NumberedListItem(_) => Some(SupportedBlockType::NumberedListItem),
        SBlockType::ToDo(_) => Some(SupportedBlockType::ToDo),
        SBlockType::Toggle(_) => Some(SupportedBlockType::Toggle),
        SBlockType::Divider => Some(SupportedBlockType::Divider),
        SBlockType::Callout => Some(SupportedBlockType::Callout),
        SBlockType::Image => Some(SupportedBlockType::Image),
        SBlockType::Table => Some(SupportedBlockType::Table),
        SBlockType::TableRow => Some(SupportedBlockType::TableRow),
        SBlockType::File => Some(SupportedBlockType::File),
        SBlockType::Video => Some(SupportedBlockType::Video),
        _ => None,
    }
}

impl SupportedBlockType {
    /// Every known block kind.
    pub fn all() -> (r: Vec<SupportedBlockType>)
        ensures
            r@ == all_types(),
    {
        let r = vec![
            SupportedBlockType::Paragraph,
            SupportedBlockType::Heading1,
            SupportedBlockType::Heading2,
            SupportedBlockType::Heading3,
            SupportedBlockType::Quote,
            SupportedBlockType::Code,
            SupportedBlockType::BulletedListItem,
            SupportedBlockType::NumberedListItem,
            SupportedBlockType::ToDo,
            SupportedBlockType::Toggle,
            SupportedBlockType::Divider,
            SupportedBlockType::Callout,
            SupportedBlockType::Image,
            SupportedBlockType::Table,
            SupportedBlockType::TableRow,
            SupportedBlockType::File,
            SupportedBlockType::Video,
        ];
        assert(r@ =~= all_types());
        r
    }

    /// The block kinds that are converted.
    pub fn implemented() -> (r: Vec<SupportedBlockType>)
        ensures
            r@ == implemented_types(),
    {
        let r = vec![
            SupportedBlockType::Paragraph,
            SupportedBlockType::Heading1,
            SupportedBlockType::Heading2,
            SupportedBlockType::Heading3,
            SupportedBlockType::Quote,
            SupportedBlockType::Code,
            SupportedBlockType::BulletedListItem,
            SupportedBlockType::NumberedListItem,
            SupportedBlockType::ToDo,
            SupportedBlockType::Divider,
        ];
        assert(r@ =~= implemented_types());
        r
    }

    /// Whether blocks of this kind are converted.
    pub fn is_implemented(&self) -> (r: bool)
        ensures
            r == implemented_types().contains(*self),
    {
        let kinds = Self::implemented();
        let n = kinds.len();
        for i in 0..n
            invariant
                n == kinds@.len(),
                kinds@ == implemented_types(),
                forall|j: int| 0 <= j < i ==> kinds@[j] != *self,
        {
            if kinds[i] == *self {
                return true;
            }
        }
        false
    }
}

/// Every converted block kind is a known one.
pub proof fn law_implemented_are_known(t: SupportedBlockType)
    ensures
        implemented_types().contains(t) ==> all_types().contains(t),
{
    if implemented_types().contains(t) {
        let i = implemented_types().index_of(t);
        let j: int = if i <= 8 { i } else { 10 };
        assert(all_types()[j] == t);
    }
}

/// Whether a block is of a known kind and whether it is converted.
pub trait SupportedBlock {
    /// The kind of the block, by the view of the block, if it is known.
    spec fn block_kind(&self) -> SBlockType;

    /// The known kind of the block, `None` if it is not known.
    fn supported_type(&self) -> (r: Option<SupportedBlockType>)
        ensures
            r == spec_supported_type(self.block_kind()),
    ;

    /// Whether the block is of a known kind.
    fn is_supported(&self) -> (r: bool)
        ensures
            r == (spec_supported_type(self.block_kind()) is Some),
    ;

    /// Whether the block is of a kind that is converted.
    fn is_implemented(&self) -> (r: bool)
        ensures
            r == (match spec_supported_type(self.block_kind()) {
                Some(t) => implemented_types().contains(t),
                None => false,
            }),
    ;
}

impl SupportedBlock for NotionBlock {
    open spec fn block_kind(&self) -> SBlockType {
        self@.block_type
    }

    fn supported_type(&self) -> (r: Option<SupportedBlockType>) {
        match &self.block_type {
            BlockType::Paragraph { .. } => Some(SupportedBlockType::Paragraph),
            BlockType::Heading1 { .. } => Some(SupportedBlockType::Heading1),
            BlockType::Heading2 { .. } => Some(SupportedBlockType::Heading2),
            BlockType::Heading3 { .. } => Some(SupportedBlockType::Heading3),
            BlockType::Quote { .. } => Some(SupportedBlockType::Quote),
            BlockType::Code { .. } => Some(SupportedBlockType::Code),
            BlockType::BulletedListItem { .. } => Some(SupportedBlockType::BulletedListItem),
            BlockType::NumberedListItem { .. } => Some(SupportedBlockType::NumberedListItem),
            BlockType::ToDo { .. } => Some(SupportedBlockType::ToDo),
            BlockType::Toggle { .. } => Some(SupportedBlockType::Toggle),
            BlockType::Divider => Some(SupportedBlockType::Divider),
            BlockType::Callout => Some(SupportedBlockType::Callout),
            BlockType::Image => Some(SupportedBlockType::Image),
            BlockType::Table => Some(SupportedBlockType::Table),
            BlockType::TableRow => Some(SupportedBlockType::TableRow),
            BlockType::File => Some(SupportedBlockType::File),
            BlockType::Video => Some(SupportedBlockType::Video),
            _ => None,
        }
    }

    fn is_supported(&self) -> (r: bool) {
        self.supported_type().is_some()
    }

    fn is_implemented(&self) -> (r: bool) {
        match self.supported_type() {
            Some(block_type) => block_type.is_implemented(),
            None => false,
        }
    }
}

} // verus!
