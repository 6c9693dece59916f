//! Blocks that can be toggled to show or hide their children.
use crate::notion_api::{BlockType, NotionBlock, SBlockType};
use vstd::prelude::*;

verus! {

/// A block that can be toggled to show or hide its children.
pub trait ToggleableBlock {
    /// Whether the block is toggleable.
    spec fn toggleable(&self) -> bool;

    /// The block's identifier, if it has one.
    spec fn id_of(&self) -> Option<Seq<char>>;

    /// Whether the block has children.
    spec fn children_flag(&self) -> bool;

    /// Whether the block is toggleable.
    fn is_toggleable(&self) -> (r: bool)
        ensures
            r == self.toggleable(),
    ;

    /// The block's identifier, if it has one.
    fn block_id(&self) -> (r: Option<&str>)
        ensures
            match r {
                Some(s) => self.id_of() == Some(s@),
                None => self.id_of() is None,
            },
    ;

    /// Whether the block has children.
    fn has_children(&self) -> (r: bool)
        ensures
            r == self.children_flag(),
    ;
}

/// Whether a Notion block of the given kind is toggleable: a heading marked
/// toggleable, or a toggle block.
pub open spec fn kind_is_toggleable(t: SBlockType) -> bool {
    match t {
        SBlockType::Heading1(h) => h.is_toggleable == Some(true),
        SBlockType::Heading2(h) => h.is_toggleable == Some(true),
        SBlockType::Heading3(h) => h.is_toggleable == Some(true),
        SBlockType::Toggle(_) => true,
        _ => false,
    }
}

impl ToggleableBlock for NotionBlock {
    open spec fn toggleable(&self) -> bool {
        kind_is_toggleable(self@.block_type)
    }

    open spec fn id_of(&self) -> Option<Seq<char>> {
        self@.id
    }

    open spec fn children_flag(&self) -> bool {
        self@.has_children == Some(true)
    }

    fn is_toggleable(&self) -> (r: bool) {
        match &self.block_type {
            BlockType::Heading1 { heading_1 } => heading_1.is_toggleable == Some(true),
            BlockType::Heading2 { heading_2 } => heading_2.is_toggleable == Some(true),
            BlockType::Heading3 { heading_3 } => heading_3.is_toggleable == Some(true),
            BlockType::Toggle { .. } => true,
            _ => false,
        }
    }

    fn block_id(&self) -> (r: Option<&str>) {
        match &self.id {
            Some(s) => Some(s.as_str()),
            None => None,
        }
    }

    fn has_children(&self) -> (r: bool) {
        match self.has_children {
            Some(b) => b,
            None => false,
        }
    }
}

} // verus!
