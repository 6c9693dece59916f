//! Toggleable blocks and the children kept for them.
pub mod toggleable_block;

pub use toggleable_block::ToggleableBlock;

use crate::notion_api::{notion_blocks_view, NotionBlock, SNotionBlock};
use crate::strings::string_of;
use vstd::hash_map::StringHashMap;
use vstd::prelude::*;

verus! {

/// The table after `add_children`: the children recorded under the block's
/// identifier when the block is toggleable, has children and has an
/// identifier; unchanged otherwise.
pub open spec fn spec_add_children<B: ToggleableBlock>(
    m: Map<Seq<char>, Seq<SNotionBlock>>,
    block: B,
    children: Seq<SNotionBlock>,
) -> Map<Seq<char>, Seq<SNotionBlock>> {
    if block.toggleable() && block.children_flag() && block.id_of() is Some {
        m.insert(block.id_of()->0, children)
    } else {
        m
    }
}

/// The children recorded for a block: those under its identifier, when it is
/// toggleable and has an identifier and some are recorded.
pub open spec fn spec_get_children<B: ToggleableBlock>(
    m: Map<Seq<char>, Seq<SNotionBlock>>,
    block: B,
) -> Option<Seq<SNotionBlock>> {
    if block.toggleable() && block.id_of() is Some && m.contains_key(block.id_of()->0) {
        Some(m[block.id_of()->0])
    } else {
        None
    }
}

/// Children kept for toggleable blocks, by block identifier.
pub struct ToggleableBlockChildren {
    children_map: StringHashMap<Vec<NotionBlock>>,
}

impl View for ToggleableBlockChildren {
    type V = Map<Seq<char>, Seq<SNotionBlock>>;

    closed spec fn view(&self) -> Map<Seq<char>, Seq<SNotionBlock>> {
        self.children_map@.map_values(|v: Vec<NotionBlock>| notion_blocks_view(v@))
    }
}

impl ToggleableBlockChildren {
    /// A table with no children recorded.
    pub fn new() -> (r: Self)
        ensures
            r@ == Map::<Seq<char>, Seq<SNotionBlock>>::empty(),
    {
        ToggleableBlockChildren { children_map: StringHashMap::new() }
    }

    /// Records `children` for `block` when it is toggleable, has children and
    /// has an identifier, replacing what was recorded for it; says whether it
    /// did.
    pub fn add_children<B: ToggleableBlock>(&mut self, block: &B, children: Vec<NotionBlock>) -> (r: bool)
        ensures
            r == (block.toggleable() && block.children_flag() && block.id_of() is Some),
            final(self)@ == spec_add_children(old(self)@, *block, notion_blocks_view(children@)),
    {
        if block.is_toggleable() && block.has_children() {
            match block.block_id() {
                Some(id) => {
                    self.children_map.insert(string_of(id), children);
                    return true;
                },
                None => {},
            }
        }
        false
    }

    /// The children recorded for `block` (see [`spec_get_children`]).
    pub fn get_children<B: ToggleableBlock>(&self, block: &B) -> (r: Option<&Vec<NotionBlock>>)
        ensures
            match spec_get_children(self@, *block) {
                Some(c) => r is Some && notion_blocks_view(r->0@) == c,
                None => r is None,
            },
    {
        if block.is_toggleable() {
            match block.block_id() {
                Some(id) => {
                    return self.children_map.get(id);
                },
                None => {},
            }
        }
        None
    }

    /// Whether children are recorded for `block`.
    pub fn has_children_for<B: ToggleableBlock>(&self, block: &B) -> (r: bool)
        ensures
            r == (spec_get_children(self@, *block) is Some),
    {
        self.get_children(block).is_some()
    }

    /// The table itself.
    pub fn map(&self) -> (r: &StringHashMap<Vec<NotionBlock>>)
        ensures
            r@.map_values(|v: Vec<NotionBlock>| notion_blocks_view(v@)) == self@,
    {
        &self.children_map
    }

    /// The table itself, taken out.
    pub fn into_map(self) -> (r: StringHashMap<Vec<NotionBlock>>)
        ensures
            r@.map_values(|v: Vec<NotionBlock>| notion_blocks_view(v@)) == self@,
    {
        self.children_map
    }

    /// A manager holding the given table.
    pub fn from_map(map: StringHashMap<Vec<NotionBlock>>) -> (r: Self)
        ensures
            r@ == map@.map_values(|v: Vec<NotionBlock>| notion_blocks_view(v@)),
    {
        ToggleableBlockChildren { children_map: map }
    }
}

/// Reading the children of a block right after recording children for it
/// gives those children when the recording took place, and what was there
/// before otherwise.
pub proof fn law_get_after_add<B: ToggleableBlock>(
    m: Map<Seq<char>, Seq<SNotionBlock>>,
    block: B,
    children: Seq<SNotionBlock>,
)
    ensures
        spec_get_children(spec_add_children(m, block, children), block) == if block.toggleable()
            && block.children_flag() && block.id_of() is Some {
            Some(children)
        } else {
            spec_get_children(m, block)
        },
{
}

/// Recording children for one block leaves what is read for a block with
/// another identifier unchanged.
pub proof fn law_add_keeps_others<B: ToggleableBlock, C: ToggleableBlock>(
    m: Map<Seq<char>, Seq<SNotionBlock>>,
    block: B,
    children: Seq<SNotionBlock>,
    other: C,
)
    requires
        other.id_of() != block.id_of(),
    ensures
        spec_get_children(spec_add_children(m, block, children), other) == spec_get_children(m, other),
{
}

} // verus!
