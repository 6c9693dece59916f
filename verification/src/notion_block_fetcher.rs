//! Fetching a block's descendants from the Notion API.
//!
//! The API returns one level of children per request.  What to request next,
//! and how the answers are put together into a tree, is decided here; the
//! requests themselves are made by the caller.  Depth-first fetching is
//! driven by [`DepthFirstFetch`], which asks [`children_request`] of each
//! block and completes each parent with [`finish_fetched_block`];
//! breadth-first fetching is driven by [`BreadthFirstFetch`].
use crate::block_copy::{copy_block, copy_blocks, copy_opt_string};
use crate::notion::toggleable::toggleable_block::kind_is_toggleable;
use crate::notion::toggleable::{spec_add_children, ToggleableBlock, ToggleableBlockChildren};
use crate::notion_api::{
    notion_blocks_view, BlockType, NotionBlock, SBlockType, SNotionBlock, STextValue, SToDoValue,
};
use std::collections::VecDeque;
use vstd::hash_map::StringHashMap;
use vstd::prelude::*;

verus! {

broadcast use crate::notion_api::lemma_notion_blocks_view;

/// How blocks are fetched.
#[derive(Debug, Clone, Copy)]
pub struct BlockFetcherConfig {
    /// How many levels of children are fetched below the top-level blocks.
    pub max_depth: usize,
    /// Pause before each request, in milliseconds.
    pub api_call_delay_ms: u64,
    /// Whether children are fetched level by level rather than depth-first.
    pub breadth_first: bool,
}

impl Default for BlockFetcherConfig {
    fn default() -> (r: Self)
        ensures
            r.max_depth == 10,
            r.api_call_delay_ms == 0,
            !r.breadth_first,
    {
        BlockFetcherConfig { max_depth: 10, api_call_delay_ms: 0, breadth_first: false }
    }
}

/// Whether a block of this kind carries its children in its content.
pub open spec fn holds_children(t: SBlockType) -> bool {
    match t {
        SBlockType::Paragraph(_) => true,
        SBlockType::BulletedListItem(_) => true,
        SBlockType::NumberedListItem(_) => true,
        SBlockType::ToDo(_) => true,
        SBlockType::Toggle(_) => true,
        SBlockType::Quote(_) => true,
        _ => false,
    }
}

/// The children that a block of this kind carries in its content.
pub open spec fn kind_children(t: SBlockType) -> Option<Seq<SNotionBlock>> {
    match t {
        SBlockType::Paragraph(v) => v.children,
        SBlockType::BulletedListItem(v) => v.children,
        SBlockType::NumberedListItem(v) => v.children,
        SBlockType::ToDo(v) => v.children,
        SBlockType::Toggle(v) => v.children,
        SBlockType::Quote(v) => v.children,
        _ => None,
    }
}

/// Text content with the given children.
pub open spec fn text_with_children(v: STextValue, c: Seq<SNotionBlock>) -> STextValue {
    STextValue { rich_text: v.rich_text, color: v.color, children: Some(c) }
}

/// The kind and content with the given children, for the kinds that hold
/// children.
pub open spec fn kind_with_children(t: SBlockType, c: Seq<SNotionBlock>) -> SBlockType {
    match t {
        SBlockType::Paragraph(v) => SBlockType::Paragraph(text_with_children(v, c)),
        SBlockType::BulletedListItem(v) => SBlockType::BulletedListItem(text_with_children(v, c)),
        SBlockType::NumberedListItem(v) => SBlockType::NumberedListItem(text_with_children(v, c)),
        SBlockType::ToDo(v) => SBlockType::ToDo(
            SToDoValue { rich_text: v.rich_text, checked: v.checked, color: v.color, children: Some(c) },
        ),
        SBlockType::Toggle(v) => SBlockType::Toggle(text_with_children(v, c)),
        SBlockType::Quote(v) => SBlockType::Quote(text_with_children(v, c)),
        _ => t,
    }
}

/// The block with the given children attached: unchanged when there are
/// none or when its kind cannot hold children.
pub open spec fn spec_attach(b: SNotionBlock, c: Seq<SNotionBlock>) -> SNotionBlock {
    if c.len() > 0 && holds_children(b.block_type) {
        SNotionBlock {
            object: b.object,
            id: b.id,
            parent: b.parent,
            archived: b.archived,
            has_children: b.has_children,
            block_type: kind_with_children(b.block_type, c),
        }
    } else {
        b
    }
}

/// Whether the API reports that the block has children.
pub fn block_has_children(block: &NotionBlock) -> (r: bool)
    ensures
        r == (block@.has_children == Some(true)),
{
    match block.has_children {
        Some(b) => b,
        None => false,
    }
}

/// The children a block carries in its content, if its kind holds any.
pub fn get_block_children(block: &NotionBlock) -> (r: Option<&Vec<NotionBlock>>)
    ensures
        match r {
            Some(v) => kind_children(block@.block_type) == Some(notion_blocks_view(v@)),
            None => kind_children(block@.block_type) is None,
        },
{
    match &block.block_type {
        BlockType::Paragraph { paragraph } => paragraph.children.as_ref(),
        BlockType::BulletedListItem { bulleted_list_item } => bulleted_list_item.children.as_ref(),
        BlockType::NumberedListItem { numbered_list_item } => numbered_list_item.children.as_ref(),
        BlockType::ToDo { to_do } => to_do.children.as_ref(),
        BlockType::Toggle { toggle } => toggle.children.as_ref(),
        BlockType::Quote { quote } => quote.children.as_ref(),
        _ => None,
    }
}

/// Puts `children` into the block's content (see [`spec_attach`]); says
/// whether it did.  A kind that cannot hold children is left as it is.
pub fn attach_children_to_block(block: &mut NotionBlock, children: Vec<NotionBlock>) -> (attached: bool)
    ensures
        attached == (children@.len() > 0 && holds_children(old(block)@.block_type)),
        final(block)@ == spec_attach(old(block)@, notion_blocks_view(children@)),
{
    if children.len() == 0 {
        return false;
    }
    match &mut block.block_type {
        BlockType::Paragraph { paragraph } => {
            paragraph.children = Some(children);
        },
        BlockType::BulletedListItem { bulleted_list_item } => {
            bulleted_list_item.children = Some(children);
        },
        BlockType::NumberedListItem { numbered_list_item } => {
            numbered_list_item.children = Some(children);
        },
        BlockType::ToDo { to_do } => {
            to_do.children = Some(children);
        },
        BlockType::Toggle { toggle } => {
            toggle.children = Some(children);
        },
        BlockType::Quote { quote } => {
            quote.children = Some(children);
        },
        _ => {
            return false;
        },
    }
    true
}

/// Reading a block's children right after attaching a non-empty list to a
/// block whose kind holds children gives that list.
pub proof fn law_get_after_attach(b: SNotionBlock, c: Seq<SNotionBlock>)
    requires
        c.len() > 0,
        holds_children(b.block_type),
    ensures
        kind_children(spec_attach(b, c).block_type) == Some(c),
        spec_attach(b, c).id == b.id,
        spec_attach(b, c).has_children == b.has_children,
{
}

/// Attaching no children, or attaching to a kind that holds none, leaves the
/// block as it was.
pub proof fn law_attach_nothing(b: SNotionBlock, c: Seq<SNotionBlock>)
    requires
        c.len() == 0 || !holds_children(b.block_type),
    ensures
        spec_attach(b, c) == b,
{
}

/// Whether depth-first fetching asks for the children of `b` at `depth`:
/// below the depth limit, when the block has children and an identifier.
pub open spec fn wants_children(b: SNotionBlock, depth: int, max_depth: int) -> bool {
    depth < max_depth && b.has_children == Some(true) && b.id is Some
}

/// The identifier whose children depth-first fetching requests for `block`
/// at `depth`, if any (see [`wants_children`]).
pub fn children_request<'a>(block: &'a NotionBlock, depth: usize, config: &BlockFetcherConfig) -> (r: Option<&'a str>)
    ensures
        match r {
            Some(id) => wants_children(block@, depth as int, config.max_depth as int) && block@.id
                == Some(id@),
            None => !wants_children(block@, depth as int, config.max_depth as int),
        },
{
    if depth >= config.max_depth || !block_has_children(block) {
        return None;
    }
    match &block.id {
        Some(id) => Some(id.as_str()),
        None => None,
    }
}

/// Puts the fetched (and themselves completed) `children` of a block in
/// place: attached to the block where its kind holds children, and recorded
/// in `toggleable_children` when the block is toggleable.
pub fn finish_fetched_block(
    block: &mut NotionBlock,
    children: Vec<NotionBlock>,
    toggleable_children: &mut ToggleableBlockChildren,
)
    ensures
        final(block)@ == spec_attach(old(block)@, notion_blocks_view(children@)),
        final(toggleable_children)@ == spec_add_children(
            old(toggleable_children)@,
            *old(block),
            notion_blocks_view(children@),
        ),
{
    let copy = copy_blocks(&children);
    if block.is_toggleable() {
        toggleable_children.add_children(&*block, children);
    }
    attach_children_to_block(block, copy);
}

/// What a breadth-first fetch has gathered: the blocks by identifier and in
/// the order first seen, the children identifiers fetched for each parent
/// and in the order the parents were answered, the requests still to make
/// (identifier and depth), the request in flight, and the depth limit.
pub struct SFetch {
    pub blocks: Map<Seq<char>, SNotionBlock>,
    pub order: Seq<Seq<char>>,
    pub parents: Map<Seq<char>, Seq<Seq<char>>>,
    pub parent_order: Seq<Seq<char>>,
    pub queue: Seq<(Seq<char>, nat)>,
    pub pending: Option<(Seq<char>, nat)>,
    pub max_depth: nat,
}

/// Nothing gathered yet.
pub open spec fn empty_fetch(max_depth: nat) -> SFetch {
    SFetch {
        blocks: Map::empty(),
        order: Seq::empty(),
        parents: Map::empty(),
        parent_order: Seq::empty(),
        queue: Seq::empty(),
        pending: None,
        max_depth,
    }
}

/// One fetched block taken in at `depth`: kept under its identifier (a later
/// block with the same identifier replaces it), and queued for its children
/// when it has some.  A block without an identifier is dropped.
pub open spec fn spec_record(s: SFetch, b: SNotionBlock, depth: nat) -> SFetch {
    match b.id {
        None => s,
        Some(id) => SFetch {
            blocks: s.blocks.insert(id, b),
            order: if s.blocks.contains_key(id) {
                s.order
            } else {
                s.order.push(id)
            },
            parents: s.parents,
            parent_order: s.parent_order,
            queue: if b.has_children == Some(true) {
                s.queue.push((id, depth))
            } else {
                s.queue
            },
            pending: s.pending,
            max_depth: s.max_depth,
        },
    }
}

/// Blocks taken in one after the other at `depth`.
pub open spec fn spec_record_all(s: SFetch, bs: Seq<SNotionBlock>, depth: nat) -> SFetch
    decreases bs.len(),
{
    if bs.len() == 0 {
        s
    } else {
        spec_record(spec_record_all(s, bs.drop_last(), depth), bs.last(), depth)
    }
}

/// The identifiers of the blocks that have one, in order.
pub open spec fn ids_of(bs: Seq<SNotionBlock>) -> Seq<Seq<char>>
    decreases bs.len(),
{
    if bs.len() == 0 {
        Seq::empty()
    } else {
        match bs.last().id {
            Some(id) => ids_of(bs.drop_last()).push(id),
            None => ids_of(bs.drop_last()),
        }
    }
}

/// The position of the first queued request below the depth limit, from
/// position `i` on; the queue's length when there is none.
pub open spec fn first_open_from(q: Seq<(Seq<char>, nat)>, max_depth: nat, i: int) -> int
    decreases q.len() - i,
{
    if i >= q.len() {
        q.len() as int
    } else if q[i].1 < max_depth {
        i
    } else {
        first_open_from(q, max_depth, i + 1)
    }
}

/// The state after the next request is taken from the queue; requests at or
/// beyond the depth limit are dropped on the way.
pub open spec fn spec_take_request(s: SFetch) -> SFetch {
    let i = first_open_from(s.queue, s.max_depth, 0);
    SFetch {
        queue: if i < s.queue.len() {
            s.queue.subrange(i + 1, s.queue.len() as int)
        } else {
            Seq::empty()
        },
        pending: if i < s.queue.len() {
            Some(s.queue[i])
        } else {
            None
        },
        ..s
    }
}

/// The state after the children of the request in flight arrive: each is
/// taken in one level deeper, and their identifiers are recorded for the
/// parent.
pub open spec fn spec_receive(s: SFetch, children: Seq<SNotionBlock>) -> SFetch {
    let (parent, depth) = s.pending->0;
    let t = spec_record_all(s, children, depth + 1);
    SFetch {
        parents: t.parents.insert(parent, ids_of(children)),
        parent_order: if t.parents.contains_key(parent) {
            t.parent_order
        } else {
            t.parent_order.push(parent)
        },
        pending: None,
        ..t
    }
}

/// Whether some parent lists `k` among its children.
pub open spec fn is_listed_child(s: SFetch, k: Seq<char>) -> bool {
    exists|p: Seq<char>| #[trigger] s.parents.contains_key(p) && s.parents[p].contains(k)
}

/// How many levels the fetched tree is assembled to: the depth limit, below
/// which alone children are fetched.
pub open spec fn assembly_depth(s: SFetch) -> nat {
    s.max_depth
}

/// The gathered block `k` with, to `fuel` further levels, the blocks fetched
/// for it attached as its children, each with its own fetched children
/// attached in the same way.
pub open spec fn assembled(s: SFetch, k: Seq<char>, fuel: nat) -> SNotionBlock
    decreases fuel, 0nat, 0nat,
{
    if fuel == 0 {
        s.blocks[k]
    } else {
        spec_attach(s.blocks[k], assembled_children(s, k, (fuel - 1) as nat))
    }
}

/// The children fetched for the block `k`, in the order fetched, each
/// assembled to `fuel` further levels (see [`assembled`]).
pub open spec fn assembled_children(s: SFetch, k: Seq<char>, fuel: nat) -> Seq<SNotionBlock>
    decreases fuel, 2nat, 0nat,
{
    if s.parents.contains_key(k) {
        subtrees_for(s, s.parents[k], fuel)
    } else {
        Seq::empty()
    }
}

/// The gathered blocks under the given identifiers, in order, each
/// assembled to `fuel` further levels.
pub open spec fn subtrees_for(s: SFetch, ids: Seq<Seq<char>>, fuel: nat) -> Seq<SNotionBlock>
    decreases fuel, 1nat, ids.len(),
{
    if ids.len() == 0 {
        Seq::empty()
    } else if s.blocks.contains_key(ids.last()) {
        subtrees_for(s, ids.drop_last(), fuel).push(assembled(s, ids.last(), fuel))
    } else {
        subtrees_for(s, ids.drop_last(), fuel)
    }
}

/// The children of the block `k` in the fetched tree: the blocks fetched for
/// it, each with its whole fetched subtree attached.
pub open spec fn fetched_children(s: SFetch, k: Seq<char>) -> Seq<SNotionBlock> {
    if assembly_depth(s) > 0 {
        assembled_children(s, k, (assembly_depth(s) - 1) as nat)
    } else {
        Seq::empty()
    }
}

/// The top-level blocks among `ks`: those that no parent lists, each with
/// its whole fetched subtree attached.
pub open spec fn assemble_from(s: SFetch, ks: Seq<Seq<char>>) -> Seq<SNotionBlock>
    decreases ks.len(),
{
    if ks.len() == 0 {
        Seq::empty()
    } else {
        let rest = assemble_from(s, ks.drop_last());
        let k = ks.last();
        if is_listed_child(s, k) || !s.blocks.contains_key(k) {
            rest
        } else {
            rest.push(assembled(s, k, assembly_depth(s)))
        }
    }
}

/// The children table after recording the children of a block, as
/// [`ToggleableBlockChildren::add_children`] does.
pub open spec fn note_toggle(
    m: Map<Seq<char>, Seq<SNotionBlock>>,
    b: SNotionBlock,
    c: Seq<SNotionBlock>,
) -> Map<Seq<char>, Seq<SNotionBlock>> {
    if kind_is_toggleable(b.block_type) && b.has_children == Some(true) && b.id is Some {
        m.insert(b.id->0, c)
    } else {
        m
    }
}

/// The children table after recording, for each toggleable parent among
/// `ps`, its fetched children.
pub open spec fn note_toggles(
    m: Map<Seq<char>, Seq<SNotionBlock>>,
    s: SFetch,
    ps: Seq<Seq<char>>,
) -> Map<Seq<char>, Seq<SNotionBlock>>
    decreases ps.len(),
{
    if ps.len() == 0 {
        m
    } else {
        let m2 = note_toggles(m, s, ps.drop_last());
        let p = ps.last();
        if s.blocks.contains_key(p) && s.parents.contains_key(p) && kind_is_toggleable(
            s.blocks[p].block_type,
        ) {
            note_toggle(m2, s.blocks[p], fetched_children(s, p))
        } else {
            m2
        }
    }
}

/// A breadth-first fetch in progress: the caller asks
/// [`BreadthFirstFetch::next_request`] for a block whose children to fetch,
/// hands them to [`BreadthFirstFetch::receive`], and when no request is left
/// takes the tree from [`BreadthFirstFetch::finish`].
pub struct BreadthFirstFetch {
    blocks: StringHashMap<NotionBlock>,
    order: Vec<String>,
    parents: StringHashMap<Vec<String>>,
    parent_order: Vec<String>,
    queue: VecDeque<(String, usize)>,
    pending: Option<(String, usize)>,
    max_depth: usize,
}

/// The characters of each string.
pub open spec fn strings_view(v: Seq<String>) -> Seq<Seq<char>> {
    v.map_values(|s: String| s@)
}

/// The queued requests with their depths.
pub open spec fn queue_view(q: Seq<(String, usize)>) -> Seq<(Seq<char>, nat)> {
    q.map_values(|p: (String, usize)| (p.0@, p.1 as nat))
}

impl View for BreadthFirstFetch {
    type V = SFetch;

    closed spec fn view(&self) -> SFetch {
        SFetch {
            blocks: self.blocks@.map_values(|b: NotionBlock| b@),
            order: strings_view(self.order@),
            parents: self.parents@.map_values(|v: Vec<String>| strings_view(v@)),
            parent_order: strings_view(self.parent_order@),
            queue: queue_view(self.queue@),
            pending: match self.pending {
                Some(p) => Some((p.0@, p.1 as nat)),
                None => None,
            },
            max_depth: self.max_depth as nat,
        }
    }
}

impl BreadthFirstFetch {
    /// The bookkeeping is consistent: each identifier is listed once in
    /// `order` and `parent_order`, and these list exactly the identifiers
    /// kept in the two tables.
    pub closed spec fn wf(&self) -> bool {
        &&& strings_view(self.order@).no_duplicates()
        &&& forall|k: Seq<char>| #[trigger] self.blocks@.contains_key(k) <==> strings_view(self.order@).contains(k)
        &&& strings_view(self.parent_order@).no_duplicates()
        &&& forall|k: Seq<char>| #[trigger] self.parents@.contains_key(k) <==> strings_view(self.parent_order@).contains(k)
        &&& self.pending matches Some(p) ==> p.1 < self.max_depth
    }

    /// Takes in one fetched block at `depth` (see [`spec_record`]); the
    /// identifier it is kept under, if any, is appended to `ids`.
    fn record(&mut self, b: NotionBlock, depth: usize, ids: &mut Vec<String>)
        requires
            old(self).wf(),
        ensures
            final(self).wf(),
            final(self)@ == spec_record(old(self)@, b@, depth as nat),
            strings_view(final(ids)@) == strings_view(old(ids)@) + match b@.id {
                Some(id) => seq![id],
                None => Seq::empty(),
            },
    {
        let ghost old_order = strings_view(self.order@);
        let ghost old_ids = strings_view(ids@);
        let ghost old_queue = self.queue@;
        let ghost bv = b@;
        let ghost old_blocks = self.blocks@;
        match copy_opt_string(&b.id) {
            None => {
                assert(strings_view(ids@) =~= old_ids + Seq::empty());
            },
            Some(id) => {
                let known = self.blocks.contains_key(id.as_str());
                if !known {
                    self.order.push(id.clone());
                    assert(strings_view(self.order@) =~= old_order.push(id@));
                }
                if block_has_children(&b) {
                    let entry = (id.clone(), depth);
                    self.queue.push_back(entry);
                    assert(self.queue@ =~= old_queue.push(entry));
                    assert(queue_view(self.queue@) =~= queue_view(old_queue).push((entry.0@, entry.1 as nat)));
                }
                ids.push(id.clone());
                assert(strings_view(ids@) =~= old_ids + seq![id@]);
                let ghost k = id@;
                self.blocks.insert(id, b);
                assert(self.blocks@.map_values(|x: NotionBlock| x@) =~= old_blocks.map_values(
                    |x: NotionBlock| x@,
                ).insert(k, bv));
                let ghost new_order = strings_view(self.order@);
                assert(new_order == if known { old_order } else { old_order.push(k) });
                assert forall|j: Seq<char>| #[trigger] self.blocks@.contains_key(j) <==> new_order.contains(j) by {
                    if old_order.contains(j) {
                        let idx = choose|i: int| 0 <= i < old_order.len() && old_order[i] == j;
                        assert(new_order[idx] == j);
                    }
                    if j == k && !known {
                        assert(new_order[new_order.len() - 1] == k);
                    }
                    if new_order.contains(j) && j != k {
                        let idx = choose|i: int| 0 <= i < new_order.len() && new_order[i] == j;
                        assert(old_order[idx] == j);
                    }
                    if j == k && known {
                        assert(old_blocks.contains_key(k));
                    }
                }
            },
        }
        assert(self@.blocks =~= spec_record(old(self)@, bv, depth as nat).blocks);
        assert(self@.order =~= spec_record(old(self)@, bv, depth as nat).order);
        assert(self@.queue =~= spec_record(old(self)@, bv, depth as nat).queue);
        assert(self@ =~= spec_record(old(self)@, bv, depth as nat));
    }

    /// Takes in `bs` one after the other at `depth`; the identifiers they are
    /// kept under are appended to `ids`.
    fn record_all(&mut self, bs: Vec<NotionBlock>, depth: usize, ids: &mut Vec<String>)
        requires
            old(self).wf(),
        ensures
            final(self).wf(),
            final(self)@ == spec_record_all(old(self)@, notion_blocks_view(bs@), depth as nat),
            strings_view(final(ids)@) == strings_view(old(ids)@) + ids_of(notion_blocks_view(bs@)),
    {
        let ghost all = notion_blocks_view(bs@);
        let ghost s0 = self@;
        let ghost ids0 = strings_view(ids@);
        proof {
            crate::notion_api::lemma_notion_blocks_view(bs@);
        }
        let n: usize = bs.len();
        let mut rest = bs;
        let mut i: usize = 0;
        while rest.len() > 0
            invariant
                self.wf(),
                all.len() == n,
                i + rest@.len() == n,
                0 <= i <= all.len(),
                notion_blocks_view(rest@) == all.subrange(i as int, all.len() as int),
                self@ == spec_record_all(s0, all.take(i as int), depth as nat),
                strings_view(ids@) == ids0 + ids_of(all.take(i as int)),
            decreases rest.len(),
        {
            let ghost before = rest@;
            let b = rest.remove(0);
            proof {
                crate::notion_api::lemma_notion_blocks_view(before);
                crate::notion_api::lemma_notion_blocks_view(rest@);
                assert(notion_blocks_view(before)[0] == all[i as int]);
                assert(rest@ =~= before.subrange(1, before.len() as int));
                assert forall|j: int| 0 <= j < rest@.len() implies #[trigger] notion_blocks_view(rest@)[j]
                    == all[i + 1 + j] by {
                    assert(rest@[j] == before[j + 1]);
                    assert(notion_blocks_view(before)[j + 1] == before[j + 1]@);
                    assert(all.subrange(i as int, all.len() as int)[j + 1] == all[i + 1 + j]);
                }
                assert(notion_blocks_view(rest@) =~= all.subrange(i + 1, all.len() as int));
                assert(all.take(i + 1).drop_last() =~= all.take(i as int));
            }
            self.record(b, depth, ids);
            i = i + 1;
            proof {
                assert(strings_view(ids@) =~= ids0 + ids_of(all.take(i as int)));
            }
        }
        proof {
            assert(all.take(i as int) =~= all);
        }
    }

    /// Starts a fetch from the top-level blocks, with requests below
    /// `max_depth` only.
    pub fn new(blocks: Vec<NotionBlock>, max_depth: usize) -> (r: Self)
        ensures
            r.wf(),
            r@ == spec_record_all(empty_fetch(max_depth as nat), notion_blocks_view(blocks@), 0),
    {
        let mut f = BreadthFirstFetch {
            blocks: StringHashMap::new(),
            order: Vec::new(),
            parents: StringHashMap::new(),
            parent_order: Vec::new(),
            queue: VecDeque::new(),
            pending: None,
            max_depth,
        };
        proof {
            assert(f@.blocks =~= Map::empty());
            assert(f@.parents =~= Map::empty());
            assert(f@.order =~= Seq::empty());
            assert(f@.parent_order =~= Seq::empty());
            assert(f@.queue =~= Seq::empty());
            assert(f@ == empty_fetch(max_depth as nat));
        }
        let mut ids: Vec<String> = Vec::new();
        f.record_all(blocks, 0, &mut ids);
        f
    }

    /// The identifier of the next block whose children are to be fetched,
    /// or `None` when every request has been made (see
    /// [`spec_take_request`]).  Its children go to [`Self::receive`].
    pub fn next_request(&mut self) -> (r: Option<String>)
        requires
            old(self).wf(),
        ensures
            final(self).wf(),
            final(self)@ == spec_take_request(old(self)@),
            match final(self)@.pending {
                Some(p) => r is Some && r->0@ == p.0,
                None => r is None,
            },
    {
        let ghost q0 = old(self)@.queue;
        let ghost max = self.max_depth as nat;
        let ghost mut popped: int = 0;
        while self.queue.len() > 0
            invariant
                self.wf(),
                0 <= popped <= q0.len(),
                q0 == old(self)@.queue,
                max == old(self)@.max_depth,
                self.max_depth == max,
                queue_view(self.queue@) == q0.subrange(popped, q0.len() as int),
                first_open_from(q0, max, 0) == first_open_from(q0, max, popped),
                self.blocks == old(self).blocks,
                self.order == old(self).order,
                self.parents == old(self).parents,
                self.parent_order == old(self).parent_order,
            decreases self.queue@.len(),
        {
            let ghost before = self.queue@;
            let (id, depth) = self.queue.pop_front().unwrap();
            proof {
                assert(queue_view(before).len() == before.len());
                assert(q0.subrange(popped, q0.len() as int)[0] == q0[popped]);
                assert(q0[popped] == queue_view(before)[0]);
                assert forall|i: int| 0 <= i < self.queue@.len() implies #[trigger] queue_view(self.queue@)[i]
                    == q0[popped + 1 + i] by {
                    assert(self.queue@[i] == before[i + 1]);
                    assert(queue_view(before)[i + 1] == q0.subrange(popped, q0.len() as int)[i + 1]);
                }
                assert(queue_view(self.queue@) =~= q0.subrange(popped + 1, q0.len() as int));
            }
            if depth < self.max_depth {
                self.pending = Some((id.clone(), depth));
                proof {
                    assert(q0[popped] == (id@, depth as nat));
                    assert(first_open_from(q0, max, popped) == popped);
                    assert(self@ =~= spec_take_request(old(self)@));
                }
                return Some(id);
            }
            proof {
                popped = popped + 1;
            }
        }
        self.pending = None;
        proof {
            assert(queue_view(self.queue@).len() == 0);
            assert(popped == q0.len());
            assert(self@.queue =~= Seq::empty());
            assert(self@ =~= spec_take_request(old(self)@));
        }
        None
    }

    /// Takes in the children fetched for the request in flight (see
    /// [`spec_receive`]).
    pub fn receive(&mut self, children: Vec<NotionBlock>)
        requires
            old(self).wf(),
            old(self)@.pending is Some,
        ensures
            final(self).wf(),
            final(self)@ == spec_receive(old(self)@, notion_blocks_view(children@)),
    {
        let (parent, depth) = match &self.pending {
            Some(p) => (p.0.clone(), p.1),
            None => {
                return;
            },
        };
        let ghost s0 = self@;
        let mut ids: Vec<String> = Vec::new();
        self.record_all(children, depth + 1, &mut ids);
        let ghost t = self@;
        let ghost old_po = strings_view(self.parent_order@);
        let ghost old_parents = self.parents@;
        proof {
            assert(strings_view(ids@) =~= ids_of(notion_blocks_view(children@)));
        }
        let known = self.parents.contains_key(parent.as_str());
        if !known {
            self.parent_order.push(parent.clone());
            assert(strings_view(self.parent_order@) =~= old_po.push(parent@));
        }
        let ghost k = parent@;
        let ghost idv = strings_view(ids@);
        self.parents.insert(parent, ids);
        self.pending = None;
        proof {
            assert(self.parents@.map_values(|v: Vec<String>| strings_view(v@)) =~= old_parents.map_values(
                |v: Vec<String>| strings_view(v@),
            ).insert(k, idv));
            let new_po = strings_view(self.parent_order@);
            assert(new_po == if known { old_po } else { old_po.push(k) });
            assert forall|j: Seq<char>| #[trigger] self.parents@.contains_key(j) <==> new_po.contains(j) by {
                if old_po.contains(j) {
                    let idx = choose|i: int| 0 <= i < old_po.len() && old_po[i] == j;
                    assert(new_po[idx] == j);
                }
                if j == k && !known {
                    assert(new_po[new_po.len() - 1] == k);
                }
                if new_po.contains(j) && j != k {
                    let idx = choose|i: int| 0 <= i < new_po.len() && new_po[i] == j;
                    assert(old_po[idx] == j);
                }
                if j == k && known {
                    assert(old_parents.contains_key(k));
                }
            }
            assert(self@ =~= spec_receive(s0, notion_blocks_view(children@)));
        }
    }

    /// The gathered block `k` assembled to `fuel` further levels (see
    /// [`assembled`]).
    fn assemble_block(&self, k: &str, fuel: usize) -> (r: NotionBlock)
        requires
            self@.blocks.contains_key(k@),
        ensures
            r@ == assembled(self@, k@, fuel as nat),
        decreases fuel, 0nat,
    {
        let mut block = copy_block(self.blocks.get(k).unwrap());
        if fuel > 0 {
            let children = self.assemble_children(k, fuel - 1);
            attach_children_to_block(&mut block, children);
        }
        block
    }

    /// The children fetched for the block `k`, each assembled to `fuel`
    /// further levels (see [`assembled_children`]).
    fn assemble_children(&self, k: &str, fuel: usize) -> (r: Vec<NotionBlock>)
        ensures
            notion_blocks_view(r@) == assembled_children(self@, k@, fuel as nat),
        decreases fuel, 1nat,
    {
        let mut r: Vec<NotionBlock> = Vec::new();
        match self.parents.get(k) {
            None => {
                assert(notion_blocks_view(r@) =~= Seq::empty());
            },
            Some(ids) => {
                let ghost idv = strings_view(ids@);
                assert(self@.parents[k@] == idv);
                let mut j: usize = 0;
                while j < ids.len()
                    invariant
                        j <= ids@.len(),
                        idv == strings_view(ids@),
                        notion_blocks_view(r@) == subtrees_for(self@, idv.take(j as int), fuel as nat),
                    decreases ids@.len() - j,
                {
                    proof {
                        assert(idv.take(j + 1).drop_last() =~= idv.take(j as int));
                        assert(idv.take(j + 1).last() == ids@[j as int]@);
                    }
                    if self.blocks.contains_key(ids[j].as_str()) {
                        let c = self.assemble_block(ids[j].as_str(), fuel);
                        let ghost before = r@;
                        r.push(c);
                        proof {
                            assert(r@.drop_last() =~= before);
                        }
                    }
                    j = j + 1;
                }
                assert(idv.take(j as int) =~= idv);
            },
        }
        r
    }

    /// The identifiers that some parent lists among its children.
    fn listed_children(&self) -> (r: StringHashMap<bool>)
        requires
            self.wf(),
        ensures
            forall|k: Seq<char>| #[trigger] r@.contains_key(k) <==> is_listed_child(self@, k),
    {
        let mut r: StringHashMap<bool> = StringHashMap::new();
        let ghost po = strings_view(self.parent_order@);
        let ghost pv = self@.parents;
        let mut i: usize = 0;
        while i < self.parent_order.len()
            invariant
                i <= self.parent_order@.len(),
                po == strings_view(self.parent_order@),
                pv == self@.parents,
                forall|k: Seq<char>| #[trigger] r@.contains_key(k) <==> exists|a: int|
                    0 <= a < i && pv.contains_key(po[a]) && pv[po[a]].contains(k),
            decreases self.parent_order@.len() - i,
        {
            match self.parents.get(self.parent_order[i].as_str()) {
                Some(ids) => {
                    let ghost idv = strings_view(ids@);
                    let ghost r0 = r@;
                    assert(pv[po[i as int]] == idv);
                    let mut j: usize = 0;
                    while j < ids.len()
                        invariant
                            j <= ids@.len(),
                            idv == strings_view(ids@),
                            forall|k: Seq<char>| #[trigger] r@.contains_key(k) <==> (r0.contains_key(k)
                                || exists|b: int| 0 <= b < j && idv[b] == k),
                        decreases ids@.len() - j,
                    {
                        r.insert(ids[j].clone(), true);
                        proof {
                            assert forall|k: Seq<char>| #[trigger] r@.contains_key(k) <==> (r0.contains_key(k)
                                || exists|b: int| 0 <= b < j + 1 && idv[b] == k) by {
                                if k == idv[j as int] {
                                    assert(0 <= j < j + 1 && idv[j as int] == k);
                                }
                                if exists|b: int| 0 <= b < j + 1 && idv[b] == k {
                                    let b = choose|b: int| 0 <= b < j + 1 && idv[b] == k;
                                    if b < j {
                                        assert(0 <= b < j && idv[b] == k);
                                    }
                                }
                            }
                        }
                        j = j + 1;
                    }
                    proof {
                        assert forall|k: Seq<char>| #[trigger] r@.contains_key(k) <==> exists|a: int|
                            0 <= a < i + 1 && pv.contains_key(po[a]) && pv[po[a]].contains(k) by {
                            if r@.contains_key(k) && !r0.contains_key(k) {
                                let b = choose|b: int| 0 <= b < j && idv[b] == k;
                                assert(0 <= i < i + 1 && pv.contains_key(po[i as int]) && pv[po[i as int]][b] == k);
                            }
                            if exists|a: int| 0 <= a < i + 1 && pv.contains_key(po[a]) && pv[po[a]].contains(k) {
                                let a = choose|a: int| 0 <= a < i + 1 && pv.contains_key(po[a]) && pv[po[a]].contains(k);
                                if a == i {
                                    let b = choose|b: int| 0 <= b < idv.len() && idv[b] == k;
                                    assert(0 <= b < j && idv[b] == k);
                                } else {
                                    assert(0 <= a < i && pv.contains_key(po[a]) && pv[po[a]].contains(k));
                                }
                            }
                        }
                    }
                },
                None => {
                    proof {
                        assert(!pv.contains_key(po[i as int]));
                        assert forall|k: Seq<char>| #[trigger] r@.contains_key(k) <==> exists|a: int|
                            0 <= a < i + 1 && pv.contains_key(po[a]) && pv[po[a]].contains(k) by {
                            if exists|a: int| 0 <= a < i + 1 && pv.contains_key(po[a]) && pv[po[a]].contains(k) {
                                let a = choose|a: int| 0 <= a < i + 1 && pv.contains_key(po[a]) && pv[po[a]].contains(k);
                                assert(a != i);
                                assert(0 <= a < i && pv.contains_key(po[a]) && pv[po[a]].contains(k));
                            }
                        }
                    }
                },
            }
            i = i + 1;
        }
        proof {
            assert forall|k: Seq<char>| #[trigger] r@.contains_key(k) <==> is_listed_child(self@, k) by {
                if is_listed_child(self@, k) {
                    let p = choose|p: Seq<char>| #[trigger] pv.contains_key(p) && pv[p].contains(k);
                    assert(po.contains(p));
                    let a = choose|a: int| 0 <= a < po.len() && po[a] == p;
                    assert(0 <= a < i && pv.contains_key(po[a]) && pv[po[a]].contains(k));
                }
                if r@.contains_key(k) {
                    let a = choose|a: int| 0 <= a < i && pv.contains_key(po[a]) && pv[po[a]].contains(k);
                    assert(pv.contains_key(po[a]) && pv[po[a]].contains(k));
                }
            }
        }
        r
    }

    /// The fetched tree: the top-level blocks (those no parent lists), in the
    /// order first seen, each with the children fetched for it attached, and
    /// each of those with its own fetched children, all the way down.  The
    /// children of every toggleable parent, with their subtrees, are recorded
    /// in `toggleable_children`.
    pub fn finish(&self, toggleable_children: &mut ToggleableBlockChildren) -> (r: Vec<NotionBlock>)
        requires
            self.wf(),
        ensures
            notion_blocks_view(r@) == assemble_from(self@, self@.order),
            final(toggleable_children)@ == note_toggles(
                old(toggleable_children)@,
                self@,
                self@.parent_order,
            ),
    {
        let listed = self.listed_children();
        let ghost s = self@;
        let mut result: Vec<NotionBlock> = Vec::new();
        let mut i: usize = 0;
        while i < self.order.len()
            invariant
                i <= self.order@.len(),
                s == self@,
                forall|k: Seq<char>| #[trigger] listed@.contains_key(k) <==> is_listed_child(s, k),
                notion_blocks_view(result@) == assemble_from(s, s.order.take(i as int)),
            decreases self.order@.len() - i,
        {
            let k = self.order[i].as_str();
            proof {
                assert(s.order.take(i + 1).drop_last() =~= s.order.take(i as int));
                assert(s.order.take(i + 1).last() == k@);
            }
            if !listed.contains_key(k) {
                if self.blocks.contains_key(k) {
                    let block = self.assemble_block(k, self.max_depth);
                    let ghost before = result@;
                    result.push(block);
                    proof {
                        assert(result@.drop_last() =~= before);
                    }
                }
            }
            i = i + 1;
        }
        proof {
            assert(s.order.take(i as int) =~= s.order);
        }
        let ghost m0 = toggleable_children@;
        let mut j: usize = 0;
        while j < self.parent_order.len()
            invariant
                j <= self.parent_order@.len(),
                s == self@,
                self.wf(),
                toggleable_children@ == note_toggles(m0, s, s.parent_order.take(j as int)),
            decreases self.parent_order@.len() - j,
        {
            let p = self.parent_order[j].as_str();
            proof {
                assert(s.parent_order.take(j + 1).drop_last() =~= s.parent_order.take(j as int));
                assert(s.parent_order.take(j + 1).last() == p@);
            }
            if self.parents.contains_key(p) {
                match self.blocks.get(p) {
                    Some(b) => {
                        if b.is_toggleable() {
                            let children = if self.max_depth > 0 {
                                self.assemble_children(p, self.max_depth - 1)
                            } else {
                                Vec::new()
                            };
                            toggleable_children.add_children(b, children);
                        }
                    },
                    None => {},
                }
            }
            j = j + 1;
        }
        proof {
            assert(s.parent_order.take(j as int) =~= s.parent_order);
        }
        result
    }

} // impl

/// One level of a depth-first fetch: the blocks still to look at, the
/// blocks done (with their children in place), the depth of the level, and
/// the block whose children the level holds (none for the top level).
pub struct SFrame {
    pub pending: Seq<SNotionBlock>,
    pub done: Seq<SNotionBlock>,
    pub depth: nat,
    pub parent: Option<SNotionBlock>,
}

/// A depth-first fetch as far as it has gone: the open levels, innermost
/// last; the block whose children are being fetched; the depth limit.
pub struct SDepthFirst {
    pub frames: Seq<SFrame>,
    pub waiting: Option<SNotionBlock>,
    pub max_depth: nat,
}

/// What the caller does next in a depth-first fetch.
#[derive(Debug)]
pub enum FetchStep {
    /// Fetch the children of the block with this identifier and hand them
    /// to [`DepthFirstFetch::receive`].
    Fetch(String),
    /// Take the next step.
    Continue,
    /// The fetch is complete; take the blocks from [`DepthFirstFetch::finish`].
    Done,
}

/// The view of a step.
pub enum SFetchStep {
    Fetch(Seq<char>),
    Continue,
    Done,
}

impl View for FetchStep {
    type V = SFetchStep;

    open spec fn view(&self) -> SFetchStep {
        match self {
            FetchStep::Fetch(id) => SFetchStep::Fetch(id@),
            FetchStep::Continue => SFetchStep::Continue,
            FetchStep::Done => SFetchStep::Done,
        }
    }
}

/// The state and step after one step of a depth-first fetch.  When the
/// innermost level has a block left, it is taken: a block whose children are
/// wanted (see [`wants_children`]) waits for them, any other is done.  When
/// the innermost level is empty and is not the top one, it is closed: its
/// done blocks become the children of its parent (see
/// [`finish_fetched_block`]), which is done one level up.  When only the top
/// level is left and it is empty, the fetch is done.
pub open spec fn spec_dfs_step(s: SDepthFirst) -> (SDepthFirst, SFetchStep) {
    let top = s.frames.last();
    let n = s.frames.len() - 1;
    if top.pending.len() > 0 {
        let b = top.pending[0];
        let rest = top.pending.drop_first();
        if wants_children(b, top.depth as int, s.max_depth as int) {
            (
                SDepthFirst {
                    frames: s.frames.update(n, SFrame { pending: rest, ..top }),
                    waiting: Some(b),
                    ..s
                },
                SFetchStep::Fetch(b.id->0),
            )
        } else {
            (
                SDepthFirst {
                    frames: s.frames.update(n, SFrame { pending: rest, done: top.done.push(b), ..top }),
                    ..s
                },
                SFetchStep::Continue,
            )
        }
    } else if s.frames.len() > 1 {
        let below = s.frames[n - 1];
        let parent = top.parent->0;
        (
            SDepthFirst {
                frames: s.frames.drop_last().update(
                    n - 1,
                    SFrame { done: below.done.push(spec_attach(parent, top.done)), ..below },
                ),
                ..s
            },
            SFetchStep::Continue,
        )
    } else {
        (s, SFetchStep::Done)
    }
}

/// The children table after a step: a closed level's blocks are recorded
/// for its parent when the parent is toggleable.
pub open spec fn spec_dfs_step_table(
    s: SDepthFirst,
    m: Map<Seq<char>, Seq<SNotionBlock>>,
) -> Map<Seq<char>, Seq<SNotionBlock>> {
    let top = s.frames.last();
    if top.pending.len() == 0 && s.frames.len() > 1 {
        note_toggle(m, top.parent->0, top.done)
    } else {
        m
    }
}

/// The state after the children of the waiting block arrive: a new level
/// holding them opens one deeper, under the waiting block.
pub open spec fn spec_dfs_receive(s: SDepthFirst, children: Seq<SNotionBlock>) -> SDepthFirst {
    SDepthFirst {
        frames: s.frames.push(
            SFrame { pending: children, done: Seq::empty(), depth: s.frames.last().depth + 1, parent: s.waiting },
        ),
        waiting: None,
        ..s
    }
}

/// An open level of a depth-first fetch.
struct DepthFirstFrame {
    pending: Vec<NotionBlock>,
    done: Vec<NotionBlock>,
    depth: usize,
    parent: Option<NotionBlock>,
}

/// The view of an open level.
spec fn frame_view(f: DepthFirstFrame) -> SFrame {
    SFrame {
        pending: notion_blocks_view(f.pending@),
        done: notion_blocks_view(f.done@),
        depth: f.depth as nat,
        parent: match f.parent {
            Some(b) => Some(b@),
            None => None,
        },
    }
}

/// A depth-first fetch in progress: the caller calls
/// [`DepthFirstFetch::step`] until it says [`FetchStep::Done`], fetching
/// the children that a [`FetchStep::Fetch`] asks for and handing them to
/// [`DepthFirstFetch::receive`], then takes the tree from
/// [`DepthFirstFetch::finish`].
pub struct DepthFirstFetch {
    frames: Vec<DepthFirstFrame>,
    waiting: Option<NotionBlock>,
    max_depth: usize,
}

impl View for DepthFirstFetch {
    type V = SDepthFirst;

    closed spec fn view(&self) -> SDepthFirst {
        SDepthFirst {
            frames: self.frames@.map_values(|f: DepthFirstFrame| frame_view(f)),
            waiting: match self.waiting {
                Some(b) => Some(b@),
                None => None,
            },
            max_depth: self.max_depth as nat,
        }
    }
}

impl DepthFirstFetch {
    /// There is a top level, without a parent; every deeper level has one;
    /// a waiting block's level is below the depth limit.
    pub open spec fn wf_view(s: SDepthFirst) -> bool {
        &&& s.frames.len() >= 1
        &&& s.frames[0].parent is None
        &&& forall|i: int| 1 <= i < s.frames.len() ==> (#[trigger] s.frames[i]).parent is Some
        &&& s.waiting is Some ==> s.frames.last().depth < s.max_depth
    }

    /// The state is well formed (see [`Self::wf_view`]).
    pub closed spec fn wf(&self) -> bool {
        Self::wf_view(self@)
    }

    /// Starts a fetch from the top-level blocks, fetching children below
    /// `max_depth` only.
    pub fn new(blocks: Vec<NotionBlock>, max_depth: usize) -> (r: Self)
        ensures
            r.wf(),
            r@ == (SDepthFirst {
                frames: seq![
                    SFrame { pending: notion_blocks_view(blocks@), done: Seq::empty(), depth: 0, parent: None },
                ],
                waiting: None,
                max_depth: max_depth as nat,
            }),
    {
        let mut frames: Vec<DepthFirstFrame> = Vec::new();
        let done: Vec<NotionBlock> = Vec::new();
        assert(notion_blocks_view(done@) =~= Seq::empty());
        frames.push(DepthFirstFrame { pending: blocks, done, depth: 0, parent: None });
        let r = DepthFirstFetch { frames, waiting: None, max_depth };
        assert(r@.frames =~= seq![
            SFrame { pending: notion_blocks_view(blocks@), done: Seq::empty(), depth: 0, parent: None },
        ]);
        r
    }

    /// One step of the fetch (see [`spec_dfs_step`]); a closed level's
    /// children are recorded in `toggleable_children` for a toggleable
    /// parent (see [`spec_dfs_step_table`]).
    pub fn step(&mut self, toggleable_children: &mut ToggleableBlockChildren) -> (r: FetchStep)
        requires
            old(self).wf(),
            old(self)@.waiting is None,
        ensures
            final(self).wf(),
            (final(self)@, r@) == spec_dfs_step(old(self)@),
            final(toggleable_children)@ == spec_dfs_step_table(old(self)@, old(toggleable_children)@),
    {
        let ghost s = self@;
        let ghost frames0 = self.frames@;
        let mut top = match self.frames.pop() {
            Some(f) => f,
            None => {
                return FetchStep::Done;
            },
        };
        proof {
            assert(frames0.last() == top);
            assert(self.frames@ =~= frames0.drop_last());
        }
        let ghost top_v = frame_view(top);
        if top.pending.len() > 0 {
            let ghost pend = top.pending@;
            let b = top.pending.remove(0);
            proof {
                crate::notion_api::lemma_notion_blocks_view(pend);
                crate::notion_api::lemma_notion_blocks_view(top.pending@);
                assert(top.pending@ =~= pend.subrange(1, pend.len() as int));
                assert(notion_blocks_view(top.pending@) =~= top_v.pending.drop_first());
                assert(b@ == top_v.pending[0]);
            }
            let request = match children_request(&b, top.depth, &DepthFirstFetch::config(self.max_depth)) {
                Some(id) => Some(crate::strings::string_of(id)),
                None => None,
            };
            match request {
                Some(id) => {
                    self.waiting = Some(b);
                    self.frames.push(top);
                    proof {
                        assert(self@.frames =~= s.frames.update(
                            s.frames.len() - 1,
                            SFrame { pending: top_v.pending.drop_first(), ..top_v },
                        ));
                    }
                    FetchStep::Fetch(id)
                },
                None => {
                    let ghost d0 = top.done@;
                    top.done.push(b);
                    proof {
                        crate::notion_api::lemma_notion_blocks_view(d0);
                        crate::notion_api::lemma_notion_blocks_view(top.done@);
                        assert(notion_blocks_view(top.done@) =~= top_v.done.push(b@));
                    }
                    self.frames.push(top);
                    proof {
                        assert(self@.frames =~= s.frames.update(
                            s.frames.len() - 1,
                            SFrame { pending: top_v.pending.drop_first(), done: top_v.done.push(b@), ..top_v },
                        ));
                    }
                    FetchStep::Continue
                },
            }
        } else if self.frames.len() > 0 {
            let ghost frames1 = self.frames@;
            let mut below = match self.frames.pop() {
                Some(f) => f,
                None => {
                    return FetchStep::Done;
                },
            };
            proof {
                assert(frames1.last() == below);
                assert(self.frames@ =~= frames1.drop_last());
                assert(s.frames[s.frames.len() - 1].parent is Some);
            }
            let ghost below_v = frame_view(below);
            let mut parent = match top.parent {
                Some(p) => p,
                None => {
                    self.frames.push(below);
                    return FetchStep::Done;
                },
            };
            finish_fetched_block(&mut parent, top.done, toggleable_children);
            let ghost d0 = below.done@;
            let ghost pv = parent@;
            below.done.push(parent);
            proof {
                crate::notion_api::lemma_notion_blocks_view(d0);
                crate::notion_api::lemma_notion_blocks_view(below.done@);
                assert(notion_blocks_view(below.done@) =~= below_v.done.push(pv));
            }
            self.frames.push(below);
            proof {
                assert(self@.frames =~= s.frames.drop_last().update(
                    s.frames.len() - 2,
                    SFrame { done: below_v.done.push(pv), ..below_v },
                ));
                assert forall|i: int| 1 <= i < self@.frames.len() implies (#[trigger] self@.frames[i]).parent is Some by {
                    assert(self@.frames[i].parent == s.frames[i].parent);
                }
            }
            FetchStep::Continue
        } else {
            self.frames.push(top);
            proof {
                assert(self.frames@ =~= frames0);
            }
            FetchStep::Done
        }
    }

    /// Settings that hold the depth limit.
    fn config(max_depth: usize) -> (r: BlockFetcherConfig)
        ensures
            r.max_depth == max_depth,
    {
        BlockFetcherConfig { max_depth, api_call_delay_ms: 0, breadth_first: false }
    }

    /// Takes in the children fetched for the waiting block (see
    /// [`spec_dfs_receive`]).
    pub fn receive(&mut self, children: Vec<NotionBlock>)
        requires
            old(self).wf(),
            old(self)@.waiting is Some,
        ensures
            final(self).wf(),
            final(self)@ == spec_dfs_receive(old(self)@, notion_blocks_view(children@)),
    {
        let ghost s = self@;
        let n = self.frames.len();
        if n == 0 {
            return;
        }
        let depth = self.frames[n - 1].depth;
        let parent = self.waiting.take();
        let done: Vec<NotionBlock> = Vec::new();
        assert(notion_blocks_view(done@) =~= Seq::empty());
        proof {
            assert(s.frames.last() == frame_view(self.frames@[n - 1]));
        }
        self.frames.push(DepthFirstFrame { pending: children, done, depth: depth + 1, parent });
        proof {
            assert(self@.frames =~= s.frames.push(
                SFrame {
                    pending: notion_blocks_view(children@),
                    done: Seq::empty(),
                    depth: s.frames.last().depth + 1,
                    parent: s.waiting,
                },
            ));
        }
    }

    /// The top-level blocks done so far, with their children in place; all
    /// of them once [`Self::step`] has said [`FetchStep::Done`].
    pub fn finish(self) -> (r: Vec<NotionBlock>)
        requires
            self.wf(),
        ensures
            notion_blocks_view(r@) == self@.frames[0].done,
    {
        let mut s = self;
        let ghost f0 = s.frames@[0];
        let first = s.frames.swap_remove(0);
        first.done
    }
}

/// How many more levels may be fetched below `depth`.
pub open spec fn room(depth: nat, max_depth: nat) -> nat {
    if depth < max_depth {
        (max_depth - depth) as nat
    } else {
        0
    }
}

/// The tree that depth-first fetching makes of `bs` at `depth` when each
/// request for the children of a block is answered by `answer` applied to
/// its identifier: each block whose children are wanted holds what its
/// answer becomes one level down.
pub open spec fn dfs_list(
    bs: Seq<SNotionBlock>,
    depth: nat,
    max_depth: nat,
    answer: spec_fn(Seq<char>) -> Seq<SNotionBlock>,
) -> Seq<SNotionBlock>
    decreases room(depth, max_depth), bs.len(),
{
    if bs.len() == 0 {
        Seq::empty()
    } else {
        dfs_list(bs.drop_last(), depth, max_depth, answer).push(
            dfs_block(bs.last(), depth, max_depth, answer),
        )
    }
}

/// One block of [`dfs_list`].
pub open spec fn dfs_block(
    b: SNotionBlock,
    depth: nat,
    max_depth: nat,
    answer: spec_fn(Seq<char>) -> Seq<SNotionBlock>,
) -> SNotionBlock
    decreases room(depth, max_depth), 0nat,
{
    if wants_children(b, depth as int, max_depth as int) {
        spec_attach(b, dfs_list(answer(b.id->0), depth + 1, max_depth, answer))
    } else {
        b
    }
}

/// What the innermost open level becomes once its pending blocks are done.
pub open spec fn frame_outcome(
    f: SFrame,
    max_depth: nat,
    answer: spec_fn(Seq<char>) -> Seq<SNotionBlock>,
) -> Seq<SNotionBlock> {
    f.done + dfs_list(f.pending, f.depth, max_depth, answer)
}

/// The top-level blocks that the open levels come to once all are done,
/// with requests answered by `answer`.
pub open spec fn frames_outcome(
    frames: Seq<SFrame>,
    max_depth: nat,
    answer: spec_fn(Seq<char>) -> Seq<SNotionBlock>,
) -> Seq<SNotionBlock>
    decreases frames.len(),
{
    if frames.len() == 0 {
        Seq::empty()
    } else if frames.len() == 1 {
        frame_outcome(frames[0], max_depth, answer)
    } else {
        let n = frames.len() - 1;
        let top = frames[n];
        let below = frames[n - 1];
        frames_outcome(
            frames.drop_last().update(
                n - 1,
                SFrame {
                    done: below.done.push(spec_attach(top.parent->0, frame_outcome(top, max_depth, answer))),
                    ..below
                },
            ),
            max_depth,
            answer,
        )
    }
}

/// The state after one step, the request, if any, answered by `answer`.
pub open spec fn dfs_drive(s: SDepthFirst, answer: spec_fn(Seq<char>) -> Seq<SNotionBlock>) -> SDepthFirst {
    let (t, st) = spec_dfs_step(s);
    match st {
        SFetchStep::Fetch(id) => spec_dfs_receive(t, answer(id)),
        _ => t,
    }
}

/// The state after `k` steps, requests answered by `answer`.
pub open spec fn dfs_drive_n(
    s: SDepthFirst,
    answer: spec_fn(Seq<char>) -> Seq<SNotionBlock>,
    k: nat,
) -> SDepthFirst
    decreases k,
{
    if k == 0 {
        s
    } else {
        dfs_drive(dfs_drive_n(s, answer, (k - 1) as nat), answer)
    }
}

/// The state in which a depth-first fetch of `blocks` starts.
pub open spec fn dfs_start(blocks: Seq<SNotionBlock>, max_depth: nat) -> SDepthFirst {
    SDepthFirst {
        frames: seq![SFrame { pending: blocks, done: Seq::empty(), depth: 0, parent: None }],
        waiting: None,
        max_depth,
    }
}

proof fn lemma_dfs_list_cons(
    b: SNotionBlock,
    rest: Seq<SNotionBlock>,
    depth: nat,
    max_depth: nat,
    answer: spec_fn(Seq<char>) -> Seq<SNotionBlock>,
)
    ensures
        dfs_list(seq![b] + rest, depth, max_depth, answer) == seq![dfs_block(b, depth, max_depth, answer)]
            + dfs_list(rest, depth, max_depth, answer),
    decreases rest.len(),
{
    let whole = seq![b] + rest;
    if rest.len() == 0 {
        assert(whole =~= seq![b]);
        assert(whole.drop_last() =~= Seq::<SNotionBlock>::empty());
        assert(dfs_list(Seq::<SNotionBlock>::empty(), depth, max_depth, answer) =~= Seq::empty());
        assert(seq![dfs_block(b, depth, max_depth, answer)] + Seq::<SNotionBlock>::empty() =~= seq![
            dfs_block(b, depth, max_depth, answer),
        ]);
    } else {
        lemma_dfs_list_cons(b, rest.drop_last(), depth, max_depth, answer);
        assert(whole.drop_last() =~= seq![b] + rest.drop_last());
        assert(whole.last() == rest.last());
        assert(seq![dfs_block(b, depth, max_depth, answer)] + dfs_list(rest.drop_last(), depth, max_depth, answer).push(
            dfs_block(rest.last(), depth, max_depth, answer),
        ) =~= (seq![dfs_block(b, depth, max_depth, answer)] + dfs_list(rest.drop_last(), depth, max_depth, answer)).push(
            dfs_block(rest.last(), depth, max_depth, answer),
        ));
    }
}

/// Two stacks of levels that differ only in how far their innermost level
/// has got, with the same outcome for it, come to the same blocks.
proof fn lemma_frames_outcome_top(
    a: Seq<SFrame>,
    b: Seq<SFrame>,
    max_depth: nat,
    answer: spec_fn(Seq<char>) -> Seq<SNotionBlock>,
)
    requires
        a.len() == b.len(),
        a.len() >= 1,
        a.drop_last() == b.drop_last(),
        a.last().parent == b.last().parent,
        frame_outcome(a.last(), max_depth, answer) == frame_outcome(b.last(), max_depth, answer),
    ensures
        frames_outcome(a, max_depth, answer) == frames_outcome(b, max_depth, answer),
{
    if a.len() > 1 {
        let n = a.len() - 1;
        assert(a[n - 1] == a.drop_last()[n - 1]);
        assert(b[n - 1] == b.drop_last()[n - 1]);
    }
}

/// A fetch starts with the whole answer still to come: its outcome is the
/// tree of the top-level blocks.
pub proof fn law_dfs_start(
    blocks: Seq<SNotionBlock>,
    max_depth: nat,
    answer: spec_fn(Seq<char>) -> Seq<SNotionBlock>,
)
    ensures
        DepthFirstFetch::wf_view(dfs_start(blocks, max_depth)),
        frames_outcome(dfs_start(blocks, max_depth).frames, max_depth, answer) == dfs_list(
            blocks,
            0,
            max_depth,
            answer,
        ),
{
    assert(Seq::<SNotionBlock>::empty() + dfs_list(blocks, 0, max_depth, answer) =~= dfs_list(
        blocks,
        0,
        max_depth,
        answer,
    ));
}

/// A step, with its request answered, keeps the state well formed with no
/// block waiting, and changes nothing of what the fetch comes to.
pub proof fn law_dfs_step_keeps_outcome(s: SDepthFirst, answer: spec_fn(Seq<char>) -> Seq<SNotionBlock>)
    requires
        DepthFirstFetch::wf_view(s),
        s.waiting is None,
    ensures
        DepthFirstFetch::wf_view(dfs_drive(s, answer)),
        dfs_drive(s, answer).waiting is None,
        dfs_drive(s, answer).max_depth == s.max_depth,
        frames_outcome(dfs_drive(s, answer).frames, s.max_depth, answer) == frames_outcome(
            s.frames,
            s.max_depth,
            answer,
        ),
{
    let max = s.max_depth;
    let n = s.frames.len() - 1;
    let top = s.frames.last();
    let (t, st) = spec_dfs_step(s);
    if top.pending.len() > 0 {
        let b = top.pending[0];
        let rest = top.pending.drop_first();
        assert(top.pending =~= seq![b] + rest);
        lemma_dfs_list_cons(b, rest, top.depth, max, answer);
        if wants_children(b, top.depth as int, max as int) {
            let id = b.id->0;
            let r = spec_dfs_receive(t, answer(id));
            let below = SFrame { pending: rest, ..top };
            let inner = SFrame { pending: answer(id), done: Seq::empty(), depth: top.depth + 1, parent: Some(b) };
            assert(r.frames == s.frames.update(n, below).push(inner));
            assert(r.frames.len() == n + 2);
            assert(r.frames.last() == inner);
            assert(r.frames[n] == below);
            assert(r.frames.drop_last() == s.frames.update(n, below));
            let inner_outcome = frame_outcome(inner, max, answer);
            assert(inner_outcome =~= dfs_list(answer(id), top.depth + 1, max, answer));
            assert(spec_attach(b, inner_outcome) == dfs_block(b, top.depth, max, answer));
            let merged = s.frames.update(n, SFrame { done: top.done.push(dfs_block(b, top.depth, max, answer)), ..below });
            assert(r.frames.drop_last().update(n, SFrame { done: below.done.push(spec_attach(b, inner_outcome)), ..below })
                == merged);
            assert(frames_outcome(r.frames, max, answer) == frames_outcome(merged, max, answer));
            assert(frame_outcome(merged.last(), max, answer) =~= frame_outcome(top, max, answer));
            assert(merged.drop_last() =~= s.frames.drop_last());
            lemma_frames_outcome_top(merged, s.frames, max, answer);
            assert forall|i: int| 1 <= i < r.frames.len() implies (#[trigger] r.frames[i]).parent is Some by {
                if i < n + 1 {
                    assert(r.frames[i] == s.frames.update(n, below)[i]);
                }
            }
        } else {
            let after = SFrame { pending: rest, done: top.done.push(b), ..top };
            assert(t.frames == s.frames.update(n, after));
            assert(dfs_block(b, top.depth, max, answer) == b);
            assert(frame_outcome(after, max, answer) =~= frame_outcome(top, max, answer));
            assert(t.frames.drop_last() =~= s.frames.drop_last());
            lemma_frames_outcome_top(t.frames, s.frames, max, answer);
            assert forall|i: int| 1 <= i < t.frames.len() implies (#[trigger] t.frames[i]).parent is Some by {
                assert(t.frames[i].parent == s.frames[i].parent);
            }
        }
    } else if s.frames.len() > 1 {
        assert(frame_outcome(top, max, answer) =~= top.done);
        assert forall|i: int| 1 <= i < t.frames.len() implies (#[trigger] t.frames[i]).parent is Some by {
            assert(t.frames[i].parent == s.frames[i].parent);
        }
    }
}

/// When a step says the fetch is done, the top-level blocks done are what
/// the fetch comes to.
pub proof fn law_dfs_done(s: SDepthFirst, answer: spec_fn(Seq<char>) -> Seq<SNotionBlock>)
    requires
        DepthFirstFetch::wf_view(s),
        spec_dfs_step(s).1 is Done,
    ensures
        s.frames[0].done == frames_outcome(s.frames, s.max_depth, answer),
{
    assert(dfs_list(s.frames[0].pending, s.frames[0].depth, s.max_depth, answer) =~= Seq::empty());
    assert(s.frames[0].done + Seq::<SNotionBlock>::empty() =~= s.frames[0].done);
}

/// A depth-first fetch whose requests are answered by `answer` gives, once
/// a step says it is done, the tree of the top-level blocks described by
/// [`dfs_list`]: each block whose children are wanted holds the blocks its
/// answer becomes one level down, to the depth limit.
pub proof fn law_dfs_fetch_gives_tree(
    blocks: Seq<SNotionBlock>,
    max_depth: nat,
    answer: spec_fn(Seq<char>) -> Seq<SNotionBlock>,
    k: nat,
)
    requires
        spec_dfs_step(dfs_drive_n(dfs_start(blocks, max_depth), answer, k)).1 is Done,
    ensures
        dfs_drive_n(dfs_start(blocks, max_depth), answer, k).frames[0].done == dfs_list(
            blocks,
            0,
            max_depth,
            answer,
        ),
{
    lemma_dfs_drive_n(blocks, max_depth, answer, k);
    law_dfs_done(dfs_drive_n(dfs_start(blocks, max_depth), answer, k), answer);
}

proof fn lemma_dfs_drive_n(
    blocks: Seq<SNotionBlock>,
    max_depth: nat,
    answer: spec_fn(Seq<char>) -> Seq<SNotionBlock>,
    k: nat,
)
    ensures
        DepthFirstFetch::wf_view(dfs_drive_n(dfs_start(blocks, max_depth), answer, k)),
        dfs_drive_n(dfs_start(blocks, max_depth), answer, k).waiting is None,
        dfs_drive_n(dfs_start(blocks, max_depth), answer, k).max_depth == max_depth,
        frames_outcome(dfs_drive_n(dfs_start(blocks, max_depth), answer, k).frames, max_depth, answer)
            == dfs_list(blocks, 0, max_depth, answer),
    decreases k,
{
    if k == 0 {
        law_dfs_start(blocks, max_depth, answer);
    } else {
        lemma_dfs_drive_n(blocks, max_depth, answer, (k - 1) as nat);
        law_dfs_step_keeps_outcome(dfs_drive_n(dfs_start(blocks, max_depth), answer, (k - 1) as nat), answer);
    }
}

} // verus!
