//! Conversion of Notion list items into Pandoc lists, and the merging of
//! consecutive list items into single lists.
use crate::n2p::notion_paragraph::{color_span, spec_color_span};
use crate::n2p::notion_text::{spec_convert_rich_texts, NotionTextConverter};
use crate::n2p::ConversionConfig;
use crate::notion_api::{BlockType, NotionBlock, SBlockType, STextValue, SToDoValue, TextColor};
use crate::pandoc::{
    blocks_view, inlines_view, items_view, lemma_blocks_view_add, lemma_inlines_view_add,
    lemma_items_view_add, Block, Inline, ListAttributes, ListNumberDelim, ListNumberStyle, SBlock,
    SInline,
};
use crate::strings::string_of;
use vstd::prelude::*;

verus! {

broadcast use {vstd::std_specs::vec::group_vec_axioms, crate::pandoc::group_pandoc_view};

/// The state of list merging: the blocks emitted so far, the pending bullet
/// items, the pending ordered items and the attributes of the pending
/// ordered list.
pub struct ListState {
    pub result: Seq<SBlock>,
    pub bullets: Seq<Seq<SBlock>>,
    pub ordered: Seq<Seq<SBlock>>,
    pub attrs: Option<ListAttributes>,
}

/// The starting state: nothing emitted, nothing pending.
pub open spec fn empty_list_state() -> ListState {
    ListState { result: Seq::empty(), bullets: Seq::empty(), ordered: Seq::empty(), attrs: None }
}

/// Emits the pending bullet items, if any, as one bullet list.
pub open spec fn flush_bullets(st: ListState) -> ListState {
    if st.bullets.len() > 0 {
        ListState { result: st.result.push(SBlock::BulletList(st.bullets)), bullets: Seq::empty(), ..st }
    } else {
        st
    }
}

/// Emits the pending ordered items, if any, as one ordered list, and forgets
/// their attributes.
pub open spec fn flush_ordered(st: ListState) -> ListState {
    if st.ordered.len() > 0 && st.attrs is Some {
        ListState {
            result: st.result.push(SBlock::OrderedList(st.attrs->0, st.ordered)),
            ordered: Seq::empty(),
            attrs: None,
            ..st
        }
    } else {
        st
    }
}

/// Emits the pending ordered items, if any, as one ordered list, keeping
/// their attributes.
pub open spec fn flush_ordered_keep(st: ListState) -> ListState {
    if st.ordered.len() > 0 && st.attrs is Some {
        ListState {
            result: st.result.push(SBlock::OrderedList(st.attrs->0, st.ordered)),
            ordered: Seq::empty(),
            ..st
        }
    } else {
        st
    }
}

/// One block read by `collect_document_lists`: bullet items join the
/// pending bullet list (after the ordered one is emitted); ordered items join
/// the pending ordered list (after the bullet one is emitted, and after the
/// ordered one is emitted if its attributes differ); any other block is
/// emitted after both pending lists.
pub open spec fn collect_step(st: ListState, b: SBlock) -> ListState {
    match b {
        SBlock::BulletList(items) => {
            let s = flush_ordered(st);
            ListState { bullets: s.bullets + items, ..s }
        },
        SBlock::OrderedList(a, items) => {
            let s1 = flush_bullets(st);
            let s2 = if s1.attrs is Some && s1.attrs->0 != a {
                flush_ordered(s1)
            } else {
                s1
            };
            ListState { ordered: s2.ordered + items, attrs: Some(a), ..s2 }
        },
        _ => {
            let s = flush_ordered(flush_bullets(st));
            ListState { result: s.result.push(b), ..s }
        },
    }
}

/// The state of `collect_document_lists` after reading `bs`.
pub open spec fn collect_state(bs: Seq<SBlock>) -> ListState
    decreases bs.len(),
{
    if bs.len() == 0 {
        empty_list_state()
    } else {
        collect_step(collect_state(bs.drop_last()), bs.last())
    }
}

/// Blocks with consecutive list blocks merged: consecutive bullet lists
/// become one bullet list, consecutive ordered lists with equal attributes
/// one ordered list; other blocks are kept in place.
pub open spec fn spec_collect_document_lists(bs: Seq<SBlock>) -> Seq<SBlock> {
    flush_ordered(flush_bullets(collect_state(bs))).result
}

/// One block added to a [`ListBuilder`]; as `collect_step`, except that the
/// attributes of an emitted ordered list are kept.
pub open spec fn builder_step(st: ListState, b: SBlock) -> ListState {
    match b {
        SBlock::BulletList(items) => {
            let s = if st.ordered.len() > 0 {
                flush_ordered_keep(st)
            } else {
                st
            };
            ListState { bullets: s.bullets + items, ..s }
        },
        SBlock::OrderedList(a, items) => {
            let s1 = flush_bullets(st);
            let s2 = if s1.attrs is Some && s1.attrs->0 != a {
                flush_ordered_keep(s1)
            } else {
                s1
            };
            ListState { ordered: s2.ordered + items, attrs: Some(a), ..s2 }
        },
        _ => {
            let s = flush_ordered_keep(flush_bullets(st));
            ListState { result: s.result.push(b), ..s }
        },
    }
}

/// A builder's state after adding `bs` to the state `st`.
pub open spec fn builder_state(st: ListState, bs: Seq<SBlock>) -> ListState
    decreases bs.len(),
{
    if bs.len() == 0 {
        st
    } else {
        builder_step(builder_state(st, bs.drop_last()), bs.last())
    }
}

/// Groups consecutive list items into single lists.
pub struct ListBuilder {
    bullet_items: Vec<Vec<Block>>,
    ordered_items: Vec<Vec<Block>>,
    ordered_attrs: Option<ListAttributes>,
    result: Vec<Block>,
}

impl View for ListBuilder {
    type V = ListState;

    closed spec fn view(&self) -> ListState {
        ListState {
            result: blocks_view(self.result@),
            bullets: items_view(self.bullet_items@),
            ordered: items_view(self.ordered_items@),
            attrs: self.ordered_attrs,
        }
    }
}

impl ListBuilder {
    /// A builder with nothing emitted or pending.
    pub fn new() -> (r: Self)
        ensures
            r@ == empty_list_state(),
    {
        ListBuilder {
            bullet_items: Vec::new(),
            ordered_items: Vec::new(),
            ordered_attrs: None,
            result: Vec::new(),
        }
    }

    /// Adds a block.
    pub fn add_block(self, block: Block) -> (r: Self)
        ensures
            r@ == builder_step(self@, block@),
    {
        let mut s = self;
        match block {
            Block::BulletList(items) => s.add_bullet_items(items),
            Block::OrderedList(attrs, items) => s.add_ordered_items(attrs, items),
            other => {
                let ghost ob = other@;
                s.flush_lists();
                let ghost before = s.result@;
                s.result.push(other);
                assert(s.result@.drop_last() =~= before);
                assert(s@ =~= builder_step(self@, ob)) by {
                    assert(s@.result =~= flush_ordered_keep(flush_bullets(self@)).result.push(ob));
                }
            },
        }
        s
    }

    /// Adds blocks, in order.
    pub fn add_blocks(self, blocks: Vec<Block>) -> (r: Self)
        ensures
            r@ == builder_state(self@, blocks_view(blocks@)),
    {
        let ghost bv = blocks@;
        let ghost start = self@;
        let mut s = self;
        for b in it: blocks
            invariant
                it.seq() == bv,
                s@ == builder_state(start, blocks_view(bv.take(it.index() as int))),
        {
            let ghost i = it.index();
            s = s.add_block(b);
            proof {
                let t = blocks_view(bv.take(i + 1));
                assert(bv.take(i + 1).drop_last() =~= bv.take(i));
                assert(t.drop_last() =~= blocks_view(bv.take(i)));
            }
        }
        assert(bv.take(bv.len() as int) =~= bv);
        s
    }

    fn add_bullet_items(&mut self, items: Vec<Vec<Block>>)
        ensures
            final(self)@ == builder_step(old(self)@, SBlock::BulletList(items_view(items@))),
    {
        if self.ordered_items.len() > 0 {
            self.flush_ordered_list();
        }
        let mut items = items;
        let ghost a = self.bullet_items@;
        let ghost b = items@;
        self.bullet_items.append(&mut items);
        proof {
            lemma_items_view_add(a, b);
        }
    }

    fn add_ordered_items(&mut self, attrs: ListAttributes, items: Vec<Vec<Block>>)
        ensures
            final(self)@ == builder_step(old(self)@, SBlock::OrderedList(attrs, items_view(items@))),
    {
        if self.bullet_items.len() > 0 {
            self.flush_bullet_list();
        }
        match self.ordered_attrs {
            Some(current) => {
                if current != attrs {
                    self.flush_ordered_list();
                }
            },
            None => {},
        }
        self.ordered_attrs = Some(attrs);
        let mut items = items;
        let ghost a = self.ordered_items@;
        let ghost b = items@;
        self.ordered_items.append(&mut items);
        proof {
            lemma_items_view_add(a, b);
        }
    }

    fn flush_bullet_list(&mut self)
        ensures
            final(self)@ == flush_bullets(old(self)@),
    {
        if self.bullet_items.len() > 0 {
            let mut items = Vec::new();
            std::mem::swap(&mut items, &mut self.bullet_items);
            let ghost before = self.result@;
            let ghost pending = items@;
            self.result.push(Block::BulletList(items));
            assert(self.result@.drop_last() =~= before);
            assert(self.bullet_items@ =~= Seq::<Vec<Block>>::empty());
            assert(items_view(pending) == old(self)@.bullets);
            assert(self@.result =~= old(self)@.result.push(SBlock::BulletList(old(self)@.bullets)));
            assert(self@.bullets =~= Seq::<Seq<SBlock>>::empty());
        }
    }

    fn flush_ordered_list(&mut self)
        ensures
            final(self)@ == flush_ordered_keep(old(self)@),
    {
        if self.ordered_items.len() > 0 {
            match self.ordered_attrs {
                Some(attrs) => {
                    let mut items = Vec::new();
                    std::mem::swap(&mut items, &mut self.ordered_items);
                    let ghost before = self.result@;
                    self.result.push(Block::OrderedList(attrs, items));
                    assert(self.result@.drop_last() =~= before);
                    assert(self.ordered_items@ =~= Seq::<Vec<Block>>::empty());
                    assert(self@.result =~= old(self)@.result.push(
                        SBlock::OrderedList(attrs, old(self)@.ordered),
                    ));
                    assert(self@.ordered =~= Seq::<Seq<SBlock>>::empty());
                },
                None => {},
            }
        }
    }

    fn flush_lists(&mut self)
        ensures
            final(self)@ == flush_ordered_keep(flush_bullets(old(self)@)),
    {
        self.flush_bullet_list();
        self.flush_ordered_list();
    }

    /// The emitted blocks, after the pending lists are emitted.
    pub fn build(self) -> (r: Vec<Block>)
        ensures
            blocks_view(r@) == flush_ordered_keep(flush_bullets(self@)).result,
    {
        let mut s = self;
        s.flush_lists();
        s.result
    }

    /// Blocks with consecutive list blocks merged into single lists; other
    /// blocks are kept in place.
    pub fn collect_document_lists(blocks: Vec<Block>) -> (r: Vec<Block>)
        ensures
            blocks_view(r@) == spec_collect_document_lists(blocks_view(blocks@)),
    {
        let ghost bv = blocks@;
        let mut st = ListBuilder::new();
        for b in it: blocks
            invariant
                it.seq() == bv,
                st@ == collect_state(blocks_view(bv.take(it.index() as int))),
        {
            let ghost i = it.index();
            let ghost pre = st@;
            let ghost bb = b@;
            match b {
                Block::BulletList(items) => {
                    st.flush_ordered_and_forget();
                    let mut items = items;
                    let ghost x = st.bullet_items@;
                    let ghost y = items@;
                    st.bullet_items.append(&mut items);
                    proof {
                        lemma_items_view_add(x, y);
                    }
                },
                Block::OrderedList(attrs, items) => {
                    st.flush_bullet_list();
                    match st.ordered_attrs {
                        Some(current) => {
                            if current != attrs {
                                st.flush_ordered_and_forget();
                            }
                        },
                        None => {},
                    }
                    st.ordered_attrs = Some(attrs);
                    let mut items = items;
                    let ghost x = st.ordered_items@;
                    let ghost y = items@;
                    st.ordered_items.append(&mut items);
                    proof {
                        lemma_items_view_add(x, y);
                    }
                },
                other => {
                    st.flush_bullet_list();
                    st.flush_ordered_and_forget();
                    let ghost before = st.result@;
                    st.result.push(other);
                    assert(st.result@.drop_last() =~= before);
                },
            }
            proof {
                let t = blocks_view(bv.take(i + 1));
                assert(bv.take(i + 1).drop_last() =~= bv.take(i));
                assert(t.drop_last() =~= blocks_view(bv.take(i)));
                assert(st@ =~= collect_step(pre, bb));
            }
        }
        assert(bv.take(bv.len() as int) =~= bv);
        st.flush_bullet_list();
        st.flush_ordered_and_forget();
        st.result
    }

    fn flush_ordered_and_forget(&mut self)
        ensures
            final(self)@ == flush_ordered(old(self)@),
    {
        if self.ordered_items.len() > 0 {
            match self.ordered_attrs {
                Some(attrs) => {
                    let mut items = Vec::new();
                    std::mem::swap(&mut items, &mut self.ordered_items);
                    let ghost before = self.result@;
                    self.result.push(Block::OrderedList(attrs, items));
                    assert(self.result@.drop_last() =~= before);
                    assert(self.ordered_items@ =~= Seq::<Vec<Block>>::empty());
                    assert(self@.result =~= old(self)@.result.push(
                        SBlock::OrderedList(attrs, old(self)@.ordered),
                    ));
                    assert(self@.ordered =~= Seq::<Seq<SBlock>>::empty());
                    self.ordered_attrs = None;
                },
                None => {},
            }
        }
    }
}

/// The state invariant shared by the merging of `collect_document_lists`
/// and of a builder: pending ordered items always have attributes, and the
/// two states agree on all but the attributes kept after an emission.
pub open spec fn states_agree(c: ListState, b: ListState) -> bool {
    &&& c.result == b.result
    &&& c.bullets == b.bullets
    &&& c.ordered == b.ordered
    &&& (c.ordered.len() > 0 ==> c.attrs is Some)
    &&& (c.attrs is Some ==> c.attrs == b.attrs)
    &&& (b.ordered.len() > 0 ==> b.attrs is Some)
}

proof fn lemma_steps_agree(c: ListState, b: ListState, x: SBlock)
    requires
        states_agree(c, b),
    ensures
        states_agree(collect_step(c, x), builder_step(b, x)),
{
}

proof fn lemma_states_agree(bs: Seq<SBlock>)
    ensures
        states_agree(collect_state(bs), builder_state(empty_list_state(), bs)),
    decreases bs.len(),
{
    if bs.len() > 0 {
        lemma_states_agree(bs.drop_last());
        lemma_steps_agree(
            collect_state(bs.drop_last()),
            builder_state(empty_list_state(), bs.drop_last()),
            bs.last(),
        );
    }
}

/// A fresh builder given a document's blocks merges lists exactly as
/// `collect_document_lists` does.
pub proof fn law_builder_matches_collect(bs: Seq<SBlock>)
    ensures
        flush_ordered_keep(flush_bullets(builder_state(empty_list_state(), bs))).result
            == spec_collect_document_lists(bs),
{
    lemma_states_agree(bs);
}

/// One piece of what a document's lists hold: a bullet item, an ordered
/// item with the attributes of its list, or a block that is not a list.
pub enum ListPiece {
    Bullet(Seq<SBlock>),
    Ordered(ListAttributes, Seq<SBlock>),
    Kept(SBlock),
}

/// The items of a bullet list, as pieces.
pub open spec fn bullet_pieces(items: Seq<Seq<SBlock>>) -> Seq<ListPiece> {
    items.map_values(|x: Seq<SBlock>| ListPiece::Bullet(x))
}

/// The items of an ordered list with attributes `a`, as pieces.
pub open spec fn ordered_pieces(a: ListAttributes, items: Seq<Seq<SBlock>>) -> Seq<ListPiece> {
    items.map_values(|x: Seq<SBlock>| ListPiece::Ordered(a, x))
}

/// The pieces of one block: a list's items, or the block itself.
pub open spec fn block_pieces(b: SBlock) -> Seq<ListPiece> {
    match b {
        SBlock::BulletList(items) => bullet_pieces(items),
        SBlock::OrderedList(a, items) => ordered_pieces(a, items),
        _ => seq![ListPiece::Kept(b)],
    }
}

/// The pieces of blocks, one block after the other: the list items in
/// order, each with the kind (and attributes) of its list, and the other
/// blocks in between.
pub open spec fn list_pieces(bs: Seq<SBlock>) -> Seq<ListPiece>
    decreases bs.len(),
{
    if bs.len() == 0 {
        Seq::empty()
    } else {
        list_pieces(bs.drop_last()) + block_pieces(bs.last())
    }
}

/// Whether every list among `bs` has at least one item.
pub open spec fn no_empty_lists(bs: Seq<SBlock>) -> bool {
    forall|i: int|
        0 <= i < bs.len() ==> match #[trigger] bs[i] {
            SBlock::BulletList(items) => items.len() > 0,
            SBlock::OrderedList(_, items) => items.len() > 0,
            _ => true,
        }
}

/// Whether two blocks are lists that merging joins: two bullet lists, or
/// two ordered lists with equal attributes.
pub open spec fn mergeable(x: SBlock, y: SBlock) -> bool {
    ||| (x is BulletList && y is BulletList)
    ||| (x matches SBlock::OrderedList(a, _) && y matches SBlock::OrderedList(b, _) && a == b)
}

/// Whether no two neighbouring blocks are lists that merging joins.
pub open spec fn no_mergeable_neighbours(bs: Seq<SBlock>) -> bool {
    forall|i: int| 0 <= i && i + 1 < bs.len() ==> !mergeable(#[trigger] bs[i], bs[i + 1])
}

/// The items still pending in a merging state, as pieces.
pub open spec fn pending_pieces(st: ListState) -> Seq<ListPiece> {
    bullet_pieces(st.bullets) + match st.attrs {
        Some(a) => ordered_pieces(a, st.ordered),
        None => Seq::empty(),
    }
}

/// What list merging keeps true as it reads blocks.
pub open spec fn merge_inv(st: ListState) -> bool {
    &&& !(st.bullets.len() > 0 && st.ordered.len() > 0)
    &&& (st.ordered.len() > 0 <==> st.attrs is Some)
    &&& no_empty_lists(st.result)
    &&& no_mergeable_neighbours(st.result)
    &&& (st.result.len() > 0 && st.result.last() is BulletList ==> st.ordered.len() > 0)
    &&& (st.result.len() > 0 ==> (st.result.last() matches SBlock::OrderedList(a, _) ==> (st.bullets.len() > 0
        || (st.ordered.len() > 0 && st.attrs->0 != a))))
}

/// What emitting a pending list needs: [`merge_inv`] but for what it says
/// of the last emitted block and the pending bullet items.
pub open spec fn flushable(st: ListState) -> bool {
    &&& !(st.bullets.len() > 0 && st.ordered.len() > 0)
    &&& (st.ordered.len() > 0 <==> st.attrs is Some)
    &&& no_empty_lists(st.result)
    &&& no_mergeable_neighbours(st.result)
    &&& (st.bullets.len() > 0 && st.result.len() > 0 ==> !(st.result.last() is BulletList))
    &&& (st.ordered.len() > 0 && st.result.len() > 0 ==> (st.result.last() matches SBlock::OrderedList(a, _)
        ==> a != st.attrs->0))
}

proof fn lemma_pieces_push(bs: Seq<SBlock>, b: SBlock)
    ensures
        list_pieces(bs.push(b)) == list_pieces(bs) + block_pieces(b),
{
    assert(bs.push(b).drop_last() =~= bs);
}

proof fn lemma_pieces_add(a: Seq<Seq<SBlock>>, b: Seq<Seq<SBlock>>, x: ListAttributes)
    ensures
        bullet_pieces(a + b) == bullet_pieces(a) + bullet_pieces(b),
        ordered_pieces(x, a + b) == ordered_pieces(x, a) + ordered_pieces(x, b),
{
    assert(bullet_pieces(a + b) =~= bullet_pieces(a) + bullet_pieces(b));
    assert(ordered_pieces(x, a + b) =~= ordered_pieces(x, a) + ordered_pieces(x, b));
}

/// Emitting the pending bullet list keeps the pieces and the invariant.
proof fn lemma_flush_bullets(st: ListState)
    requires
        flushable(st),
    ensures
        flushable(flush_bullets(st)),
        list_pieces(flush_bullets(st).result) + pending_pieces(flush_bullets(st)) == list_pieces(st.result)
            + pending_pieces(st),
        flush_bullets(st).bullets.len() == 0,
        st.bullets.len() > 0 ==> flush_bullets(st).result == st.result.push(SBlock::BulletList(st.bullets)),
        st.bullets.len() == 0 ==> flush_bullets(st) == st,
{
    if st.bullets.len() > 0 {
        let f = flush_bullets(st);
        lemma_pieces_push(st.result, SBlock::BulletList(st.bullets));
        assert(bullet_pieces(Seq::empty()) =~= Seq::<ListPiece>::empty());
        assert(st.attrs is None);
        assert(pending_pieces(f) =~= Seq::<ListPiece>::empty());
        assert(pending_pieces(st) =~= bullet_pieces(st.bullets));
        assert(list_pieces(f.result) + pending_pieces(f) =~= list_pieces(st.result) + pending_pieces(st));
        assert forall|i: int| 0 <= i && i + 1 < f.result.len() implies !mergeable(#[trigger] f.result[i], f.result[i + 1]) by {
            if i + 1 < st.result.len() {
                assert(st.result[i] == f.result[i] && st.result[i + 1] == f.result[i + 1]);
            }
        }
        assert forall|i: int| 0 <= i < f.result.len() implies match #[trigger] f.result[i] {
            SBlock::BulletList(items) => items.len() > 0,
            SBlock::OrderedList(_, items) => items.len() > 0,
            _ => true,
        } by {
            if i < st.result.len() {
                assert(f.result[i] == st.result[i]);
            }
        }
    }
}

/// Emitting the pending ordered list keeps the pieces and the invariant.
proof fn lemma_flush_ordered(st: ListState)
    requires
        flushable(st),
    ensures
        flushable(flush_ordered(st)),
        list_pieces(flush_ordered(st).result) + pending_pieces(flush_ordered(st)) == list_pieces(st.result)
            + pending_pieces(st),
        flush_ordered(st).ordered.len() == 0,
        flush_ordered(st).attrs is None,
        flush_ordered(st).bullets == st.bullets,
        st.ordered.len() > 0 ==> flush_ordered(st).result == st.result.push(
            SBlock::OrderedList(st.attrs->0, st.ordered),
        ),
        st.ordered.len() == 0 ==> flush_ordered(st) == st,
{
    if st.ordered.len() > 0 {
        let f = flush_ordered(st);
        let a = st.attrs->0;
        lemma_pieces_push(st.result, SBlock::OrderedList(a, st.ordered));
        assert(st.bullets.len() == 0);
        assert(bullet_pieces(st.bullets) =~= Seq::<ListPiece>::empty());
        assert(pending_pieces(f) =~= Seq::<ListPiece>::empty());
        assert(pending_pieces(st) =~= ordered_pieces(a, st.ordered));
        assert(list_pieces(f.result) + pending_pieces(f) =~= list_pieces(st.result) + pending_pieces(st));
        assert forall|i: int| 0 <= i && i + 1 < f.result.len() implies !mergeable(#[trigger] f.result[i], f.result[i + 1]) by {
            if i + 1 < st.result.len() {
                assert(st.result[i] == f.result[i] && st.result[i + 1] == f.result[i + 1]);
            }
        }
        assert forall|i: int| 0 <= i < f.result.len() implies match #[trigger] f.result[i] {
            SBlock::BulletList(items) => items.len() > 0,
            SBlock::OrderedList(_, items) => items.len() > 0,
            _ => true,
        } by {
            if i < st.result.len() {
                assert(f.result[i] == st.result[i]);
            }
        }
    }
}

/// One block read keeps the invariant and adds the block's pieces.
proof fn lemma_collect_step(st: ListState, b: SBlock)
    requires
        merge_inv(st),
        no_empty_lists(seq![b]),
    ensures
        merge_inv(collect_step(st, b)),
        list_pieces(collect_step(st, b).result) + pending_pieces(collect_step(st, b)) == list_pieces(st.result)
            + pending_pieces(st) + block_pieces(b),
{
    assert(seq![b][0] == b);
    match b {
        SBlock::BulletList(items) => {
            lemma_flush_ordered(st);
            let s = flush_ordered(st);
            let n = collect_step(st, b);
            lemma_pieces_add(s.bullets, items, ListAttributes { start_number: 0, style: ListNumberStyle::Decimal, delim: ListNumberDelim::Period });
            assert(pending_pieces(s) =~= bullet_pieces(s.bullets));
            assert(pending_pieces(n) =~= bullet_pieces(s.bullets) + bullet_pieces(items));
            assert(list_pieces(n.result) + pending_pieces(n) =~= list_pieces(s.result) + pending_pieces(s)
                + block_pieces(b));
            if s.result.len() > 0 && s.result.last() is BulletList {
                lemma_flush_bullets(st);
            }
        },
        SBlock::OrderedList(a, items) => {
            lemma_flush_bullets(st);
            let s1 = flush_bullets(st);
            let s2 = if s1.attrs is Some && s1.attrs->0 != a {
                flush_ordered(s1)
            } else {
                s1
            };
            if s1.attrs is Some && s1.attrs->0 != a {
                lemma_flush_ordered(s1);
            }
            let n = collect_step(st, b);
            assert(n == ListState { ordered: s2.ordered + items, attrs: Some(a), ..s2 });
            lemma_pieces_add(s2.ordered, items, a);
            assert(s2.bullets.len() == 0);
            assert(bullet_pieces(s2.bullets) =~= Seq::<ListPiece>::empty());
            assert(bullet_pieces(n.bullets) =~= Seq::<ListPiece>::empty());
            if s2.attrs is Some {
                assert(s2.attrs->0 == a);
                assert(pending_pieces(s2) =~= ordered_pieces(a, s2.ordered));
            } else {
                assert(s2.ordered.len() == 0);
                assert(ordered_pieces(a, s2.ordered) =~= Seq::<ListPiece>::empty());
                assert(pending_pieces(s2) =~= Seq::<ListPiece>::empty());
            }
            assert(pending_pieces(n) =~= ordered_pieces(a, s2.ordered) + ordered_pieces(a, items));
            assert(list_pieces(n.result) + pending_pieces(n) =~= list_pieces(s2.result) + pending_pieces(s2)
                + block_pieces(b));
        },
        _ => {
            lemma_flush_bullets(st);
            let s1 = flush_bullets(st);
            lemma_flush_ordered(s1);
            let s = flush_ordered(s1);
            let n = collect_step(st, b);
            lemma_pieces_push(s.result, b);
            assert(bullet_pieces(s.bullets) =~= Seq::<ListPiece>::empty());
            assert(pending_pieces(s) =~= Seq::<ListPiece>::empty());
            assert(pending_pieces(n) =~= Seq::<ListPiece>::empty());
            assert(list_pieces(n.result) + pending_pieces(n) =~= list_pieces(s.result) + pending_pieces(s)
                + block_pieces(b));
            assert forall|i: int| 0 <= i && i + 1 < n.result.len() implies !mergeable(#[trigger] n.result[i], n.result[i + 1]) by {
                if i + 1 < s.result.len() {
                    assert(s.result[i] == n.result[i] && s.result[i + 1] == n.result[i + 1]);
                }
            }
            assert forall|i: int| 0 <= i < n.result.len() implies match #[trigger] n.result[i] {
                SBlock::BulletList(items) => items.len() > 0,
                SBlock::OrderedList(_, items) => items.len() > 0,
                _ => true,
            } by {
                if i < s.result.len() {
                    assert(n.result[i] == s.result[i]);
                }
            }
        },
    }
}

/// Reading blocks keeps the invariant, and the pieces emitted and pending
/// are those of the blocks read.
proof fn lemma_collect_state(bs: Seq<SBlock>)
    requires
        no_empty_lists(bs),
    ensures
        merge_inv(collect_state(bs)),
        list_pieces(collect_state(bs).result) + pending_pieces(collect_state(bs)) == list_pieces(bs),
    decreases bs.len(),
{
    if bs.len() == 0 {
        assert(pending_pieces(empty_list_state()) =~= Seq::<ListPiece>::empty());
        assert(list_pieces(Seq::<SBlock>::empty()) + Seq::<ListPiece>::empty() =~= Seq::<ListPiece>::empty());
    } else {
        let d = bs.drop_last();
        assert forall|i: int| 0 <= i < d.len() implies match #[trigger] d[i] {
            SBlock::BulletList(items) => items.len() > 0,
            SBlock::OrderedList(_, items) => items.len() > 0,
            _ => true,
        } by {
            assert(d[i] == bs[i]);
        }
        lemma_collect_state(d);
        assert(seq![bs.last()][0] == bs[bs.len() - 1]);
        lemma_collect_step(collect_state(d), bs.last());
    }
}

/// The merging state of blocks with no empty list and no mergeable
/// neighbours: everything emitted but a list at the end, which is pending.
pub open spec fn settled_state(p: Seq<SBlock>) -> ListState {
    if p.len() == 0 {
        empty_list_state()
    } else {
        match p.last() {
            SBlock::BulletList(items) => ListState {
                result: p.drop_last(),
                bullets: items,
                ordered: Seq::empty(),
                attrs: None,
            },
            SBlock::OrderedList(a, items) => ListState {
                result: p.drop_last(),
                bullets: Seq::empty(),
                ordered: items,
                attrs: Some(a),
            },
            _ => ListState { result: p, ..empty_list_state() },
        }
    }
}

proof fn lemma_settled(r: Seq<SBlock>, k: int)
    requires
        no_empty_lists(r),
        no_mergeable_neighbours(r),
        0 <= k <= r.len(),
    ensures
        collect_state(r.take(k)) == settled_state(r.take(k)),
    decreases k,
{
    if k > 0 {
        lemma_settled(r, k - 1);
        let p = r.take(k - 1);
        let q = r.take(k);
        let b = r[k - 1];
        assert(q.drop_last() =~= p);
        assert(q.last() == b);
        assert(q =~= p.push(b));
        let ps = settled_state(p);
        assert(collect_state(q) == collect_step(ps, b));
        let n = collect_step(ps, b);
        let want = settled_state(q);
        if k >= 2 {
            assert(p.last() == r[k - 2]);
            assert(!mergeable(r[k - 2], r[k - 1]));
            assert(p =~= p.drop_last().push(p.last()));
        }
        assert(no_empty_lists(seq![b])) by {
            assert(seq![b][0] == r[k - 1]);
        }
        if k >= 2 {
            match r[k - 2] {
                SBlock::BulletList(its) => {
                    assert(its.len() > 0);
                },
                SBlock::OrderedList(_, its) => {
                    assert(its.len() > 0);
                },
                _ => {},
            }
        }
        match b {
            SBlock::BulletList(items) => {
                assert(items.len() > 0);
                assert(Seq::<Seq<SBlock>>::empty() + items =~= items);
                assert(n.result =~= want.result);
                assert(n.bullets =~= want.bullets);
                assert(n.ordered =~= want.ordered);
            },
            SBlock::OrderedList(a, items) => {
                assert(items.len() > 0);
                assert(Seq::<Seq<SBlock>>::empty() + items =~= items);
                assert(n.result =~= want.result);
                assert(n.bullets =~= want.bullets);
                assert(n.ordered =~= want.ordered);
            },
            _ => {
                assert(n.result =~= want.result);
                assert(n.bullets =~= want.bullets);
                assert(n.ordered =~= want.ordered);
            },
        }
    }
}

/// Merging lists keeps every list item, in order, in a list of the same
/// kind (and, for ordered lists, the same attributes), and every other
/// block in its place among them; leaves no two neighbouring lists that
/// could be merged and no empty list; and merging again changes nothing.
/// This holds of blocks in which every list has at least one item.
pub proof fn law_collect_lists(bs: Seq<SBlock>)
    requires
        no_empty_lists(bs),
    ensures
        list_pieces(spec_collect_document_lists(bs)) == list_pieces(bs),
        no_mergeable_neighbours(spec_collect_document_lists(bs)),
        no_empty_lists(spec_collect_document_lists(bs)),
        spec_collect_document_lists(spec_collect_document_lists(bs)) == spec_collect_document_lists(bs),
{
    lemma_collect_state(bs);
    let st = collect_state(bs);
    lemma_flush_bullets(st);
    lemma_flush_ordered(flush_bullets(st));
    let f = flush_ordered(flush_bullets(st));
    assert(bullet_pieces(f.bullets) =~= Seq::<ListPiece>::empty());
    assert(pending_pieces(f) =~= Seq::<ListPiece>::empty());
    assert(list_pieces(f.result) + pending_pieces(f) =~= list_pieces(f.result));
    let r = f.result;
    lemma_settled(r, r.len() as int);
    assert(r.take(r.len() as int) =~= r);
    let s = settled_state(r);
    if r.len() > 0 {
        match r.last() {
            SBlock::BulletList(items) => {
                assert(r =~= r.drop_last().push(r.last()));
            },
            SBlock::OrderedList(a, items) => {
                assert(r =~= r.drop_last().push(r.last()));
            },
            _ => {},
        }
    }
}

/// The content of a Notion list item: a `Plain` block of its inlines, then
/// its converted children with their list items merged.
pub open spec fn item_content(inl: Seq<SInline>, children: Seq<SBlock>) -> Seq<SBlock> {
    seq![SBlock::Plain(inl)] + flush_ordered_keep(
        flush_bullets(builder_state(empty_list_state(), children)),
    ).result
}

/// The attributes of a converted numbered list: starting at 1, decimal,
/// with a period.
pub open spec fn numbered_list_attrs() -> ListAttributes {
    ListAttributes {
        start_number: 1,
        style: ListNumberStyle::Decimal,
        delim: ListNumberDelim::Period,
    }
}

/// A Notion bulleted item as a one-item bullet list.
pub open spec fn spec_bulleted_from_notion(v: STextValue, preserve: bool, children: Seq<SBlock>) -> SBlock {
    SBlock::BulletList(
        seq![
            item_content(
                spec_color_span(spec_convert_rich_texts(v.rich_text), v.color->0, preserve),
                children,
            ),
        ],
    )
}

/// A Notion numbered item as a one-item ordered list.
pub open spec fn spec_numbered_from_notion(v: STextValue, preserve: bool, children: Seq<SBlock>) -> SBlock {
    SBlock::OrderedList(
        numbered_list_attrs(),
        seq![
            item_content(
                spec_color_span(spec_convert_rich_texts(v.rich_text), v.color->0, preserve),
                children,
            ),
        ],
    )
}

/// The checkbox that starts a converted to-do item: `[x] ` when checked,
/// `[ ] ` otherwise, as inlines.
pub open spec fn checkbox(checked: bool) -> Seq<SInline> {
    seq![
        SInline::Str("["@),
        if checked {
            SInline::Str("x"@)
        } else {
            SInline::Space
        },
        SInline::Str("]"@),
        SInline::Space,
    ]
}

/// A Notion to-do item as a one-item bullet list whose text starts with a
/// checkbox.
pub open spec fn spec_todo_from_notion(v: SToDoValue, preserve: bool, children: Seq<SBlock>) -> SBlock {
    let inl = checkbox(v.checked == Some(true)) + spec_convert_rich_texts(v.rich_text);
    SBlock::BulletList(
        seq![
            item_content(
                match v.color {
                    Some(c) => spec_color_span(inl, c, preserve),
                    None => inl,
                },
                children,
            ),
        ],
    )
}

fn list_item(plain: Block, children_blocks: Vec<Block>) -> (r: Vec<Vec<Block>>)
    ensures
        items_view(r@) == seq![
            seq![plain@] + flush_ordered_keep(
                flush_bullets(builder_state(empty_list_state(), blocks_view(children_blocks@))),
            ).result,
        ],
{
    let mut item_content = Vec::new();
    item_content.push(plain);
    let mut grouped = ListBuilder::new().add_blocks(children_blocks).build();
    let ghost a = item_content@;
    let ghost b = grouped@;
    item_content.append(&mut grouped);
    proof {
        lemma_blocks_view_add(a, b);
        assert(blocks_view(a) =~= seq![plain@]);
    }
    let mut items = Vec::new();
    items.push(item_content);
    items
}

/// A Notion bulleted list item, with its already converted children, as a
/// one-item Pandoc bullet list; `None` for any other kind of block.
pub fn convert_notion_bulleted_list(block: &NotionBlock, config: &ConversionConfig, children_blocks: Vec<Block>) -> (r: Option<Block>)
    ensures
        match block@.block_type {
            SBlockType::BulletedListItem(v) => r is Some && r->0@ == spec_bulleted_from_notion(
                v,
                config.preserve_attributes,
                blocks_view(children_blocks@),
            ),
            _ => r is None,
        },
{
    match &block.block_type {
        BlockType::BulletedListItem { bulleted_list_item } => {
            let inlines = NotionTextConverter::convert(bulleted_list_item.rich_text.as_slice());
            let styled = color_span(inlines, &bulleted_list_item.color, config);
            let items = list_item(Block::Plain(styled), children_blocks);
            Some(Block::BulletList(items))
        },
        _ => None,
    }
}

/// A Notion numbered list item, with its already converted children, as a
/// one-item Pandoc ordered list starting at 1; `None` for any other kind of
/// block.
pub fn convert_notion_numbered_list(block: &NotionBlock, config: &ConversionConfig, children_blocks: Vec<Block>) -> (r: Option<Block>)
    ensures
        match block@.block_type {
            SBlockType::NumberedListItem(v) => r is Some && r->0@ == spec_numbered_from_notion(
                v,
                config.preserve_attributes,
                blocks_view(children_blocks@),
            ),
            _ => r is None,
        },
{
    match &block.block_type {
        BlockType::NumberedListItem { numbered_list_item } => {
            let inlines = NotionTextConverter::convert(numbered_list_item.rich_text.as_slice());
            let styled = color_span(inlines, &numbered_list_item.color, config);
            let items = list_item(Block::Plain(styled), children_blocks);
            let list_attrs = ListAttributes {
                start_number: 1,
                style: ListNumberStyle::Decimal,
                delim: ListNumberDelim::Period,
            };
            Some(Block::OrderedList(list_attrs, items))
        },
        _ => None,
    }
}

/// A Notion to-do item, with its already converted children, as a one-item
/// Pandoc bullet list whose text starts with `[x] ` or `[ ] `; `None` for
/// any other kind of block.
pub fn convert_notion_todo(block: &NotionBlock, config: &ConversionConfig, children_blocks: Vec<Block>) -> (r: Option<Block>)
    ensures
        match block@.block_type {
            SBlockType::ToDo(v) => r is Some && r->0@ == spec_todo_from_notion(
                v,
                config.preserve_attributes,
                blocks_view(children_blocks@),
            ),
            _ => r is None,
        },
{
    match &block.block_type {
        BlockType::ToDo { to_do } => {
            let mut inlines = Vec::new();
            inlines.push(Inline::Str(string_of("[")));
            let checked = match to_do.checked {
                Some(c) => c,
                None => false,
            };
            if checked {
                inlines.push(Inline::Str(string_of("x")));
            } else {
                inlines.push(Inline::Space);
            }
            inlines.push(Inline::Str(string_of("]")));
            inlines.push(Inline::Space);
            let ghost a = inlines@;
            assert(inlines_view(a) =~= checkbox(to_do.checked == Some(true)));
            let mut todo_inlines = NotionTextConverter::convert(to_do.rich_text.as_slice());
            let ghost b = todo_inlines@;
            inlines.append(&mut todo_inlines);
            proof {
                lemma_inlines_view_add(a, b);
            }
            let styled = match &to_do.color {
                Some(color) => color_span(inlines, color, config),
                None => inlines,
            };
            let items = list_item(Block::Plain(styled), children_blocks);
            Some(Block::BulletList(items))
        },
        _ => None,
    }
}

/// A Notion bulleted list item, without children, as a Pandoc bullet list.
pub fn try_convert_to_bulleted_list(block: &NotionBlock, config: &ConversionConfig) -> (r: Option<Block>)
    ensures
        match block@.block_type {
            SBlockType::BulletedListItem(v) => r is Some && r->0@ == spec_bulleted_from_notion(
                v,
                config.preserve_attributes,
                Seq::empty(),
            ),
            _ => r is None,
        },
{
    convert_notion_bulleted_list(block, config, Vec::new())
}

/// A Notion numbered list item, without children, as a Pandoc ordered list.
pub fn try_convert_to_numbered_list(block: &NotionBlock, config: &ConversionConfig) -> (r: Option<Block>)
    ensures
        match block@.block_type {
            SBlockType::NumberedListItem(v) => r is Some && r->0@ == spec_numbered_from_notion(
                v,
                config.preserve_attributes,
                Seq::empty(),
            ),
            _ => r is None,
        },
{
    convert_notion_numbered_list(block, config, Vec::new())
}

/// A Notion to-do item, without children, as a Pandoc bullet list.
pub fn try_convert_to_todo(block: &NotionBlock, config: &ConversionConfig) -> (r: Option<Block>)
    ensures
        match block@.block_type {
            SBlockType::ToDo(v) => r is Some && r->0@ == spec_todo_from_notion(
                v,
                config.preserve_attributes,
                Seq::empty(),
            ),
            _ => r is None,
        },
{
    convert_notion_todo(block, config, Vec::new())
}

} // verus!
