//! Uploading blocks to the Notion API level by level.
//!
//! The API limits how deeply nested the blocks of one request may be, so
//! every block is sent without its children, and the children of each
//! follow, level by level, once the API has answered with the identifier of
//! their parent.  What to send next is decided by [`LevelOrderUpload`]; the
//! requests themselves are made by the caller, in batches from
//! [`split_into_batches`].
use crate::block_copy::{copy_blocks, copy_opt_string};
use crate::strings::string_of;
use crate::notion_api::{notion_blocks_view, BlockType, NotionBlock, SBlockType, SNotionBlock, STextValue, SToDoValue};
use crate::notion_block_fetcher::kind_children;
use std::collections::VecDeque;
use vstd::hash_map::StringHashMap;
use vstd::prelude::*;

verus! {

broadcast use crate::notion_api::lemma_notion_blocks_view;

/// How blocks are uploaded.
#[derive(Debug, Clone, Copy)]
pub struct BlockPutterConfig {
    /// Pause after each request, in milliseconds.
    pub api_call_delay_ms: u64,
    /// How many blocks go in one request (the API takes at most 100).
    pub batch_size: usize,
}

impl Default for BlockPutterConfig {
    fn default() -> (r: Self)
        ensures
            r.api_call_delay_ms == 100,
            r.batch_size == 50,
    {
        BlockPutterConfig { api_call_delay_ms: 100, batch_size: 50 }
    }
}

/// Text content without children.
pub open spec fn text_without_children(v: STextValue) -> STextValue {
    STextValue { rich_text: v.rich_text, color: v.color, children: None }
}

/// The kind and content with the children taken out.
pub open spec fn kind_without_children(t: SBlockType) -> SBlockType {
    match t {
        SBlockType::Paragraph(v) => SBlockType::Paragraph(text_without_children(v)),
        SBlockType::BulletedListItem(v) => SBlockType::BulletedListItem(text_without_children(v)),
        SBlockType::NumberedListItem(v) => SBlockType::NumberedListItem(text_without_children(v)),
        SBlockType::ToDo(v) => SBlockType::ToDo(
            SToDoValue { rich_text: v.rich_text, checked: v.checked, color: v.color, children: None },
        ),
        SBlockType::Toggle(v) => SBlockType::Toggle(text_without_children(v)),
        SBlockType::Quote(v) => SBlockType::Quote(text_without_children(v)),
        _ => t,
    }
}

/// The block with its children taken out.
pub open spec fn spec_detach(b: SNotionBlock) -> SNotionBlock {
    SNotionBlock {
        object: b.object,
        id: b.id,
        parent: b.parent,
        archived: b.archived,
        has_children: b.has_children,
        block_type: kind_without_children(b.block_type),
    }
}

/// The children a block carries, none when it carries no list.
pub open spec fn carried_children(b: SNotionBlock) -> Seq<SNotionBlock> {
    match kind_children(b.block_type) {
        Some(c) => c,
        None => Seq::empty(),
    }
}

/// Takes the children out of a block's content and returns them (none when
/// its kind holds no children or it carries none).
pub fn extract_children(block: &mut NotionBlock) -> (r: Vec<NotionBlock>)
    ensures
        notion_blocks_view(r@) == carried_children(old(block)@),
        final(block)@ == spec_detach(old(block)@),
{
    let taken = match &mut block.block_type {
        BlockType::Paragraph { paragraph } => paragraph.children.take(),
        BlockType::BulletedListItem { bulleted_list_item } => bulleted_list_item.children.take(),
        BlockType::NumberedListItem { numbered_list_item } => numbered_list_item.children.take(),
        BlockType::ToDo { to_do } => to_do.children.take(),
        BlockType::Toggle { toggle } => toggle.children.take(),
        BlockType::Quote { quote } => quote.children.take(),
        _ => None,
    };
    match taken {
        Some(c) => c,
        None => {
            let r: Vec<NotionBlock> = Vec::new();
            assert(notion_blocks_view(r@) =~= Seq::empty());
            r
        },
    }
}

/// Consecutive batches of at most `size` blocks, all full but the last.
pub open spec fn batches_of(bs: Seq<SNotionBlock>, size: nat) -> Seq<Seq<SNotionBlock>>
    decreases bs.len(),
{
    if bs.len() == 0 || size == 0 {
        Seq::empty()
    } else if bs.len() <= size {
        seq![bs]
    } else {
        seq![bs.take(size as int)] + batches_of(bs.skip(size as int), size)
    }
}

/// The batches put back together, one after the other.
pub open spec fn concat_batches(bss: Seq<Seq<SNotionBlock>>) -> Seq<SNotionBlock>
    decreases bss.len(),
{
    if bss.len() == 0 {
        Seq::empty()
    } else {
        bss[0] + concat_batches(bss.drop_first())
    }
}

/// The batches, put back together, are the blocks they were made from, and
/// each holds between one and `size` blocks.
pub proof fn law_batches_cover(bs: Seq<SNotionBlock>, size: nat)
    requires
        size > 0,
    ensures
        concat_batches(batches_of(bs, size)) == bs,
        forall|i: int| 0 <= i < batches_of(bs, size).len() ==> 0 < (#[trigger] batches_of(bs, size)[i]).len() <= size,
    decreases bs.len(),
{
    if bs.len() == 0 {
        assert(bs =~= Seq::empty());
    } else if bs.len() <= size {
        assert(seq![bs].drop_first() =~= Seq::<Seq<SNotionBlock>>::empty());
        assert(bs + Seq::<SNotionBlock>::empty() =~= bs);
        assert(batches_of(bs, size) == seq![bs]);
        assert(seq![bs][0] == bs);
        assert(concat_batches(seq![bs]) == bs + concat_batches(Seq::<Seq<SNotionBlock>>::empty()));
        assert(concat_batches(batches_of(bs, size)) == bs);
    } else {
        law_batches_cover(bs.skip(size as int), size);
        let rest = batches_of(bs.skip(size as int), size);
        assert((seq![bs.take(size as int)] + rest).drop_first() =~= rest);
        assert((seq![bs.take(size as int)] + rest)[0] == bs.take(size as int));
        assert(batches_of(bs, size) == seq![bs.take(size as int)] + rest);
        assert(concat_batches(batches_of(bs, size)) == bs.take(size as int) + concat_batches(rest));
        assert(concat_batches(batches_of(bs, size)) == bs);
        assert(bs.take(size as int) + bs.skip(size as int) =~= bs);
        assert forall|i: int| 0 <= i < batches_of(bs, size).len() implies 0 < (#[trigger] batches_of(
            bs,
            size,
        )[i]).len() <= size by {
            if i > 0 {
                assert(batches_of(bs, size)[i] == rest[i - 1]);
            }
        }
    }
}

/// Taking a block's children out and attaching them again gives back the
/// block, when it carried a non-empty list.
pub proof fn law_attach_after_extract(b: SNotionBlock)
    requires
        carried_children(b).len() > 0,
    ensures
        crate::notion_block_fetcher::spec_attach(spec_detach(b), carried_children(b)) == b,
{
}

/// A block prepared for upload carries no children.
pub proof fn law_prepared_carry_nothing(bs: Seq<SNotionBlock>, r: Seq<SNotionBlock>, i: int)
    requires
        prepared(bs, r),
        0 <= i < r.len(),
    ensures
        carried_children(r[i]).len() == 0,
        kind_children(r[i].block_type) is None,
{
}

/// Splits `blocks` into consecutive batches of `batch_size` blocks, the last
/// holding what is left (see [`batches_of`]).
pub fn split_into_batches(blocks: Vec<NotionBlock>, batch_size: usize) -> (r: Vec<Vec<NotionBlock>>)
    requires
        batch_size > 0,
    ensures
        r@.map_values(|b: Vec<NotionBlock>| notion_blocks_view(b@)) == batches_of(
            notion_blocks_view(blocks@),
            batch_size as nat,
        ),
{
    let ghost all = notion_blocks_view(blocks@);
    let mut rest = blocks;
    let mut r: Vec<Vec<NotionBlock>> = Vec::new();
    while rest.len() > 0
        invariant
            batch_size > 0,
            r@.map_values(|b: Vec<NotionBlock>| notion_blocks_view(b@)) + batches_of(
                notion_blocks_view(rest@),
                batch_size as nat,
            ) == batches_of(all, batch_size as nat),
        decreases rest.len(),
    {
        let ghost rv = notion_blocks_view(rest@);
        let mut batch: Vec<NotionBlock> = Vec::new();
        while batch.len() < batch_size && rest.len() > 0
            invariant
                batch@.len() <= batch_size,
                notion_blocks_view(batch@) + notion_blocks_view(rest@) == rv,
            decreases rest.len(),
        {
            let ghost before = rest@;
            let ghost bb = batch@;
            let b = rest.remove(0);
            batch.push(b);
            proof {
                crate::notion_api::lemma_notion_blocks_view(before);
                crate::notion_api::lemma_notion_blocks_view(rest@);
                crate::notion_api::lemma_notion_blocks_view(batch@);
                crate::notion_api::lemma_notion_blocks_view(bb);
                assert(rest@ =~= before.subrange(1, before.len() as int));
                assert(notion_blocks_view(batch@) + notion_blocks_view(rest@) =~= notion_blocks_view(bb)
                    + notion_blocks_view(before));
            }
        }
        let ghost bv = notion_blocks_view(batch@);
        let ghost r0 = r@.map_values(|b: Vec<NotionBlock>| notion_blocks_view(b@));
        proof {
            crate::notion_api::lemma_notion_blocks_view(batch@);
            crate::notion_api::lemma_notion_blocks_view(rest@);
            if rv.len() <= batch_size {
                assert(rest@.len() == 0);
                assert(bv =~= rv);
                assert(batches_of(rv, batch_size as nat) == seq![rv]);
                assert(batches_of(notion_blocks_view(rest@), batch_size as nat) =~= Seq::empty());
            } else {
                assert(bv.len() == batch_size);
                assert(bv =~= rv.take(batch_size as int));
                assert(notion_blocks_view(rest@) =~= rv.skip(batch_size as int));
            }
        }
        r.push(batch);
        proof {
            assert(r@.map_values(|b: Vec<NotionBlock>| notion_blocks_view(b@)) =~= r0.push(bv));
            if rv.len() <= batch_size {
                assert(r0.push(bv) + batches_of(notion_blocks_view(rest@), batch_size as nat) =~= r0
                    + batches_of(rv, batch_size as nat));
            } else {
                assert(r0.push(bv) + batches_of(notion_blocks_view(rest@), batch_size as nat) =~= r0
                    + batches_of(rv, batch_size as nat));
            }
        }
    }
    proof {
        assert(batches_of(notion_blocks_view(rest@), batch_size as nat) =~= Seq::empty());
        assert(r@.map_values(|b: Vec<NotionBlock>| notion_blocks_view(b@)) =~= r@.map_values(
            |b: Vec<NotionBlock>| notion_blocks_view(b@),
        ) + Seq::<Seq<SNotionBlock>>::empty());
    }
    r
}

/// A fresh identifier: `uuid::Uuid::new_v4()` written out by `to_string`,
/// in the hyphenated form of 36 characters.  Which identifier comes out is
/// random and is not stated.
#[verifier::external_body]
fn new_temp_id() -> (r: String)
    ensures
        r@.len() == 36,
{
    uuid::Uuid::new_v4().to_string()
}

/// The block under the identifier `id`.
pub open spec fn with_id(b: SNotionBlock, id: Seq<char>) -> SNotionBlock {
    SNotionBlock {
        object: b.object,
        id: Some(id),
        parent: b.parent,
        archived: b.archived,
        has_children: b.has_children,
        block_type: b.block_type,
    }
}

/// The table `m` with the children of the first `n` of `bs` added, each list
/// under the identifier given to its block in `ids` (a later list replaces
/// an earlier one under the same identifier); blocks without children add
/// nothing.
pub open spec fn add_children_table(
    m: Map<Seq<char>, Seq<SNotionBlock>>,
    ids: Seq<Seq<char>>,
    bs: Seq<SNotionBlock>,
    n: nat,
) -> Map<Seq<char>, Seq<SNotionBlock>>
    decreases n,
{
    if n == 0 {
        m
    } else {
        let t = add_children_table(m, ids, bs, (n - 1) as nat);
        if carried_children(bs[n - 1]).len() > 0 {
            t.insert(ids[n - 1], carried_children(bs[n - 1]))
        } else {
            t
        }
    }
}

/// The children of the first `n` of `bs`, each list under the identifier
/// given to its block in `ids` (see [`add_children_table`]).
pub open spec fn children_table(ids: Seq<Seq<char>>, bs: Seq<SNotionBlock>, n: nat) -> Map<
    Seq<char>,
    Seq<SNotionBlock>,
> {
    add_children_table(Map::empty(), ids, bs, n)
}

/// The identifiers of blocks that all have one.
pub open spec fn ids_of_blocks(bs: Seq<SNotionBlock>) -> Seq<Seq<char>> {
    bs.map_values(|b: SNotionBlock| b.id->0)
}

/// Whether `r` is `bs` prepared for upload: each block under its own
/// identifier, or a fresh one of 36 characters where it had none, with its
/// children taken out.
pub open spec fn prepared(bs: Seq<SNotionBlock>, r: Seq<SNotionBlock>) -> bool {
    &&& r.len() == bs.len()
    &&& forall|i: int| 0 <= i < r.len() ==> (#[trigger] r[i]).id is Some
    &&& forall|i: int| 0 <= i < r.len() ==> r[i] == with_id(spec_detach(bs[i]), #[trigger] r[i].id->0)
    &&& forall|i: int| 0 <= i < r.len() ==> match (#[trigger] bs[i]).id {
        Some(id) => r[i].id == Some(id),
        None => r[i].id->0.len() == 36,
    }
}

/// Prepares blocks for upload: each gets an identifier (its own, or a fresh
/// one) and loses its children, which are kept by that identifier.
pub fn preprocess_blocks(blocks: Vec<NotionBlock>) -> (r: (Vec<NotionBlock>, StringHashMap<Vec<NotionBlock>>))
    ensures
        prepared(notion_blocks_view(blocks@), notion_blocks_view(r.0@)),
        r.1@.map_values(|v: Vec<NotionBlock>| notion_blocks_view(v@)) == children_table(
            ids_of_blocks(notion_blocks_view(r.0@)),
            notion_blocks_view(blocks@),
            blocks@.len() as nat,
        ),
{
    let mut table: StringHashMap<Vec<NotionBlock>> = StringHashMap::new();
    assert(table@.map_values(|v: Vec<NotionBlock>| notion_blocks_view(v@)) =~= Map::empty());
    let processed = prepare_into(blocks, &mut table);
    (processed, table)
}

/// Prepares blocks for upload as [`preprocess_blocks`] does, adding the
/// children taken out to `table`.
fn prepare_into(blocks: Vec<NotionBlock>, table: &mut StringHashMap<Vec<NotionBlock>>) -> (r: Vec<NotionBlock>)
    ensures
        prepared(notion_blocks_view(blocks@), notion_blocks_view(r@)),
        final(table)@.map_values(|v: Vec<NotionBlock>| notion_blocks_view(v@)) == add_children_table(
            old(table)@.map_values(|v: Vec<NotionBlock>| notion_blocks_view(v@)),
            ids_of_blocks(notion_blocks_view(r@)),
            notion_blocks_view(blocks@),
            blocks@.len() as nat,
        ),
{
    let ghost base = table@.map_values(|v: Vec<NotionBlock>| notion_blocks_view(v@));
    let ghost all = notion_blocks_view(blocks@);
    proof {
        crate::notion_api::lemma_notion_blocks_view(blocks@);
    }
    let n: usize = blocks.len();
    let mut rest = blocks;
    let mut processed: Vec<NotionBlock> = Vec::new();
    let mut i: usize = 0;
    while rest.len() > 0
        invariant
            all.len() == n,
            i + rest@.len() == n,
            notion_blocks_view(rest@) == all.subrange(i as int, all.len() as int),
            prepared(all.take(i as int), notion_blocks_view(processed@)),
            table@.map_values(|v: Vec<NotionBlock>| notion_blocks_view(v@)) == add_children_table(
                base,
                ids_of_blocks(notion_blocks_view(processed@)),
                all,
                i as nat,
            ),
        decreases rest.len(),
    {
        let ghost before = rest@;
        let ghost p0 = processed@;
        let ghost t0 = table@;
        let mut block = rest.remove(0);
        proof {
            crate::notion_api::lemma_notion_blocks_view(before);
            crate::notion_api::lemma_notion_blocks_view(rest@);
            assert(notion_blocks_view(before)[0] == all[i as int]);
            assert(rest@ =~= before.subrange(1, before.len() as int));
            assert forall|j: int| 0 <= j < rest@.len() implies #[trigger] notion_blocks_view(rest@)[j]
                == all[i + 1 + j] by {
                assert(rest@[j] == before[j + 1]);
                assert(notion_blocks_view(before)[j + 1] == before[j + 1]@);
                assert(all.subrange(i as int, all.len() as int)[j + 1] == all[i + 1 + j]);
            }
            assert(notion_blocks_view(rest@) =~= all.subrange(i + 1, all.len() as int));
        }
        let ghost b0 = block@;
        let temp_id = match &block.id {
            Some(id) => id.clone(),
            None => new_temp_id(),
        };
        block.id = Some(temp_id.clone());
        let children = extract_children(&mut block);
        let ghost k = temp_id@;
        let ghost cv = notion_blocks_view(children@);
        if children.len() > 0 {
            table.insert(temp_id, children);
        }
        processed.push(block);
        proof {
            crate::notion_api::lemma_notion_blocks_view(processed@);
            crate::notion_api::lemma_notion_blocks_view(p0);
            let pv = notion_blocks_view(processed@);
            let pv0 = notion_blocks_view(p0);
            assert(pv.drop_last() =~= pv0);
            assert(pv.last() == with_id(spec_detach(b0), k));
            assert(all.take(i + 1).drop_last() =~= all.take(i as int));
            assert(b0 == all[i as int]);
            assert(match b0.id {
                Some(id) => k == id,
                None => k.len() == 36,
            });
            let tk = all.take(i + 1);
            assert forall|j: int| 0 <= j < pv.len() implies (#[trigger] pv[j]).id is Some && pv[j]
                == with_id(spec_detach(tk[j]), pv[j].id->0) && match tk[j].id {
                Some(id) => pv[j].id == Some(id),
                None => pv[j].id->0.len() == 36,
            } by {
                if j < i {
                    assert(pv[j] == pv0[j]);
                    assert(tk[j] == all.take(i as int)[j]);
                } else {
                    assert(tk[j] == b0);
                }
            }
            assert(prepared(tk, pv));
            assert(ids_of_blocks(pv).drop_last() =~= ids_of_blocks(pv0));
            assert(ids_of_blocks(pv)[i as int] == k);
            lemma_children_table_prefix(base, ids_of_blocks(pv), ids_of_blocks(pv0), all, i as nat);
            if cv.len() > 0 {
                assert(table@.map_values(|v: Vec<NotionBlock>| notion_blocks_view(v@)) =~= t0.map_values(
                    |v: Vec<NotionBlock>| notion_blocks_view(v@),
                ).insert(k, cv));
            }
        }
        i = i + 1;
    }
    proof {
        assert(all.take(i as int) =~= all);
    }
    processed
}

/// The children table depends only on the identifiers of the blocks it
/// covers.
proof fn lemma_children_table_prefix(
    m: Map<Seq<char>, Seq<SNotionBlock>>,
    a: Seq<Seq<char>>,
    b: Seq<Seq<char>>,
    bs: Seq<SNotionBlock>,
    n: nat,
)
    requires
        n <= a.len(),
        n <= b.len(),
        forall|j: int| 0 <= j < n ==> a[j] == b[j],
    ensures
        add_children_table(m, a, bs, n) == add_children_table(m, b, bs, n),
    decreases n,
{
    if n > 0 {
        lemma_children_table_prefix(m, a, b, bs, (n - 1) as nat);
    }
}

/// A level-order upload as far as it has gone: the children kept back by
/// the identifier of their parent (any block prepared for upload so far), the identifiers of the
/// top-level blocks, the identifiers the API gave the uploaded blocks, the
/// uploads still to make (parent identifier and blocks), and the blocks of
/// the upload in flight.
pub struct SUpload {
    pub children: Map<Seq<char>, Seq<SNotionBlock>>,
    pub top: Seq<Seq<char>>,
    pub ids: Map<Seq<char>, Seq<char>>,
    pub queue: Seq<(Seq<char>, Seq<SNotionBlock>)>,
    pub pending: Seq<SNotionBlock>,
}

/// The identifier map after the first `n` answered identifiers of the
/// top-level upload are recorded for the blocks in the same positions.
pub open spec fn map_top(m: Map<Seq<char>, Seq<char>>, top: Seq<Seq<char>>, ids: Seq<Seq<char>>, n: nat) -> Map<
    Seq<char>,
    Seq<char>,
>
    decreases n,
{
    if n == 0 {
        m
    } else {
        let m2 = map_top(m, top, ids, (n - 1) as nat);
        if n - 1 < top.len() {
            m2.insert(top[n - 1], ids[n - 1])
        } else {
            m2
        }
    }
}

/// The uploads queued for the first `n` top-level blocks: for each
/// identifier at its first occurrence, once the API has given it an
/// identifier and children were kept for it.
pub open spec fn enqueue_top(s: SUpload, n: nat) -> Seq<(Seq<char>, Seq<SNotionBlock>)>
    decreases n,
{
    if n == 0 {
        Seq::empty()
    } else {
        let q = enqueue_top(s, (n - 1) as nat);
        let t = s.top[n - 1];
        if !s.top.take(n - 1).contains(t) && s.ids.contains_key(t) && s.children.contains_key(t) {
            q.push((s.ids[t], s.children[t]))
        } else {
            q
        }
    }
}

/// The state after the top-level upload is answered with `ids`.
pub open spec fn spec_top_uploaded(s: SUpload, ids: Seq<Seq<char>>) -> SUpload {
    let s1 = SUpload { ids: map_top(s.ids, s.top, ids, ids.len()), ..s };
    SUpload { queue: s.queue + enqueue_top(s1, s.top.len()), ..s1 }
}

/// The state after the first `n` answered identifiers of the upload in
/// flight are taken in: each uploaded block with an identifier is mapped to
/// the answer in its position, and the children kept for it are queued
/// under that answer.
pub open spec fn after_children(s: SUpload, ids: Seq<Seq<char>>, n: nat) -> SUpload
    decreases n,
{
    if n == 0 {
        s
    } else {
        let t = after_children(s, ids, (n - 1) as nat);
        let i = n - 1;
        if i < s.pending.len() && s.pending[i].id is Some {
            let k = s.pending[i].id->0;
            SUpload {
                ids: t.ids.insert(k, ids[i]),
                queue: if t.children.contains_key(k) {
                    t.queue.push((ids[i], t.children[k]))
                } else {
                    t.queue
                },
                ..t
            }
        } else {
            t
        }
    }
}

/// The state after the upload in flight is answered with `ids`.
pub open spec fn spec_children_uploaded(s: SUpload, ids: Seq<Seq<char>>) -> SUpload {
    SUpload { pending: Seq::empty(), ..after_children(s, ids, ids.len()) }
}

/// An upload in progress.  [`LevelOrderUpload::new`] gives the top-level
/// blocks to send to the page, whose answer goes to
/// [`LevelOrderUpload::top_level_uploaded`]; then, while
/// [`LevelOrderUpload::next_upload`] gives a parent and blocks, the caller
/// sends them and hands the answer to
/// [`LevelOrderUpload::children_uploaded`].
pub struct LevelOrderUpload {
    children: StringHashMap<Vec<NotionBlock>>,
    top: Vec<String>,
    ids: StringHashMap<String>,
    queue: VecDeque<(String, Vec<NotionBlock>)>,
    pending: Vec<NotionBlock>,
}

/// The queued uploads.
pub open spec fn uploads_view(q: Seq<(String, Vec<NotionBlock>)>) -> Seq<(Seq<char>, Seq<SNotionBlock>)> {
    q.map_values(|p: (String, Vec<NotionBlock>)| (p.0@, notion_blocks_view(p.1@)))
}

impl View for LevelOrderUpload {
    type V = SUpload;

    closed spec fn view(&self) -> SUpload {
        SUpload {
            children: self.children@.map_values(|v: Vec<NotionBlock>| notion_blocks_view(v@)),
            top: self.top@.map_values(|s: String| s@),
            ids: self.ids@.map_values(|s: String| s@),
            queue: uploads_view(self.queue@),
            pending: notion_blocks_view(self.pending@),
        }
    }
}

impl LevelOrderUpload {
    /// Starts an upload of `blocks`: returns the state and the top-level
    /// blocks to send, prepared by [`preprocess_blocks`].
    pub fn new(blocks: Vec<NotionBlock>) -> (r: (Self, Vec<NotionBlock>))
        ensures
            prepared(notion_blocks_view(blocks@), notion_blocks_view(r.1@)),
            r.0@ == (SUpload {
                children: children_table(
                    ids_of_blocks(notion_blocks_view(r.1@)),
                    notion_blocks_view(blocks@),
                    blocks@.len() as nat,
                ),
                top: ids_of_blocks(notion_blocks_view(r.1@)),
                ids: Map::empty(),
                queue: Seq::empty(),
                pending: Seq::empty(),
            }),
    {
        let (processed, table) = preprocess_blocks(blocks);
        let mut top: Vec<String> = Vec::new();
        let ghost pv = notion_blocks_view(processed@);
        proof {
            crate::notion_api::lemma_notion_blocks_view(processed@);
        }
        let mut i: usize = 0;
        while i < processed.len()
            invariant
                i <= processed@.len(),
                pv == notion_blocks_view(processed@),
                pv.len() == processed@.len(),
                forall|j: int| 0 <= j < pv.len() ==> (#[trigger] pv[j]).id is Some,
                top@.map_values(|s: String| s@) == ids_of_blocks(pv).take(i as int),
            decreases processed@.len() - i,
        {
            let ghost t0 = top@;
            proof {
                assert(pv[i as int] == processed@[i as int]@);
                assert(pv[i as int].id is Some);
            }
            match &processed[i].id {
                Some(id) => {
                    top.push(id.clone());
                    proof {
                        assert(ids_of_blocks(pv)[i as int] == id@);
                        assert(top@.map_values(|s: String| s@) =~= t0.map_values(|s: String| s@).push(id@));
                        assert(ids_of_blocks(pv).take(i + 1) =~= ids_of_blocks(pv).take(i as int).push(id@));
                        assert(top@.map_values(|s: String| s@) =~= ids_of_blocks(pv).take(i + 1));
                    }
                },
                None => {
                    proof {
                        assert(false);
                    }
                },
            }
            i = i + 1;
        }
        proof {
            assert(ids_of_blocks(pv).take(i as int) =~= ids_of_blocks(pv));
        }
        let up = LevelOrderUpload {
            children: table,
            top,
            ids: StringHashMap::new(),
            queue: VecDeque::new(),
            pending: Vec::new(),
        };
        proof {
            assert(up@.ids =~= Map::empty());
            assert(up@.queue =~= Seq::empty());
            assert(up@.pending =~= Seq::empty());
        }
        (up, processed)
    }

    /// Takes in the identifiers the API gave the top-level blocks, in the
    /// order they were sent, and queues the children kept for each (see
    /// [`spec_top_uploaded`]).  The queue follows the order of the top-level
    /// blocks.
    pub fn top_level_uploaded(&mut self, ids: Vec<String>)
        ensures
            final(self)@ == spec_top_uploaded(old(self)@, ids@.map_values(|s: String| s@)),
    {
        let ghost s0 = self@;
        let ghost idv = ids@.map_values(|s: String| s@);
        let mut i: usize = 0;
        while i < ids.len()
            invariant
                i <= ids@.len(),
                idv == ids@.map_values(|s: String| s@),
                self@ == (SUpload { ids: map_top(s0.ids, s0.top, idv, i as nat), ..s0 }),
            decreases ids@.len() - i,
        {
            if i < self.top.len() {
                let ghost m0 = self.ids@;
                self.ids.insert(self.top[i].clone(), ids[i].clone());
                proof {
                    assert(self.ids@.map_values(|s: String| s@) =~= m0.map_values(|s: String| s@).insert(
                        s0.top[i as int],
                        idv[i as int],
                    ));
                }
            }
            i = i + 1;
            proof {
                assert(self@ =~= (SUpload { ids: map_top(s0.ids, s0.top, idv, i as nat), ..s0 }));
            }
        }
        let ghost s1 = self@;
        let mut seen: StringHashMap<bool> = StringHashMap::new();
        let ghost q0 = s0.queue;
        let mut j: usize = 0;
        while j < self.top.len()
            invariant
                j <= self.top@.len(),
                s1.top == self@.top,
                s1.ids == self@.ids,
                s1.children == self@.children,
                s1.pending == self@.pending,
                s1 == (SUpload { ids: map_top(s0.ids, s0.top, idv, idv.len()), ..s0 }),
                self@.queue == q0 + enqueue_top(s1, j as nat),
                forall|k: Seq<char>| #[trigger] seen@.contains_key(k) <==> s1.top.take(j as int).contains(k),
            decreases self.top@.len() - j,
        {
            let t = self.top[j].as_str();
            proof {
                assert(s1.top[j as int] == t@);
                assert(s1.top.take(j + 1) =~= s1.top.take(j as int).push(t@));
            }
            let first = !seen.contains_key(t);
            if first {
                match self.ids.get(t) {
                    Some(notion_id) => {
                        match self.children.get(t) {
                            Some(c) => {
                                let entry = (notion_id.clone(), copy_blocks(c));
                                let ghost qq = self.queue@;
                                self.queue.push_back(entry);
                                proof {
                                    assert(uploads_view(self.queue@) =~= uploads_view(qq).push(
                                        (s1.ids[t@], s1.children[t@]),
                                    ));
                                }
                            },
                            None => {},
                        }
                    },
                    None => {},
                }
            }
            seen.insert(string_of(t), true);
            proof {
                assert forall|k: Seq<char>| #[trigger] seen@.contains_key(k) <==> s1.top.take(j + 1).contains(
                    k,
                ) by {
                    if k == t@ {
                        assert(s1.top.take(j + 1)[j as int] == k);
                    }
                    if s1.top.take(j + 1).contains(k) && k != t@ {
                        let tk = s1.top.take(j + 1);
                        let a = choose|a: int| 0 <= a < tk.len() && tk[a] == k;
                        assert(s1.top.take(j as int)[a] == k);
                    }
                    if s1.top.take(j as int).contains(k) {
                        let tj = s1.top.take(j as int);
                        let a = choose|a: int| 0 <= a < tj.len() && tj[a] == k;
                        assert(s1.top.take(j + 1)[a] == k);
                    }
                }
            }
            j = j + 1;
            proof {
                assert(self@.queue =~= q0 + enqueue_top(s1, j as nat));
            }
        }
        proof {
            assert(self@ =~= spec_top_uploaded(s0, idv));
        }
    }

    /// The next parent and the blocks to upload under it, or `None` when
    /// every upload has been made.  The blocks are prepared as
    /// [`preprocess_blocks`] prepares the top-level ones: each under its
    /// identifier (a fresh one where it had none) and without its children,
    /// which are kept back by that identifier until the API answers with the
    /// block's own identifier.  The answer goes to
    /// [`Self::children_uploaded`].
    pub fn next_upload(&mut self) -> (r: Option<(String, Vec<NotionBlock>)>)
        ensures
            old(self)@.queue.len() == 0 ==> r is None && final(self)@ == old(self)@,
            old(self)@.queue.len() > 0 ==> match r {
                Some(p) => {
                    &&& p.0@ == old(self)@.queue[0].0
                    &&& prepared(old(self)@.queue[0].1, notion_blocks_view(p.1@))
                    &&& final(self)@ == (SUpload {
                        children: add_children_table(
                            old(self)@.children,
                            ids_of_blocks(notion_blocks_view(p.1@)),
                            old(self)@.queue[0].1,
                            old(self)@.queue[0].1.len(),
                        ),
                        queue: old(self)@.queue.drop_first(),
                        pending: notion_blocks_view(p.1@),
                        ..old(self)@
                    })
                },
                None => false,
            },
    {
        if self.queue.len() == 0 {
            return None;
        }
        let ghost q0 = self.queue@;
        let (parent, blocks) = match self.queue.pop_front() {
            Some(p) => p,
            None => {
                return None;
            },
        };
        proof {
            assert(uploads_view(self.queue@) =~= uploads_view(q0).drop_first());
            assert(uploads_view(q0)[0] == (parent@, notion_blocks_view(blocks@)));
        }
        let prepared_blocks = prepare_into(blocks, &mut self.children);
        self.pending = copy_blocks(&prepared_blocks);
        Some((parent, prepared_blocks))
    }

    /// Takes in the identifiers the API gave the blocks of the upload in
    /// flight, in the order they were sent (see [`spec_children_uploaded`]).
    pub fn children_uploaded(&mut self, ids: Vec<String>)
        ensures
            final(self)@ == spec_children_uploaded(old(self)@, ids@.map_values(|s: String| s@)),
    {
        let ghost s0 = self@;
        let ghost idv = ids@.map_values(|s: String| s@);
        let mut i: usize = 0;
        while i < ids.len()
            invariant
                i <= ids@.len(),
                idv == ids@.map_values(|s: String| s@),
                self@ == after_children(s0, idv, i as nat),
                self@.pending == s0.pending,
                self@.children == s0.children,
            decreases ids@.len() - i,
        {
            if i < self.pending.len() {
                proof {
                    crate::notion_api::lemma_notion_blocks_view(self.pending@);
                }
                let temp = copy_opt_string(&self.pending[i].id);
                proof {
                    assert(s0.pending[i as int] == self.pending@[i as int]@);
                }
                match temp {
                    Some(k) => {
                        let ghost m0 = self.ids@;
                        self.ids.insert(string_of(k.as_str()), ids[i].clone());
                        proof {
                            assert(self.ids@.map_values(|s: String| s@) =~= m0.map_values(|s: String| s@).insert(
                                k@,
                                idv[i as int],
                            ));
                        }
                        match self.children.get(k.as_str()) {
                            Some(c) => {
                                let entry = (ids[i].clone(), copy_blocks(c));
                                let ghost qq = self.queue@;
                                self.queue.push_back(entry);
                                proof {
                                    assert(uploads_view(self.queue@) =~= uploads_view(qq).push(
                                        (idv[i as int], s0.children[k@]),
                                    ));
                                }
                            },
                            None => {},
                        }
                    },
                    None => {},
                }
            }
            i = i + 1;
            proof {
                assert(self@ =~= after_children(s0, idv, i as nat));
            }
        }
        self.pending = Vec::new();
        proof {
            assert(self@ =~= spec_children_uploaded(s0, idv));
        }
    }

} // impl

} // verus!
