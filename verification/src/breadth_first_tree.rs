//! What a whole breadth-first fetch comes to: run to the end with each
//! request answered by a function of the requested identifier, it gives the
//! same tree as a depth-first fetch answered the same way.
use crate::notion_api::SNotionBlock;
use crate::notion_block_fetcher::{
    assemble_from, assembled, assembled_children, dfs_block, dfs_list, empty_fetch, fetched_children,
    first_open_from, ids_of, is_listed_child, room, spec_attach, spec_receive, spec_record,
    spec_record_all, spec_take_request, subtrees_for, wants_children, SFetch,
};
use vstd::prelude::*;

verus! {

/// One step of a breadth-first fetch whose requests are answered by
/// `answer`: the next request is taken, and its answer received.
pub open spec fn bfs_step(s: SFetch, answer: spec_fn(Seq<char>) -> Seq<SNotionBlock>) -> SFetch {
    let t = spec_take_request(s);
    match t.pending {
        Some(p) => spec_receive(t, answer(p.0)),
        None => t,
    }
}

/// The fetch after `n` steps.
pub open spec fn bfs_drive_n(s: SFetch, answer: spec_fn(Seq<char>) -> Seq<SNotionBlock>, n: nat) -> SFetch
    decreases n,
{
    if n == 0 {
        s
    } else {
        bfs_drive_n(bfs_step(s, answer), answer, (n - 1) as nat)
    }
}

/// The fetch of `blocks` as it starts.
pub open spec fn bfs_start(blocks: Seq<SNotionBlock>, max_depth: nat) -> SFetch {
    spec_record_all(empty_fetch(max_depth), blocks, 0)
}

/// Whether no request is left.
pub open spec fn bfs_drained(s: SFetch) -> bool {
    spec_take_request(s).pending is None
}

/// The blocks of the tree that `bs` at `depth` roots when each request is
/// answered by `answer`, each with its depth, in pre-order.
pub open spec fn tree_nodes(
    bs: Seq<SNotionBlock>,
    depth: nat,
    max_depth: nat,
    answer: spec_fn(Seq<char>) -> Seq<SNotionBlock>,
) -> Seq<(SNotionBlock, nat)>
    decreases room(depth, max_depth), bs.len(),
{
    if bs.len() == 0 {
        Seq::empty()
    } else {
        tree_nodes(bs.drop_last(), depth, max_depth, answer) + node_nodes(bs.last(), depth, max_depth, answer)
    }
}

/// One block of [`tree_nodes`] and the tree under it.
pub open spec fn node_nodes(
    b: SNotionBlock,
    depth: nat,
    max_depth: nat,
    answer: spec_fn(Seq<char>) -> Seq<SNotionBlock>,
) -> Seq<(SNotionBlock, nat)>
    decreases room(depth, max_depth), 0nat,
{
    seq![(b, depth)] + if wants_children(b, depth as int, max_depth as int) {
        tree_nodes(answer(b.id->0), depth + 1, max_depth, answer)
    } else {
        Seq::empty()
    }
}

/// Whether every block of the tree has an identifier and no two share one.
pub open spec fn distinct_ids(t: Seq<(SNotionBlock, nat)>) -> bool {
    &&& forall|i: int| 0 <= i < t.len() ==> (#[trigger] t[i]).0.id is Some
    &&& forall|i: int, j: int| 0 <= i < j < t.len() ==> (#[trigger] t[i]).0.id != (#[trigger] t[j]).0.id
}

/// Whether some block of `t` has the identifier `k`.
pub open spec fn tree_has(t: Seq<(SNotionBlock, nat)>, k: Seq<char>) -> bool {
    exists|i: int| 0 <= i < t.len() && (#[trigger] t[i]).0.id == Some(k)
}

/// The position of the block with the identifier `k`.
pub open spec fn tree_index(t: Seq<(SNotionBlock, nat)>, k: Seq<char>) -> int {
    choose|i: int| 0 <= i < t.len() && (#[trigger] t[i]).0.id == Some(k)
}

proof fn lemma_index_unique(t: Seq<(SNotionBlock, nat)>, i: int)
    requires
        distinct_ids(t),
        0 <= i < t.len(),
    ensures
        tree_has(t, t[i].0.id->0),
        tree_index(t, t[i].0.id->0) == i,
{
    let k = t[i].0.id->0;
    assert(t[i].0.id == Some(k));
    let j = tree_index(t, k);
    if j != i {
        if j < i {
            assert(t[j].0.id != t[i].0.id);
        } else {
            assert(t[i].0.id != t[j].0.id);
        }
    }
}

/// Each block of `bs` stands in the tree at `depth`.
proof fn lemma_top_in_tree(
    bs: Seq<SNotionBlock>,
    depth: nat,
    max_depth: nat,
    answer: spec_fn(Seq<char>) -> Seq<SNotionBlock>,
    j: int,
)
    requires
        0 <= j < bs.len(),
    ensures
        tree_nodes(bs, depth, max_depth, answer).contains((bs[j], depth)),
    decreases bs.len(),
{
    let t = tree_nodes(bs, depth, max_depth, answer);
    let a = tree_nodes(bs.drop_last(), depth, max_depth, answer);
    let n = node_nodes(bs.last(), depth, max_depth, answer);
    if j == bs.len() - 1 {
        assert(t[a.len() as int] == n[0]);
    } else {
        lemma_top_in_tree(bs.drop_last(), depth, max_depth, answer, j);
        let i = choose|i: int| 0 <= i < a.len() && a[i] == (bs[j], depth);
        assert(t[i] == a[i]);
    }
}

/// The answer to a block of the tree that wants its children stands in the
/// tree one level down.
proof fn lemma_children_in_tree(
    bs: Seq<SNotionBlock>,
    depth: nat,
    max_depth: nat,
    answer: spec_fn(Seq<char>) -> Seq<SNotionBlock>,
    i: int,
    j: int,
)
    requires
        0 <= i < tree_nodes(bs, depth, max_depth, answer).len(),
        wants_children(
            tree_nodes(bs, depth, max_depth, answer)[i].0,
            tree_nodes(bs, depth, max_depth, answer)[i].1 as int,
            max_depth as int,
        ),
        0 <= j < answer(tree_nodes(bs, depth, max_depth, answer)[i].0.id->0).len(),
    ensures
        tree_nodes(bs, depth, max_depth, answer).contains(
            (
                answer(tree_nodes(bs, depth, max_depth, answer)[i].0.id->0)[j],
                tree_nodes(bs, depth, max_depth, answer)[i].1 + 1,
            ),
        ),
    decreases room(depth, max_depth), bs.len(),
{
    let t = tree_nodes(bs, depth, max_depth, answer);
    let a = tree_nodes(bs.drop_last(), depth, max_depth, answer);
    let b = bs.last();
    let n = node_nodes(b, depth, max_depth, answer);
    assert(t == a + n);
    let x = t[i];
    let c = answer(x.0.id->0)[j];
    if i < a.len() {
        assert(a[i] == x);
        lemma_children_in_tree(bs.drop_last(), depth, max_depth, answer, i, j);
        let m = choose|m: int| 0 <= m < a.len() && a[m] == (c, x.1 + 1);
        assert(t[m] == a[m]);
    } else {
        let ni = i - a.len();
        assert(n[ni] == x);
        let sub = tree_nodes(answer(b.id->0), depth + 1, max_depth, answer);
        if ni == 0 {
            assert(x == (b, depth));
            assert(n == seq![(b, depth)] + sub);
            lemma_top_in_tree(answer(b.id->0), depth + 1, max_depth, answer, j);
            let m = choose|m: int| 0 <= m < sub.len() && sub[m] == (c, depth + 1);
            assert(t[a.len() + 1 + m] == sub[m]);
        } else {
            assert(wants_children(b, depth as int, max_depth as int));
            assert(n == seq![(b, depth)] + sub);
            assert(sub[ni - 1] == x);
            lemma_children_in_tree(answer(b.id->0), depth + 1, max_depth, answer, ni - 1, j);
            let m = choose|m: int| 0 <= m < sub.len() && sub[m] == (c, x.1 + 1);
            assert(t[a.len() + 1 + m] == sub[m]);
        }
    }
}

/// Whether a finished fetch holds the tree of `blocks`: each gathered block
/// is the tree's block under its identifier; each block whose children were
/// fetched wants them, got the answer for its identifier, and has all of it
/// gathered; and each gathered block that wants its children got them.
pub open spec fn holds_tree(
    f: SFetch,
    blocks: Seq<SNotionBlock>,
    answer: spec_fn(Seq<char>) -> Seq<SNotionBlock>,
) -> bool {
    let t = tree_nodes(blocks, 0, f.max_depth, answer);
    &&& forall|k: Seq<char>| #[trigger] f.blocks.contains_key(k) ==> tree_has(t, k) && f.blocks[k] == t[tree_index(
        t,
        k,
    )].0
    &&& forall|k: Seq<char>| #[trigger] f.parents.contains_key(k) ==> {
        &&& f.blocks.contains_key(k)
        &&& f.parents[k] == ids_of(answer(k))
        &&& wants_children(t[tree_index(t, k)].0, t[tree_index(t, k)].1 as int, f.max_depth as int)
        &&& forall|j: int| 0 <= j < answer(k).len() ==> f.blocks.contains_key((#[trigger] answer(k)[j]).id->0)
    }
    &&& forall|k: Seq<char>|
        #![trigger f.blocks.contains_key(k)]
        f.blocks.contains_key(k) && wants_children(
            t[tree_index(t, k)].0,
            t[tree_index(t, k)].1 as int,
            f.max_depth as int,
        ) ==> f.parents.contains_key(k)
}

/// A gathered block of the tree is assembled as depth-first fetching makes
/// it.
proof fn lemma_assemble_block(
    f: SFetch,
    blocks: Seq<SNotionBlock>,
    answer: spec_fn(Seq<char>) -> Seq<SNotionBlock>,
    i: int,
)
    requires
        holds_tree(f, blocks, answer),
        distinct_ids(tree_nodes(blocks, 0, f.max_depth, answer)),
        0 <= i < tree_nodes(blocks, 0, f.max_depth, answer).len(),
        f.blocks.contains_key(tree_nodes(blocks, 0, f.max_depth, answer)[i].0.id->0),
    ensures
        ({
            let x = tree_nodes(blocks, 0, f.max_depth, answer)[i];
            assembled(f, x.0.id->0, room(x.1, f.max_depth)) == dfs_block(x.0, x.1, f.max_depth, answer)
        }),
    decreases room(tree_nodes(blocks, 0, f.max_depth, answer)[i].1, f.max_depth), 0nat,
{
    let mx = f.max_depth;
    let t = tree_nodes(blocks, 0, mx, answer);
    let x = t[i];
    let b = x.0;
    let d = x.1;
    let k = b.id->0;
    lemma_index_unique(t, i);
    assert(f.blocks[k] == b);
    let fuel = room(d, mx);
    if d < mx {
        if wants_children(b, d as int, mx as int) {
            assert(f.parents.contains_key(k));
            let cs = answer(k);
            assert forall|j: int| 0 <= j < cs.len() implies t.contains((#[trigger] cs[j], d + 1)) by {
                lemma_children_in_tree(blocks, 0, mx, answer, i, j);
            }
            assert forall|j: int| 0 <= j < cs.len() implies f.blocks.contains_key((#[trigger] cs[j]).id->0) by {
                assert(f.blocks.contains_key(answer(k)[j].id->0));
            }
            lemma_assemble_list(f, blocks, answer, cs, d + 1);
            assert((fuel - 1) as nat == room(d + 1, mx));
        } else {
            if f.parents.contains_key(k) {
                assert(wants_children(t[tree_index(t, k)].0, t[tree_index(t, k)].1 as int, mx as int));
            }
            assert(assembled_children(f, k, (fuel - 1) as nat) =~= Seq::<SNotionBlock>::empty());
        }
    }
}

/// Gathered blocks of the tree at `depth` are assembled as depth-first
/// fetching makes them.
proof fn lemma_assemble_list(
    f: SFetch,
    blocks: Seq<SNotionBlock>,
    answer: spec_fn(Seq<char>) -> Seq<SNotionBlock>,
    cs: Seq<SNotionBlock>,
    depth: nat,
)
    requires
        holds_tree(f, blocks, answer),
        distinct_ids(tree_nodes(blocks, 0, f.max_depth, answer)),
        forall|j: int| 0 <= j < cs.len() ==> tree_nodes(blocks, 0, f.max_depth, answer).contains((#[trigger] cs[j], depth)),
        forall|j: int| 0 <= j < cs.len() ==> f.blocks.contains_key((#[trigger] cs[j]).id->0),
    ensures
        subtrees_for(f, ids_of(cs), room(depth, f.max_depth)) == dfs_list(cs, depth, f.max_depth, answer),
    decreases room(depth, f.max_depth), cs.len() + 1,
{
    let t = tree_nodes(blocks, 0, f.max_depth, answer);
    if cs.len() > 0 {
        let c = cs.last();
        assert(t.contains((cs[cs.len() - 1], depth)));
        let m = choose|m: int| 0 <= m < t.len() && t[m] == (c, depth);
        assert(t[m].0.id is Some);
        assert(c.id is Some);
        lemma_assemble_list(f, blocks, answer, cs.drop_last(), depth);
        lemma_assemble_block(f, blocks, answer, m);
        assert(ids_of(cs) == ids_of(cs.drop_last()).push(c.id->0));
        assert(ids_of(cs).drop_last() =~= ids_of(cs.drop_last()));
    }
}

/// An identifier listed in the identifiers of `cs` is that of one of them.
proof fn lemma_ids_of_contains(cs: Seq<SNotionBlock>, k: Seq<char>)
    requires
        ids_of(cs).contains(k),
    ensures
        exists|j: int| 0 <= j < cs.len() && (#[trigger] cs[j]).id == Some(k),
    decreases cs.len(),
{
    if cs.len() > 0 {
        let d = cs.drop_last();
        match cs.last().id {
            Some(id) => {
                if id == k {
                    assert(cs[cs.len() - 1].id == Some(k));
                } else {
                    let i = choose|i: int| 0 <= i < ids_of(cs).len() && ids_of(cs)[i] == k;
                    assert(ids_of(d)[i] == k);
                    lemma_ids_of_contains(d, k);
                    let j = choose|j: int| 0 <= j < d.len() && (#[trigger] d[j]).id == Some(k);
                    assert(cs[j] == d[j]);
                }
            },
            None => {
                lemma_ids_of_contains(d, k);
                let j = choose|j: int| 0 <= j < d.len() && (#[trigger] d[j]).id == Some(k);
                assert(cs[j] == d[j]);
            },
        }
    }
}

/// Identifiers that some parent lists add no top-level block.
proof fn lemma_assemble_from_listed(f: SFetch, ks: Seq<Seq<char>>, r: Seq<Seq<char>>)
    requires
        forall|i: int| 0 <= i < r.len() ==> is_listed_child(f, #[trigger] r[i]),
    ensures
        assemble_from(f, ks + r) == assemble_from(f, ks),
    decreases r.len(),
{
    if r.len() == 0 {
        assert(ks + r =~= ks);
    } else {
        assert((ks + r).drop_last() =~= ks + r.drop_last());
        assert((ks + r).last() == r[r.len() - 1]);
        lemma_assemble_from_listed(f, ks, r.drop_last());
    }
}

/// The top-level blocks, none listed as a child, are assembled as
/// depth-first fetching makes them.
proof fn lemma_assemble_top(
    f: SFetch,
    blocks: Seq<SNotionBlock>,
    answer: spec_fn(Seq<char>) -> Seq<SNotionBlock>,
    n: int,
)
    requires
        holds_tree(f, blocks, answer),
        distinct_ids(tree_nodes(blocks, 0, f.max_depth, answer)),
        forall|j: int| 0 <= j < blocks.len() ==> f.blocks.contains_key((#[trigger] blocks[j]).id->0),
        0 <= n <= blocks.len(),
    ensures
        assemble_from(f, ids_of(blocks.take(n))) == dfs_list(blocks.take(n), 0, f.max_depth, answer),
    decreases n,
{
    let mx = f.max_depth;
    let t = tree_nodes(blocks, 0, mx, answer);
    if n > 0 {
        lemma_assemble_top(f, blocks, answer, n - 1);
        let p = blocks.take(n);
        assert(p.drop_last() =~= blocks.take(n - 1));
        let b = blocks[n - 1];
        assert(p.last() == b);
        lemma_top_in_tree(blocks, 0, mx, answer, n - 1);
        let m = choose|m: int| 0 <= m < t.len() && t[m] == (b, 0nat);
        assert(b.id is Some);
        let k = b.id->0;
        lemma_index_unique(t, m);
        assert(ids_of(p) == ids_of(p.drop_last()).push(k));
        assert(ids_of(p).drop_last() =~= ids_of(blocks.take(n - 1)));
        assert(ids_of(p).last() == k);
        if is_listed_child(f, k) {
            let q = choose|q: Seq<char>| #[trigger] f.parents.contains_key(q) && f.parents[q].contains(k);
            lemma_ids_of_contains(answer(q), k);
            let j = choose|j: int| 0 <= j < answer(q).len() && (#[trigger] answer(q)[j]).id == Some(k);
            let qi = tree_index(t, q);
            lemma_children_in_tree(blocks, 0, mx, answer, qi, j);
            let c = answer(q)[j];
            let mc = choose|mc: int| 0 <= mc < t.len() && t[mc] == (c, t[qi].1 + 1);
            lemma_index_unique(t, mc);
            assert(false);
        }
        assert(f.blocks.contains_key(k));
        lemma_assemble_block(f, blocks, answer, m);
    }
}

proof fn lemma_record_all(u: SFetch, cs: Seq<SNotionBlock>, depth: nat)
    requires
        forall|j: int| 0 <= j < cs.len() ==> (#[trigger] cs[j]).id is Some,
    ensures
        spec_record_all(u, cs, depth).parents == u.parents,
        spec_record_all(u, cs, depth).parent_order == u.parent_order,
        spec_record_all(u, cs, depth).pending == u.pending,
        spec_record_all(u, cs, depth).max_depth == u.max_depth,
        forall|k: Seq<char>| #[trigger] u.blocks.contains_key(k) ==> spec_record_all(u, cs, depth).blocks.contains_key(k),
        forall|j: int| 0 <= j < cs.len() ==> spec_record_all(u, cs, depth).blocks.contains_key((#[trigger] cs[j]).id->0),
        forall|k: Seq<char>|
            #![trigger spec_record_all(u, cs, depth).blocks.contains_key(k)]
            spec_record_all(u, cs, depth).blocks.contains_key(k) ==> (u.blocks.contains_key(k) && spec_record_all(u, cs, depth).blocks[k] == u.blocks[k]) || exists|j: int|
                0 <= j < cs.len() && (#[trigger] cs[j]).id == Some(k) && spec_record_all(u, cs, depth).blocks[k] == cs[j],
        spec_record_all(u, cs, depth).queue.len() >= u.queue.len(),
        spec_record_all(u, cs, depth).queue.subrange(0, u.queue.len() as int) == u.queue,
        forall|i: int|
            u.queue.len() <= i < spec_record_all(u, cs, depth).queue.len() ==> exists|j: int|
                0 <= j < cs.len() && (#[trigger] cs[j]).id == Some((#[trigger] spec_record_all(u, cs, depth).queue[i]).0) && spec_record_all(u, cs, depth).queue[i].1 == depth
                    && cs[j].has_children == Some(true),
        forall|j: int|
            0 <= j < cs.len() && (#[trigger] cs[j]).has_children == Some(true) ==> exists|i: int|
                u.queue.len() <= i < spec_record_all(u, cs, depth).queue.len() && (#[trigger] spec_record_all(u, cs, depth).queue[i]).0 == cs[j].id->0,
        spec_record_all(u, cs, depth).order.len() >= u.order.len(),
        spec_record_all(u, cs, depth).order.subrange(0, u.order.len() as int) == u.order,
        forall|i: int|
            u.order.len() <= i < spec_record_all(u, cs, depth).order.len() ==> exists|j: int| 0 <= j < cs.len() && (#[trigger] cs[j]).id == Some(#[trigger] spec_record_all(u, cs, depth).order[i]),
    decreases cs.len(),
{
    let r = spec_record_all(u, cs, depth);
    if cs.len() == 0 {
        assert(r.queue.subrange(0, u.queue.len() as int) =~= u.queue);
        assert(r.order.subrange(0, u.order.len() as int) =~= u.order);
    } else {
        let d = cs.drop_last();
        let c = cs.last();
        assert forall|j: int| 0 <= j < d.len() implies (#[trigger] d[j]).id is Some by {
            assert(d[j] == cs[j]);
        }
        lemma_record_all(u, d, depth);
        let m = spec_record_all(u, d, depth);
        assert(r == spec_record(m, c, depth));
        let id = c.id->0;
        assert(c == cs[cs.len() - 1]);
        assert forall|k: Seq<char>| #[trigger] u.blocks.contains_key(k) implies r.blocks.contains_key(k) by {
            assert(m.blocks.contains_key(k));
        }
        assert forall|j: int| 0 <= j < cs.len() implies r.blocks.contains_key((#[trigger] cs[j]).id->0) by {
            if j < d.len() {
                assert(cs[j] == d[j]);
                assert(m.blocks.contains_key(d[j].id->0));
            }
        }
        assert forall|k: Seq<char>| #[trigger] r.blocks.contains_key(k) implies (u.blocks.contains_key(k)
            && r.blocks[k] == u.blocks[k]) || exists|j: int|
            0 <= j < cs.len() && (#[trigger] cs[j]).id == Some(k) && r.blocks[k] == cs[j] by {
            if k == id {
                assert(cs[cs.len() - 1].id == Some(k) && r.blocks[k] == cs[cs.len() - 1]);
            } else {
                assert(m.blocks.contains_key(k));
                assert(r.blocks[k] == m.blocks[k]);
                if !(u.blocks.contains_key(k) && m.blocks[k] == u.blocks[k]) {
                    let j = choose|j: int| 0 <= j < d.len() && (#[trigger] d[j]).id == Some(k) && m.blocks[k] == d[j];
                    assert(cs[j] == d[j]);
                }
            }
        }
        assert(r.queue.subrange(0, u.queue.len() as int) =~= u.queue) by {
            assert(m.queue.subrange(0, u.queue.len() as int) == u.queue);
            if c.has_children == Some(true) {
                assert(r.queue == m.queue.push((id, depth)));
            }
        }
        assert forall|i: int| u.queue.len() <= i < r.queue.len() implies exists|j: int|
            0 <= j < cs.len() && (#[trigger] cs[j]).id == Some((#[trigger] r.queue[i]).0) && r.queue[i].1 == depth
                && cs[j].has_children == Some(true) by {
            if i < m.queue.len() {
                assert(r.queue[i] == m.queue[i]);
                let j = choose|j: int|
                    0 <= j < d.len() && (#[trigger] d[j]).id == Some((#[trigger] m.queue[i]).0) && m.queue[i].1 == depth
                        && d[j].has_children == Some(true);
                assert(cs[j] == d[j]);
            } else {
                assert(cs[cs.len() - 1] == c);
            }
        }
        assert forall|j: int| 0 <= j < cs.len() && (#[trigger] cs[j]).has_children == Some(true) implies exists|i: int|
            u.queue.len() <= i < r.queue.len() && (#[trigger] r.queue[i]).0 == cs[j].id->0 by {
            if j < d.len() {
                assert(cs[j] == d[j]);
                let i = choose|i: int| u.queue.len() <= i < m.queue.len() && (#[trigger] m.queue[i]).0 == d[j].id->0;
                assert(r.queue[i] == m.queue[i]);
            } else {
                assert(r.queue[m.queue.len() as int] == (id, depth));
            }
        }
        assert(r.order.subrange(0, u.order.len() as int) =~= u.order) by {
            assert(m.order.subrange(0, u.order.len() as int) == u.order);
        }
        assert forall|i: int| u.order.len() <= i < r.order.len() implies exists|j: int|
            0 <= j < cs.len() && (#[trigger] cs[j]).id == Some(#[trigger] r.order[i]) by {
            if i < m.order.len() {
                assert(r.order[i] == m.order[i]);
                let j = choose|j: int| 0 <= j < d.len() && (#[trigger] d[j]).id == Some(#[trigger] m.order[i]);
                assert(cs[j] == d[j]);
            } else {
                assert(cs[cs.len() - 1] == c);
            }
        }
        assert(r.parents == u.parents);
        assert(r.parent_order == u.parent_order);
        assert(r.pending == u.pending);
        assert(r.max_depth == u.max_depth);
        assert(r.queue.len() >= u.queue.len());
        assert(r.order.len() >= u.order.len());
        assert(r.queue.subrange(0, u.queue.len() as int) == u.queue);
        assert(r.order.subrange(0, u.order.len() as int) == u.order);
        assert(forall|k: Seq<char>| #[trigger] u.blocks.contains_key(k) ==> r.blocks.contains_key(k));
        assert(forall|j: int| 0 <= j < cs.len() ==> r.blocks.contains_key((#[trigger] cs[j]).id->0));
        assert(forall|k: Seq<char>|
        #![trigger r.blocks.contains_key(k)]
        r.blocks.contains_key(k) ==> (u.blocks.contains_key(k) && r.blocks[k] == u.blocks[k]) || exists|j: int|
            0 <= j < cs.len() && (#[trigger] cs[j]).id == Some(k) && r.blocks[k] == cs[j]);
        assert(forall|i: int|
        u.queue.len() <= i < r.queue.len() ==> exists|j: int|
            0 <= j < cs.len() && (#[trigger] cs[j]).id == Some((#[trigger] r.queue[i]).0) && r.queue[i].1 == depth
                && cs[j].has_children == Some(true));
        assert(forall|j: int|
        0 <= j < cs.len() && (#[trigger] cs[j]).has_children == Some(true) ==> exists|i: int|
            u.queue.len() <= i < r.queue.len() && (#[trigger] r.queue[i]).0 == cs[j].id->0);
        assert(forall|i: int|
        u.order.len() <= i < r.order.len() ==> exists|j: int| 0 <= j < cs.len() && (#[trigger] cs[j]).id == Some(#[trigger] r.order[i]));
    }
}

/// The tree of blocks put one after the other is the trees one after the
/// other.
proof fn lemma_tree_append(
    a: Seq<SNotionBlock>,
    b: Seq<SNotionBlock>,
    depth: nat,
    max_depth: nat,
    answer: spec_fn(Seq<char>) -> Seq<SNotionBlock>,
)
    ensures
        tree_nodes(a + b, depth, max_depth, answer) == tree_nodes(a, depth, max_depth, answer) + tree_nodes(
            b,
            depth,
            max_depth,
            answer,
        ),
    decreases b.len(),
{
    if b.len() == 0 {
        assert(a + b =~= a);
        assert(tree_nodes(a, depth, max_depth, answer) + tree_nodes(b, depth, max_depth, answer) =~= tree_nodes(
            a,
            depth,
            max_depth,
            answer,
        ));
    } else {
        lemma_tree_append(a, b.drop_last(), depth, max_depth, answer);
        assert((a + b).drop_last() =~= a + b.drop_last());
        assert((a + b).last() == b.last());
        assert(tree_nodes(a + b, depth, max_depth, answer) =~= tree_nodes(a, depth, max_depth, answer) + tree_nodes(
            b,
            depth,
            max_depth,
            answer,
        ));
    }
}

/// The top-level blocks stand in the tree in their order, the `j`-th after
/// the trees of those before it.
proof fn lemma_top_position(
    bs: Seq<SNotionBlock>,
    depth: nat,
    max_depth: nat,
    answer: spec_fn(Seq<char>) -> Seq<SNotionBlock>,
    j: int,
)
    requires
        0 <= j < bs.len(),
    ensures
        tree_nodes(bs.take(j), depth, max_depth, answer).len() < tree_nodes(bs.take(j + 1), depth, max_depth, answer).len(),
        tree_nodes(bs.take(j + 1), depth, max_depth, answer).len() <= tree_nodes(bs, depth, max_depth, answer).len(),
        tree_nodes(bs, depth, max_depth, answer)[tree_nodes(bs.take(j), depth, max_depth, answer).len() as int]
            == (bs[j], depth),
{
    let t = tree_nodes(bs, depth, max_depth, answer);
    let p = tree_nodes(bs.take(j), depth, max_depth, answer);
    let x = seq![bs[j]];
    lemma_tree_append(bs.take(j), x, depth, max_depth, answer);
    assert(bs.take(j) + x =~= bs.take(j + 1));
    assert(x.drop_last() =~= Seq::<SNotionBlock>::empty());
    let nx = tree_nodes(x, depth, max_depth, answer);
    assert(x.last() == bs[j]);
    assert(tree_nodes(x.drop_last(), depth, max_depth, answer) == Seq::<(SNotionBlock, nat)>::empty());
    assert(nx =~= node_nodes(bs[j], depth, max_depth, answer));
    lemma_tree_append(bs.take(j + 1), bs.skip(j + 1), depth, max_depth, answer);
    assert(bs.take(j + 1) + bs.skip(j + 1) =~= bs);
    assert(t[p.len() as int] == nx[0]);
}

/// The top-level blocks have distinct identifiers.
proof fn lemma_top_distinct(
    bs: Seq<SNotionBlock>,
    max_depth: nat,
    answer: spec_fn(Seq<char>) -> Seq<SNotionBlock>,
    j1: int,
    j2: int,
)
    requires
        distinct_ids(tree_nodes(bs, 0, max_depth, answer)),
        0 <= j1 < j2 < bs.len(),
    ensures
        bs[j1].id != bs[j2].id,
{
    let t = tree_nodes(bs, 0, max_depth, answer);
    lemma_top_position(bs, 0, max_depth, answer, j1);
    lemma_top_position(bs, 0, max_depth, answer, j2);
    let p1 = tree_nodes(bs.take(j1), 0, max_depth, answer).len() as int;
    let p2 = tree_nodes(bs.take(j2), 0, max_depth, answer).len() as int;
    lemma_tree_append(bs.take(j1 + 1), bs.subrange(j1 + 1, j2), 0, max_depth, answer);
    assert(bs.take(j1 + 1) + bs.subrange(j1 + 1, j2) =~= bs.take(j2));
    assert(p1 < p2);
    assert(t[p1].0.id != t[p2].0.id);
}

/// The identifier of a block of `cs` that has one is listed among their
/// identifiers.
proof fn lemma_ids_of_has(cs: Seq<SNotionBlock>, j: int)
    requires
        0 <= j < cs.len(),
        cs[j].id is Some,
    ensures
        ids_of(cs).contains(cs[j].id->0),
    decreases cs.len(),
{
    let d = cs.drop_last();
    if j == cs.len() - 1 {
        assert(ids_of(cs) == ids_of(d).push(cs[j].id->0));
        assert(ids_of(cs)[ids_of(d).len() as int] == cs[j].id->0);
    } else {
        assert(d[j] == cs[j]);
        lemma_ids_of_has(d, j);
        let i = choose|i: int| 0 <= i < ids_of(d).len() && ids_of(d)[i] == cs[j].id->0;
        match cs.last().id {
            Some(id) => {
                assert(ids_of(cs)[i] == ids_of(d)[i]);
            },
            None => {},
        }
    }
}

/// Recording blocks with distinct new identifiers appends their
/// identifiers to the order.
proof fn lemma_record_order(u: SFetch, cs: Seq<SNotionBlock>, depth: nat)
    requires
        forall|j: int| 0 <= j < cs.len() ==> (#[trigger] cs[j]).id is Some,
        forall|j1: int, j2: int| 0 <= j1 < j2 < cs.len() ==> (#[trigger] cs[j1]).id != (#[trigger] cs[j2]).id,
        forall|j: int| 0 <= j < cs.len() ==> !u.blocks.contains_key((#[trigger] cs[j]).id->0),
    ensures
        spec_record_all(u, cs, depth).order == u.order + ids_of(cs),
    decreases cs.len(),
{
    if cs.len() == 0 {
        assert(u.order + ids_of(cs) =~= u.order);
    } else {
        let d = cs.drop_last();
        let c = cs.last();
        assert forall|j: int| 0 <= j < d.len() implies (#[trigger] d[j]).id is Some by {
            assert(d[j] == cs[j]);
        }
        assert forall|j1: int, j2: int| 0 <= j1 < j2 < d.len() implies (#[trigger] d[j1]).id != (#[trigger] d[j2]).id by {
            assert(d[j1] == cs[j1] && d[j2] == cs[j2]);
        }
        assert forall|j: int| 0 <= j < d.len() implies !u.blocks.contains_key((#[trigger] d[j]).id->0) by {
            assert(d[j] == cs[j]);
        }
        lemma_record_order(u, d, depth);
        lemma_record_all(u, d, depth);
        let m = spec_record_all(u, d, depth);
        assert(c == cs[cs.len() - 1]);
        let id = c.id->0;
        if m.blocks.contains_key(id) {
            if !u.blocks.contains_key(id) {
                let j = choose|j: int| 0 <= j < d.len() && (#[trigger] d[j]).id == Some(id) && m.blocks[id] == d[j];
                assert(d[j] == cs[j]);
                assert(cs[j].id != cs[cs.len() - 1].id);
            }
        }
        assert(ids_of(cs) == ids_of(d).push(id));
        assert(spec_record_all(u, cs, depth).order =~= u.order + ids_of(cs));
    }
}

/// The request taken is the first below the depth limit.
proof fn lemma_first_open(q: Seq<(Seq<char>, nat)>, max_depth: nat, i: int)
    requires
        0 <= i <= q.len(),
    ensures
        i <= first_open_from(q, max_depth, i) <= q.len(),
        forall|m: int| i <= m < first_open_from(q, max_depth, i) ==> (#[trigger] q[m]).1 >= max_depth,
        first_open_from(q, max_depth, i) < q.len() ==> q[first_open_from(q, max_depth, i)].1 < max_depth,
    decreases q.len() - i,
{
    if i < q.len() && q[i].1 >= max_depth {
        lemma_first_open(q, max_depth, i + 1);
    }
}

/// What a breadth-first fetch of `blocks` keeps true between steps.
pub open spec fn bfs_inv(
    s: SFetch,
    blocks: Seq<SNotionBlock>,
    answer: spec_fn(Seq<char>) -> Seq<SNotionBlock>,
) -> bool {
    let t = tree_nodes(blocks, 0, s.max_depth, answer);
    let top = ids_of(blocks);
    &&& s.pending is None
    &&& forall|k: Seq<char>| #[trigger] s.blocks.contains_key(k) ==> tree_has(t, k) && s.blocks[k] == t[tree_index(
        t,
        k,
    )].0
    &&& forall|k: Seq<char>| #[trigger] s.parents.contains_key(k) ==> {
        &&& s.blocks.contains_key(k)
        &&& s.parents[k] == ids_of(answer(k))
        &&& wants_children(t[tree_index(t, k)].0, t[tree_index(t, k)].1 as int, s.max_depth as int)
        &&& forall|j: int| 0 <= j < answer(k).len() ==> s.blocks.contains_key((#[trigger] answer(k)[j]).id->0)
    }
    &&& forall|i: int|
        0 <= i < s.queue.len() ==> s.blocks.contains_key((#[trigger] s.queue[i]).0) && s.queue[i].1 == t[tree_index(
            t,
            s.queue[i].0,
        )].1 && t[tree_index(t, s.queue[i].0)].0.has_children == Some(true)
    &&& forall|k: Seq<char>|
        #![trigger s.blocks.contains_key(k)]
        s.blocks.contains_key(k) && wants_children(
            t[tree_index(t, k)].0,
            t[tree_index(t, k)].1 as int,
            s.max_depth as int,
        ) ==> s.parents.contains_key(k) || exists|i: int| 0 <= i < s.queue.len() && (#[trigger] s.queue[i]).0 == k
    &&& forall|j: int| 0 <= j < blocks.len() ==> s.blocks.contains_key((#[trigger] blocks[j]).id->0)
    &&& s.order.len() >= top.len()
    &&& s.order.subrange(0, top.len() as int) == top
    &&& forall|i: int| top.len() <= i < s.order.len() ==> is_listed_child(s, #[trigger] s.order[i])
}

/// A fetch starts in a state that keeps [`bfs_inv`].
proof fn lemma_inv_start(blocks: Seq<SNotionBlock>, max_depth: nat, answer: spec_fn(Seq<char>) -> Seq<SNotionBlock>)
    requires
        distinct_ids(tree_nodes(blocks, 0, max_depth, answer)),
    ensures
        bfs_inv(bfs_start(blocks, max_depth), blocks, answer),
        bfs_start(blocks, max_depth).max_depth == max_depth,
{
    let t = tree_nodes(blocks, 0, max_depth, answer);
    let u = empty_fetch(max_depth);
    let s = bfs_start(blocks, max_depth);
    assert forall|j: int| 0 <= j < blocks.len() implies (#[trigger] blocks[j]).id is Some by {
        lemma_top_in_tree(blocks, 0, max_depth, answer, j);
        let m = choose|m: int| 0 <= m < t.len() && t[m] == (blocks[j], 0nat);
        assert(t[m].0.id is Some);
    }
    assert forall|j1: int, j2: int| 0 <= j1 < j2 < blocks.len() implies (#[trigger] blocks[j1]).id
        != (#[trigger] blocks[j2]).id by {
        lemma_top_distinct(blocks, max_depth, answer, j1, j2);
    }
    lemma_record_all(u, blocks, 0);
    lemma_record_order(u, blocks, 0);
    assert(s.order =~= ids_of(blocks));
    assert(s.order.subrange(0, ids_of(blocks).len() as int) =~= ids_of(blocks));
    // Each recorded block is the top-level block under its identifier.
    assert forall|j: int| 0 <= j < blocks.len() implies tree_index(t, (#[trigger] blocks[j]).id->0) < t.len()
        && t[tree_index(t, blocks[j].id->0)] == (blocks[j], 0nat) by {
        lemma_top_in_tree(blocks, 0, max_depth, answer, j);
        let m = choose|m: int| 0 <= m < t.len() && t[m] == (blocks[j], 0nat);
        lemma_index_unique(t, m);
    }
    assert forall|k: Seq<char>| #[trigger] s.blocks.contains_key(k) implies tree_has(t, k) && s.blocks[k]
        == t[tree_index(t, k)].0 by {
        let j = choose|j: int| 0 <= j < blocks.len() && (#[trigger] blocks[j]).id == Some(k) && s.blocks[k] == blocks[j];
        lemma_top_in_tree(blocks, 0, max_depth, answer, j);
        let m = choose|m: int| 0 <= m < t.len() && t[m] == (blocks[j], 0nat);
        lemma_index_unique(t, m);
    }
    assert forall|i: int| 0 <= i < s.queue.len() implies s.blocks.contains_key((#[trigger] s.queue[i]).0)
        && s.queue[i].1 == t[tree_index(t, s.queue[i].0)].1 && t[tree_index(t, s.queue[i].0)].0.has_children
        == Some(true) by {
        let j = choose|j: int|
            0 <= j < blocks.len() && (#[trigger] blocks[j]).id == Some((#[trigger] s.queue[i]).0) && s.queue[i].1 == 0
                && blocks[j].has_children == Some(true);
        assert(s.blocks.contains_key(blocks[j].id->0));
    }
    assert forall|k: Seq<char>| #[trigger] s.blocks.contains_key(k) && wants_children(
        t[tree_index(t, k)].0,
        t[tree_index(t, k)].1 as int,
        max_depth as int,
    ) implies s.parents.contains_key(k) || exists|i: int| 0 <= i < s.queue.len() && (#[trigger] s.queue[i]).0
        == k by {
        let j = choose|j: int| 0 <= j < blocks.len() && (#[trigger] blocks[j]).id == Some(k) && s.blocks[k] == blocks[j];
        assert(t[tree_index(t, blocks[j].id->0)] == (blocks[j], 0nat));
        assert(blocks[j].has_children == Some(true));
        let i = choose|i: int| 0 <= i < s.queue.len() && (#[trigger] s.queue[i]).0 == blocks[j].id->0;
    }
}

/// A step keeps [`bfs_inv`] and the depth limit; once no request is left,
/// none comes back.
#[verifier::rlimit(60)]
proof fn lemma_inv_step(s: SFetch, blocks: Seq<SNotionBlock>, answer: spec_fn(Seq<char>) -> Seq<SNotionBlock>)
    requires
        bfs_inv(s, blocks, answer),
        distinct_ids(tree_nodes(blocks, 0, s.max_depth, answer)),
    ensures
        bfs_inv(bfs_step(s, answer), blocks, answer),
        bfs_step(s, answer).max_depth == s.max_depth,
        bfs_drained(s) ==> bfs_drained(bfs_step(s, answer)),
{
    let mx = s.max_depth;
    let t = tree_nodes(blocks, 0, mx, answer);
    let q = s.queue;
    let top = ids_of(blocks);
    lemma_first_open(q, mx, 0);
    let i0 = first_open_from(q, mx, 0);
    let tk = spec_take_request(s);
    if i0 >= q.len() {
        assert(bfs_step(s, answer) == tk);
        assert(tk.queue =~= Seq::<(Seq<char>, nat)>::empty());
        assert forall|k: Seq<char>| #[trigger] tk.blocks.contains_key(k) && wants_children(
            t[tree_index(t, k)].0,
            t[tree_index(t, k)].1 as int,
            mx as int,
        ) implies tk.parents.contains_key(k) || exists|i: int| 0 <= i < tk.queue.len() && (#[trigger] tk.queue[i]).0
            == k by {
            if !s.parents.contains_key(k) {
                let i = choose|i: int| 0 <= i < q.len() && (#[trigger] q[i]).0 == k;
                assert(q[i].1 >= mx);
            }
        }
        assert(first_open_from(tk.queue, mx, 0) == 0);
        assert forall|i: int| top.len() <= i < tk.order.len() implies is_listed_child(tk, #[trigger] tk.order[i]) by {
            assert(is_listed_child(s, s.order[i]));
            let pp = choose|pp: Seq<char>| #[trigger] s.parents.contains_key(pp) && s.parents[pp].contains(s.order[i]);
            assert(tk.parents.contains_key(pp) && tk.parents[pp].contains(tk.order[i]));
        }
    } else {
        let (k, d) = q[i0];
        assert(s.blocks.contains_key(k));
        let ki = tree_index(t, k);
        assert(tree_has(t, k));
        assert(0 <= ki < t.len() && t[ki].0.id == Some(k));
        assert(d == t[ki].1 && t[ki].0.has_children == Some(true) && d < mx);
        assert(wants_children(t[ki].0, t[ki].1 as int, mx as int));
        let cs = answer(k);
        assert(tk.pending == Some((k, d)));
        assert(tk.queue == q.subrange(i0 + 1, q.len() as int));
        // The answer stands in the tree one level down.
        assert forall|j: int| 0 <= j < cs.len() implies tree_index(t, (#[trigger] cs[j]).id->0) < t.len() && cs[j].id
            is Some && t[tree_index(t, cs[j].id->0)] == (cs[j], d + 1) && tree_has(t, cs[j].id->0) by {
            lemma_children_in_tree(blocks, 0, mx, answer, ki, j);
            let m = choose|m: int| 0 <= m < t.len() && t[m] == (cs[j], d + 1);
            lemma_index_unique(t, m);
        }
        lemma_record_all(tk, cs, d + 1);
        let r = spec_record_all(tk, cs, d + 1);
        let f = bfs_step(s, answer);
        assert(f == spec_receive(tk, cs));
        assert(f.blocks == r.blocks && f.queue == r.queue && f.order == r.order && f.max_depth == mx);
        assert(f.parents == r.parents.insert(k, ids_of(cs)));
        assert(f.pending is None);
        assert forall|kk: Seq<char>| #[trigger] f.blocks.contains_key(kk) implies tree_has(t, kk) && f.blocks[kk]
            == t[tree_index(t, kk)].0 by {
            if !(tk.blocks.contains_key(kk) && r.blocks[kk] == tk.blocks[kk]) {
                let j = choose|j: int| 0 <= j < cs.len() && (#[trigger] cs[j]).id == Some(kk) && r.blocks[kk] == cs[j];
            }
        }
        assert forall|kk: Seq<char>| #[trigger] f.parents.contains_key(kk) implies {
            &&& f.blocks.contains_key(kk)
            &&& f.parents[kk] == ids_of(answer(kk))
            &&& wants_children(t[tree_index(t, kk)].0, t[tree_index(t, kk)].1 as int, mx as int)
            &&& forall|j: int| 0 <= j < answer(kk).len() ==> f.blocks.contains_key((#[trigger] answer(kk)[j]).id->0)
        } by {
            if kk != k {
                assert(s.parents.contains_key(kk));
                assert forall|j: int| 0 <= j < answer(kk).len() implies f.blocks.contains_key(
                    (#[trigger] answer(kk)[j]).id->0,
                ) by {
                    assert(s.blocks.contains_key(answer(kk)[j].id->0));
                }
            }
        }
        assert forall|i: int| 0 <= i < f.queue.len() implies f.blocks.contains_key((#[trigger] f.queue[i]).0)
            && f.queue[i].1 == t[tree_index(t, f.queue[i].0)].1 && t[tree_index(t, f.queue[i].0)].0.has_children
            == Some(true) by {
            if i < tk.queue.len() {
                assert(f.queue[i] == r.queue.subrange(0, tk.queue.len() as int)[i]);
                assert(f.queue[i] == q[i0 + 1 + i]);
                assert(s.blocks.contains_key(q[i0 + 1 + i].0));
            } else {
                let j = choose|j: int|
                    0 <= j < cs.len() && (#[trigger] cs[j]).id == Some((#[trigger] r.queue[i]).0) && r.queue[i].1 == d
                        + 1 && cs[j].has_children == Some(true);
            }
        }
        assert forall|kk: Seq<char>| #[trigger] f.blocks.contains_key(kk) && wants_children(
            t[tree_index(t, kk)].0,
            t[tree_index(t, kk)].1 as int,
            mx as int,
        ) implies f.parents.contains_key(kk) || exists|i: int| 0 <= i < f.queue.len() && (#[trigger] f.queue[i]).0
            == kk by {
            if kk != k {
                if tk.blocks.contains_key(kk) {
                    assert(s.blocks.contains_key(kk));
                    if !s.parents.contains_key(kk) {
                        let i = choose|i: int| 0 <= i < q.len() && (#[trigger] q[i]).0 == kk;
                        assert(q[i].1 == t[tree_index(t, kk)].1);
                        if i < i0 {
                            assert(q[i].1 >= mx);
                        } else {
                            assert(i != i0);
                            assert(tk.queue[i - i0 - 1] == q[i]);
                            assert(r.queue.subrange(0, tk.queue.len() as int)[i - i0 - 1] == tk.queue[i - i0 - 1]);
                            assert(f.queue[i - i0 - 1] == q[i]);
                        }
                    }
                } else {
                    let j = choose|j: int| 0 <= j < cs.len() && (#[trigger] cs[j]).id == Some(kk) && r.blocks[kk] == cs[j];
                    assert(t[tree_index(t, kk)] == (cs[j], d + 1));
                    assert(cs[j].has_children == Some(true));
                    let i = choose|i: int| tk.queue.len() <= i < r.queue.len() && (#[trigger] r.queue[i]).0 == cs[j].id->0;
                }
            }
        }
        assert forall|j: int| 0 <= j < blocks.len() implies f.blocks.contains_key((#[trigger] blocks[j]).id->0) by {
            assert(s.blocks.contains_key(blocks[j].id->0));
        }
        assert(f.order.subrange(0, top.len() as int) =~= top) by {
            assert(r.order.subrange(0, tk.order.len() as int) == tk.order);
            assert forall|i: int| 0 <= i < top.len() implies f.order.subrange(0, top.len() as int)[i] == top[i] by {
                assert(f.order[i] == r.order.subrange(0, tk.order.len() as int)[i]);
                assert(tk.order[i] == s.order.subrange(0, top.len() as int)[i]);
            }
        }
        assert forall|i: int| top.len() <= i < f.order.len() implies is_listed_child(f, #[trigger] f.order[i]) by {
            if i < tk.order.len() {
                assert(f.order[i] == r.order.subrange(0, tk.order.len() as int)[i]);
                assert(is_listed_child(s, s.order[i]));
                let pp = choose|pp: Seq<char>| #[trigger] s.parents.contains_key(pp) && s.parents[pp].contains(s.order[i]);
                assert(f.parents.contains_key(pp));
                if pp == k {
                    assert(s.parents[k] == ids_of(answer(k)));
                }
                assert(f.parents[pp].contains(f.order[i]));
            } else {
                let j = choose|j: int| 0 <= j < cs.len() && (#[trigger] cs[j]).id == Some(#[trigger] r.order[i]);
                lemma_ids_of_has(cs, j);
                assert(f.parents.contains_key(k) && f.parents[k].contains(f.order[i]));
            }
        }
    }
}

proof fn lemma_drive_inv(
    s: SFetch,
    blocks: Seq<SNotionBlock>,
    answer: spec_fn(Seq<char>) -> Seq<SNotionBlock>,
    n: nat,
)
    requires
        bfs_inv(s, blocks, answer),
        distinct_ids(tree_nodes(blocks, 0, s.max_depth, answer)),
    ensures
        bfs_inv(bfs_drive_n(s, answer, n), blocks, answer),
        bfs_drive_n(s, answer, n).max_depth == s.max_depth,
    decreases n,
{
    if n > 0 {
        lemma_inv_step(s, blocks, answer);
        lemma_drive_inv(bfs_step(s, answer), blocks, answer, (n - 1) as nat);
    }
}

/// A breadth-first fetch of `blocks` whose requests are answered by
/// `answer`, run until no request is left, gives the tree that a
/// depth-first fetch answered the same way gives (see [`dfs_list`]): the
/// top-level blocks in order, each block whose children are wanted (it has
/// children, an identifier, and lies above the depth limit) holding the
/// blocks its answer becomes one level down, all the way down.  This holds
/// when every block of that tree has an identifier and no two share one.
pub proof fn law_bfs_fetch_gives_tree(
    blocks: Seq<SNotionBlock>,
    max_depth: nat,
    answer: spec_fn(Seq<char>) -> Seq<SNotionBlock>,
    n: nat,
)
    requires
        distinct_ids(tree_nodes(blocks, 0, max_depth, answer)),
        bfs_drained(bfs_drive_n(bfs_start(blocks, max_depth), answer, n)),
    ensures
        ({
            let f = bfs_drive_n(bfs_start(blocks, max_depth), answer, n);
            assemble_from(f, f.order) == dfs_list(blocks, 0, max_depth, answer)
        }),
{
    let s0 = bfs_start(blocks, max_depth);
    lemma_inv_start(blocks, max_depth, answer);
    lemma_drive_inv(s0, blocks, answer, n);
    let f = bfs_drive_n(s0, answer, n);
    let t = tree_nodes(blocks, 0, max_depth, answer);
    let mx = max_depth;
    lemma_first_open(f.queue, mx, 0);
    assert forall|k: Seq<char>| #![trigger f.blocks.contains_key(k)] f.blocks.contains_key(k) && wants_children(
        t[tree_index(t, k)].0,
        t[tree_index(t, k)].1 as int,
        mx as int,
    ) implies f.parents.contains_key(k) by {
        if !f.parents.contains_key(k) {
            let i = choose|i: int| 0 <= i < f.queue.len() && (#[trigger] f.queue[i]).0 == k;
            assert(f.queue[i].1 >= mx);
        }
    }
    assert(holds_tree(f, blocks, answer));
    let top = ids_of(blocks);
    assert(f.order =~= top + f.order.subrange(top.len() as int, f.order.len() as int));
    lemma_assemble_from_listed(f, top, f.order.subrange(top.len() as int, f.order.len() as int));
    lemma_assemble_top(f, blocks, answer, blocks.len() as int);
    assert(blocks.take(blocks.len() as int) =~= blocks);
}

} // verus!
