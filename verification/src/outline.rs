//! Outlines of block trees: one line per block, nested blocks indented
//! under the block that holds them, as the converter shows a document's
//! structure when it is asked to.
use crate::notion_api::{block_type_view, notion_blocks_view, BlockType, NotionBlock, SBlockType, SNotionBlock};
use crate::pandoc::{blocks_view, strings_view, Block, OtherBlock, SBlock, SOtherBlock};
use crate::strings::{
    byte_count, chars_of, decimal, decimal_chars, join, join_chars, signed_decimal, signed_decimal_chars,
    string_from_chars,
};
use vstd::prelude::*;

verus! {

broadcast use {vstd::std_specs::vec::group_vec_axioms, crate::pandoc::group_pandoc_view};

/// `n` spaces.
pub open spec fn spaces(n: nat) -> Seq<char> {
    Seq::new(n, |i: int| ' ')
}

/// The line of the `i`-th block of a sequence: its number, then what it is.
pub open spec fn numbered(pad: Seq<char>, i: nat, what: Seq<char>) -> Seq<char> {
    pad + "Block #"@ + decimal(i) + ": "@ + what
}

/// The outline of a sequence of Pandoc blocks, each line starting with
/// `pad`: a line that counts the blocks, then each block's lines in order.
pub open spec fn pandoc_outline_lines(bs: Seq<SBlock>, pad: Seq<char>) -> Seq<Seq<char>>
    decreases bs, 2int, 0nat,
{
    seq![pad + "Pandoc Blocks: "@ + decimal(bs.len()) + " items"@] + pandoc_entries(bs, pad, bs.len())
}

/// The lines of the first `k` blocks of `bs`.
pub open spec fn pandoc_entries(bs: Seq<SBlock>, pad: Seq<char>, k: nat) -> Seq<Seq<char>>
    decreases bs, 1int, k,
{
    if k == 0 || k > bs.len() {
        Seq::empty()
    } else {
        pandoc_entries(bs, pad, (k - 1) as nat) + pandoc_block_outline(bs[k - 1], (k - 1) as nat, pad)
    }
}

/// The lines of the first `k` items of a list: each item's line, then the
/// outline of its blocks, eight spaces further in.
pub open spec fn pandoc_items(items: Seq<Seq<SBlock>>, pad: Seq<char>, k: nat) -> Seq<Seq<char>>
    decreases items, 1int, k,
{
    if k == 0 || k > items.len() {
        Seq::empty()
    } else {
        let item = items[k - 1];
        pandoc_items(items, pad, (k - 1) as nat) + seq![
            pad + "  Item #"@ + decimal((k - 1) as nat) + " with "@ + decimal(item.len()) + " blocks"@,
        ] + pandoc_outline_lines(item, pad + spaces(8))
    }
}

/// The lines of the `i`-th block: what kind it is and how much it holds,
/// then the outline of the blocks it holds, further in.
pub open spec fn pandoc_block_outline(b: SBlock, i: nat, pad: Seq<char>) -> Seq<Seq<char>>
    decreases b, 0int, 0nat,
{
    match b {
        SBlock::Plain(inl) => seq![numbered(pad, i, "Plain with "@ + decimal(inl.len()) + " inlines"@)],
        SBlock::Para(inl) => seq![numbered(pad, i, "Para with "@ + decimal(inl.len()) + " inlines"@)],
        SBlock::CodeBlock(a, t) => seq![
            numbered(pad, i, "CodeBlock '"@ + join(a.classes, ", "@) + "' ("@ + decimal(byte_count(t)) + " chars)"@),
        ],
        SBlock::BlockQuote(v) => seq![numbered(pad, i, "BlockQuote with "@ + decimal(v.len()) + " blocks"@)]
            + pandoc_outline_lines(v, pad + spaces(4)),
        SBlock::OrderedList(_, items) => seq![
            numbered(pad, i, "OrderedList with "@ + decimal(items.len()) + " items"@),
        ] + pandoc_items(items, pad, items.len()),
        SBlock::BulletList(items) => seq![numbered(pad, i, "BulletList with "@ + decimal(items.len()) + " items"@)]
            + pandoc_items(items, pad, items.len()),
        SBlock::Header(level, _, inl) => seq![
            numbered(
                pad,
                i,
                "Header level "@ + signed_decimal(level as int) + " with "@ + decimal(inl.len()) + " inlines"@,
            ),
        ],
        SBlock::HorizontalRule => seq![numbered(pad, i, "HorizontalRule"@)],
        SBlock::Div(a, v) => seq![
            numbered(pad, i, "Div '"@ + join(a.classes, ", "@) + "' with "@ + decimal(v.len()) + " blocks"@),
        ] + pandoc_outline_lines(v, pad + spaces(4)),
        SBlock::Null => seq![numbered(pad, i, "Null"@)],
        SBlock::Other(o, _) => match o {
            SOtherBlock::LineBlock(n) => seq![numbered(pad, i, "LineBlock with "@ + decimal(n) + " lines"@)],
            SOtherBlock::RawBlock(f, t) => seq![
                numbered(pad, i, "RawBlock format '"@ + f + "' ("@ + decimal(byte_count(t)) + " chars)"@),
            ],
            SOtherBlock::DefinitionList(n) => seq![
                numbered(pad, i, "DefinitionList with "@ + decimal(n) + " items"@),
            ],
            SOtherBlock::Table => seq![numbered(pad, i, "Table"@)],
            SOtherBlock::Figure(v) => seq![numbered(pad, i, "Figure with "@ + decimal(v.len()) + " blocks"@)]
                + pandoc_outline_lines(v, pad + spaces(4)),
        },
    }
}

/// The `Debug` rendering of a Notion block kind with the given view, as
/// Rust's derived `Debug` writes it.
pub uninterp spec fn block_type_debug(t: SBlockType) -> Seq<char>;

/// Formats a block kind with `format!("{:?}", ..)`, whose output the derived
/// `Debug` of these types decides.  What it writes is named by
/// `block_type_debug` and not restated here.
#[verifier::external_body]
pub(crate) fn debug_block_type(t: &BlockType) -> (r: String)
    ensures
        r@ == block_type_debug(block_type_view(*t)),
{
    format!("{:?}", t)
}

/// The outline of a sequence of Notion blocks, each line starting with
/// `pad`: a line that counts the blocks, then each block's line and the
/// outline of its children.
pub open spec fn notion_outline_lines(bs: Seq<SNotionBlock>, pad: Seq<char>) -> Seq<Seq<char>>
    decreases bs, 2int, 0nat,
{
    seq![pad + "Notion Blocks: "@ + decimal(bs.len()) + " items"@] + notion_entries(bs, pad, bs.len())
}

/// The lines of the first `k` blocks of `bs`: each block's number and the
/// `Debug` rendering of its kind, then the lines of its children.
pub open spec fn notion_entries(bs: Seq<SNotionBlock>, pad: Seq<char>, k: nat) -> Seq<Seq<char>>
    decreases bs, 1int, k,
{
    if k == 0 || k > bs.len() {
        Seq::empty()
    } else {
        notion_entries(bs, pad, (k - 1) as nat) + seq![
            numbered(pad, (k - 1) as nat, "Type: "@ + block_type_debug(bs[k - 1].block_type)),
        ] + kind_children_lines(bs[k - 1].block_type, pad)
    }
}

/// The lines of the children that a block of this kind holds, if it holds
/// any: a line that counts them, then their outline, four spaces further in.
pub open spec fn kind_children_lines(t: SBlockType, pad: Seq<char>) -> Seq<Seq<char>>
    decreases t, 0int, 0nat,
{
    let c = match t {
        SBlockType::Paragraph(v) => v.children,
        SBlockType::BulletedListItem(v) => v.children,
        SBlockType::NumberedListItem(v) => v.children,
        SBlockType::ToDo(v) => v.children,
        SBlockType::Quote(v) => v.children,
        SBlockType::Toggle(v) => v.children,
        _ => None,
    };
    match c {
        Some(ch) => if ch.len() > 0 {
            seq![pad + "  Has "@ + decimal(ch.len()) + " children:"@] + notion_outline_lines(ch, pad + spaces(4))
        } else {
            Seq::empty()
        },
        None => Seq::empty(),
    }
}

/// The outline of Notion `blocks`, each line indented by `indent` spaces: a
/// line that counts the blocks, then for each block its number and the
/// `Debug` rendering of its kind, and for a block that holds children, a
/// line that counts them and, four spaces further in, their outline.
pub fn notion_outline(blocks: &[NotionBlock], indent: usize) -> (r: Vec<String>)
    ensures
        strings_view(r@) == notion_outline_lines(notion_blocks_view(blocks@), spaces(indent as nat)),
{
    let pad = deeper_by(indent);
    let mut out: Vec<String> = Vec::new();
    assert(strings_view(out@) =~= Seq::<Seq<char>>::empty());
    outline_notion_blocks(blocks, &pad, &mut out);
    assert(strings_view(out@) =~= notion_outline_lines(notion_blocks_view(blocks@), spaces(indent as nat)));
    out
}

/// `n` spaces.
fn deeper_by(n: usize) -> (r: Vec<char>)
    ensures
        r@ == spaces(n as nat),
{
    let mut pad: Vec<char> = Vec::new();
    for k in 0..n
        invariant
            pad@ == spaces(k as nat),
    {
        pad.push(' ');
        assert(pad@ =~= spaces((k + 1) as nat));
    }
    pad
}

/// Appends the outline of Notion `blocks`, each line starting with `pad`.
fn outline_notion_blocks(blocks: &[NotionBlock], pad: &Vec<char>, out: &mut Vec<String>)
    ensures
        strings_view(final(out)@) == strings_view(old(out)@) + notion_outline_lines(
            notion_blocks_view(blocks@),
            pad@,
        ),
    decreases blocks@, 1int,
{
    let ghost start = strings_view(out@);
    let ghost bv = notion_blocks_view(blocks@);
    let mut head = pad.clone();
    let c = counted("Notion Blocks: ", blocks.len(), " items");
    add_chars(&mut head, &c);
    proof {
        crate::notion_api::lemma_notion_blocks_view(blocks@);
    }
    assert(head@ =~= pad@ + "Notion Blocks: "@ + decimal(bv.len()) + " items"@);
    push_line(out, &head);
    for i in 0..blocks.len()
        invariant
            bv == notion_blocks_view(blocks@),
            bv.len() == blocks@.len(),
            strings_view(out@) == start + seq![head@] + notion_entries(bv, pad@, i as nat),
    {
        proof {
            crate::notion_api::lemma_notion_blocks_view(blocks@);
        }
        let block = &blocks[i];
        assert(bv[i as int] == block@);
        let mut what = chars_of("Type: ");
        let d = debug_block_type(&block.block_type);
        let dc = chars_of(d.as_str());
        add_chars(&mut what, &dc);
        push_numbered(out, pad, i, &what);
        outline_kind_children(&block.block_type, pad, out);
        assert(strings_view(out@) =~= start + seq![head@] + notion_entries(bv, pad@, (i + 1) as nat));
    }
    assert(strings_view(out@) =~= start + notion_outline_lines(bv, pad@));
}

/// Appends the lines of the children that a block of kind `t` holds.
fn outline_kind_children(t: &BlockType, pad: &Vec<char>, out: &mut Vec<String>)
    ensures
        strings_view(final(out)@) == strings_view(old(out)@) + kind_children_lines(block_type_view(*t), pad@),
    decreases *t, 0int,
{
    let children = match t {
        BlockType::Paragraph { paragraph } => &paragraph.children,
        BlockType::BulletedListItem { bulleted_list_item } => &bulleted_list_item.children,
        BlockType::NumberedListItem { numbered_list_item } => &numbered_list_item.children,
        BlockType::ToDo { to_do } => &to_do.children,
        BlockType::Quote { quote } => &quote.children,
        BlockType::Toggle { toggle } => &toggle.children,
        _ => &None,
    };
    let ghost start = strings_view(out@);
    match children {
        Some(ch) => {
            if ch.len() > 0 {
                proof {
                    crate::notion_api::lemma_notion_blocks_view(ch@);
                }
                let mut line = pad.clone();
                let c = counted("  Has ", ch.len(), " children:");
                add_chars(&mut line, &c);
                assert(line@ =~= pad@ + "  Has "@ + decimal(ch@.len()) + " children:"@);
                assert(crate::notion_block_fetcher::kind_children(block_type_view(*t)) == Some(
                    notion_blocks_view(ch@),
                ));
                push_line(out, &line);
                let inner = deeper(pad, 4);
                outline_notion_blocks(ch.as_slice(), &inner, out);
                assert(strings_view(out@) =~= start + kind_children_lines(block_type_view(*t), pad@));
            }
        },
        None => {},
    }
}

/// The outline of `blocks`, each line indented by `indent` spaces: a line
/// that counts the blocks, then for each block its number and kind with what
/// it holds (inlines, blocks, list items, the classes of a code block or a
/// div, the byte length of a code block's text), then, four spaces further
/// in, the outline of the blocks it holds, and for a list, each item's line
/// and, eight spaces in, the outline of the item's blocks.
pub fn pandoc_outline(blocks: &[Block], indent: usize) -> (r: Vec<String>)
    ensures
        strings_view(r@) == pandoc_outline_lines(blocks_view(blocks@), spaces(indent as nat)),
{
    let mut pad: Vec<char> = Vec::new();
    for k in 0..indent
        invariant
            pad@ == spaces(k as nat),
    {
        pad.push(' ');
        assert(pad@ =~= spaces((k + 1) as nat));
    }
    let mut out: Vec<String> = Vec::new();
    assert(strings_view(out@) =~= Seq::<Seq<char>>::empty());
    outline_blocks(blocks, &pad, &mut out);
    assert(strings_view(out@) =~= pandoc_outline_lines(blocks_view(blocks@), spaces(indent as nat)));
    out
}

/// Appends the characters of `s`.
pub(crate) fn add_str(v: &mut Vec<char>, s: &str)
    ensures
        final(v)@ == old(v)@ + s@,
{
    let mut c = chars_of(s);
    v.append(&mut c);
}

/// Appends the characters of `w`.
pub(crate) fn add_chars(v: &mut Vec<char>, w: &Vec<char>)
    ensures
        final(v)@ == old(v)@ + w@,
{
    let ghost start = v@;
    for i in 0..w.len()
        invariant
            v@ == start + w@.take(i as int),
    {
        v.push(w[i]);
        assert(w@.take(i + 1) =~= w@.take(i as int).push(w@[i as int]));
    }
    assert(w@.take(w@.len() as int) =~= w@);
}

/// Appends one line to `out`.
pub(crate) fn push_line(out: &mut Vec<String>, line: &Vec<char>)
    ensures
        strings_view(final(out)@) == strings_view(old(out)@).push(line@),
{
    let ghost before = strings_view(out@);
    out.push(string_from_chars(line));
    assert(strings_view(out@) =~= before.push(line@));
}

/// Appends the line of the `i`-th block, saying `what` it is.
fn push_numbered(out: &mut Vec<String>, pad: &Vec<char>, i: usize, what: &Vec<char>)
    ensures
        strings_view(final(out)@) == strings_view(old(out)@).push(numbered(pad@, i as nat, what@)),
{
    let mut line: Vec<char> = Vec::new();
    add_chars(&mut line, pad);
    add_str(&mut line, "Block #");
    let d = decimal_chars(i as u64);
    add_chars(&mut line, &d);
    add_str(&mut line, ": ");
    add_chars(&mut line, what);
    assert(line@ =~= numbered(pad@, i as nat, what@));
    push_line(out, &line);
}

/// `head`, the decimal numeral of `n`, then `tail`.
pub(crate) fn counted(head: &str, n: usize, tail: &str) -> (r: Vec<char>)
    ensures
        r@ == head@ + decimal(n as nat) + tail@,
{
    let mut r = chars_of(head);
    let d = decimal_chars(n as u64);
    add_chars(&mut r, &d);
    add_str(&mut r, tail);
    r
}

/// `pad` and `extra` more spaces.
fn deeper(pad: &Vec<char>, extra: usize) -> (r: Vec<char>)
    requires
        extra <= 8,
    ensures
        r@ == pad@ + spaces(extra as nat),
{
    let mut r: Vec<char> = Vec::new();
    add_chars(&mut r, pad);
    for k in 0..extra
        invariant
            r@ == pad@ + spaces(k as nat),
    {
        r.push(' ');
        assert(r@ =~= pad@ + spaces((k + 1) as nat));
    }
    r
}

/// Appends the outline of `blocks`, each line starting with `pad`.
fn outline_blocks(blocks: &[Block], pad: &Vec<char>, out: &mut Vec<String>)
    ensures
        strings_view(final(out)@) == strings_view(old(out)@) + pandoc_outline_lines(blocks_view(blocks@), pad@),
    decreases blocks@, 2int, 0nat,
{
    let ghost start = strings_view(out@);
    let ghost bv = blocks_view(blocks@);
    let mut head = pad.clone();
    let c = counted("Pandoc Blocks: ", blocks.len(), " items");
    add_chars(&mut head, &c);
    push_line(out, &head);
    assert(head@ == pad@ + "Pandoc Blocks: "@ + decimal(bv.len()) + " items"@) by {
        assert(head@ =~= pad@ + "Pandoc Blocks: "@ + decimal(bv.len()) + " items"@);
    }
    for i in 0..blocks.len()
        invariant
            bv == blocks_view(blocks@),
            bv.len() == blocks@.len(),
            strings_view(out@) == start + seq![head@] + pandoc_entries(bv, pad@, i as nat),
    {
        let ghost before = strings_view(out@);
        outline_block(&blocks[i], i, pad, out);
        assert(bv[i as int] == blocks@[i as int]@);
        assert(pandoc_entries(bv, pad@, (i + 1) as nat) == pandoc_entries(bv, pad@, i as nat)
            + pandoc_block_outline(bv[i as int], i as nat, pad@));
        assert(strings_view(out@) =~= start + seq![head@] + pandoc_entries(bv, pad@, (i + 1) as nat));
    }
    assert(strings_view(out@) =~= start + pandoc_outline_lines(bv, pad@));
}

/// Appends the lines of the items of a list: each item's line, then the
/// outline of its blocks, eight spaces further in.
fn outline_items(items: &Vec<Vec<Block>>, pad: &Vec<char>, out: &mut Vec<String>)
    ensures
        strings_view(final(out)@) == strings_view(old(out)@) + pandoc_items(
            crate::pandoc::items_view(items@),
            pad@,
            items@.len(),
        ),
    decreases items@, 1int, 0nat,
{
    let ghost start = strings_view(out@);
    let ghost iv = crate::pandoc::items_view(items@);
    let inner = deeper(pad, 8);
    for j in 0..items.len()
        invariant
            iv == crate::pandoc::items_view(items@),
            iv.len() == items@.len(),
            inner@ == pad@ + spaces(8),
            strings_view(out@) == start + pandoc_items(iv, pad@, j as nat),
    {
        let mut line: Vec<char> = Vec::new();
        add_chars(&mut line, pad);
        let c = counted("  Item #", j, " with ");
        add_chars(&mut line, &c);
        let d = counted("", items[j].len(), " blocks");
        add_chars(&mut line, &d);
        assert(iv[j as int] == blocks_view(items@[j as int]@));
        assert(line@ =~= pad@ + "  Item #"@ + decimal(j as nat) + " with "@ + decimal(iv[j as int].len())
            + " blocks"@) by {
            assert(""@ =~= Seq::<char>::empty()) by {
                reveal_strlit("");
            }
        }
        push_line(out, &line);
        outline_blocks(items[j].as_slice(), &inner, out);
        assert(strings_view(out@) =~= start + pandoc_items(iv, pad@, (j + 1) as nat));
    }
}

/// Appends the lines of the `i`-th block.
fn outline_block(b: &Block, i: usize, pad: &Vec<char>, out: &mut Vec<String>)
    ensures
        strings_view(final(out)@) == strings_view(old(out)@) + pandoc_block_outline(b@, i as nat, pad@),
    decreases *b, 0int, 0nat,
{
    let ghost start = strings_view(out@);
    match b {
        Block::Plain(inl) => {
            let w = counted("Plain with ", inl.len(), " inlines");
            push_numbered(out, pad, i, &w);
        },
        Block::Para(inl) => {
            let w = counted("Para with ", inl.len(), " inlines");
            push_numbered(out, pad, i, &w);
        },
        Block::CodeBlock(a, t) => {
            let mut w = chars_of("CodeBlock '");
            let j = join_chars(&a.classes, ", ");
            add_chars(&mut w, &j);
            let c = counted("' (", t.as_str().len(), " chars)");
            add_chars(&mut w, &c);
            assert(a@.classes =~= a.classes@.map_values(|x: String| x@));
            assert(w@ =~= "CodeBlock '"@ + join(a@.classes, ", "@) + "' ("@ + decimal(byte_count(t@)) + " chars)"@);
            push_numbered(out, pad, i, &w);
        },
        Block::BlockQuote(v) => {
            let w = counted("BlockQuote with ", v.len(), " blocks");
            push_numbered(out, pad, i, &w);
            let inner = deeper(pad, 4);
            outline_blocks(v.as_slice(), &inner, out);
        },
        Block::OrderedList(_, items) => {
            let w = counted("OrderedList with ", items.len(), " items");
            push_numbered(out, pad, i, &w);
            outline_items(items, pad, out);
        },
        Block::BulletList(items) => {
            let w = counted("BulletList with ", items.len(), " items");
            push_numbered(out, pad, i, &w);
            outline_items(items, pad, out);
        },
        Block::Header(level, _, inl) => {
            let mut w = chars_of("Header level ");
            let l = signed_decimal_chars(*level as i64);
            add_chars(&mut w, &l);
            let c = counted(" with ", inl.len(), " inlines");
            add_chars(&mut w, &c);
            assert(w@ =~= "Header level "@ + signed_decimal(*level as int) + " with "@ + decimal(inl@.len())
                + " inlines"@);
            push_numbered(out, pad, i, &w);
        },
        Block::HorizontalRule => {
            let w = chars_of("HorizontalRule");
            push_numbered(out, pad, i, &w);
        },
        Block::Div(a, v) => {
            let mut w = chars_of("Div '");
            let j = join_chars(&a.classes, ", ");
            add_chars(&mut w, &j);
            let c = counted("' with ", v.len(), " blocks");
            add_chars(&mut w, &c);
            assert(a@.classes =~= a.classes@.map_values(|x: String| x@));
            assert(w@ =~= "Div '"@ + join(a@.classes, ", "@) + "' with "@ + decimal(v@.len()) + " blocks"@);
            push_numbered(out, pad, i, &w);
            let inner = deeper(pad, 4);
            outline_blocks(v.as_slice(), &inner, out);
        },
        Block::Null => {
            let w = chars_of("Null");
            push_numbered(out, pad, i, &w);
        },
        Block::Other(o, _) => match o {
            OtherBlock::LineBlock(n) => {
                let w = counted("LineBlock with ", *n, " lines");
                push_numbered(out, pad, i, &w);
            },
            OtherBlock::RawBlock(f, t) => {
                let mut w = chars_of("RawBlock format '");
                let fc = chars_of(f.as_str());
                add_chars(&mut w, &fc);
                let c = counted("' (", t.as_str().len(), " chars)");
                add_chars(&mut w, &c);
                assert(w@ =~= "RawBlock format '"@ + f@ + "' ("@ + decimal(byte_count(t@)) + " chars)"@);
                push_numbered(out, pad, i, &w);
            },
            OtherBlock::DefinitionList(n) => {
                let w = counted("DefinitionList with ", *n, " items");
                push_numbered(out, pad, i, &w);
            },
            OtherBlock::Table => {
                let w = chars_of("Table");
                push_numbered(out, pad, i, &w);
            },
            OtherBlock::Figure(v) => {
                let w = counted("Figure with ", v.len(), " blocks");
                push_numbered(out, pad, i, &w);
                let inner = deeper(pad, 4);
                outline_blocks(v.as_slice(), &inner, out);
            },
        },
    }
    assert(strings_view(out@) =~= start + pandoc_block_outline(b@, i as nat, pad@));
}

} // verus!
