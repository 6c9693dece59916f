//! The part of converting a text document to Notion blocks that follows
//! parsing: each Pandoc block of the document is converted on its own, and
//! a block that cannot be converted is left out.
use crate::notion_api::{notion_blocks_view, NotionBlock, SNotionBlock};
use crate::p2n::pandoc_block_visitor::{spec_visit_pandoc_block, PandocToNotionVisitor};
use crate::p2n::pandoc_text::{unsupported_with, ConversionError};
use crate::pandoc::{blocks_view, Block, SBlock};
use vstd::prelude::*;

verus! {

/// The Notion blocks made from the document's blocks, in order, leaving
/// out each block whose conversion fails.
pub open spec fn spec_document_blocks(bs: Seq<SBlock>) -> Seq<SNotionBlock>
    decreases bs.len(),
{
    if bs.len() == 0 {
        Seq::empty()
    } else {
        let rest = spec_document_blocks(bs.drop_last());
        match spec_visit_pandoc_block(bs.last(), None) {
            Ok(more) => rest + more,
            Err(_) => rest,
        }
    }
}

/// The messages of the failed conversions, in order.
pub open spec fn spec_document_errors(bs: Seq<SBlock>) -> Seq<Seq<char>>
    decreases bs.len(),
{
    if bs.len() == 0 {
        Seq::empty()
    } else {
        let rest = spec_document_errors(bs.drop_last());
        match spec_visit_pandoc_block(bs.last(), None) {
            Ok(_) => rest,
            Err(d) => rest.push(d),
        }
    }
}

/// Converts each block of a parsed document to Notion blocks, without a
/// parent.  Blocks that fail are left out; their errors are returned beside
/// the blocks, in order.
pub fn pandoc_to_notion_blocks(blocks: &[Block]) -> (r: (Vec<NotionBlock>, Vec<ConversionError>))
    ensures
        notion_blocks_view(r.0@) == spec_document_blocks(blocks_view(blocks@)),
        r.1@.len() == spec_document_errors(blocks_view(blocks@)).len(),
        forall|i: int|
            0 <= i < r.1@.len() ==> unsupported_with(
                #[trigger] r.1@[i],
                spec_document_errors(blocks_view(blocks@))[i],
            ),
{
    let visitor = PandocToNotionVisitor::new();
    let ghost all = blocks_view(blocks@);
    proof {
        crate::pandoc::lemma_blocks_view(blocks@);
    }
    let mut out: Vec<NotionBlock> = Vec::new();
    let mut errors: Vec<ConversionError> = Vec::new();
    let mut i: usize = 0;
    while i < blocks.len()
        invariant
            i <= blocks@.len(),
            all == blocks_view(blocks@),
            all.len() == blocks@.len(),
            forall|j: int| 0 <= j < blocks@.len() ==> #[trigger] all[j] == blocks@[j]@,
            notion_blocks_view(out@) == spec_document_blocks(all.take(i as int)),
            errors@.len() == spec_document_errors(all.take(i as int)).len(),
            forall|j: int|
                0 <= j < errors@.len() ==> unsupported_with(
                    #[trigger] errors@[j],
                    spec_document_errors(all.take(i as int))[j],
                ),
        decreases blocks@.len() - i,
    {
        proof {
            assert(all.take(i + 1).drop_last() =~= all.take(i as int));
            assert(all.take(i + 1).last() == blocks@[i as int]@);
        }
        match visitor.visit_block(&blocks[i], None) {
            Ok(converted) => {
                let ghost before = out@;
                let ghost cv = converted@;
                let mut converted = converted;
                out.append(&mut converted);
                proof {
                    crate::notion_api::lemma_notion_blocks_view_add(before, cv);
                }
            },
            Err(e) => {
                errors.push(e);
            },
        }
        i = i + 1;
    }
    proof {
        assert(all.take(i as int) =~= all);
    }
    (out, errors)
}

} // verus!
