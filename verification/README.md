# pandoc_notion

Conversion between Notion pages and Pandoc documents, with its logic
verified by Verus.

## Layout

- `src/` — the verified library.
  - `notion_api.rs`, `pandoc.rs`: the two document models (Notion blocks and
    rich text; Pandoc blocks and inlines), each with a mathematical view.
  - `n2p/`: Notion to Pandoc (rich text, headings, paragraphs, lists,
    quotes, code, toggles, dividers; a block visitor and a dispatcher).
  - `p2n/`: Pandoc to Notion (inlines to rich text, and the block
    converters).
  - `outline.rs`: the outline of a tree of Notion or Pandoc blocks that is
    printed when a conversion is traced.
  - `round_trip.rs`: what survives converting text and headings one way and
    back.
  - `notion_block_fetcher.rs`, `notion_block_putter.rs`: how a tree of
    blocks is fetched from, and uploaded to, the Notion API one level at a
    time (the requests themselves are made by the caller);
    `breadth_first_tree.rs` proves that a whole breadth-first fetch gives
    the same tree as a depth-first one.
  - `notion/`: a typed model of the Notion API's objects, with helpers that
    create blocks, and the table of children of toggleable blocks.
  - `text/`: text formats and the settings and outputs of the Pandoc
    program.
  - `test_utils/`: blocks and readers for tests and examples.
- `tests/`: tests of the library.
- `app/`: the command-line program: the Notion client, the Pandoc process,
  the conversions between the outside crates' types and the library's
  models, and the fetch and upload loops.

Pandoc must be installed for the program's text conversions.
