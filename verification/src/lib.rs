//! Conversion between Notion blocks and Pandoc documents.
//!
//! `n2p` turns Notion blocks and rich text into Pandoc blocks and inlines,
//! `p2n` turns Pandoc blocks and inlines into Notion blocks and rich text.
//! `notion_api` and `pandoc` hold the two document models the converters
//! work on, `notion` a typed model of the Notion API's own objects, and
//! `text` the text formats that Pandoc reads and writes.
//! `notion_block_fetcher` and `notion_block_putter` decide how a tree of
//! blocks is fetched from, and uploaded to, the Notion API one level at a
//! time (`breadth_first_tree` states what a whole breadth-first fetch
//! comes to), `converter` turns a parsed document into Notion blocks,
//! `outline` writes the line-by-line outline of a block tree that is shown
//! when a conversion is traced, and `round_trip` states what survives
//! converting text one way and back.
pub mod api;
pub mod block_copy;
pub mod breadth_first_tree;
pub mod converter;
pub mod n2p;
pub mod notion;
pub mod notion_api;
pub mod notion_block_fetcher;
pub mod notion_block_putter;
pub mod outline;
pub mod p2n;
pub mod pandoc;
pub mod prelude;
pub mod round_trip;
pub mod strings;
pub mod test_utils;
pub mod text;

pub use api::ClientConfig;
pub use n2p::ConversionConfig;
pub use notion::toggleable::{ToggleableBlock, ToggleableBlockChildren};
pub use notion_block_fetcher::{BlockFetcherConfig, BreadthFirstFetch, DepthFirstFetch, FetchStep};
pub use notion_block_putter::{BlockPutterConfig, LevelOrderUpload};
pub use text::processor::PandocProcessor;
pub use text::{TextFormat, TextProcessingError};

use text::processor::{create_processor, SPandocProcessor};
use vstd::prelude::*;

verus! {

/// The version of this library.
pub const VERSION: &'static str = "0.1.0";

/// A processor that runs `pandoc` with no default options.
pub fn create_text_processor() -> (r: PandocProcessor)
    ensures
        r@ == (SPandocProcessor { pandoc_path: "pandoc"@, default_options: Seq::empty() }),
{
    create_processor()
}

} // verus!
