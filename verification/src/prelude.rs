//! The items that most users of the library need, in one place.
pub use crate::create_text_processor;
pub use crate::n2p::ConversionConfig;
pub use crate::notion::toggleable::{ToggleableBlock, ToggleableBlockChildren};
pub use crate::notion_block_fetcher::{BlockFetcherConfig, BreadthFirstFetch, DepthFirstFetch, FetchStep};
pub use crate::notion_block_putter::{BlockPutterConfig, LevelOrderUpload};
pub use crate::pandoc::{Block, Inline};
pub use crate::text::TextFormat;
