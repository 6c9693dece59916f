//! Helpers that build Notion blocks and read Pandoc inlines, for tests and
//! examples.
pub mod notion_helpers;
pub mod pandoc_helpers;
