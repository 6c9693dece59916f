//! Conversion of Notion blocks and rich text into Pandoc elements.
//!
//! Rich text becomes Pandoc inlines with its formatting, equations become
//! inline math, links become Pandoc links, and each supported block kind
//! becomes the matching Pandoc block.  A visitor walks the block tree,
//! converting children recursively, then merges adjacent list items into
//! single lists.
pub mod block_dispatcher;
pub mod notion_block_visitor;
pub mod notion_code;
pub mod notion_divider;
pub mod notion_heading;
pub mod notion_list;
pub mod notion_paragraph;
pub mod notion_quote;
pub mod notion_text;
pub mod notion_toggle;
pub mod supported_blocks;
pub mod visitor;


use vstd::prelude::*;

verus! {

/// Settings of the Notion to Pandoc conversion.
#[derive(Debug, Clone, Copy)]
pub struct ConversionConfig {
    /// Whether Notion-specific attributes (colors, block kinds) are kept in
    /// the Pandoc output; when false they are left blank.
    pub preserve_attributes: bool,
    /// Whether special Markdown characters are escaped in the output.
    pub escape_markdown: bool,
    /// Whether toggle blocks become a `Div` with the `toggle` class rather
    /// than a plain paragraph.
    pub render_toggle_div: bool,
}

impl Default for ConversionConfig {
    /// Attributes are not preserved, Markdown is not escaped, and toggles are
    /// rendered as plain paragraphs.
    fn default() -> (r: ConversionConfig)
        ensures
            !r.preserve_attributes,
            !r.escape_markdown,
            !r.render_toggle_div,
    {
        ConversionConfig { preserve_attributes: false, escape_markdown: false, render_toggle_div: false }
    }
}

} // verus!
