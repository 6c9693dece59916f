//! Options of the high-level client.
use crate::n2p::ConversionConfig;
use vstd::prelude::*;

verus! {

/// Options of the high-level client; an option left `None` keeps what the
/// client had.
#[derive(Debug, Clone, Copy)]
pub struct ClientConfig {
    /// Whether Notion-specific attributes (colors, etc.) are preserved.
    pub preserve_attributes: Option<bool>,
    /// Whether Markdown characters are escaped in the output.
    pub escape_markdown: Option<bool>,
}

impl Default for ClientConfig {
    fn default() -> (r: Self)
        ensures
            r.preserve_attributes is None,
            r.escape_markdown is None,
    {
        ClientConfig { preserve_attributes: None, escape_markdown: None }
    }
}

impl ClientConfig {
    /// The conversion settings these options select: none when
    /// `preserve_attributes` is not given (the client keeps its own);
    /// otherwise that choice, with Markdown escaped unless
    /// `escape_markdown` says otherwise, and toggles as paragraphs.
    pub fn conversion_config(&self) -> (r: Option<ConversionConfig>)
        ensures
            match self.preserve_attributes {
                None => r is None,
                Some(p) => r matches Some(c) && c.preserve_attributes == p && c.escape_markdown == match self.escape_markdown {
                    Some(e) => e,
                    None => true,
                } && !c.render_toggle_div,
            },
    {
        match self.preserve_attributes {
            None => None,
            Some(p) => Some(
                ConversionConfig {
                    preserve_attributes: p,
                    escape_markdown: match self.escape_markdown {
                        Some(e) => e,
                        None => true,
                    },
                    render_toggle_div: false,
                },
            ),
        }
    }
}

} // verus!
