//! Code blocks.
use crate::notion::blocks::{bare_block, Block, BlockContent};
use crate::notion::text::RichTextObject;
use vstd::prelude::*;

verus! {

/// The languages of code blocks.
#[derive(Debug, Clone, Copy, PartialEq, Eq, Structural)]
pub enum CodeLanguage {
    Abap,
    Arduino,
    Bash,
    Basic,
    C,
    Clojure,
    Coffeescript,
    CPlusPlus,
    CSharp,
    Css,
    Dart,
    Diff,
    Docker,
    Elixir,
    Elm,
    Erlang,
    Flow,
    Fortran,
    FSharp,
    Gherkin,
    Glsl,
    Go,
    Graphql,
    Groovy,
    Haskell,
    Html,
    Java,
    Javascript,
    Json,
    Julia,
    Kotlin,
    Latex,
    Less,
    Lisp,
    Livescript,
    Lua,
    Makefile,
    Markdown,
    Markup,
    Matlab,
    Mermaid,
    Nix,
    ObjectiveC,
    Ocaml,
    Pascal,
    Perl,
    Php,
    PlainText,
    Powershell,
    Prolog,
    Protobuf,
    Python,
    R,
    Reason,
    Ruby,
    Rust,
    Sass,
    Scala,
    Scheme,
    Scss,
    Shell,
    Sql,
    Swift,
    Typescript,
    VbNet,
    Verilog,
    Vhdl,
    VisualBasic,
    Webassembly,
    Xml,
    Yaml,
    JavaCFamily,
}

impl Default for CodeLanguage {
    /// Plain text.
    fn default() -> (r: CodeLanguage)
        ensures
            r == CodeLanguage::PlainText,
    {
        CodeLanguage::PlainText
    }
}

/// The content of a code block.
#[derive(Debug)]
pub struct CodeProperties {
    pub rich_text: Vec<RichTextObject>,
    pub language: CodeLanguage,
    pub caption: Vec<RichTextObject>,
    pub children: Option<Vec<Block>>,
}

impl Default for CodeProperties {
    /// No text, plain text, no caption, no children.
    fn default() -> (r: CodeProperties)
        ensures
            r.rich_text@.len() == 0,
            r.language == CodeLanguage::PlainText,
            r.caption@.len() == 0,
            r.children is None,
    {
        CodeProperties {
            rich_text: Vec::new(),
            language: CodeLanguage::PlainText,
            caption: Vec::new(),
            children: None,
        }
    }
}

/// A code block with the given text and language, with no caption.
pub fn create_code(rich_text: Vec<RichTextObject>, language: CodeLanguage) -> (r: Block)
    ensures
        r.object is None && r.id is None && r.parent is None && r.has_children is None,
        r.content matches BlockContent::Code { code } && code.rich_text == rich_text
            && code.language == language && code.caption@.len() == 0 && code.children is None,
{
    Block {
        object: None,
        id: None,
        parent: None,
        has_children: None,
        content: BlockContent::Code { code: CodeProperties { rich_text, language, caption: Vec::new(), children: None } },
    }
}

/// A code block with the given text, language and caption.
pub fn create_code_with_caption(rich_text: Vec<RichTextObject>, language: CodeLanguage, caption: Vec<RichTextObject>) -> (r: Block)
    ensures
        r == bare_block(BlockContent::Code { code: CodeProperties { rich_text, language, caption, children: None } }),
{
    Block {
        object: None,
        id: None,
        parent: None,
        has_children: None,
        content: BlockContent::Code { code: CodeProperties { rich_text, language, caption, children: None } },
    }
}

/// A code block with the given text, language and children, with no caption.
pub fn create_code_with_children(rich_text: Vec<RichTextObject>, language: CodeLanguage, children: Vec<Block>) -> (r: Block)
    ensures
        r.object is None && r.id is None && r.parent is None && r.has_children is None,
        r.content matches BlockContent::Code { code } && code.rich_text == rich_text
            && code.language == language && code.caption@.len() == 0 && code.children == Some(children),
{
    Block {
        object: None,
        id: None,
        parent: None,
        has_children: None,
        content: BlockContent::Code { code: CodeProperties { rich_text, language, caption: Vec::new(), children: Some(children) } },
    }
}

/// A code block with the given text, language, caption and children.
pub fn create_code_with_caption_and_children(rich_text: Vec<RichTextObject>, language: CodeLanguage, caption: Vec<RichTextObject>, children: Vec<Block>) -> (r: Block)
    ensures
        r == bare_block(BlockContent::Code { code: CodeProperties { rich_text, language, caption, children: Some(children) } }),
{
    Block {
        object: None,
        id: None,
        parent: None,
        has_children: None,
        content: BlockContent::Code { code: CodeProperties { rich_text, language, caption, children: Some(children) } },
    }
}

} // verus!
