//! Conversion of Notion code blocks into Pandoc code blocks.
use crate::n2p::ConversionConfig;
use crate::notion_api::{
    rich_texts_view, spec_plain_text, BlockType, CodeValue, Language, NotionBlock, SBlockType,
    SCodeValue, SRichText,
};
use crate::pandoc::{empty_attr, strings_view, pairs_view, Attr, Block, SAttr, SBlock, blocks_view};
use crate::strings::{lowercase, push_str, string_of, to_lowercase};
use vstd::prelude::*;

verus! {

broadcast use {vstd::std_specs::vec::group_vec_axioms, crate::pandoc::group_pandoc_view};

/// The Pandoc name of a Notion code language (`cpp` for C++, `text` for
/// plain text, `java` for the combined Java/C/C++/C# entry, ...).
pub open spec fn language_name(l: Language) -> Seq<char> {
    match l {
        Language::Abap => "abap"@,
        Language::Arduino => "arduino"@,
        Language::Bash => "bash"@,
        Language::Basic => "basic"@,
        Language::C => "c"@,
        Language::Clojure => "clojure"@,
        Language::Coffeescript => "coffeescript"@,
        Language::CPlusPlus => "cpp"@,
        Language::CSharp => "csharp"@,
        Language::Css => "css"@,
        Language::Dart => "dart"@,
        Language::Diff => "diff"@,
        Language::Docker => "dockerfile"@,
        Language::Elixir => "elixir"@,
        Language::Elm => "elm"@,
        Language::Erlang => "erlang"@,
        Language::Flow => "flow"@,
        Language::Fortran => "fortran"@,
        Language::FSharp => "fsharp"@,
        Language::Gherkin => "gherkin"@,
        Language::Glsl => "glsl"@,
        Language::Go => "go"@,
        Language::Graphql => "graphql"@,
        Language::Groovy => "groovy"@,
        Language::Haskell => "haskell"@,
        Language::Html => "html"@,
        Language::Java => "java"@,
        Language::Javascript => "javascript"@,
        Language::Json => "json"@,
        Language::Julia => "julia"@,
        Language::Kotlin => "kotlin"@,
        Language::Latex => "latex"@,
        Language::Less => "less"@,
        Language::Lisp => "lisp"@,
        Language::Livescript => "livescript"@,
        Language::Lua => "lua"@,
        Language::Makefile => "makefile"@,
        Language::Markdown => "markdown"@,
        Language::Markup => "markup"@,
        Language::Matlab => "matlab"@,
        Language::Mermaid => "mermaid"@,
        Language::Nix => "nix"@,
        Language::ObjectiveC => "objectivec"@,
        Language::Ocaml => "ocaml"@,
        Language::Pascal => "pascal"@,
        Language::Perl => "perl"@,
        Language::Php => "php"@,
        Language::PlainText => "text"@,
        Language::Powershell => "powershell"@,
        Language::Prolog => "prolog"@,
        Language::Protobuf => "protobuf"@,
        Language::Python => "python"@,
        Language::R => "r"@,
        Language::Reason => "reason"@,
        Language::Ruby => "ruby"@,
        Language::Rust => "rust"@,
        Language::Sass => "sass"@,
        Language::Scala => "scala"@,
        Language::Scheme => "scheme"@,
        Language::Scss => "scss"@,
        Language::Shell => "shell"@,
        Language::Sql => "sql"@,
        Language::Swift => "swift"@,
        Language::Solidity => "solidity"@,
        Language::Typescript => "typescript"@,
        Language::VbNet => "vbnet"@,
        Language::Verilog => "verilog"@,
        Language::Vhdl => "vhdl"@,
        Language::VisualBasic => "vb"@,
        Language::Webassembly => "wasm"@,
        Language::Xml => "xml"@,
        Language::Yaml => "yaml"@,
        Language::JavaOrCOrCPlusPlusOrCSharp => "java"@,
    }
}

/// The Pandoc name of a Notion code language.
pub fn convert_notion_language(language: &Language) -> (r: &'static str)
    ensures
        r@ == language_name(*language),
{
    match language {
        Language::Abap => "abap",
        Language::Arduino => "arduino",
        Language::Bash => "bash",
        Language::Basic => "basic",
        Language::C => "c",
        Language::Clojure => "clojure",
        Language::Coffeescript => "coffeescript",
        Language::CPlusPlus => "cpp",
        Language::CSharp => "csharp",
        Language::Css => "css",
        Language::Dart => "dart",
        Language::Diff => "diff",
        Language::Docker => "dockerfile",
        Language::Elixir => "elixir",
        Language::Elm => "elm",
        Language::Erlang => "erlang",
        Language::Flow => "flow",
        Language::Fortran => "fortran",
        Language::FSharp => "fsharp",
        Language::Gherkin => "gherkin",
        Language::Glsl => "glsl",
        Language::Go => "go",
        Language::Graphql => "graphql",
        Language::Groovy => "groovy",
        Language::Haskell => "haskell",
        Language::Html => "html",
        Language::Java => "java",
        Language::Javascript => "javascript",
        Language::Json => "json",
        Language::Julia => "julia",
        Language::Kotlin => "kotlin",
        Language::Latex => "latex",
        Language::Less => "less",
        Language::Lisp => "lisp",
        Language::Livescript => "livescript",
        Language::Lua => "lua",
        Language::Makefile => "makefile",
        Language::Markdown => "markdown",
        Language::Markup => "markup",
        Language::Matlab => "matlab",
        Language::Mermaid => "mermaid",
        Language::Nix => "nix",
        Language::ObjectiveC => "objectivec",
        Language::Ocaml => "ocaml",
        Language::Pascal => "pascal",
        Language::Perl => "perl",
        Language::Php => "php",
        Language::PlainText => "text",
        Language::Powershell => "powershell",
        Language::Prolog => "prolog",
        Language::Protobuf => "protobuf",
        Language::Python => "python",
        Language::R => "r",
        Language::Reason => "reason",
        Language::Ruby => "ruby",
        Language::Rust => "rust",
        Language::Sass => "sass",
        Language::Scala => "scala",
        Language::Scheme => "scheme",
        Language::Scss => "scss",
        Language::Shell => "shell",
        Language::Sql => "sql",
        Language::Swift => "swift",
        Language::Solidity => "solidity",
        Language::Typescript => "typescript",
        Language::VbNet => "vbnet",
        Language::Verilog => "verilog",
        Language::Vhdl => "vhdl",
        Language::VisualBasic => "vb",
        Language::Webassembly => "wasm",
        Language::Xml => "xml",
        Language::Yaml => "yaml",
        Language::JavaOrCOrCPlusPlusOrCSharp => "java",
    }
}

/// View of [`CodeBuilder`].
pub struct SCodeBuilder {
    pub language: Seq<char>,
    pub content: Seq<char>,
    pub identifier: Seq<char>,
    pub classes: Seq<Seq<char>>,
    pub attributes: Seq<(Seq<char>, Seq<char>)>,
}

/// Builds a Pandoc code block.
pub struct CodeBuilder {
    language: String,
    content: String,
    identifier: String,
    classes: Vec<String>,
    attributes: Vec<(String, String)>,
}

impl View for CodeBuilder {
    type V = SCodeBuilder;

    closed spec fn view(&self) -> SCodeBuilder {
        SCodeBuilder {
            language: self.language@,
            content: self.content@,
            identifier: self.identifier@,
            classes: strings_view(self.classes@),
            attributes: pairs_view(self.attributes@),
        }
    }
}

/// The code block that a builder with view `b` makes.  The language class
/// is always kept; identifier and key-value attributes only when attributes
/// are preserved.
pub open spec fn spec_code_build(b: SCodeBuilder, preserve: bool) -> SBlock {
    if preserve {
        SBlock::CodeBlock(
            SAttr { identifier: b.identifier, classes: b.classes, attributes: b.attributes },
            b.content,
        )
    } else {
        SBlock::CodeBlock(SAttr { classes: b.classes, ..empty_attr() }, b.content)
    }
}

impl CodeBuilder {
    /// A builder with empty language, content, identifier, classes and
    /// attributes.
    pub fn new() -> (r: Self)
        ensures
            r@ == (SCodeBuilder {
                language: Seq::empty(),
                content: Seq::empty(),
                identifier: Seq::empty(),
                classes: Seq::empty(),
                attributes: Seq::empty(),
            }),
    {
        let r = CodeBuilder {
            language: String::new(),
            content: String::new(),
            identifier: String::new(),
            classes: Vec::new(),
            attributes: Vec::new(),
        };
        assert(r@.classes =~= Seq::<Seq<char>>::empty());
        assert(r@.attributes =~= Seq::<(Seq<char>, Seq<char>)>::empty());
        r
    }

    /// Sets the language; the classes become just the language in lower
    /// case.
    pub fn language(self, language: &str) -> (r: Self)
        ensures
            r@ == (SCodeBuilder { language: language@, classes: seq![lowercase(language@)], ..self@ }),
    {
        let mut classes = Vec::new();
        classes.push(to_lowercase(language));
        let r = CodeBuilder { language: string_of(language), classes, ..self };
        assert(r@.classes =~= seq![lowercase(language@)]);
        r
    }

    /// Sets the code content.
    pub fn content(self, content: &str) -> (r: Self)
        ensures
            r@ == (SCodeBuilder { content: content@, ..self@ }),
    {
        CodeBuilder { content: string_of(content), ..self }
    }

    /// Appends a key-value attribute.
    pub fn attribute(self, key: &str, value: &str) -> (r: Self)
        ensures
            r@ == (SCodeBuilder { attributes: self@.attributes.push((key@, value@)), ..self@ }),
    {
        let mut s = self;
        let ghost old_attrs = s.attributes@;
        s.attributes.push((string_of(key), string_of(value)));
        assert(pairs_view(s.attributes@) =~= pairs_view(old_attrs).push((key@, value@)));
        s
    }

    /// Sets the identifier.
    pub fn identifier(self, id: &str) -> (r: Self)
        ensures
            r@ == (SCodeBuilder { identifier: id@, ..self@ }),
    {
        CodeBuilder { identifier: string_of(id), ..self }
    }

    /// The Pandoc code block.
    pub fn build(self, config: &ConversionConfig) -> (r: Block)
        ensures
            r@ == spec_code_build(self@, config.preserve_attributes),
    {
        if config.preserve_attributes {
            Block::CodeBlock(
                Attr {
                    identifier: self.identifier,
                    classes: self.classes,
                    attributes: self.attributes,
                },
                self.content,
            )
        } else {
            let r = Block::CodeBlock(
                Attr { identifier: String::new(), classes: self.classes, attributes: Vec::new() },
                self.content,
            );
            assert(pairs_view(Seq::<(String, String)>::empty()) =~= Seq::empty());
            r
        }
    }
}

/// The plain text of rich-text objects, one after the other; objects with
/// no plain text add nothing.
pub open spec fn spec_plain_texts(s: Seq<SRichText>) -> Seq<char>
    decreases s.len(),
{
    if s.len() == 0 {
        Seq::empty()
    } else {
        spec_plain_texts(s.drop_last()) + match spec_plain_text(s.last()) {
            Some(t) => t,
            None => Seq::empty(),
        }
    }
}

/// The plain text of rich-text objects, one after the other.
pub fn plain_texts(rich_text: &Vec<crate::notion_api::RichText>) -> (r: String)
    ensures
        r@ == spec_plain_texts(rich_texts_view(rich_text@)),
{
    let mut r = String::new();
    let n = rich_text.len();
    for i in 0..n
        invariant
            n == rich_text@.len(),
            r@ == spec_plain_texts(rich_texts_view(rich_text@.take(i as int))),
    {
        let ghost before = r@;
        match rich_text[i].plain_text() {
            Some(t) => push_str(&mut r, t.as_str()),
            None => {},
        }
        proof {
            let s = rich_texts_view(rich_text@.take(i + 1));
            assert(s.drop_last() =~= rich_texts_view(rich_text@.take(i as int)));
            assert(s.last() == rich_text@[i as int]@);
        }
    }
    assert(rich_text@.take(n as int) =~= rich_text@);
    r
}

/// The Pandoc code block made from a Notion code block: its plain text as
/// content and its language's Pandoc name as the class.
pub open spec fn spec_code_from_notion(code: SCodeValue, preserve: bool) -> SBlock {
    let name = language_name(code.language);
    spec_code_build(
        SCodeBuilder {
            language: name,
            content: spec_plain_texts(code.rich_text),
            identifier: Seq::empty(),
            classes: seq![lowercase(name)],
            attributes: Seq::empty(),
        },
        preserve,
    )
}

fn build_code_from_notion(code: &CodeValue, config: &ConversionConfig) -> (r: Block)
    ensures
        r@ == spec_code_from_notion(
            SCodeValue {
                caption: rich_texts_view(code.caption@),
                rich_text: rich_texts_view(code.rich_text@),
                language: code.language,
            },
            config.preserve_attributes,
        ),
{
    let content = plain_texts(&code.rich_text);
    let language_str = convert_notion_language(&code.language);
    CodeBuilder::new().language(language_str).content(content.as_str()).build(config)
}

/// A Notion code block as a one-element list holding the Pandoc code block;
/// `None` for any other kind of block.
pub fn convert_notion_code(block: &NotionBlock, config: &ConversionConfig) -> (r: Option<Vec<Block>>)
    ensures
        match block@.block_type {
            SBlockType::Code(c) => r is Some && blocks_view(r->0@) == seq![
                spec_code_from_notion(c, config.preserve_attributes),
            ],
            _ => r is None,
        },
{
    match &block.block_type {
        BlockType::Code { code } => {
            let b = build_code_from_notion(code, config);
            let mut v = Vec::new();
            v.push(b);
            proof {
                assert(blocks_view(v@) =~= seq![v@[0]@]);
            }
            Some(v)
        },
        _ => None,
    }
}

/// A Notion code block as a Pandoc code block; `None` for any other kind of
/// block.
pub fn try_convert_to_code(block: &NotionBlock, config: &ConversionConfig) -> (r: Option<Block>)
    ensures
        match block@.block_type {
            SBlockType::Code(c) => r is Some && r->0@ == spec_code_from_notion(
                c,
                config.preserve_attributes,
            ),
            _ => r is None,
        },
{
    match convert_notion_code(block, config) {
        Some(mut blocks) => {
            let ghost bv = blocks_view(blocks@);
            assert(block@.block_type is Code);
            assert(bv.len() == 1);
            assert(blocks@.len() == 1);
            assert(bv[0] == blocks@[0]@);
            let b = blocks.remove(0);
            Some(b)
        },
        None => None,
    }
}

} // verus!
