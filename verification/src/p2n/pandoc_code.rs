//! Conversion of Pandoc code blocks into Notion code blocks.
use crate::n2p::notion_code::language_name;
use crate::notion_api::{
    rich_texts_view, BlockType, CodeValue, Language, NotionBlock, RichText, SBlockType, SCodeValue,
    SNotionBlock, SRichText,
};
use crate::p2n::pandoc_text::{
    default_text_rich, ConversionError, PandocTextConverter,
};
use crate::p2n::{make_block, new_block};
use crate::pandoc::{strings_view, Attr, Block, SAttr, SBlock};
use crate::strings::{lowercase, str_eq, to_lowercase};
use vstd::prelude::*;

verus! {

broadcast use {vstd::std_specs::vec::group_vec_axioms, crate::pandoc::group_pandoc_view};

/// View of [`NotionCodeBuilder`].
pub struct SCodeBuilder {
    pub rich_text: Seq<SRichText>,
    pub language: Language,
    pub caption: Seq<SRichText>,
}

/// The Notion code block that a builder in the state `b` builds, with an
/// empty identifier.
pub open spec fn spec_code_block(b: SCodeBuilder) -> SNotionBlock {
    new_block(
        Some(Seq::empty()),
        None,
        false,
        SBlockType::Code(SCodeValue { caption: b.caption, rich_text: b.rich_text, language: b.language }),
    )
}

/// Builds a Notion code block.
pub struct NotionCodeBuilder {
    rich_text: Vec<RichText>,
    language: Language,
    caption: Vec<RichText>,
}

impl View for NotionCodeBuilder {
    type V = SCodeBuilder;

    closed spec fn view(&self) -> SCodeBuilder {
        SCodeBuilder {
            rich_text: rich_texts_view(self.rich_text@),
            language: self.language,
            caption: rich_texts_view(self.caption@),
        }
    }
}

impl NotionCodeBuilder {
    /// A plain-text builder with no content and no caption.
    pub fn new() -> (r: Self)
        ensures
            r@ == (SCodeBuilder {
                rich_text: Seq::empty(),
                language: Language::PlainText,
                caption: Seq::empty(),
            }),
    {
        let r = NotionCodeBuilder {
            rich_text: Vec::new(),
            language: Language::PlainText,
            caption: Vec::new(),
        };
        assert(r@.rich_text =~= Seq::<SRichText>::empty());
        assert(r@.caption =~= Seq::<SRichText>::empty());
        r
    }

    /// Sets the content.
    pub fn rich_text(self, rich_text: Vec<RichText>) -> (r: Self)
        ensures
            r@ == (SCodeBuilder { rich_text: rich_texts_view(rich_text@), ..self@ }),
    {
        NotionCodeBuilder { rich_text, ..self }
    }

    /// Appends a rich-text object to the content.
    pub fn add_rich_text(self, text: RichText) -> (r: Self)
        ensures
            r@ == (SCodeBuilder { rich_text: self@.rich_text.push(text@), ..self@ }),
    {
        let mut s = self;
        let ghost before = s.rich_text@;
        s.rich_text.push(text);
        assert(rich_texts_view(s.rich_text@) =~= rich_texts_view(before).push(text@));
        s
    }

    /// Sets the language.
    pub fn language(self, language: Language) -> (r: Self)
        ensures
            r@ == (SCodeBuilder { language, ..self@ }),
    {
        NotionCodeBuilder { language, ..self }
    }

    /// Sets the caption.
    pub fn caption(self, caption: Vec<RichText>) -> (r: Self)
        ensures
            r@ == (SCodeBuilder { caption: rich_texts_view(caption@), ..self@ }),
    {
        NotionCodeBuilder { caption, ..self }
    }

    /// The Notion code block.
    pub fn build(self) -> (r: NotionBlock)
        ensures
            r@ == spec_code_block(self@),
    {
        let code = CodeValue { caption: self.caption, rich_text: self.rich_text, language: self.language };
        make_block(Some(String::new()), None, false, BlockType::Code { code })
    }
}

/// The Notion language that a lower-cased Pandoc language name stands for
/// (with the usual short names: `py`, `js`, `c++`, ...); plain text for an
/// unknown name.
pub open spec fn spec_map_language(s: Seq<char>) -> Language {
    if s == "abap"@ {
        Language::Abap
    } else if s == "arduino"@ {
        Language::Arduino
    } else if s == "bash"@ || s == "sh"@ || s == "shell"@ || s == "zsh"@ {
        Language::Bash
    } else if s == "basic"@ {
        Language::Basic
    } else if s == "c"@ {
        Language::C
    } else if s == "clojure"@ || s == "clj"@ {
        Language::Clojure
    } else if s == "coffeescript"@ || s == "coffee"@ {
        Language::Coffeescript
    } else if s == "cpp"@ || s == "c++"@ {
        Language::CPlusPlus
    } else if s == "csharp"@ || s == "cs"@ || s == "c#"@ {
        Language::CSharp
    } else if s == "css"@ {
        Language::Css
    } else if s == "dart"@ {
        Language::Dart
    } else if s == "diff"@ {
        Language::Diff
    } else if s == "dockerfile"@ || s == "docker"@ {
        Language::Docker
    } else if s == "elixir"@ || s == "ex"@ {
        Language::Elixir
    } else if s == "elm"@ {
        Language::Elm
    } else if s == "erlang"@ || s == "erl"@ {
        Language::Erlang
    } else if s == "flow"@ {
        Language::Flow
    } else if s == "fortran"@ {
        Language::Fortran
    } else if s == "fsharp"@ || s == "f#"@ {
        Language::FSharp
    } else if s == "gherkin"@ {
        Language::Gherkin
    } else if s == "glsl"@ {
        Language::Glsl
    } else if s == "go"@ {
        Language::Go
    } else if s == "graphql"@ {
        Language::Graphql
    } else if s == "groovy"@ {
        Language::Groovy
    } else if s == "haskell"@ || s == "hs"@ {
        Language::Haskell
    } else if s == "html"@ {
        Language::Html
    } else if s == "java"@ {
        Language::Java
    } else if s == "javascript"@ || s == "js"@ {
        Language::Javascript
    } else if s == "json"@ {
        Language::Json
    } else if s == "julia"@ {
        Language::Julia
    } else if s == "kotlin"@ || s == "kt"@ {
        Language::Kotlin
    } else if s == "latex"@ || s == "tex"@ {
        Language::Latex
    } else if s == "less"@ {
        Language::Less
    } else if s == "lisp"@ {
        Language::Lisp
    } else if s == "livescript"@ || s == "ls"@ {
        Language::Livescript
    } else if s == "lua"@ {
        Language::Lua
    } else if s == "makefile"@ || s == "make"@ {
        Language::Makefile
    } else if s == "markdown"@ || s == "md"@ {
        Language::Markdown
    } else if s == "markup"@ {
        Language::Markup
    } else if s == "matlab"@ {
        Language::Matlab
    } else if s == "mermaid"@ {
        Language::Mermaid
    } else if s == "nix"@ {
        Language::Nix
    } else if s == "objectivec"@ || s == "objc"@ {
        Language::ObjectiveC
    } else if s == "ocaml"@ || s == "ml"@ {
        Language::Ocaml
    } else if s == "pascal"@ {
        Language::Pascal
    } else if s == "perl"@ || s == "pl"@ {
        Language::Perl
    } else if s == "php"@ {
        Language::Php
    } else if s == "text"@ || s == "plaintext"@ || s == "txt"@ {
        Language::PlainText
    } else if s == "powershell"@ || s == "ps"@ || s == "ps1"@ {
        Language::Powershell
    } else if s == "prolog"@ {
        Language::Prolog
    } else if s == "protobuf"@ || s == "proto"@ {
        Language::Protobuf
    } else if s == "python"@ || s == "py"@ {
        Language::Python
    } else if s == "r"@ {
        Language::R
    } else if s == "reason"@ {
        Language::Reason
    } else if s == "ruby"@ || s == "rb"@ {
        Language::Ruby
    } else if s == "rust"@ || s == "rs"@ {
        Language::Rust
    } else if s == "sass"@ {
        Language::Sass
    } else if s == "scala"@ {
        Language::Scala
    } else if s == "scheme"@ {
        Language::Scheme
    } else if s == "scss"@ {
        Language::Scss
    } else if s == "sql"@ {
        Language::Sql
    } else if s == "swift"@ {
        Language::Swift
    } else if s == "solidity"@ || s == "sol"@ {
        Language::Solidity
    } else if s == "typescript"@ || s == "ts"@ {
        Language::Typescript
    } else if s == "vbnet"@ {
        Language::VbNet
    } else if s == "verilog"@ {
        Language::Verilog
    } else if s == "vhdl"@ {
        Language::Vhdl
    } else if s == "visualbasic"@ || s == "vb"@ {
        Language::VisualBasic
    } else if s == "webassembly"@ || s == "wasm"@ {
        Language::Webassembly
    } else if s == "xml"@ {
        Language::Xml
    } else if s == "yaml"@ || s == "yml"@ {
        Language::Yaml
    } else {
        Language::PlainText
    }
}

/// The language of a Pandoc code block: that of its first class,
/// lower-cased; plain text when it has no class.
pub open spec fn spec_determine_language(classes: Seq<Seq<char>>) -> Language {
    if classes.len() == 0 {
        Language::PlainText
    } else {
        spec_map_language(lowercase(classes[0]))
    }
}

/// The Notion code block made from a Pandoc code block's attribute and
/// content: the content as one plain text object (none when it is empty),
/// in the language of the attribute's first class.
pub open spec fn spec_code_from_pandoc(a: SAttr, content: Seq<char>) -> SNotionBlock {
    spec_code_block(
        SCodeBuilder {
            rich_text: default_text_rich(content),
            language: spec_determine_language(a.classes),
            caption: Seq::empty(),
        },
    )
}

/// Converts Pandoc code blocks into Notion code blocks.
pub struct PandocCodeConverter {
    text_converter: PandocTextConverter,
}

impl PandocCodeConverter {
    /// A code converter.
    pub fn new() -> (r: Self) {
        PandocCodeConverter { text_converter: PandocTextConverter::new() }
    }

    /// The Notion code block made from a Pandoc code block's attribute and
    /// content.
    pub fn convert(&self, attr: &Attr, content: &str) -> (r: Result<NotionBlock, ConversionError>)
        ensures
            r is Ok,
            r->Ok_0@ == spec_code_from_pandoc(attr@, content@),
    {
        let rich_text = match self.text_converter.convert_plain_text(content) {
            Ok(rt) => rt,
            Err(e) => {
                return Err(e);
            },
        };
        let language = self.determine_language(attr);
        Ok(NotionCodeBuilder::new().rich_text(rich_text).language(language).build())
    }

    /// The Notion code block made from a Pandoc code block; `None` for any
    /// other block.  The parent is not used.
    pub fn try_convert(&self, block: &Block, parent_id: Option<String>) -> (r: Result<Option<NotionBlock>, ConversionError>)
        ensures
            r is Ok,
            match block@ {
                SBlock::CodeBlock(a, content) => r->Ok_0 is Some && r->Ok_0->0@ == spec_code_from_pandoc(a, content),
                _ => r->Ok_0 is None,
            },
    {
        match block {
            Block::CodeBlock(attr, content) => match self.convert(attr, content.as_str()) {
                Ok(b) => Ok(Some(b)),
                Err(e) => Err(e),
            },
            _ => Ok(None),
        }
    }

    /// The language of a code block with the given attribute.
    pub fn determine_language(&self, attr: &Attr) -> (r: Language)
        ensures
            r == spec_determine_language(attr@.classes),
    {
        if attr.classes.len() == 0 {
            return Language::PlainText;
        }
        let language_id = to_lowercase(attr.classes[0].as_str());
        self.map_language_to_notion(language_id.as_str())
    }

    /// The Notion language that a lower-cased Pandoc language name stands
    /// for.
    pub fn map_language_to_notion(&self, s: &str) -> (r: Language)
        ensures
            r == spec_map_language(s@),
    {
        if str_eq(s, "abap") {
            Language::Abap
        } else if str_eq(s, "arduino") {
            Language::Arduino
        } else if str_eq(s, "bash") || str_eq(s, "sh") || str_eq(s, "shell") || str_eq(s, "zsh") {
            Language::Bash
        } else if str_eq(s, "basic") {
            Language::Basic
        } else if str_eq(s, "c") {
            Language::C
        } else if str_eq(s, "clojure") || str_eq(s, "clj") {
            Language::Clojure
        } else if str_eq(s, "coffeescript") || str_eq(s, "coffee") {
            Language::Coffeescript
        } else if str_eq(s, "cpp") || str_eq(s, "c++") {
            Language::CPlusPlus
        } else if str_eq(s, "csharp") || str_eq(s, "cs") || str_eq(s, "c#") {
            Language::CSharp
        } else if str_eq(s, "css") {
            Language::Css
        } else if str_eq(s, "dart") {
            Language::Dart
        } else if str_eq(s, "diff") {
            Language::Diff
        } else if str_eq(s, "dockerfile") || str_eq(s, "docker") {
            Language::Docker
        } else if str_eq(s, "elixir") || str_eq(s, "ex") {
            Language::Elixir
        } else if str_eq(s, "elm") {
            Language::Elm
        } else if str_eq(s, "erlang") || str_eq(s, "erl") {
            Language::Erlang
        } else if str_eq(s, "flow") {
            Language::Flow
        } else if str_eq(s, "fortran") {
            Language::Fortran
        } else if str_eq(s, "fsharp") || str_eq(s, "f#") {
            Language::FSharp
        } else if str_eq(s, "gherkin") {
            Language::Gherkin
        } else if str_eq(s, "glsl") {
            Language::Glsl
        } else if str_eq(s, "go") {
            Language::Go
        } else if str_eq(s, "graphql") {
            Language::Graphql
        } else if str_eq(s, "groovy") {
            Language::Groovy
        } else if str_eq(s, "haskell") || str_eq(s, "hs") {
            Language::Haskell
        } else if str_eq(s, "html") {
            Language::Html
        } else if str_eq(s, "java") {
            Language::Java
        } else if str_eq(s, "javascript") || str_eq(s, "js") {
            Language::Javascript
        } else if str_eq(s, "json") {
            Language::Json
        } else if str_eq(s, "julia") {
            Language::Julia
        } else if str_eq(s, "kotlin") || str_eq(s, "kt") {
            Language::Kotlin
        } else if str_eq(s, "latex") || str_eq(s, "tex") {
            Language::Latex
        } else if str_eq(s, "less") {
            Language::Less
        } else if str_eq(s, "lisp") {
            Language::Lisp
        } else if str_eq(s, "livescript") || str_eq(s, "ls") {
            Language::Livescript
        } else if str_eq(s, "lua") {
            Language::Lua
        } else if str_eq(s, "makefile") || str_eq(s, "make") {
            Language::Makefile
        } else if str_eq(s, "markdown") || str_eq(s, "md") {
            Language::Markdown
        } else if str_eq(s, "markup") {
            Language::Markup
        } else if str_eq(s, "matlab") {
            Language::Matlab
        } else if str_eq(s, "mermaid") {
            Language::Mermaid
        } else if str_eq(s, "nix") {
            Language::Nix
        } else if str_eq(s, "objectivec") || str_eq(s, "objc") {
            Language::ObjectiveC
        } else if str_eq(s, "ocaml") || str_eq(s, "ml") {
            Language::Ocaml
        } else if str_eq(s, "pascal") {
            Language::Pascal
        } else if str_eq(s, "perl") || str_eq(s, "pl") {
            Language::Perl
        } else if str_eq(s, "php") {
            Language::Php
        } else if str_eq(s, "text") || str_eq(s, "plaintext") || str_eq(s, "txt") {
            Language::PlainText
        } else if str_eq(s, "powershell") || str_eq(s, "ps") || str_eq(s, "ps1") {
            Language::Powershell
        } else if str_eq(s, "prolog") {
            Language::Prolog
        } else if str_eq(s, "protobuf") || str_eq(s, "proto") {
            Language::Protobuf
        } else if str_eq(s, "python") || str_eq(s, "py") {
            Language::Python
        } else if str_eq(s, "r") {
            Language::R
        } else if str_eq(s, "reason") {
            Language::Reason
        } else if str_eq(s, "ruby") || str_eq(s, "rb") {
            Language::Ruby
        } else if str_eq(s, "rust") || str_eq(s, "rs") {
            Language::Rust
        } else if str_eq(s, "sass") {
            Language::Sass
        } else if str_eq(s, "scala") {
            Language::Scala
        } else if str_eq(s, "scheme") {
            Language::Scheme
        } else if str_eq(s, "scss") {
            Language::Scss
        } else if str_eq(s, "sql") {
            Language::Sql
        } else if str_eq(s, "swift") {
            Language::Swift
        } else if str_eq(s, "solidity") || str_eq(s, "sol") {
            Language::Solidity
        } else if str_eq(s, "typescript") || str_eq(s, "ts") {
            Language::Typescript
        } else if str_eq(s, "vbnet") {
            Language::VbNet
        } else if str_eq(s, "verilog") {
            Language::Verilog
        } else if str_eq(s, "vhdl") {
            Language::Vhdl
        } else if str_eq(s, "visualbasic") || str_eq(s, "vb") {
            Language::VisualBasic
        } else if str_eq(s, "webassembly") || str_eq(s, "wasm") {
            Language::Webassembly
        } else if str_eq(s, "xml") {
            Language::Xml
        } else if str_eq(s, "yaml") || str_eq(s, "yml") {
            Language::Yaml
        } else {
            Language::PlainText
        }
    }
}

/// Naming a Notion language with the name that the Notion to Pandoc
/// conversion gives it and reading that name back gives the same language,
/// except for `Shell` (read back as `Bash`) and the combined Java/C family
/// (read back as `Java`).
#[verifier::rlimit(60)]
pub proof fn law_language_name_round_trip(l: Language)
    requires
        l != Language::Shell,
        l != Language::JavaOrCOrCPlusPlusOrCSharp,
    ensures
        spec_map_language(language_name(l)) == l,
{
    reveal_strlit("abap");
    reveal_strlit("arduino");
    reveal_strlit("bash");
    reveal_strlit("basic");
    reveal_strlit("sh");
    reveal_strlit("shell");
    reveal_strlit("zsh");
    reveal_strlit("c");
    reveal_strlit("clojure");
    reveal_strlit("coffeescript");
    reveal_strlit("clj");
    reveal_strlit("cpp");
    reveal_strlit("coffee");
    reveal_strlit("csharp");
    reveal_strlit("c++");
    reveal_strlit("css");
    reveal_strlit("cs");
    reveal_strlit("c#");
    reveal_strlit("dart");
    reveal_strlit("diff");
    reveal_strlit("dockerfile");
    reveal_strlit("elixir");
    reveal_strlit("docker");
    reveal_strlit("elm");
    reveal_strlit("ex");
    reveal_strlit("erlang");
    reveal_strlit("flow");
    reveal_strlit("erl");
    reveal_strlit("fortran");
    reveal_strlit("fsharp");
    reveal_strlit("gherkin");
    reveal_strlit("f#");
    reveal_strlit("glsl");
    reveal_strlit("go");
    reveal_strlit("graphql");
    reveal_strlit("groovy");
    reveal_strlit("haskell");
    reveal_strlit("html");
    reveal_strlit("hs");
    reveal_strlit("java");
    reveal_strlit("javascript");
    reveal_strlit("json");
    reveal_strlit("js");
    reveal_strlit("julia");
    reveal_strlit("kotlin");
    reveal_strlit("latex");
    reveal_strlit("kt");
    reveal_strlit("less");
    reveal_strlit("tex");
    reveal_strlit("lisp");
    reveal_strlit("livescript");
    reveal_strlit("lua");
    reveal_strlit("ls");
    reveal_strlit("makefile");
    reveal_strlit("markdown");
    reveal_strlit("make");
    reveal_strlit("markup");
    reveal_strlit("md");
    reveal_strlit("matlab");
    reveal_strlit("mermaid");
    reveal_strlit("nix");
    reveal_strlit("objectivec");
    reveal_strlit("ocaml");
    reveal_strlit("objc");
    reveal_strlit("pascal");
    reveal_strlit("ml");
    reveal_strlit("perl");
    reveal_strlit("php");
    reveal_strlit("pl");
    reveal_strlit("text");
    reveal_strlit("powershell");
    reveal_strlit("plaintext");
    reveal_strlit("txt");
    reveal_strlit("prolog");
    reveal_strlit("ps");
    reveal_strlit("ps1");
    reveal_strlit("protobuf");
    reveal_strlit("python");
    reveal_strlit("proto");
    reveal_strlit("r");
    reveal_strlit("py");
    reveal_strlit("reason");
    reveal_strlit("ruby");
    reveal_strlit("rust");
    reveal_strlit("rb");
    reveal_strlit("sass");
    reveal_strlit("rs");
    reveal_strlit("scala");
    reveal_strlit("scheme");
    reveal_strlit("scss");
    reveal_strlit("sql");
    reveal_strlit("swift");
    reveal_strlit("solidity");
    reveal_strlit("typescript");
    reveal_strlit("sol");
    reveal_strlit("vbnet");
    reveal_strlit("ts");
    reveal_strlit("verilog");
    reveal_strlit("vhdl");
    reveal_strlit("vb");
    reveal_strlit("wasm");
    reveal_strlit("visualbasic");
    reveal_strlit("xml");
    reveal_strlit("webassembly");
    reveal_strlit("yaml");
    assert("abap"@.len() == 4 && "abap"@[0] == 'a');
    assert("arduino"@.len() == 7 && "arduino"@[0] == 'a');
    assert("bash"@.len() == 4 && "bash"@[0] == 'b');
    assert("basic"@.len() == 5 && "basic"@[0] == 'b');
    assert("sh"@.len() == 2 && "sh"@[0] == 's');
    assert("shell"@.len() == 5 && "shell"@[0] == 's');
    assert("zsh"@.len() == 3 && "zsh"@[0] == 'z');
    assert("c"@.len() == 1 && "c"@[0] == 'c');
    assert("clojure"@.len() == 7 && "clojure"@[0] == 'c');
    assert("coffeescript"@.len() == 12 && "coffeescript"@[0] == 'c');
    assert("clj"@.len() == 3 && "clj"@[0] == 'c');
    assert("cpp"@.len() == 3 && "cpp"@[0] == 'c');
    assert("coffee"@.len() == 6 && "coffee"@[0] == 'c');
    assert("csharp"@.len() == 6 && "csharp"@[0] == 'c');
    assert("c++"@.len() == 3 && "c++"@[0] == 'c');
    assert("css"@.len() == 3 && "css"@[0] == 'c');
    assert("cs"@.len() == 2 && "cs"@[0] == 'c');
    assert("c#"@.len() == 2 && "c#"@[0] == 'c');
    assert("dart"@.len() == 4 && "dart"@[0] == 'd');
    assert("diff"@.len() == 4 && "diff"@[0] == 'd');
    assert("dockerfile"@.len() == 10 && "dockerfile"@[0] == 'd');
    assert("elixir"@.len() == 6 && "elixir"@[0] == 'e');
    assert("docker"@.len() == 6 && "docker"@[0] == 'd');
    assert("elm"@.len() == 3 && "elm"@[0] == 'e');
    assert("ex"@.len() == 2 && "ex"@[0] == 'e');
    assert("erlang"@.len() == 6 && "erlang"@[0] == 'e');
    assert("flow"@.len() == 4 && "flow"@[0] == 'f');
    assert("erl"@.len() == 3 && "erl"@[0] == 'e');
    assert("fortran"@.len() == 7 && "fortran"@[0] == 'f');
    assert("fsharp"@.len() == 6 && "fsharp"@[0] == 'f');
    assert("gherkin"@.len() == 7 && "gherkin"@[0] == 'g');
    assert("f#"@.len() == 2 && "f#"@[0] == 'f');
    assert("glsl"@.len() == 4 && "glsl"@[0] == 'g');
    assert("go"@.len() == 2 && "go"@[0] == 'g');
    assert("graphql"@.len() == 7 && "graphql"@[0] == 'g');
    assert("groovy"@.len() == 6 && "groovy"@[0] == 'g');
    assert("haskell"@.len() == 7 && "haskell"@[0] == 'h');
    assert("html"@.len() == 4 && "html"@[0] == 'h');
    assert("hs"@.len() == 2 && "hs"@[0] == 'h');
    assert("java"@.len() == 4 && "java"@[0] == 'j');
    assert("javascript"@.len() == 10 && "javascript"@[0] == 'j');
    assert("json"@.len() == 4 && "json"@[0] == 'j');
    assert("js"@.len() == 2 && "js"@[0] == 'j');
    assert("julia"@.len() == 5 && "julia"@[0] == 'j');
    assert("kotlin"@.len() == 6 && "kotlin"@[0] == 'k');
    assert("latex"@.len() == 5 && "latex"@[0] == 'l');
    assert("kt"@.len() == 2 && "kt"@[0] == 'k');
    assert("less"@.len() == 4 && "less"@[0] == 'l');
    assert("tex"@.len() == 3 && "tex"@[0] == 't');
    assert("lisp"@.len() == 4 && "lisp"@[0] == 'l');
    assert("livescript"@.len() == 10 && "livescript"@[0] == 'l');
    assert("lua"@.len() == 3 && "lua"@[0] == 'l');
    assert("ls"@.len() == 2 && "ls"@[0] == 'l');
    assert("makefile"@.len() == 8 && "makefile"@[0] == 'm');
    assert("markdown"@.len() == 8 && "markdown"@[0] == 'm');
    assert("make"@.len() == 4 && "make"@[0] == 'm');
    assert("markup"@.len() == 6 && "markup"@[0] == 'm');
    assert("md"@.len() == 2 && "md"@[0] == 'm');
    assert("matlab"@.len() == 6 && "matlab"@[0] == 'm');
    assert("mermaid"@.len() == 7 && "mermaid"@[0] == 'm');
    assert("nix"@.len() == 3 && "nix"@[0] == 'n');
    assert("objectivec"@.len() == 10 && "objectivec"@[0] == 'o');
    assert("ocaml"@.len() == 5 && "ocaml"@[0] == 'o');
    assert("objc"@.len() == 4 && "objc"@[0] == 'o');
    assert("pascal"@.len() == 6 && "pascal"@[0] == 'p');
    assert("ml"@.len() == 2 && "ml"@[0] == 'm');
    assert("perl"@.len() == 4 && "perl"@[0] == 'p');
    assert("php"@.len() == 3 && "php"@[0] == 'p');
    assert("pl"@.len() == 2 && "pl"@[0] == 'p');
    assert("text"@.len() == 4 && "text"@[0] == 't');
    assert("powershell"@.len() == 10 && "powershell"@[0] == 'p');
    assert("plaintext"@.len() == 9 && "plaintext"@[0] == 'p');
    assert("txt"@.len() == 3 && "txt"@[0] == 't');
    assert("prolog"@.len() == 6 && "prolog"@[0] == 'p');
    assert("ps"@.len() == 2 && "ps"@[0] == 'p');
    assert("ps1"@.len() == 3 && "ps1"@[0] == 'p');
    assert("protobuf"@.len() == 8 && "protobuf"@[0] == 'p');
    assert("python"@.len() == 6 && "python"@[0] == 'p');
    assert("proto"@.len() == 5 && "proto"@[0] == 'p');
    assert("r"@.len() == 1 && "r"@[0] == 'r');
    assert("py"@.len() == 2 && "py"@[0] == 'p');
    assert("reason"@.len() == 6 && "reason"@[0] == 'r');
    assert("ruby"@.len() == 4 && "ruby"@[0] == 'r');
    assert("rust"@.len() == 4 && "rust"@[0] == 'r');
    assert("rb"@.len() == 2 && "rb"@[0] == 'r');
    assert("sass"@.len() == 4 && "sass"@[0] == 's');
    assert("rs"@.len() == 2 && "rs"@[0] == 'r');
    assert("scala"@.len() == 5 && "scala"@[0] == 's');
    assert("scheme"@.len() == 6 && "scheme"@[0] == 's');
    assert("scss"@.len() == 4 && "scss"@[0] == 's');
    assert("sql"@.len() == 3 && "sql"@[0] == 's');
    assert("swift"@.len() == 5 && "swift"@[0] == 's');
    assert("solidity"@.len() == 8 && "solidity"@[0] == 's');
    assert("typescript"@.len() == 10 && "typescript"@[0] == 't');
    assert("sol"@.len() == 3 && "sol"@[0] == 's');
    assert("vbnet"@.len() == 5 && "vbnet"@[0] == 'v');
    assert("ts"@.len() == 2 && "ts"@[0] == 't');
    assert("verilog"@.len() == 7 && "verilog"@[0] == 'v');
    assert("vhdl"@.len() == 4 && "vhdl"@[0] == 'v');
    assert("vb"@.len() == 2 && "vb"@[0] == 'v');
    assert("wasm"@.len() == 4 && "wasm"@[0] == 'w');
    assert("visualbasic"@.len() == 11 && "visualbasic"@[0] == 'v');
    assert("xml"@.len() == 3 && "xml"@[0] == 'x');
    assert("webassembly"@.len() == 11 && "webassembly"@[0] == 'w');
    assert("yaml"@.len() == 4 && "yaml"@[0] == 'y');
    match l {
        Language::CPlusPlus => {
            assert("cpp"@[1] == 'p' && "clj"@[1] == 'l');
        },
        Language::CSharp => {
            assert("csharp"@[1] == 's' && "coffee"@[1] == 'o');
        },
        Language::Css => {
            assert("css"@[1] == 's' && "clj"@[1] == 'l');
            assert("css"@[1] == 's' && "cpp"@[1] == 'p');
            assert("css"@[1] == 's' && "c++"@[1] == '+');
        },
        Language::Diff => {
            assert("diff"@[1] == 'i' && "dart"@[1] == 'a');
        },
        Language::Erlang => {
            assert("erlang"@[1] == 'r' && "elixir"@[1] == 'l');
        },
        Language::Graphql => {
            assert("graphql"@[1] == 'r' && "gherkin"@[1] == 'h');
        },
        Language::Json => {
            assert("json"@[1] == 's' && "java"@[1] == 'a');
        },
        Language::Lisp => {
            assert("lisp"@[1] == 'i' && "less"@[1] == 'e');
        },
        Language::Markdown => {
            assert("markdown"@[2] == 'r' && "makefile"@[2] == 'k');
        },
        Language::Matlab => {
            assert("matlab"@[2] == 't' && "markup"@[2] == 'r');
        },
        Language::Prolog => {
            assert("prolog"@[1] == 'r' && "pascal"@[1] == 'a');
        },
        Language::Python => {
            assert("python"@[1] == 'y' && "pascal"@[1] == 'a');
            assert("python"@[1] == 'y' && "prolog"@[1] == 'r');
        },
        Language::Rust => {
            assert("rust"@[2] == 's' && "ruby"@[2] == 'b');
        },
        Language::Scala => {
            assert("scala"@[1] == 'c' && "shell"@[1] == 'h');
        },
        Language::Scss => {
            assert("scss"@[1] == 'c' && "sass"@[1] == 'a');
        },
        Language::Swift => {
            assert("swift"@[1] == 'w' && "shell"@[1] == 'h');
            assert("swift"@[1] == 'w' && "scala"@[1] == 'c');
        },
        _ => {},
    }
}

} // verus!
