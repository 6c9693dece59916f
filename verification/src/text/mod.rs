//! Text formats that Pandoc reads and writes, and the errors of converting
//! text with Pandoc.
pub mod processor;

use crate::strings::{chars_of, chars_eq_str, lowercase, str_eq, to_lowercase};
use vstd::prelude::*;
use vstd::std_specs::cmp::PartialEqSpecImpl;

verus! {

/// `std::io::Error`, carried by [`TextProcessingError::IoError`].
#[verifier::external_type_specification]
#[verifier::external_body]
pub struct ExIoError(std::io::Error);

/// `serde_json::Error`, carried by [`TextProcessingError::JsonError`].
#[verifier::external_type_specification]
#[verifier::external_body]
pub struct ExJsonError(serde_json::Error);

/// `std::string::FromUtf8Error`, carried by
/// [`TextProcessingError::EncodingError`].
#[verifier::external_type_specification]
#[verifier::external_body]
pub struct ExFromUtf8Error(std::string::FromUtf8Error);

/// Why a text conversion failed.
#[derive(Debug)]
pub enum TextProcessingError {
    /// I/O error
    IoError(std::io::Error),
    /// Pandoc process error
    PandocError(String),
    /// JSON parsing error
    JsonError(serde_json::Error),
    /// Encoding error
    EncodingError(std::string::FromUtf8Error),
    /// Other errors
    Other(String),
}

/// A text format.
#[derive(Debug, Clone, Copy)]
pub enum TextFormat {
    /// Standard Markdown
    Markdown,
    /// CommonMark specification
    CommonMark,
    /// GitHub Flavored Markdown
    GithubMarkdown,
    /// Plain text
    PlainText,
    /// HTML
    Html,
    /// LaTeX
    Latex,
    /// ReStructuredText
    Rst,
    /// Org mode
    Org,
    /// Any other format, by the name Pandoc gives it.
    Custom(&'static str),
}

/// Whether two formats are the same: the same kind, and for custom formats
/// the same name.
pub open spec fn same_format(a: TextFormat, b: TextFormat) -> bool {
    match (a, b) {
        (TextFormat::Custom(x), TextFormat::Custom(y)) => x@ == y@,
        _ => a == b,
    }
}

impl PartialEq for TextFormat {
    fn eq(&self, other: &Self) -> (r: bool) {
        match self {
            TextFormat::Custom(x) => match other {
                TextFormat::Custom(y) => str_eq(x, y),
                _ => false,
            },
            TextFormat::Markdown => matches!(other, TextFormat::Markdown),
            TextFormat::CommonMark => matches!(other, TextFormat::CommonMark),
            TextFormat::GithubMarkdown => matches!(other, TextFormat::GithubMarkdown),
            TextFormat::PlainText => matches!(other, TextFormat::PlainText),
            TextFormat::Html => matches!(other, TextFormat::Html),
            TextFormat::Latex => matches!(other, TextFormat::Latex),
            TextFormat::Rst => matches!(other, TextFormat::Rst),
            TextFormat::Org => matches!(other, TextFormat::Org),
        }
    }
}

impl PartialEqSpecImpl for TextFormat {
    open spec fn obeys_eq_spec() -> bool {
        true
    }

    open spec fn eq_spec(&self, other: &Self) -> bool {
        same_format(*self, *other)
    }
}

/// The name that Pandoc gives a format.
pub open spec fn format_name(f: TextFormat) -> Seq<char> {
    match f {
        TextFormat::Markdown => "markdown"@,
        TextFormat::CommonMark => "commonmark"@,
        TextFormat::GithubMarkdown => "gfm"@,
        TextFormat::PlainText => "plain"@,
        TextFormat::Html => "html"@,
        TextFormat::Latex => "latex"@,
        TextFormat::Rst => "rst"@,
        TextFormat::Org => "org"@,
        TextFormat::Custom(s) => s@,
    }
}

/// The format that a lower-cased file extension stands for, if any.
pub open spec fn format_of_extension(e: Seq<char>) -> Option<TextFormat> {
    if e == "md"@ || e == "markdown"@ {
        Some(TextFormat::Markdown)
    } else if e == "txt"@ {
        Some(TextFormat::PlainText)
    } else if e == "html"@ || e == "htm"@ {
        Some(TextFormat::Html)
    } else if e == "tex"@ {
        Some(TextFormat::Latex)
    } else if e == "rst"@ {
        Some(TextFormat::Rst)
    } else if e == "org"@ {
        Some(TextFormat::Org)
    } else {
        None
    }
}

impl TextFormat {
    /// The name that Pandoc gives this format.
    pub fn as_pandoc_format(&self) -> (r: &str)
        ensures
            r@ == format_name(*self),
    {
        match self {
            TextFormat::Markdown => "markdown",
            TextFormat::CommonMark => "commonmark",
            TextFormat::GithubMarkdown => "gfm",
            TextFormat::PlainText => "plain",
            TextFormat::Html => "html",
            TextFormat::Latex => "latex",
            TextFormat::Rst => "rst",
            TextFormat::Org => "org",
            TextFormat::Custom(fmt) => fmt,
        }
    }

    /// The format of files with the given extension (in any case), if it is
    /// known.
    pub fn from_extension(ext: &str) -> (r: Option<TextFormat>)
        ensures
            r == format_of_extension(lowercase(ext@)),
    {
        let lower = to_lowercase(ext);
        let e = chars_of(lower.as_str());
        if chars_eq_str(&e, "md") || chars_eq_str(&e, "markdown") {
            Some(TextFormat::Markdown)
        } else if chars_eq_str(&e, "txt") {
            Some(TextFormat::PlainText)
        } else if chars_eq_str(&e, "html") || chars_eq_str(&e, "htm") {
            Some(TextFormat::Html)
        } else if chars_eq_str(&e, "tex") {
            Some(TextFormat::Latex)
        } else if chars_eq_str(&e, "rst") {
            Some(TextFormat::Rst)
        } else if chars_eq_str(&e, "org") {
            Some(TextFormat::Org)
        } else {
            None
        }
    }
}

/// The format of a file with the given extension, if it has one: the format
/// of a known extension, Markdown otherwise.
pub open spec fn spec_format_for_extension(ext: Option<Seq<char>>) -> TextFormat {
    match ext {
        Some(e) => match format_of_extension(lowercase(e)) {
            Some(f) => f,
            None => TextFormat::Markdown,
        },
        None => TextFormat::Markdown,
    }
}

/// The format of a file with the given extension (see
/// [`spec_format_for_extension`]).
pub fn format_for_extension(ext: Option<&str>) -> (r: TextFormat)
    ensures
        r == spec_format_for_extension(
            match ext {
                Some(e) => Some(e@),
                None => None,
            },
        ),
{
    match ext {
        Some(e) => match TextFormat::from_extension(e) {
            Some(f) => f,
            None => TextFormat::Markdown,
        },
        None => TextFormat::Markdown,
    }
}

/// `Box::leak` on the characters of a `String`: the string is kept for the
/// rest of the program and a reference to it returned.  The reference holds
/// the same characters.
#[verifier::external_body]
fn leak_string(s: String) -> (r: &'static str)
    ensures
        r@ == s@,
{
    Box::leak(s.into_boxed_str())
}

/// The format that a lower-cased format name stands for, when it is a
/// known one (`markdown` or `md`, `commonmark_x`, `commonmark`, `gfm` or
/// `github`, `html` or `htm`, `plain` or `txt`, `latex` or `tex`, `rst`,
/// `org`).
pub open spec fn known_format(n: Seq<char>) -> Option<TextFormat> {
    if n == "markdown"@ || n == "md"@ || n == "commonmark_x"@ {
        Some(TextFormat::Markdown)
    } else if n == "commonmark"@ {
        Some(TextFormat::CommonMark)
    } else if n == "gfm"@ || n == "github"@ {
        Some(TextFormat::GithubMarkdown)
    } else if n == "html"@ || n == "htm"@ {
        Some(TextFormat::Html)
    } else if n == "plain"@ || n == "txt"@ {
        Some(TextFormat::PlainText)
    } else if n == "latex"@ || n == "tex"@ {
        Some(TextFormat::Latex)
    } else if n == "rst"@ {
        Some(TextFormat::Rst)
    } else if n == "org"@ {
        Some(TextFormat::Org)
    } else {
        None
    }
}

/// The format that a format name (in any case) stands for: a known format,
/// or else a custom format with the lower-cased name.
pub fn parse_format(format: &str) -> (r: TextFormat)
    ensures
        match known_format(lowercase(format@)) {
            Some(f) => r == f,
            None => r matches TextFormat::Custom(s) && s@ == lowercase(format@),
        },
{
    let lower = to_lowercase(format);
    let n = chars_of(lower.as_str());
    if chars_eq_str(&n, "markdown") || chars_eq_str(&n, "md") || chars_eq_str(&n, "commonmark_x") {
        TextFormat::Markdown
    } else if chars_eq_str(&n, "commonmark") {
        TextFormat::CommonMark
    } else if chars_eq_str(&n, "gfm") || chars_eq_str(&n, "github") {
        TextFormat::GithubMarkdown
    } else if chars_eq_str(&n, "html") || chars_eq_str(&n, "htm") {
        TextFormat::Html
    } else if chars_eq_str(&n, "plain") || chars_eq_str(&n, "txt") {
        TextFormat::PlainText
    } else if chars_eq_str(&n, "latex") || chars_eq_str(&n, "tex") {
        TextFormat::Latex
    } else if chars_eq_str(&n, "rst") {
        TextFormat::Rst
    } else if chars_eq_str(&n, "org") {
        TextFormat::Org
    } else {
        TextFormat::Custom(leak_string(lower))
    }
}

/// Every file extension that the documentation names is recognised as its
/// format: `md` and `markdown` as Markdown, `txt` as plain text, `html` and
/// `htm` as HTML, `tex` as LaTeX, `rst` as reStructuredText and `org` as Org
/// mode.
pub proof fn law_documented_extensions()
    ensures
        format_of_extension("md"@) == Some(TextFormat::Markdown),
        format_of_extension("markdown"@) == Some(TextFormat::Markdown),
        format_of_extension("txt"@) == Some(TextFormat::PlainText),
        format_of_extension("html"@) == Some(TextFormat::Html),
        format_of_extension("htm"@) == Some(TextFormat::Html),
        format_of_extension("tex"@) == Some(TextFormat::Latex),
        format_of_extension("rst"@) == Some(TextFormat::Rst),
        format_of_extension("org"@) == Some(TextFormat::Org),
{
    reveal_strlit("md");
    reveal_strlit("markdown");
    reveal_strlit("txt");
    reveal_strlit("html");
    reveal_strlit("htm");
    reveal_strlit("tex");
    reveal_strlit("rst");
    reveal_strlit("org");
    assert("md"@[0] == 'm' && "md"@.len() == 2);
    assert("markdown"@[0] == 'm' && "markdown"@.len() == 8);
    assert("txt"@[0] == 't' && "txt"@[1] == 'x' && "txt"@.len() == 3);
    assert("html"@[0] == 'h' && "html"@.len() == 4);
    assert("htm"@[0] == 'h' && "htm"@.len() == 3);
    assert("tex"@[0] == 't' && "tex"@[1] == 'e' && "tex"@.len() == 3);
    assert("rst"@[0] == 'r' && "rst"@.len() == 3);
    assert("org"@[0] == 'o' && "org"@.len() == 3);
}

/// A file whose extension is, in any case, the Pandoc name of Markdown,
/// HTML, reStructuredText or Org mode is read in that format.
pub proof fn law_format_name_extension(ext: Seq<char>, f: TextFormat)
    requires
        f is Markdown || f is Html || f is Rst || f is Org,
        lowercase(ext) == format_name(f),
    ensures
        format_of_extension(format_name(f)) == Some(f),
        spec_format_for_extension(Some(ext)) == f,
{
    law_documented_extensions();
}

/// A recognised extension names the same format when it is given as a
/// format name.
pub proof fn law_extension_is_format_name(e: Seq<char>)
    requires
        format_of_extension(e) is Some,
    ensures
        known_format(e) == format_of_extension(e),
{
    reveal_strlit("md");
    reveal_strlit("markdown");
    reveal_strlit("txt");
    reveal_strlit("html");
    reveal_strlit("htm");
    reveal_strlit("tex");
    reveal_strlit("rst");
    reveal_strlit("org");
    reveal_strlit("commonmark_x");
    reveal_strlit("commonmark");
    reveal_strlit("gfm");
    reveal_strlit("github");
    reveal_strlit("plain");
    reveal_strlit("latex");
    law_documented_extensions();
    assert("commonmark_x"@[0] == 'c' && "commonmark"@[0] == 'c' && "gfm"@[0] == 'g');
    assert("github"@[0] == 'g' && "plain"@[0] == 'p' && "latex"@[0] == 'l');
    assert("markdown"@[0] == 'm' && "md"@[0] == 'm' && "html"@[0] == 'h' && "htm"@[0] == 'h');
    assert("txt"@[0] == 't' && "tex"@[0] == 't' && "rst"@[0] == 'r' && "org"@[0] == 'o');
}

} // verus!
