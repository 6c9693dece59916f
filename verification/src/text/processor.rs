//! The settings of the Pandoc program that converts text, and the reading of
//! what it prints.
use crate::strings::{chars_between, chars_of, string_from_chars, string_of};
use crate::text::{TextFormat, TextProcessingError};
use vstd::prelude::*;
use vstd::utf8::{decode_utf8, valid_utf8};

verus! {

broadcast use {vstd::std_specs::vec::group_vec_axioms};

/// Calls `String::from_utf8`, which takes the bytes as a string when they
/// are valid UTF-8 and fails otherwise.
#[verifier::external_body]
fn string_from_utf8(bytes: Vec<u8>) -> (r: Result<String, std::string::FromUtf8Error>)
    ensures
        match r {
            Ok(s) => valid_utf8(bytes@) && s@ == decode_utf8(bytes@),
            Err(_) => !valid_utf8(bytes@),
        },
{
    String::from_utf8(bytes)
}

/// A line without the carriage return that ends it, if one does.
pub open spec fn strip_cr(line: Seq<char>) -> Seq<char> {
    if line.len() > 0 && line.last() == '\r' {
        line.drop_last()
    } else {
        line
    }
}

/// The index of the first newline in `s` at or after `i`, or `s.len()`.
pub open spec fn next_newline(s: Seq<char>, i: int) -> int
    decreases s.len() - i,
{
    if i >= s.len() {
        s.len() as int
    } else if s[i] == '\n' {
        i
    } else {
        next_newline(s, i + 1)
    }
}

/// The lines of a text, as `str::lines` gives them: split at each newline,
/// a carriage return before a newline dropped, no line after a final
/// newline, and no line at all for the empty text.
pub open spec fn spec_lines(s: Seq<char>) -> Seq<Seq<char>>
    decreases s.len(),
{
    if s.len() == 0 {
        Seq::empty()
    } else {
        let k = next_newline(s, 0);
        proof {
            lemma_next_newline(s, 0);
        }
        if k >= s.len() {
            seq![s]
        } else {
            seq![strip_cr(s.take(k))] + spec_lines(s.skip(k + 1))
        }
    }
}

/// Where the next newline is found.
pub proof fn lemma_next_newline(s: Seq<char>, i: int)
    requires
        0 <= i <= s.len(),
    ensures
        i <= next_newline(s, i) <= s.len(),
        forall|j: int| i <= j < next_newline(s, i) ==> s[j] != '\n',
        next_newline(s, i) < s.len() ==> s[next_newline(s, i)] == '\n',
    decreases s.len() - i,
{
    if i < s.len() && s[i] != '\n' {
        lemma_next_newline(s, i + 1);
    }
}

proof fn lemma_next_newline_shift(s: Seq<char>, start: int, i: int)
    requires
        0 <= start <= i <= s.len(),
    ensures
        next_newline(s.skip(start), i - start) + start == next_newline(s, i),
    decreases s.len() - i,
{
    if i < s.len() && s[i] != '\n' {
        lemma_next_newline_shift(s, start, i + 1);
    }
}

/// The lines of `text` (see [`spec_lines`]).
pub fn split_lines(text: &str) -> (r: Vec<String>)
    ensures
        r@.map_values(|l: String| l@) == spec_lines(text@),
{
    let chars = chars_of(text);
    let ghost s = chars@;
    let n = chars.len();
    let mut lines: Vec<String> = Vec::new();
    let mut start: usize = 0;
    assert(s.skip(0) =~= s);
    while start < n
        invariant
            n == s.len(),
            chars@ == s,
            s == text@,
            start <= n,
            lines@.map_values(|l: String| l@) + spec_lines(s.skip(start as int)) == spec_lines(s),
        decreases n - start,
    {
        let ghost rest = s.skip(start as int);
        let mut k = start;
        while k < n && chars[k] != '\n'
            invariant
                start <= k <= n,
                n == s.len(),
                chars@ == s,
                forall|j: int| start <= j < k ==> s[j] != '\n',
            decreases n - k,
        {
            k = k + 1;
        }
        proof {
            lemma_next_newline(rest, 0);
            lemma_next_newline_shift(s, start as int, start as int);
            lemma_next_newline(s, start as int);
            assert(next_newline(s, start as int) == k) by {
                if next_newline(s, start as int) < k {
                    assert(s[next_newline(s, start as int)] == '\n');
                }
            }
        }
        let ghost before = lines@;
        if k >= n {
            let line = chars_between(&chars, start, n);
            assert(line@ =~= rest);
            lines.push(string_from_chars(&line));
            proof {
                assert(lines@.map_values(|l: String| l@) =~= before.map_values(|l: String| l@).push(
                    rest,
                ));
                assert(s.skip(n as int) =~= Seq::<char>::empty());
            }
            start = n;
        } else {
            let end = if k > start && chars[k - 1] == '\r' {
                k - 1
            } else {
                k
            };
            let line = chars_between(&chars, start, end);
            assert(line@ =~= strip_cr(rest.take(k - start)));
            lines.push(string_from_chars(&line));
            proof {
                assert(lines@.map_values(|l: String| l@) =~= before.map_values(|l: String| l@).push(
                    strip_cr(rest.take(k - start)),
                ));
                assert(rest.skip(k - start + 1) =~= s.skip(k + 1));
            }
            start = k + 1;
        }
    }
    lines
}

/// View of [`PandocProcessor`].
pub struct SPandocProcessor {
    pub pandoc_path: Seq<char>,
    pub default_options: Seq<Seq<char>>,
}

/// The settings of the Pandoc program: where it is, and the options given
/// to it on every run.
pub struct PandocProcessor {
    pandoc_path: String,
    default_options: Vec<String>,
}

impl View for PandocProcessor {
    type V = SPandocProcessor;

    closed spec fn view(&self) -> SPandocProcessor {
        SPandocProcessor {
            pandoc_path: self.pandoc_path@,
            default_options: self.default_options@.map_values(|o: String| o@),
        }
    }
}

/// The name under which a format is passed to Pandoc: Markdown as the
/// extended CommonMark `commonmark_x`, every other format by its own name.
pub open spec fn pandoc_format_for(f: TextFormat) -> Seq<char> {
    match f {
        TextFormat::Markdown => "commonmark_x"@,
        _ => crate::text::format_name(f),
    }
}

impl PandocProcessor {
    /// A processor that runs `pandoc` with no default options.
    pub fn new() -> (r: Self)
        ensures
            r@ == (SPandocProcessor { pandoc_path: "pandoc"@, default_options: Seq::empty() }),
    {
        let r = PandocProcessor { pandoc_path: string_of("pandoc"), default_options: Vec::new() };
        assert(r@.default_options =~= Seq::<Seq<char>>::empty());
        r
    }

    /// A processor that runs the Pandoc program at the given path, with no
    /// default options.
    pub fn with_pandoc_path(pandoc_path: &str) -> (r: Self)
        ensures
            r@ == (SPandocProcessor { pandoc_path: pandoc_path@, default_options: Seq::empty() }),
    {
        let r = PandocProcessor { pandoc_path: string_of(pandoc_path), default_options: Vec::new() };
        assert(r@.default_options =~= Seq::<Seq<char>>::empty());
        r
    }

    /// The processor with one more default option, given after the others.
    pub fn with_default_option(self, option: &str) -> (r: Self)
        ensures
            r@ == (SPandocProcessor {
                default_options: self@.default_options.push(option@),
                ..self@
            }),
    {
        let mut s = self;
        let ghost before = s.default_options@;
        s.default_options.push(string_of(option));
        assert(s.default_options@.map_values(|o: String| o@) =~= before.map_values(|o: String| o@).push(
            option@,
        ));
        s
    }

    /// The path of the Pandoc program.
    pub fn pandoc_path(&self) -> (r: &str)
        ensures
            r@ == self@.pandoc_path,
    {
        self.pandoc_path.as_str()
    }

    /// The name under which a format is passed to Pandoc (see
    /// [`pandoc_format_for`]).
    pub fn get_pandoc_format(&self, format: TextFormat) -> (r: &'static str)
        ensures
            r@ == pandoc_format_for(format),
    {
        match format {
            TextFormat::Markdown => "commonmark_x",
            TextFormat::CommonMark => "commonmark",
            TextFormat::GithubMarkdown => "gfm",
            TextFormat::PlainText => "plain",
            TextFormat::Html => "html",
            TextFormat::Latex => "latex",
            TextFormat::Rst => "rst",
            TextFormat::Org => "org",
            TextFormat::Custom(fmt) => fmt,
        }
    }

    /// The arguments of a Pandoc run: the default options, then `args`.
    pub fn command_args(&self, args: &[&str]) -> (r: Vec<String>)
        ensures
            r@.map_values(|a: String| a@) == self@.default_options + args@.map_values(|a: &str| a@),
    {
        let mut r: Vec<String> = Vec::new();
        let n = self.default_options.len();
        for i in 0..n
            invariant
                n == self.default_options@.len(),
                r@.map_values(|a: String| a@) == self@.default_options.take(i as int),
        {
            let ghost before = r@;
            let o = self.default_options[i].clone();
            r.push(o);
            assert(r@ == before.push(o));
            assert(self@.default_options[i as int] == self.default_options@[i as int]@);
            assert(r@.map_values(|a: String| a@) =~= before.map_values(|a: String| a@).push(o@));
            assert(r@.map_values(|a: String| a@) =~= self@.default_options.take(i + 1));
        }
        assert(self@.default_options.take(n as int) =~= self@.default_options);
        let m = args.len();
        for j in 0..m
            invariant
                m == args@.len(),
                r@.map_values(|a: String| a@) == self@.default_options + args@.take(j as int).map_values(
                    |a: &str| a@,
                ),
        {
            let ghost before = r@;
            let a = string_of(args[j]);
            r.push(a);
            assert(r@ == before.push(a));
            assert(r@.map_values(|a: String| a@) =~= before.map_values(|a: String| a@).push(a@));
            assert(args@.take(j + 1).map_values(|a: &str| a@) =~= args@.take(j as int).map_values(
                |a: &str| a@,
            ).push(args@[j as int]@));
            assert(r@.map_values(|a: String| a@) =~= self@.default_options + args@.take(
                j + 1,
            ).map_values(|a: &str| a@));
        }
        assert(args@.take(m as int) =~= args@);
        r
    }

    /// The version line of Pandoc, from the outcome of running it with
    /// `--version`: the first line of what it printed.  It fails with
    /// `PandocError` when the run failed, `EncodingError` when the output is
    /// not UTF-8, and `Other` when the output is empty.
    pub fn check_pandoc_availability(&self, success: bool, stdout: Vec<u8>) -> (r: Result<String, TextProcessingError>)
        ensures
            !success ==> (r matches Err(TextProcessingError::PandocError(m)) && m@
                == "Pandoc is not available on this system"@),
            success && !valid_utf8(stdout@) ==> r matches Err(TextProcessingError::EncodingError(_)),
            success && valid_utf8(stdout@) && decode_utf8(stdout@).len() == 0 ==> (r matches Err(
                TextProcessingError::Other(m),
            ) && m@ == "Could not parse Pandoc version"@),
            success && valid_utf8(stdout@) && decode_utf8(stdout@).len() > 0 ==> r is Ok && r->Ok_0@
                == spec_lines(decode_utf8(stdout@))[0],
    {
        if !success {
            return Err(TextProcessingError::PandocError(string_of("Pandoc is not available on this system")));
        }
        let version_info = match string_from_utf8(stdout) {
            Ok(s) => s,
            Err(e) => {
                return Err(TextProcessingError::EncodingError(e));
            },
        };
        let lines = split_lines(version_info.as_str());
        proof {
            let t = version_info@;
            assert(t.len() > 0 ==> spec_lines(t).len() > 0);
            assert(lines@.map_values(|l: String| l@).len() == lines@.len());
        }
        if lines.len() == 0 {
            return Err(TextProcessingError::Other(string_of("Could not parse Pandoc version")));
        }
        proof {
            assert(lines@.map_values(|l: String| l@)[0] == lines@[0]@);
        }
        Ok(lines[0].clone())
    }

    /// The output formats that Pandoc lists, from the outcome of running it
    /// with `--list-output-formats`: one per line of what it printed.  It
    /// fails with `PandocError` when the run failed and `EncodingError` when
    /// the output is not UTF-8.
    pub fn get_supported_formats(&self, success: bool, stdout: Vec<u8>) -> (r: Result<Vec<String>, TextProcessingError>)
        ensures
            !success ==> (r matches Err(TextProcessingError::PandocError(m)) && m@
                == "Failed to retrieve supported formats"@),
            success && !valid_utf8(stdout@) ==> r matches Err(TextProcessingError::EncodingError(_)),
            success && valid_utf8(stdout@) ==> r is Ok && r->Ok_0@.map_values(|l: String| l@)
                == spec_lines(decode_utf8(stdout@)),
    {
        if !success {
            return Err(TextProcessingError::PandocError(string_of("Failed to retrieve supported formats")));
        }
        let formats_str = match string_from_utf8(stdout) {
            Ok(s) => s,
            Err(e) => {
                return Err(TextProcessingError::EncodingError(e));
            },
        };
        Ok(split_lines(formats_str.as_str()))
    }
}

/// A processor that runs `pandoc` with no default options.
pub fn create_processor() -> (r: PandocProcessor)
    ensures
        r@ == (SPandocProcessor { pandoc_path: "pandoc"@, default_options: Seq::empty() }),
{
    PandocProcessor::new()
}

} // verus!
