//! Conversion of Pandoc inlines into Notion rich text.
//!
//! Text is gathered into a buffer and emitted as one rich-text object each
//! time the formatting changes: at a soft or hard line break, and around
//! emphasis, strong, strike-out, code, links and spans, whose content is
//! converted with its own formatting.  Equations become equation objects.
use crate::notion_api::{
    default_annotations, rich_texts_view, Annotations, Equation, Link, RichText, SRichText, Text,
    TextColor,
};
use crate::pandoc::{inlines_view, strings_view, Inline, SInline};
use crate::strings::{
    chars_between, chars_eq_str, chars_of, empty_string, ends_with, has_prefix, has_suffix,
    push_str, starts_with, str_eq, string_of,
};
use vstd::prelude::*;

verus! {

broadcast use {vstd::std_specs::vec::group_vec_axioms, crate::pandoc::group_pandoc_view};

/// Why a conversion failed.
#[derive(Debug, Clone)]
pub enum ConversionError {
    /// An element that has no Notion counterpart, by its `Debug` rendering.
    UnsupportedElement(String),
    /// Invalid formatting or structure.
    InvalidFormat(String),
}

/// The text of an error: its kind, then its message.
pub open spec fn error_message(e: ConversionError) -> Seq<char> {
    match e {
        ConversionError::UnsupportedElement(m) => "Unsupported element: "@ + m@,
        ConversionError::InvalidFormat(m) => "Invalid format: "@ + m@,
    }
}

impl ConversionError {
    /// The text of the error (see [`error_message`]).
    pub fn message(&self) -> (r: String)
        ensures
            r@ == error_message(*self),
    {
        let (prefix, m) = match self {
            ConversionError::UnsupportedElement(m) => ("Unsupported element: ", m),
            ConversionError::InvalidFormat(m) => ("Invalid format: ", m),
        };
        let mut r = string_of(prefix);
        push_str(&mut r, m.as_str());
        r
    }
}

/// Whether `e` is `UnsupportedElement` with the message `d`.
pub open spec fn unsupported_with(e: ConversionError, d: Seq<char>) -> bool {
    e matches ConversionError::UnsupportedElement(m) && m@ == d
}

/// Settings of the Pandoc to Notion text conversion (there are none yet).
#[derive(Clone, Copy, Default)]
pub struct ConversionConfig {}

/// View of [`TextBuilder`].
pub struct STextBuilder {
    /// Text gathered and not yet emitted.
    pub current: Seq<char>,
    /// The formatting of the gathered text.
    pub annotations: Annotations,
    /// The link of the gathered text.
    pub link: Option<Seq<char>>,
    /// The rich-text objects emitted so far.
    pub rich_texts: Seq<SRichText>,
}

/// A text object with the given content, formatting and link; a linked
/// object also carries the link's URL as its `href`.
pub open spec fn text_object(content: Seq<char>, ann: Annotations, link: Option<Seq<char>>) -> SRichText {
    SRichText::Text {
        content,
        link,
        annotations: Some(ann),
        plain_text: Some(content),
        href: link,
    }
}

/// The gathered text emitted, if there is any, as one text object.
pub open spec fn commit(b: STextBuilder) -> STextBuilder {
    if b.current.len() > 0 {
        STextBuilder {
            current: Seq::empty(),
            rich_texts: b.rich_texts.push(text_object(b.current, b.annotations, b.link)),
            ..b
        }
    } else {
        b
    }
}

/// A builder with the given formatting and link and nothing gathered.
pub open spec fn fresh(ann: Annotations, link: Option<Seq<char>>) -> STextBuilder {
    STextBuilder { current: Seq::empty(), annotations: ann, link, rich_texts: Seq::empty() }
}

/// What a builder gives when it is built: its objects, after the gathered
/// text is emitted.
pub open spec fn finish(b: STextBuilder) -> Seq<SRichText> {
    commit(b).rich_texts
}

/// The rich text of a plain string: one text object with no formatting and
/// no link holding it; nothing for the empty string.
pub open spec fn default_text_rich(text: Seq<char>) -> Seq<SRichText> {
    finish(STextBuilder { current: text, ..fresh(default_annotations(), None) })
}

/// The text color that a color name (`red`, `blue`, ...) stands for.
pub open spec fn color_named(n: Seq<char>) -> Option<TextColor> {
    if n == "red"@ {
        Some(TextColor::Red)
    } else if n == "blue"@ {
        Some(TextColor::Blue)
    } else if n == "green"@ {
        Some(TextColor::Green)
    } else if n == "yellow"@ {
        Some(TextColor::Yellow)
    } else if n == "orange"@ {
        Some(TextColor::Orange)
    } else if n == "pink"@ {
        Some(TextColor::Pink)
    } else if n == "purple"@ {
        Some(TextColor::Purple)
    } else if n == "brown"@ {
        Some(TextColor::Brown)
    } else if n == "gray"@ {
        Some(TextColor::Gray)
    } else {
        None
    }
}

/// The background color that a color name stands for.
pub open spec fn background_named(n: Seq<char>) -> Option<TextColor> {
    if n == "red"@ {
        Some(TextColor::RedBackground)
    } else if n == "blue"@ {
        Some(TextColor::BlueBackground)
    } else if n == "green"@ {
        Some(TextColor::GreenBackground)
    } else if n == "yellow"@ {
        Some(TextColor::YellowBackground)
    } else if n == "orange"@ {
        Some(TextColor::OrangeBackground)
    } else if n == "pink"@ {
        Some(TextColor::PinkBackground)
    } else if n == "purple"@ {
        Some(TextColor::PurpleBackground)
    } else if n == "brown"@ {
        Some(TextColor::BrownBackground)
    } else if n == "gray"@ {
        Some(TextColor::GrayBackground)
    } else {
        None
    }
}

/// The color that the part of a class after `color-` names: a background
/// color when it ends with `-background`, else a text color.
pub open spec fn color_of_part(p: Seq<char>) -> Option<TextColor> {
    if has_suffix(p, "-background"@) {
        background_named(p.take(p.len() - 11))
    } else {
        color_named(p)
    }
}

/// The color of a span: decided by the first of its classes that starts with
/// `color-`; `None` when there is no such class or it names no color.
pub open spec fn spec_parse_color(classes: Seq<Seq<char>>) -> Option<TextColor>
    decreases classes.len(),
{
    if classes.len() == 0 {
        None
    } else if has_prefix(classes[0], "color-"@) {
        color_of_part(classes[0].skip(6))
    } else {
        spec_parse_color(classes.skip(1))
    }
}

/// The formatting of a span's content: the surrounding formatting,
/// underlined when the span has the class `underline`, and in the span's
/// color when it has one.
pub open spec fn span_annotations(ann: Annotations, classes: Seq<Seq<char>>) -> Annotations {
    let a = if classes.contains("underline"@) {
        Annotations { underline: true, ..ann }
    } else {
        ann
    };
    match spec_parse_color(classes) {
        Some(c) => Annotations { color: c, ..a },
        None => a,
    }
}

/// `b` with the objects of a nested conversion's builder appended, or the
/// nested conversion's error.
pub open spec fn attach(b: STextBuilder, nested: Result<STextBuilder, Seq<char>>) -> Result<STextBuilder, Seq<char>> {
    match nested {
        Ok(n) => Ok(STextBuilder { rich_texts: b.rich_texts + finish(n), ..b }),
        Err(e) => Err(e),
    }
}

/// The builder after converting the elements `els` in order, or the `Debug`
/// rendering of the first element that cannot be converted.
pub open spec fn spec_convert_elements(els: Seq<SInline>, b: STextBuilder) -> Result<STextBuilder, Seq<char>>
    decreases els,
{
    if els.len() == 0 {
        Ok(b)
    } else {
        match spec_convert_elements(els.drop_last(), b) {
            Ok(b2) => spec_convert_element(els.last(), b2),
            Err(e) => Err(e),
        }
    }
}

/// The builder after converting one element.  Text and spaces are gathered;
/// a soft break emits the gathered text and gathers a space, a hard break a
/// newline.  Emphasis, strong and strike-out content is converted with the
/// matching formatting added, code with the code formatting; link content
/// with no formatting and the link; span content with the span's underline
/// and color.  An equation becomes an equation object.
pub open spec fn spec_convert_element(e: SInline, b: STextBuilder) -> Result<STextBuilder, Seq<char>>
    decreases e,
{
    match e {
        SInline::Str(t) => Ok(STextBuilder { current: b.current + t, ..b }),
        SInline::Space => Ok(STextBuilder { current: b.current + " "@, ..b }),
        SInline::SoftBreak => Ok(STextBuilder { current: " "@, ..commit(b) }),
        SInline::LineBreak => Ok(STextBuilder { current: "\n"@, ..commit(b) }),
        SInline::Strong(c) => attach(
            commit(b),
            spec_convert_elements(c, fresh(Annotations { bold: true, ..b.annotations }, None)),
        ),
        SInline::Emph(c) => attach(
            commit(b),
            spec_convert_elements(c, fresh(Annotations { italic: true, ..b.annotations }, None)),
        ),
        SInline::Strikeout(c) => attach(
            commit(b),
            spec_convert_elements(
                c,
                fresh(Annotations { strikethrough: true, ..b.annotations }, None),
            ),
        ),
        SInline::Code(_, s) => attach(
            commit(b),
            Ok(STextBuilder { current: s, ..fresh(Annotations { code: true, ..b.annotations }, None) }),
        ),
        SInline::Math(_, ex) => Ok(
            STextBuilder {
                rich_texts: commit(b).rich_texts.push(
                    SRichText::Equation {
                        expression: ex,
                        annotations: b.annotations,
                        plain_text: ex,
                        href: None,
                    },
                ),
                ..commit(b)
            },
        ),
        SInline::Link(_, c, t) => attach(
            commit(b),
            spec_convert_elements(c, fresh(default_annotations(), Some(t.url))),
        ),
        SInline::Span(a, c) => attach(
            commit(b),
            spec_convert_elements(c, fresh(span_annotations(b.annotations, a.classes), None)),
        ),
        SInline::Other(_, d) => Err(d),
    }
}

/// The rich text made from Pandoc inlines, or the `Debug` rendering of the
/// first inline that has no Notion counterpart.
pub open spec fn spec_convert_inlines(els: Seq<SInline>) -> Result<Seq<SRichText>, Seq<char>> {
    match spec_convert_elements(els, fresh(default_annotations(), None)) {
        Ok(b) => Ok(finish(b)),
        Err(e) => Err(e),
    }
}

/// The text held by the text objects, one after the other.
pub open spec fn text_contents(rts: Seq<SRichText>) -> Seq<char>
    decreases rts.len(),
{
    if rts.len() == 0 {
        Seq::empty()
    } else {
        text_contents(rts.drop_last()) + match rts.last() {
            SRichText::Text { content, .. } => content,
            _ => Seq::empty(),
        }
    }
}

/// The text an inline shows: its words, a space for a space or a soft
/// break, a newline for a hard break, the code of inline code, and the text
/// of the inlines that emphasis, strong, strike-out, links and spans hold;
/// nothing for an equation or an element with no Notion counterpart.
pub open spec fn inline_text(e: SInline) -> Seq<char>
    decreases e,
{
    match e {
        SInline::Str(t) => t,
        SInline::Space => " "@,
        SInline::SoftBreak => " "@,
        SInline::LineBreak => "\n"@,
        SInline::Strong(c) => inlines_text(c),
        SInline::Emph(c) => inlines_text(c),
        SInline::Strikeout(c) => inlines_text(c),
        SInline::Code(_, s) => s,
        SInline::Math(..) => Seq::empty(),
        SInline::Link(_, c, _) => inlines_text(c),
        SInline::Span(_, c) => inlines_text(c),
        SInline::Other(..) => Seq::empty(),
    }
}

/// The text of inlines, one after the other (see [`inline_text`]).
pub open spec fn inlines_text(els: Seq<SInline>) -> Seq<char>
    decreases els,
{
    if els.len() == 0 {
        Seq::empty()
    } else {
        inlines_text(els.drop_last()) + inline_text(els.last())
    }
}

/// Whether an inline, and every inline it holds, has a Notion counterpart.
pub open spec fn inline_supported(e: SInline) -> bool
    decreases e,
{
    match e {
        SInline::Strong(c) => inlines_supported(c),
        SInline::Emph(c) => inlines_supported(c),
        SInline::Strikeout(c) => inlines_supported(c),
        SInline::Link(_, c, _) => inlines_supported(c),
        SInline::Span(_, c) => inlines_supported(c),
        SInline::Other(..) => false,
        _ => true,
    }
}

/// Whether every one of `els` is supported (see [`inline_supported`]).
pub open spec fn inlines_supported(els: Seq<SInline>) -> bool
    decreases els,
{
    if els.len() == 0 {
        true
    } else {
        inlines_supported(els.drop_last()) && inline_supported(els.last())
    }
}

/// Whether no text object is empty.
pub open spec fn no_empty_text(rts: Seq<SRichText>) -> bool {
    forall|i: int|
        0 <= i < rts.len() ==> ((#[trigger] rts[i]) matches SRichText::Text { content, .. } ==> content.len()
            > 0)
}

/// The text of objects put one after the other.
proof fn lemma_text_contents_add(a: Seq<SRichText>, b: Seq<SRichText>)
    ensures
        text_contents(a + b) == text_contents(a) + text_contents(b),
    decreases b.len(),
{
    if b.len() == 0 {
        assert(a + b =~= a);
    } else {
        lemma_text_contents_add(a, b.drop_last());
        assert((a + b).drop_last() =~= a + b.drop_last());
    }
}

/// Emitting the gathered text keeps the text emitted and gathered, and
/// emits no empty text object.
proof fn lemma_commit_text(b: STextBuilder)
    ensures
        text_contents(commit(b).rich_texts) + commit(b).current == text_contents(b.rich_texts) + b.current,
        no_empty_text(b.rich_texts) ==> no_empty_text(commit(b).rich_texts),
{
    if b.current.len() > 0 {
        let r = b.rich_texts.push(text_object(b.current, b.annotations, b.link));
        assert(r.drop_last() =~= b.rich_texts);
    } else {
        assert(b.current =~= Seq::<char>::empty());
        assert(text_contents(b.rich_texts) + b.current =~= text_contents(b.rich_texts));
    }
}

/// A nested conversion's objects appended keep the text and add no empty
/// text object.
proof fn lemma_attach_text(b: STextBuilder, n: STextBuilder)
    requires
        b.current.len() == 0,
    ensures
        attach(b, Ok(n)) matches Ok(r) && text_contents(r.rich_texts) + r.current == text_contents(b.rich_texts)
            + text_contents(n.rich_texts) + n.current,
        (no_empty_text(b.rich_texts) && no_empty_text(n.rich_texts)) ==> (attach(b, Ok(n)) matches Ok(r)
            && no_empty_text(r.rich_texts)),
{
    lemma_commit_text(n);
    lemma_text_contents_add(b.rich_texts, finish(n));
    let r = b.rich_texts + finish(n);
    assert(b.current =~= Seq::<char>::empty());
    assert(text_contents(r) + b.current =~= text_contents(b.rich_texts) + (text_contents(n.rich_texts)
        + n.current));
    if no_empty_text(b.rich_texts) && no_empty_text(n.rich_texts) {
        assert forall|i: int| 0 <= i < r.len() implies ((#[trigger] r[i]) matches SRichText::Text {
            content,
            ..
        } ==> content.len() > 0) by {
            if i >= b.rich_texts.len() {
                assert(r[i] == finish(n)[i - b.rich_texts.len()]);
            }
        }
    }
}

/// Converting elements succeeds exactly when all are supported, adds their
/// text to what was emitted and gathered, and emits no empty text object.
proof fn lemma_elements_text(els: Seq<SInline>, b: STextBuilder)
    ensures
        (spec_convert_elements(els, b) is Ok) == inlines_supported(els),
        spec_convert_elements(els, b) matches Ok(r) ==> text_contents(r.rich_texts) + r.current
            == text_contents(b.rich_texts) + b.current + inlines_text(els),
        (no_empty_text(b.rich_texts) && spec_convert_elements(els, b) is Ok) ==> no_empty_text(
            spec_convert_elements(els, b)->Ok_0.rich_texts,
        ),
    decreases els, 0nat,
{
    if els.len() == 0 {
        assert(text_contents(b.rich_texts) + b.current + inlines_text(els) =~= text_contents(b.rich_texts)
            + b.current);
    } else {
        lemma_elements_text(els.drop_last(), b);
        match spec_convert_elements(els.drop_last(), b) {
            Ok(b2) => {
                lemma_element_text(els.last(), b2);
                assert(text_contents(b.rich_texts) + b.current + inlines_text(els) =~= text_contents(
                    b.rich_texts,
                ) + b.current + inlines_text(els.drop_last()) + inline_text(els.last()));
            },
            Err(_) => {},
        }
    }
}

/// Converting one element, as [`lemma_elements_text`] says of several.
proof fn lemma_element_text(e: SInline, b: STextBuilder)
    ensures
        (spec_convert_element(e, b) is Ok) == inline_supported(e),
        spec_convert_element(e, b) matches Ok(r) ==> text_contents(r.rich_texts) + r.current
            == text_contents(b.rich_texts) + b.current + inline_text(e),
        (no_empty_text(b.rich_texts) && spec_convert_element(e, b) is Ok) ==> no_empty_text(
            spec_convert_element(e, b)->Ok_0.rich_texts,
        ),
    decreases e, 1nat,
{
    lemma_commit_text(b);
    let c = commit(b);
    let base = text_contents(b.rich_texts) + b.current;
    assert(c.current.len() == 0);
    match e {
        SInline::Str(t) => {
            assert(text_contents(b.rich_texts) + (b.current + t) =~= base + t);
        },
        SInline::Space => {
            assert(text_contents(b.rich_texts) + (b.current + " "@) =~= base + " "@);
        },
        SInline::SoftBreak => {
            assert(text_contents(c.rich_texts) + " "@ =~= text_contents(c.rich_texts) + c.current + " "@);
        },
        SInline::LineBreak => {
            assert(text_contents(c.rich_texts) + "\n"@ =~= text_contents(c.rich_texts) + c.current + "\n"@);
        },
        SInline::Strong(cs) => {
            let f = fresh(Annotations { bold: true, ..b.annotations }, None);
            lemma_nested_text(cs, c, f, base);
        },
        SInline::Emph(cs) => {
            let f = fresh(Annotations { italic: true, ..b.annotations }, None);
            lemma_nested_text(cs, c, f, base);
        },
        SInline::Strikeout(cs) => {
            let f = fresh(Annotations { strikethrough: true, ..b.annotations }, None);
            lemma_nested_text(cs, c, f, base);
        },
        SInline::Code(_, s) => {
            let n = STextBuilder { current: s, ..fresh(Annotations { code: true, ..b.annotations }, None) };
            lemma_attach_text(c, n);
            assert(text_contents(n.rich_texts) == Seq::<char>::empty());
            assert(no_empty_text(n.rich_texts));
            assert(text_contents(c.rich_texts) + text_contents(n.rich_texts) + n.current =~= base + s);
        },
        SInline::Math(_, ex) => {
            let r = c.rich_texts.push(
                SRichText::Equation { expression: ex, annotations: b.annotations, plain_text: ex, href: None },
            );
            assert(r.drop_last() =~= c.rich_texts);
            assert(text_contents(r) + c.current =~= base + inline_text(e));
        },
        SInline::Link(_, cs, t) => {
            let f = fresh(default_annotations(), Some(t.url));
            lemma_nested_text(cs, c, f, base);
        },
        SInline::Span(a, cs) => {
            let f = fresh(span_annotations(b.annotations, a.classes), None);
            lemma_nested_text(cs, c, f, base);
        },
        SInline::Other(..) => {},
    }
}

/// The text of nested content converted with a fresh builder and appended.
proof fn lemma_nested_text(cs: Seq<SInline>, c: STextBuilder, f: STextBuilder, base: Seq<char>)
    requires
        c.current.len() == 0,
        text_contents(c.rich_texts) + c.current == base,
        f.current.len() == 0,
        f.rich_texts.len() == 0,
    ensures
        (attach(c, spec_convert_elements(cs, f)) is Ok) == inlines_supported(cs),
        attach(c, spec_convert_elements(cs, f)) matches Ok(r) ==> text_contents(r.rich_texts) + r.current
            == base + inlines_text(cs),
        (no_empty_text(c.rich_texts) && attach(c, spec_convert_elements(cs, f)) is Ok) ==> no_empty_text(
            attach(c, spec_convert_elements(cs, f))->Ok_0.rich_texts,
        ),
    decreases cs, 1nat,
{
    lemma_elements_text(cs, f);
    assert(text_contents(f.rich_texts) == Seq::<char>::empty());
    assert(no_empty_text(f.rich_texts));
    match spec_convert_elements(cs, f) {
        Ok(n) => {
            lemma_attach_text(c, n);
            assert(text_contents(f.rich_texts) + f.current + inlines_text(cs) =~= inlines_text(cs));
            assert(text_contents(c.rich_texts) + text_contents(n.rich_texts) + n.current =~= base
                + inlines_text(cs));
        },
        Err(_) => {},
    }
}

/// Converting Pandoc inlines into Notion rich text keeps their text: it
/// succeeds exactly when every inline, at any depth, has a Notion
/// counterpart, and then the text objects, one after the other, hold the
/// text the inlines show (see [`inline_text`]), and none of them is empty.
pub proof fn law_convert_keeps_text(els: Seq<SInline>)
    ensures
        (spec_convert_inlines(els) is Ok) == inlines_supported(els),
        spec_convert_inlines(els) matches Ok(rts) ==> text_contents(rts) == inlines_text(els) && no_empty_text(
            rts,
        ),
{
    let f = fresh(default_annotations(), None);
    lemma_elements_text(els, f);
    assert(text_contents(f.rich_texts) == Seq::<char>::empty());
    assert(no_empty_text(f.rich_texts));
    match spec_convert_elements(els, f) {
        Ok(r) => {
            lemma_commit_text(r);
            assert(commit(r).current.len() == 0);
            assert(text_contents(commit(r).rich_texts) + commit(r).current =~= text_contents(commit(r).rich_texts));
            assert(text_contents(f.rich_texts) + f.current + inlines_text(els) =~= inlines_text(els));
        },
        Err(_) => {},
    }
}

/// Gathers text and emits Notion rich-text objects.
pub struct TextBuilder {
    current_text: String,
    annotations: Annotations,
    link: Option<Link>,
    rich_texts: Vec<RichText>,
}

/// The URL of an optional link.
pub open spec fn link_view(l: Option<Link>) -> Option<Seq<char>> {
    match l {
        Some(x) => Some(x.url@),
        None => None,
    }
}

fn copy_link(l: &Option<Link>) -> (r: Option<Link>)
    ensures
        link_view(r) == link_view(*l),
{
    match l {
        Some(x) => Some(Link { url: x.url.clone() }),
        None => None,
    }
}

impl View for TextBuilder {
    type V = STextBuilder;

    closed spec fn view(&self) -> STextBuilder {
        STextBuilder {
            current: self.current_text@,
            annotations: self.annotations,
            link: link_view(self.link),
            rich_texts: rich_texts_view(self.rich_texts@),
        }
    }
}

impl TextBuilder {
    /// A builder with no formatting, no link and nothing gathered.
    pub fn new() -> (r: Self)
        ensures
            r@ == fresh(default_annotations(), None),
    {
        let r = TextBuilder {
            current_text: String::new(),
            annotations: Annotations::plain(),
            link: None,
            rich_texts: Vec::new(),
        };
        assert(r@.rich_texts =~= Seq::<SRichText>::empty());
        r
    }

    /// The formatting of the gathered text.
    pub fn get_annotations(&self) -> (r: Annotations)
        ensures
            r == self@.annotations,
    {
        self.annotations
    }

    /// Sets the formatting of the gathered text.
    pub fn set_annotations(&mut self, annotations: Annotations)
        ensures
            final(self)@ == (STextBuilder { annotations, ..old(self)@ }),
    {
        self.annotations = annotations;
    }

    /// Replaces the formatting by what `modifier` makes of it.
    pub fn update_annotation<F: FnOnce(Annotations) -> Annotations>(&mut self, modifier: F)
        requires
            call_requires(modifier, (old(self)@.annotations,)),
        ensures
            call_ensures(modifier, (old(self)@.annotations,), final(self)@.annotations),
            final(self)@.current == old(self)@.current,
            final(self)@.link == old(self)@.link,
            final(self)@.rich_texts == old(self)@.rich_texts,
    {
        self.annotations = modifier(self.annotations);
    }

    /// Emits the gathered text, if there is any, as one text object.
    pub fn commit_current_text(&mut self)
        ensures
            final(self)@ == commit(old(self)@),
    {
        if !self.current_text.as_str().is_empty() {
            let text = Text { content: self.current_text.clone(), link: copy_link(&self.link) };
            let href = match &self.link {
                Some(l) => Some(l.url.clone()),
                None => None,
            };
            let rich_text = RichText::Text {
                text,
                annotations: Some(self.annotations),
                plain_text: Some(self.current_text.clone()),
                href,
            };
            let ghost before = self.rich_texts@;
            self.rich_texts.push(rich_text);
            assert(rich_texts_view(self.rich_texts@) =~= rich_texts_view(before).push(
                text_object(old(self)@.current, self.annotations, link_view(self.link)),
            ));
            self.current_text = String::new();
        }
    }

    /// Emits the gathered text, then an equation object with the current
    /// formatting.
    pub fn commit_equation(&mut self, expression: &str)
        ensures
            final(self)@ == (STextBuilder {
                rich_texts: commit(old(self)@).rich_texts.push(
                    SRichText::Equation {
                        expression: expression@,
                        annotations: old(self)@.annotations,
                        plain_text: expression@,
                        href: None,
                    },
                ),
                ..commit(old(self)@)
            }),
    {
        self.commit_current_text();
        let equation = Equation { expression: String::from_str(expression) };
        let rich_text = RichText::Equation {
            equation,
            annotations: self.annotations,
            plain_text: String::from_str(expression),
            href: None,
        };
        let ghost before = self.rich_texts@;
        self.rich_texts.push(rich_text);
        assert(rich_texts_view(self.rich_texts@) =~= rich_texts_view(before).push(
            SRichText::Equation {
                expression: expression@,
                annotations: self.annotations,
                plain_text: expression@,
                href: None,
            },
        ));
    }

    /// A new builder, with nothing gathered and no link, whose formatting is
    /// what `modifier` makes of this builder's.
    pub fn apply_formatting<F: FnOnce(Annotations) -> Annotations>(&self, modifier: F) -> (r: TextBuilder)
        requires
            call_requires(modifier, (self@.annotations,)),
        ensures
            call_ensures(modifier, (self@.annotations,), r@.annotations),
            r@ == fresh(r@.annotations, None),
    {
        let mut new_builder = TextBuilder::new();
        new_builder.annotations = modifier(self.annotations);
        new_builder
    }

    /// Appends text to the gathered text.
    pub fn append_text(&mut self, text: &str)
        ensures
            final(self)@ == (STextBuilder { current: old(self)@.current + text@, ..old(self)@ }),
    {
        push_str(&mut self.current_text, text);
    }

    /// The emitted objects, after the gathered text is emitted.
    pub fn build(self) -> (r: Result<Vec<RichText>, ConversionError>)
        ensures
            r is Ok,
            rich_texts_view(r->Ok_0@) == finish(self@),
    {
        let mut s = self;
        s.commit_current_text();
        Ok(s.rich_texts)
    }

    /// Sets the link of the gathered text.
    pub fn set_link(&mut self, link: Link)
        ensures
            final(self)@ == (STextBuilder { link: Some(link.url@), ..old(self)@ }),
    {
        self.link = Some(link);
    }

    fn append_built(&mut self, nested: TextBuilder)
        ensures
            final(self)@ == (STextBuilder {
                rich_texts: old(self)@.rich_texts + finish(nested@),
                ..old(self)@
            }),
    {
        let mut n = nested;
        n.commit_current_text();
        let ghost a = self.rich_texts@;
        let ghost b = n.rich_texts@;
        self.rich_texts.append(&mut n.rich_texts);
        assert(rich_texts_view(a + b) =~= rich_texts_view(a) + rich_texts_view(b));
    }
}

/// Converts Pandoc inlines into Notion rich text.
#[derive(Clone)]
pub struct PandocTextConverter {}

impl PandocTextConverter {
    /// A converter with the default configuration.
    pub fn new() -> (r: Self) {
        Self::with_config(ConversionConfig {})
    }

    /// A converter with the given configuration.
    pub fn with_config(config: ConversionConfig) -> (r: Self) {
        PandocTextConverter {}
    }

    /// The rich text made from `elements`, or `UnsupportedElement` with the
    /// `Debug` rendering of the first element that has no Notion
    /// counterpart.
    pub fn convert(&self, elements: &[Inline]) -> (r: Result<Vec<RichText>, ConversionError>)
        ensures
            match spec_convert_inlines(inlines_view(elements@)) {
                Ok(rts) => r is Ok && rich_texts_view(r->Ok_0@) == rts,
                Err(d) => r is Err && unsupported_with(r->Err_0, d),
            },
    {
        let mut builder = TextBuilder::new();
        match self.convert_elements(elements, &mut builder) {
            Ok(()) => {},
            Err(e) => {
                return Err(e);
            },
        }
        builder.build()
    }

    /// The rich text of a plain string: one text object holding it, with no
    /// formatting and no link; nothing for the empty string.
    pub fn convert_plain_text(&self, text: &str) -> (r: Result<Vec<RichText>, ConversionError>)
        ensures
            r is Ok,
            rich_texts_view(r->Ok_0@) == default_text_rich(text@),
    {
        let mut builder = TextBuilder::new();
        builder.append_text(text);
        assert(builder@.current =~= text@);
        builder.build()
    }

    fn convert_nested(&self, elements: &[Inline], builder: &mut TextBuilder, nested: TextBuilder) -> (r: Result<(), ConversionError>)
        ensures
            match attach(old(builder)@, spec_convert_elements(inlines_view(elements@), nested@)) {
                Ok(b) => r is Ok && final(builder)@ == b,
                Err(d) => r is Err && unsupported_with(r->Err_0, d),
            },
        decreases elements@, 1nat,
    {
        let mut nested_builder = nested;
        match self.convert_elements(elements, &mut nested_builder) {
            Ok(()) => {},
            Err(e) => {
                return Err(e);
            },
        }
        builder.append_built(nested_builder);
        Ok(())
    }

    fn convert_elements(&self, elements: &[Inline], builder: &mut TextBuilder) -> (r: Result<(), ConversionError>)
        ensures
            match spec_convert_elements(inlines_view(elements@), old(builder)@) {
                Ok(b) => r is Ok && final(builder)@ == b,
                Err(d) => r is Err && unsupported_with(r->Err_0, d),
            },
        decreases elements@, 0nat,
    {
        let ghost ev = inlines_view(elements@);
        let ghost start = builder@;
        let n = elements.len();
        for i in 0..n
            invariant
                n == elements@.len(),
                ev == inlines_view(elements@),
                start == old(builder)@,
                spec_convert_elements(ev.take(i as int), start) == Ok::<STextBuilder, Seq<char>>(builder@),
        {
            let element = &elements[i];
            proof {
                assert(ev.take(i + 1).drop_last() =~= ev.take(i as int));
                assert(ev.take(i + 1).last() == element@);
            }
            assert(decreases_to!(elements@ => elements@[i as int]));
            match self.convert_element(element, builder) {
                Ok(()) => {},
                Err(e) => {
                    proof {
                        lemma_error_propagates(ev, start, i + 1);
                    }
                    return Err(e);
                },
            }
        }
        assert(ev.take(n as int) =~= ev);
        Ok(())
    }

    #[verifier::rlimit(40)]
    fn convert_element(&self, element: &Inline, builder: &mut TextBuilder) -> (r: Result<(), ConversionError>)
        ensures
            match spec_convert_element(element@, old(builder)@) {
                Ok(b) => r is Ok && final(builder)@ == b,
                Err(d) => r is Err && unsupported_with(r->Err_0, d),
            },
        decreases *element, 0nat,
    {
        match element {
            Inline::Str(text) => {
                builder.append_text(text.as_str());
            },
            Inline::Space => {
                builder.append_text(" ");
            },
            Inline::SoftBreak => {
                builder.commit_current_text();
                builder.append_text(" ");
                assert(builder@.current =~= " "@);
            },
            Inline::LineBreak => {
                builder.commit_current_text();
                builder.append_text("\n");
                assert(builder@.current =~= "\n"@);
            },
            Inline::Strong(content) => {
                builder.commit_current_text();
                let nested = builder.apply_formatting(with_bold);
                assert(nested@ == fresh(Annotations { bold: true, ..old(builder)@.annotations }, None));
                assert(element@ == SInline::Strong(inlines_view(content@)));
                match self.convert_nested(content.as_slice(), builder, nested) {
                    Ok(()) => {},
                    Err(e) => {
                        return Err(e);
                    },
                }
            },
            Inline::Emph(content) => {
                builder.commit_current_text();
                let nested = builder.apply_formatting(with_italic);
                match self.convert_nested(content.as_slice(), builder, nested) {
                    Ok(()) => {},
                    Err(e) => {
                        return Err(e);
                    },
                }
            },
            Inline::Strikeout(content) => {
                builder.commit_current_text();
                let nested = builder.apply_formatting(with_strikethrough);
                match self.convert_nested(content.as_slice(), builder, nested) {
                    Ok(()) => {},
                    Err(e) => {
                        return Err(e);
                    },
                }
            },
            Inline::Code(_, code_text) => {
                builder.commit_current_text();
                let mut new_builder = builder.apply_formatting(with_code);
                new_builder.append_text(code_text.as_str());
                assert(new_builder@.current =~= code_text@);
                builder.append_built(new_builder);
            },
            Inline::Math(_, expression) => {
                builder.commit_equation(expression.as_str());
            },
            Inline::Link(_, content, target) => {
                builder.commit_current_text();
                let mut new_builder = TextBuilder::new();
                let link = Link { url: target.url.clone() };
                new_builder.set_link(link);
                match self.convert_nested(content.as_slice(), builder, new_builder) {
                    Ok(()) => {},
                    Err(e) => {
                        return Err(e);
                    },
                }
            },
            Inline::Span(attr, content) => {
                builder.commit_current_text();
                let color = self.parse_color(&attr.classes);
                let is_underline = has_class(&attr.classes, "underline");
                let mut new_builder = TextBuilder::new();
                new_builder.set_annotations(builder.get_annotations());
                if is_underline {
                    let a = new_builder.get_annotations();
                    new_builder.set_annotations(Annotations { underline: true, ..a });
                }
                match color {
                    Some(c) => {
                        let a = new_builder.get_annotations();
                        new_builder.set_annotations(Annotations { color: c, ..a });
                    },
                    None => {},
                }
                match self.convert_nested(content.as_slice(), builder, new_builder) {
                    Ok(()) => {},
                    Err(e) => {
                        return Err(e);
                    },
                }
            },
            Inline::Other(_, rendering) => {
                return Err(ConversionError::UnsupportedElement(rendering.clone()));
            },
        }
        Ok(())
    }

    /// The color of a span with the given classes: decided by the first
    /// class that starts with `color-`.
    pub fn parse_color(&self, classes: &Vec<String>) -> (r: Option<TextColor>)
        ensures
            r == spec_parse_color(strings_view(classes@)),
    {
        let ghost cv = strings_view(classes@);
        let n = classes.len();
        assert(cv.skip(0) =~= cv);
        proof {
            reveal_strlit("color-");
        }
        for i in 0..n
            invariant
                n == classes@.len(),
                cv == strings_view(classes@),
                "color-"@.len() == 6,
                spec_parse_color(cv) == spec_parse_color(cv.skip(i as int)),
        {
            let chars = chars_of(classes[i].as_str());
            proof {
                assert(cv.skip(i as int)[0] == cv[i as int]);
                assert(cv.skip(i as int).skip(1) =~= cv.skip(i + 1));
            }
            if starts_with(&chars, "color-") {
                let part = chars_between(&chars, 6, chars.len());
                assert(part@ =~= cv[i as int].skip(6));
                return color_of_part_exec(&part);
            }
        }
        assert(cv.skip(n as int) =~= Seq::<Seq<char>>::empty());
        None
    }
}

/// Once the conversion of a prefix of `els` fails, the conversion of `els`
/// fails the same way.
proof fn lemma_error_propagates(els: Seq<SInline>, b: STextBuilder, k: int)
    requires
        0 <= k <= els.len(),
        spec_convert_elements(els.take(k), b) is Err,
    ensures
        spec_convert_elements(els, b) == spec_convert_elements(els.take(k), b),
    decreases els.len(),
{
    if k == els.len() {
        assert(els.take(k) =~= els);
    } else {
        let d = els.drop_last();
        assert(d.take(k) =~= els.take(k));
        lemma_error_propagates(d, b, k);
    }
}

/// `a` with `bold` set.
fn with_bold(a: Annotations) -> (r: Annotations)
    ensures
        r == (Annotations { bold: true, ..a }),
{
    Annotations { bold: true, ..a }
}

/// `a` with `italic` set.
fn with_italic(a: Annotations) -> (r: Annotations)
    ensures
        r == (Annotations { italic: true, ..a }),
{
    Annotations { italic: true, ..a }
}

/// `a` with `strikethrough` set.
fn with_strikethrough(a: Annotations) -> (r: Annotations)
    ensures
        r == (Annotations { strikethrough: true, ..a }),
{
    Annotations { strikethrough: true, ..a }
}

/// `a` with `code` set.
fn with_code(a: Annotations) -> (r: Annotations)
    ensures
        r == (Annotations { code: true, ..a }),
{
    Annotations { code: true, ..a }
}

/// Whether one of `classes` is `name`.
fn has_class(classes: &Vec<String>, name: &str) -> (r: bool)
    ensures
        r == strings_view(classes@).contains(name@),
{
    let ghost cv = strings_view(classes@);
    let n = classes.len();
    for i in 0..n
        invariant
            n == classes@.len(),
            cv == strings_view(classes@),
            forall|j: int| 0 <= j < i ==> cv[j] != name@,
    {
        if str_eq(classes[i].as_str(), name) {
            assert(cv[i as int] == name@);
            return true;
        }
    }
    false
}

fn color_named_exec(n: &Vec<char>) -> (r: Option<TextColor>)
    ensures
        r == color_named(n@),
{
    if chars_eq_str(n, "red") {
        Some(TextColor::Red)
    } else if chars_eq_str(n, "blue") {
        Some(TextColor::Blue)
    } else if chars_eq_str(n, "green") {
        Some(TextColor::Green)
    } else if chars_eq_str(n, "yellow") {
        Some(TextColor::Yellow)
    } else if chars_eq_str(n, "orange") {
        Some(TextColor::Orange)
    } else if chars_eq_str(n, "pink") {
        Some(TextColor::Pink)
    } else if chars_eq_str(n, "purple") {
        Some(TextColor::Purple)
    } else if chars_eq_str(n, "brown") {
        Some(TextColor::Brown)
    } else if chars_eq_str(n, "gray") {
        Some(TextColor::Gray)
    } else {
        None
    }
}

fn background_named_exec(n: &Vec<char>) -> (r: Option<TextColor>)
    ensures
        r == background_named(n@),
{
    if chars_eq_str(n, "red") {
        Some(TextColor::RedBackground)
    } else if chars_eq_str(n, "blue") {
        Some(TextColor::BlueBackground)
    } else if chars_eq_str(n, "green") {
        Some(TextColor::GreenBackground)
    } else if chars_eq_str(n, "yellow") {
        Some(TextColor::YellowBackground)
    } else if chars_eq_str(n, "orange") {
        Some(TextColor::OrangeBackground)
    } else if chars_eq_str(n, "pink") {
        Some(TextColor::PinkBackground)
    } else if chars_eq_str(n, "purple") {
        Some(TextColor::PurpleBackground)
    } else if chars_eq_str(n, "brown") {
        Some(TextColor::BrownBackground)
    } else if chars_eq_str(n, "gray") {
        Some(TextColor::GrayBackground)
    } else {
        None
    }
}

fn color_of_part_exec(p: &Vec<char>) -> (r: Option<TextColor>)
    ensures
        r == color_of_part(p@),
{
    if ends_with(p, "-background") {
        proof {
            reveal_strlit("-background");
        }
        let base = chars_between(p, 0, p.len() - 11);
        assert(base@ =~= p@.take(p@.len() - 11));
        background_named_exec(&base)
    } else {
        color_named_exec(p)
    }
}

} // verus!
