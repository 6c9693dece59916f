//! Conversion of Notion rich text into Pandoc inlines.
use crate::notion_api::{
    default_annotations, rich_texts_view, Annotations, RichText, SRichText, TextColor,
};
use crate::pandoc::{
    empty_attr, group_pandoc_view, inlines_view, lemma_inlines_view_add, Attr, Inline, MathType,
    SAttr, SInline, STarget, Target,
};
use crate::strings::{chars_of, push_char, push_str, string_from_chars, string_of};
use vstd::prelude::*;

verus! {

broadcast use {vstd::std_specs::vec::group_vec_axioms, group_pandoc_view};

/// Appends the pending word, if any, to the inlines.
pub open spec fn flush_word(acc: Seq<SInline>, word: Seq<char>) -> Seq<SInline> {
    if word.len() == 0 {
        acc
    } else {
        acc.push(SInline::Str(word))
    }
}

/// One step of splitting text into inlines: the inlines so far and the
/// pending word, after reading `c`.
pub open spec fn split_step(st: (Seq<SInline>, Seq<char>), c: char) -> (Seq<SInline>, Seq<char>) {
    if c == ' ' || c == '\t' {
        (flush_word(st.0, st.1).push(SInline::Space), Seq::empty())
    } else if c == '\n' {
        (flush_word(st.0, st.1).push(SInline::LineBreak), Seq::empty())
    } else {
        (st.0, st.1.push(c))
    }
}

/// The inlines and pending word after reading all of `s`.
pub open spec fn split_state(s: Seq<char>) -> (Seq<SInline>, Seq<char>)
    decreases s.len(),
{
    if s.len() == 0 {
        (Seq::empty(), Seq::empty())
    } else {
        split_step(split_state(s.drop_last()), s.last())
    }
}

/// Text as Pandoc inlines: each run of characters other than space, tab and
/// newline is a `Str`; each space or tab is a `Space`; each newline is a
/// `LineBreak`.
pub open spec fn spec_text_to_inline(s: Seq<char>) -> Seq<SInline> {
    flush_word(split_state(s).0, split_state(s).1)
}

/// The text that an inline shows, as used for inline code.
pub open spec fn inline_text(x: SInline) -> Seq<char>
    decreases x,
{
    match x {
        SInline::Str(s) => s,
        SInline::Space => seq![' '],
        SInline::SoftBreak => seq!['\n'],
        SInline::LineBreak => seq!['\n'],
        SInline::Emph(c) => spec_inlines_to_string(c),
        SInline::Strong(c) => spec_inlines_to_string(c),
        SInline::Strikeout(c) => spec_inlines_to_string(c),
        SInline::Span(_, c) => spec_inlines_to_string(c),
        SInline::Link(_, c, _) => spec_inlines_to_string(c),
        _ => Seq::empty(),
    }
}

/// The text that a sequence of inlines shows.
pub open spec fn spec_inlines_to_string(s: Seq<SInline>) -> Seq<char>
    decreases s,
{
    if s.len() == 0 {
        Seq::empty()
    } else {
        spec_inlines_to_string(s.drop_last()) + inline_text(s.last())
    }
}

/// The class naming a text color (`color-red`, `color-blue-background`, ...).
pub open spec fn color_class(c: TextColor) -> Seq<char> {
    match c {
        TextColor::Default => Seq::empty(),
        TextColor::Gray => "color-gray"@,
        TextColor::Brown => "color-brown"@,
        TextColor::Orange => "color-orange"@,
        TextColor::Yellow => "color-yellow"@,
        TextColor::Green => "color-green"@,
        TextColor::Blue => "color-blue"@,
        TextColor::Purple => "color-purple"@,
        TextColor::Pink => "color-pink"@,
        TextColor::Red => "color-red"@,
        TextColor::GrayBackground => "color-gray-background"@,
        TextColor::BrownBackground => "color-brown-background"@,
        TextColor::OrangeBackground => "color-orange-background"@,
        TextColor::YellowBackground => "color-yellow-background"@,
        TextColor::GreenBackground => "color-green-background"@,
        TextColor::BlueBackground => "color-blue-background"@,
        TextColor::PurpleBackground => "color-purple-background"@,
        TextColor::PinkBackground => "color-pink-background"@,
        TextColor::RedBackground => "color-red-background"@,
    }
}

/// An attribute with a single class.
pub open spec fn class_attr(c: Seq<char>) -> SAttr {
    SAttr { classes: seq![c], ..empty_attr() }
}

/// Formatting applied from the inside out: underline (a `Span` with class
/// `underline`), strikethrough, italic, bold, then code (which replaces the
/// content by its text), then a non-default color (a `Span` with the color's
/// class) outermost.
pub open spec fn spec_apply_annotations(inl: Seq<SInline>, a: Annotations) -> Seq<SInline> {
    let r1 = if a.underline {
        seq![SInline::Span(class_attr("underline"@), inl)]
    } else {
        inl
    };
    let r2 = if a.strikethrough {
        seq![SInline::Strikeout(r1)]
    } else {
        r1
    };
    let r3 = if a.italic {
        seq![SInline::Emph(r2)]
    } else {
        r2
    };
    let r4 = if a.bold {
        seq![SInline::Strong(r3)]
    } else {
        r3
    };
    let r5 = if a.code {
        seq![SInline::Code(empty_attr(), spec_inlines_to_string(r4))]
    } else {
        r4
    };
    if a.color != TextColor::Default {
        seq![SInline::Span(class_attr(color_class(a.color)), r5)]
    } else {
        r5
    }
}

/// Inlines wrapped in a link to `url` with an empty title.
pub open spec fn link_to(inl: Seq<SInline>, url: Seq<char>) -> Seq<SInline> {
    seq![SInline::Link(empty_attr(), inl, STarget { url, title: Seq::empty() })]
}

/// One rich-text object as Pandoc inlines.  Text and mentions show their
/// plain text (`Str`, `Space`, `LineBreak`), linked to the text's link or
/// else to `href`; an equation is inline math; then the annotations apply.
pub open spec fn spec_convert_single(r: SRichText) -> Seq<SInline> {
    match r {
        SRichText::Empty => Seq::empty(),
        SRichText::Text { link, annotations, plain_text, href, .. } => {
            let base = spec_text_to_inline(
                match plain_text {
                    Some(p) => p,
                    None => Seq::empty(),
                },
            );
            let content = match link {
                Some(url) => link_to(base, url),
                None => match href {
                    Some(url) => link_to(base, url),
                    None => base,
                },
            };
            spec_apply_annotations(
                content,
                match annotations {
                    Some(a) => a,
                    None => default_annotations(),
                },
            )
        },
        SRichText::Equation { expression, annotations, .. } => spec_apply_annotations(
            seq![SInline::Math(MathType::InlineMath, expression)],
            annotations,
        ),
        SRichText::Mention { annotations, plain_text, href } => {
            let base = spec_text_to_inline(plain_text);
            let content = match href {
                Some(url) => link_to(base, url),
                None => base,
            };
            spec_apply_annotations(content, annotations)
        },
    }
}

/// A sequence of rich-text objects as the concatenation of their inlines.
pub open spec fn spec_convert_rich_texts(s: Seq<SRichText>) -> Seq<SInline>
    decreases s.len(),
{
    if s.len() == 0 {
        Seq::empty()
    } else {
        spec_convert_rich_texts(s.drop_last()) + spec_convert_single(s.last())
    }
}

/// Text with each tab shown as a space.
pub open spec fn tabs_as_spaces(s: Seq<char>) -> Seq<char> {
    s.map_values(|c: char| if c == '\t' { ' ' } else { c })
}

/// The text shown by inlines followed by one more.
proof fn lemma_inlines_to_string_push(a: Seq<SInline>, x: SInline)
    ensures
        spec_inlines_to_string(a.push(x)) == spec_inlines_to_string(a) + inline_text(x),
{
    assert(a.push(x).drop_last() =~= a);
}

/// The shown text of the inlines so far, followed by the pending word, is
/// the text read so far with tabs shown as spaces.
proof fn lemma_split_state_text(s: Seq<char>)
    ensures
        spec_inlines_to_string(split_state(s).0) + split_state(s).1 == tabs_as_spaces(s),
    decreases s.len(),
{
    if s.len() > 0 {
        let prev = split_state(s.drop_last());
        lemma_split_state_text(s.drop_last());
        let c = s.last();
        assert(tabs_as_spaces(s) =~= tabs_as_spaces(s.drop_last()).push(
            if c == '\t' {
                ' '
            } else {
                c
            },
        ));
        if prev.1.len() > 0 {
            lemma_inlines_to_string_push(prev.0, SInline::Str(prev.1));
        }
        let flushed = flush_word(prev.0, prev.1);
        assert(spec_inlines_to_string(flushed) == spec_inlines_to_string(prev.0) + prev.1);
        if c == ' ' || c == '\t' {
            lemma_inlines_to_string_push(flushed, SInline::Space);
        } else if c == '\n' {
            lemma_inlines_to_string_push(flushed, SInline::LineBreak);
        }
    }
}

/// Splitting text into inlines loses nothing but the difference between a
/// tab and a space: the text that the inlines show is the text they came from
/// with tabs shown as spaces.
pub proof fn law_text_to_inline_keeps_text(s: Seq<char>)
    ensures
        spec_inlines_to_string(spec_text_to_inline(s)) == tabs_as_spaces(s),
{
    lemma_split_state_text(s);
    let st = split_state(s);
    if st.1.len() > 0 {
        lemma_inlines_to_string_push(st.0, SInline::Str(st.1));
    }
}

/// Converts Notion rich text into Pandoc inlines.
pub struct NotionTextConverter;

impl NotionTextConverter {
    /// Rich-text objects as Pandoc inlines, one after the other.
    pub fn convert(rich_texts: &[RichText]) -> (r: Vec<Inline>)
        ensures
            inlines_view(r@) == spec_convert_rich_texts(rich_texts_view(rich_texts@)),
    {
        let mut result: Vec<Inline> = Vec::new();
        let n = rich_texts.len();
        for i in 0..n
            invariant
                n == rich_texts@.len(),
                inlines_view(result@) == spec_convert_rich_texts(
                    rich_texts_view(rich_texts@.take(i as int)),
                ),
        {
            let mut part = Self::convert_single_rich_text(&rich_texts[i]);
            let ghost before = result@;
            let ghost added = part@;
            result.append(&mut part);
            proof {
                lemma_inlines_view_add(before, added);
                let s = rich_texts_view(rich_texts@.take(i + 1));
                assert(s.drop_last() =~= rich_texts_view(rich_texts@.take(i as int)));
                assert(s.last() == rich_texts@[i as int]@);
            }
        }
        assert(rich_texts@.take(n as int) =~= rich_texts@);
        result
    }

    /// One rich-text object as Pandoc inlines.
    pub fn convert_single_rich_text(rich_text: &RichText) -> (r: Vec<Inline>)
        ensures
            inlines_view(r@) == spec_convert_single(rich_text@),
    {
        match rich_text {
            RichText::Empty => Vec::new(),
            RichText::Text { text, annotations, plain_text, href } => {
                let base = match plain_text {
                    Some(p) => Self::text_to_inline(p.as_str()),
                    None => Self::text_to_inline(""),
                };
                proof {
                    reveal_strlit("");
                }
                let content = match &text.link {
                    Some(link) => Self::link_to(base, &link.url),
                    None => match href {
                        Some(url) => Self::link_to(base, url),
                        None => base,
                    },
                };
                let a = match annotations {
                    Some(a) => *a,
                    None => Annotations::plain(),
                };
                Self::apply_annotations(content, &a)
            },
            RichText::Equation { equation, annotations, .. } => {
                let mut v = Vec::new();
                v.push(Inline::Math(MathType::InlineMath, equation.expression.clone()));
                proof {
                    assert(inlines_view(v@) =~= seq![
                        SInline::Math(MathType::InlineMath, equation.expression@),
                    ]);
                }
                Self::apply_annotations(v, annotations)
            },
            RichText::Mention { annotations, plain_text, href } => {
                let base = Self::text_to_inline(plain_text.as_str());
                let content = match href {
                    Some(url) => Self::link_to(base, url),
                    None => base,
                };
                Self::apply_annotations(content, annotations)
            },
        }
    }

    /// Inlines wrapped in a link to `url`.
    fn link_to(inl: Vec<Inline>, url: &String) -> (r: Vec<Inline>)
        ensures
            inlines_view(r@) == link_to(inlines_view(inl@), url@),
    {
        let attr = Attr::new();
        let target = Target { url: url.clone(), title: String::new() };
        let ghost iv = inlines_view(inl@);
        let mut v = Vec::new();
        v.push(Inline::Link(attr, inl, target));
        proof {
            assert(inlines_view(v@) =~= link_to(iv, url@));
        }
        v
    }

    /// Text as inlines: runs of other characters become `Str`, each space or
    /// tab a `Space`, each newline a `LineBreak`.
    pub fn text_to_inline(text: &str) -> (r: Vec<Inline>)
        ensures
            inlines_view(r@) == spec_text_to_inline(text@),
    {
        let chars = chars_of(text);
        let mut result: Vec<Inline> = Vec::new();
        let mut word: Vec<char> = Vec::new();
        let n = chars.len();
        for i in 0..n
            invariant
                n == chars@.len(),
                chars@ == text@,
                (inlines_view(result@), word@) == split_state(chars@.take(i as int)),
        {
            let c = chars[i];
            proof {
                assert(chars@.take(i + 1).drop_last() =~= chars@.take(i as int));
            }
            if c == ' ' || c == '\t' {
                if word.len() > 0 {
                    result.push(Inline::Str(string_from_chars(&word)));
                    word.clear();
                }
                result.push(Inline::Space);
            } else if c == '\n' {
                if word.len() > 0 {
                    result.push(Inline::Str(string_from_chars(&word)));
                    word.clear();
                }
                result.push(Inline::LineBreak);
            } else {
                word.push(c);
            }
            proof {
                assert(inlines_view(result@) =~= split_state(chars@.take(i + 1)).0);
                assert(word@ =~= split_state(chars@.take(i + 1)).1);
            }
        }
        if word.len() > 0 {
            result.push(Inline::Str(string_from_chars(&word)));
        }
        proof {
            assert(chars@.take(n as int) =~= text@);
        }
        result
    }

    /// Applies the annotations, from the inside out: underline, strikethrough,
    /// italic, bold, code, then color outermost.
    pub fn apply_annotations(inlines: Vec<Inline>, annotations: &Annotations) -> (r: Vec<Inline>)
        ensures
            inlines_view(r@) == spec_apply_annotations(inlines_view(inlines@), *annotations),
    {
        let ghost v0 = inlines_view(inlines@);
        let mut result = inlines;
        if annotations.underline {
            let mut v = Vec::new();
            v.push(Inline::Span(Attr::with_class(string_of("underline")), result));
            result = v;
        }
        let ghost v1 = inlines_view(result@);
        assert(v1 =~= (if annotations.underline {
            seq![SInline::Span(class_attr("underline"@), v0)]
        } else {
            v0
        }));
        if annotations.strikethrough {
            let mut v = Vec::new();
            v.push(Inline::Strikeout(result));
            result = v;
        }
        let ghost v2 = inlines_view(result@);
        assert(v2 =~= (if annotations.strikethrough {
            seq![SInline::Strikeout(v1)]
        } else {
            v1
        }));
        if annotations.italic {
            let mut v = Vec::new();
            v.push(Inline::Emph(result));
            result = v;
        }
        let ghost v3 = inlines_view(result@);
        assert(v3 =~= (if annotations.italic {
            seq![SInline::Emph(v2)]
        } else {
            v2
        }));
        if annotations.bold {
            let mut v = Vec::new();
            v.push(Inline::Strong(result));
            result = v;
        }
        let ghost v4 = inlines_view(result@);
        assert(v4 =~= (if annotations.bold {
            seq![SInline::Strong(v3)]
        } else {
            v3
        }));
        if annotations.code {
            let code_text = Self::inlines_to_string(&result);
            let mut v = Vec::new();
            v.push(Inline::Code(Attr::new(), code_text));
            result = v;
        }
        let ghost v5 = inlines_view(result@);
        assert(v5 =~= (if annotations.code {
            seq![SInline::Code(empty_attr(), spec_inlines_to_string(v4))]
        } else {
            v4
        }));
        if annotations.color != TextColor::Default {
            let class = string_of(Self::color_class_name(annotations.color));
            let mut v = Vec::new();
            v.push(Inline::Span(Attr::with_class(class), result));
            result = v;
        }
        assert(inlines_view(result@) =~= (if annotations.color != TextColor::Default {
            seq![SInline::Span(class_attr(color_class(annotations.color)), v5)]
        } else {
            v5
        }));
        result
    }

    /// The class naming a text color.
    pub fn color_class_name(c: TextColor) -> (r: &'static str)
        ensures
            r@ == color_class(c),
    {
        match c {
            TextColor::Default => {
                proof {
                    reveal_strlit("");
                }
                ""
            },
            TextColor::Gray => "color-gray",
            TextColor::Brown => "color-brown",
            TextColor::Orange => "color-orange",
            TextColor::Yellow => "color-yellow",
            TextColor::Green => "color-green",
            TextColor::Blue => "color-blue",
            TextColor::Purple => "color-purple",
            TextColor::Pink => "color-pink",
            TextColor::Red => "color-red",
            TextColor::GrayBackground => "color-gray-background",
            TextColor::BrownBackground => "color-brown-background",
            TextColor::OrangeBackground => "color-orange-background",
            TextColor::YellowBackground => "color-yellow-background",
            TextColor::GreenBackground => "color-green-background",
            TextColor::BlueBackground => "color-blue-background",
            TextColor::PurpleBackground => "color-purple-background",
            TextColor::PinkBackground => "color-pink-background",
            TextColor::RedBackground => "color-red-background",
        }
    }

    /// The text that inlines show: words as written, spaces as `' '`, breaks
    /// as newlines, formatting containers by their content, anything else
    /// as nothing.
    pub fn inlines_to_string(inlines: &Vec<Inline>) -> (r: String)
        ensures
            r@ == spec_inlines_to_string(inlines_view(inlines@)),
        decreases inlines,
    {
        let mut result = String::new();
        let n = inlines.len();
        for i in 0..n
            invariant
                n == inlines@.len(),
                result@ == spec_inlines_to_string(inlines_view(inlines@.take(i as int))),
        {
            let ghost before = result@;
            match &inlines[i] {
                Inline::Str(s) => push_str(&mut result, s.as_str()),
                Inline::Space => push_char(&mut result, ' '),
                Inline::SoftBreak => push_char(&mut result, '\n'),
                Inline::LineBreak => push_char(&mut result, '\n'),
                Inline::Emph(children) => {
                    let t = Self::inlines_to_string(children);
                    push_str(&mut result, t.as_str());
                },
                Inline::Strong(children) => {
                    let t = Self::inlines_to_string(children);
                    push_str(&mut result, t.as_str());
                },
                Inline::Strikeout(children) => {
                    let t = Self::inlines_to_string(children);
                    push_str(&mut result, t.as_str());
                },
                Inline::Span(_, children) => {
                    let t = Self::inlines_to_string(children);
                    push_str(&mut result, t.as_str());
                },
                Inline::Link(_, children, _) => {
                    let t = Self::inlines_to_string(children);
                    push_str(&mut result, t.as_str());
                },
                _ => {},
            }
            proof {
                let s = inlines_view(inlines@.take(i + 1));
                assert(inlines@.take(i + 1).drop_last() =~= inlines@.take(i as int));
                assert(inlines@.take(i + 1).last() == inlines@[i as int]);
                assert(s == inlines_view(inlines@.take(i as int)).push(inlines@[i as int]@));
                assert(s.drop_last() =~= inlines_view(inlines@.take(i as int)));
                assert(result@ =~= before + inline_text(inlines@[i as int]@));
            }
        }
        assert(inlines@.take(n as int) =~= inlines@);
        result
    }
}

} // verus!
