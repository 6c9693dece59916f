//! What survives a trip from Notion rich text to Pandoc inlines and back.
use crate::n2p::notion_text::{
    flush_word, law_text_to_inline_keeps_text, spec_convert_single, spec_inlines_to_string,
    spec_text_to_inline, split_state, tabs_as_spaces,
};
use crate::n2p::notion_heading::spec_heading_from_notion;
use crate::n2p::notion_text::spec_convert_rich_texts;
use crate::notion_api::{
    color_name, default_annotations, Annotations, SBlockType, SHeadingsValue, SRichText, TextColor,
};
use crate::p2n::pandoc_heading::spec_heading_from_header;
use crate::p2n::pandoc_paragraph::color_from_name;
use crate::pandoc::SBlock;
use crate::strings::lowercase;
use crate::p2n::pandoc_text::{
    text_contents, commit, fresh, spec_convert_element, spec_convert_elements, spec_convert_inlines,
    STextBuilder,
};
use crate::pandoc::{SAttr, SInline};
use crate::n2p::notion_heading::spec_convert_heading;
use crate::n2p::notion_text::color_class;
use crate::p2n::pandoc_text::{finish, span_annotations, text_object, background_named, color_named, color_of_part, spec_parse_color};
use vstd::prelude::*;

verus! {


/// Whether every object is text with the given formatting and no link.
pub open spec fn all_text_with(rts: Seq<SRichText>, a: Annotations) -> bool {
    forall|i: int|
        0 <= i < rts.len() ==> ((#[trigger] rts[i]) matches SRichText::Text { annotations, link, .. }
            && annotations == Some(a) && link is None)
}

/// Whether the inlines are only words, spaces and line breaks.
pub open spec fn words_only(els: Seq<SInline>) -> bool {
    forall|i: int|
        0 <= i < els.len() ==> (#[trigger] els[i]) is Str || els[i] is Space || els[i] is LineBreak
}

proof fn lemma_split_state_words_only(s: Seq<char>)
    ensures
        words_only(split_state(s).0),
    decreases s.len(),
{
    if s.len() > 0 {
        lemma_split_state_words_only(s.drop_last());
        let prev = split_state(s.drop_last());
        let flushed = flush_word(prev.0, prev.1);
        assert(words_only(flushed));
    }
}

proof fn lemma_text_contents_push(rts: Seq<SRichText>, x: SRichText)
    ensures
        text_contents(rts.push(x)) == text_contents(rts) + match x {
            SRichText::Text { content, .. } => content,
            _ => Seq::empty(),
        },
{
    assert(rts.push(x).drop_last() =~= rts);
}

proof fn lemma_commit_keeps(b: STextBuilder)
    requires
        b.link is None,
        all_text_with(b.rich_texts, b.annotations),
    ensures
        text_contents(commit(b).rich_texts) == text_contents(b.rich_texts) + commit_gap(b),
        all_text_with(commit(b).rich_texts, b.annotations),
        commit(b).annotations == b.annotations,
        commit(b).link is None,
{
    if b.current.len() > 0 {
        let x = SRichText::Text {
            content: b.current,
            link: b.link,
            annotations: Some(b.annotations),
            plain_text: Some(b.current),
            href: b.link,
        };
        lemma_text_contents_push(b.rich_texts, x);
    } else {
        assert(b.current =~= Seq::empty());
        assert(text_contents(b.rich_texts) + b.current =~= text_contents(b.rich_texts));
    }
}

/// The text that committing moves from the gathered text into the objects.
pub open spec fn commit_gap(b: STextBuilder) -> Seq<char> {
    b.current
}

/// Converting words, spaces and line breaks keeps the formatting, adds no
/// link, and the objects and gathered text hold the text the inlines show.
proof fn lemma_convert_words(els: Seq<SInline>, b: STextBuilder)
    requires
        words_only(els),
        b.link is None,
        all_text_with(b.rich_texts, b.annotations),
    ensures
        (spec_convert_elements(els, b) matches Ok(r) && r.annotations == b.annotations
            && r.link is None && all_text_with(r.rich_texts, b.annotations) && text_contents(
            r.rich_texts,
        ) + r.current == text_contents(b.rich_texts) + b.current + spec_inlines_to_string(els)),
    decreases els.len(),
{
    if els.len() == 0 {
        assert(spec_inlines_to_string(els) =~= Seq::empty());
        assert(text_contents(b.rich_texts) + b.current + Seq::<char>::empty() =~= text_contents(b.rich_texts)
            + b.current);
    } else {
        let init = els.drop_last();
        assert(words_only(init)) by {
            assert forall|i: int| 0 <= i < init.len() implies (#[trigger] init[i]) is Str || init[i] is Space
                || init[i] is LineBreak by {
                assert(init[i] == els[i]);
            }
        }
        lemma_convert_words(init, b);
        let r = spec_convert_elements(init, b)->Ok_0;
        let x = els.last();
        assert(spec_convert_elements(els, b) == spec_convert_element(x, r));
        assert(x == els[els.len() - 1]);
        assert(spec_inlines_to_string(els) == spec_inlines_to_string(init) + crate::n2p::notion_text::inline_text(x));
        match x {
            SInline::Str(t) => {
                assert(crate::n2p::notion_text::inline_text(x) == t);
                assert(text_contents(r.rich_texts) + r.current == text_contents(b.rich_texts) + b.current
                    + spec_inlines_to_string(init));
                let p = text_contents(r.rich_texts) + r.current;
                let q = text_contents(b.rich_texts) + b.current;
                assert(text_contents(r.rich_texts) + (r.current + t) =~= p + t);
                assert(q + (spec_inlines_to_string(init) + t) =~= q + spec_inlines_to_string(init) + t);
            },
            SInline::Space => {
                reveal_strlit(" ");
                assert(crate::n2p::notion_text::inline_text(x) == " "@);
                let p = text_contents(r.rich_texts) + r.current;
                let q = text_contents(b.rich_texts) + b.current;
                assert(text_contents(r.rich_texts) + (r.current + " "@) =~= p + " "@);
                assert(q + (spec_inlines_to_string(init) + " "@) =~= q + spec_inlines_to_string(init) + " "@);
            },
            SInline::LineBreak => {
                reveal_strlit("\n");
                assert(crate::n2p::notion_text::inline_text(x) == "\n"@);
                lemma_commit_keeps(r);
                let c = commit(r);
                assert(text_contents(c.rich_texts) + "\n"@ =~= text_contents(b.rich_texts) + b.current
                    + spec_inlines_to_string(els));
            },
            _ => {
                assert(false);
            },
        }
    }
}

/// Plain text survives a trip from Notion to Pandoc and back: converting
/// the inlines that a text makes back into Notion rich text succeeds, gives
/// text objects with no formatting and no link, and these hold the starting
/// text with each tab turned into a space.
pub proof fn law_plain_text_round_trip(t: Seq<char>)
    ensures
        (spec_convert_inlines(spec_text_to_inline(t)) matches Ok(rts) && all_text_with(
            rts,
            default_annotations(),
        ) && text_contents(rts) == tabs_as_spaces(t)),
{
    let els = spec_text_to_inline(t);
    lemma_split_state_words_only(t);
    let st = split_state(t);
    assert(words_only(els)) by {
        if st.1.len() > 0 {
            assert forall|i: int| 0 <= i < els.len() implies (#[trigger] els[i]) is Str || els[i] is Space
                || els[i] is LineBreak by {
                if i < st.0.len() {
                    assert(els[i] == st.0[i]);
                }
            }
        }
    }
    let b0 = fresh(default_annotations(), None);
    assert(text_contents(b0.rich_texts) =~= Seq::empty());
    lemma_convert_words(els, b0);
    let r = spec_convert_elements(els, b0)->Ok_0;
    lemma_commit_keeps(r);
    law_text_to_inline_keeps_text(t);
    assert(Seq::<char>::empty() + Seq::<char>::empty() + spec_inlines_to_string(els) =~= spec_inlines_to_string(
        els,
    ));
}

/// A Notion text object with no formatting and no link comes back from
/// Pandoc as text objects holding its plain text, tabs turned into spaces.
pub proof fn law_plain_rich_text_round_trip(content: Seq<char>, plain: Seq<char>)
    ensures
        (spec_convert_inlines(
            spec_convert_single(
                SRichText::Text {
                    content,
                    link: None,
                    annotations: None,
                    plain_text: Some(plain),
                    href: None,
                },
            ),
        ) matches Ok(rts) && all_text_with(rts, default_annotations()) && text_contents(rts)
            == tabs_as_spaces(plain)),
{
    law_plain_text_round_trip(plain);
}

/// The level of a heading kind; 0 for other kinds.
pub open spec fn heading_level(t: SBlockType) -> int {
    match t {
        SBlockType::Heading1(_) => 1,
        SBlockType::Heading2(_) => 2,
        SBlockType::Heading3(_) => 3,
        _ => 0,
    }
}

/// The content of a heading kind.
pub open spec fn heading_content(t: SBlockType) -> SHeadingsValue
    recommends
        heading_level(t) > 0,
{
    match t {
        SBlockType::Heading1(h) => h,
        SBlockType::Heading2(h) => h,
        SBlockType::Heading3(h) => h,
        _ => arbitrary(),
    }
}

/// A plain text object holding `plain`.
pub open spec fn plain_object(content: Seq<char>, plain: Seq<char>) -> SRichText {
    SRichText::Text { content, link: None, annotations: None, plain_text: Some(plain), href: None }
}

/// A Notion heading of plain text, read into a Pandoc header and converted
/// back, is a heading of the same level; toggleable when it was; in the
/// color that the header's color name is read as (none when it had none);
/// and holding its text, in text objects with no formatting, tabs turned
/// into spaces.
pub proof fn law_heading_round_trip(
    level: i32,
    content: Seq<char>,
    plain: Seq<char>,
    color: Option<TextColor>,
    is_toggleable: Option<bool>,
)
    requires
        1 <= level <= 3,
    ensures
        spec_heading_from_notion(
            SHeadingsValue { rich_text: seq![plain_object(content, plain)], color, is_toggleable },
            level,
        ) matches SBlock::Header(l, a, inl) && (spec_heading_from_header(l, a.classes, a.attributes, inl, None)
            matches Ok(b) && heading_level(b.block_type) == level && heading_content(b.block_type).is_toggleable
            == (if is_toggleable == Some(true) {
            Some(true)
        } else {
            None
        }) && heading_content(b.block_type).color == (match color {
            Some(c) => Some(color_from_name(lowercase(color_name(c)))),
            None => None,
        }) && all_text_with(heading_content(b.block_type).rich_text, default_annotations()) && text_contents(
            heading_content(b.block_type).rich_text,
        ) == tabs_as_spaces(plain)),
{
    let obj = plain_object(content, plain);
    assert(seq![obj].drop_last() =~= Seq::<SRichText>::empty());
    assert(seq![obj].last() == obj);
    assert(spec_convert_rich_texts(Seq::<SRichText>::empty()) == Seq::<SInline>::empty());
    assert(spec_convert_single(obj) == crate::n2p::notion_text::spec_apply_annotations(
        spec_text_to_inline(plain),
        default_annotations(),
    ));
    assert(crate::n2p::notion_text::spec_apply_annotations(spec_text_to_inline(plain), default_annotations())
        == spec_text_to_inline(plain));
    assert(spec_convert_rich_texts(seq![obj]) =~= Seq::<SInline>::empty() + spec_convert_single(obj));
    assert(spec_convert_rich_texts(seq![obj]) =~= spec_text_to_inline(plain));
    law_plain_text_round_trip(plain);
    reveal_strlit("toggleable");
    if is_toggleable == Some(true) {
        assert(seq!["toggleable"@][0] == "toggleable"@);
    }
    assert((level as u8) == level);
}

proof fn lemma_class_parses(part: Seq<char>, c: TextColor)
    requires
        color_of_part(part) == Some(c),
    ensures
        spec_parse_color(seq!["color-"@ + part]) == Some(c),
{
    reveal_strlit("color-");
    let cls = "color-"@ + part;
    assert(cls.take(6) =~= "color-"@);
    assert(cls.skip(6) =~= part);
    assert(seq![cls][0] == cls);
}

proof fn lemma_text_part(name: Seq<char>, c: TextColor)
    requires
        color_named(name) == Some(c),
        name.len() < 11,
    ensures
        color_of_part(name) == Some(c),
{
    reveal_strlit("-background");
}

proof fn lemma_background_part(name: Seq<char>, c: TextColor)
    requires
        background_named(name) == Some(c),
    ensures
        color_of_part(name + "-background"@) == Some(c),
{
    reveal_strlit("-background");
    let p = name + "-background"@;
    assert(p.skip(p.len() - 11) =~= "-background"@);
    assert(p.take(p.len() - 11) =~= name);
}

/// The class that names a color on Notion text reads back, on the way from
/// Pandoc to Notion, as that same color: colors are not mixed up by the
/// trip.  (The default color has no class.)
pub proof fn law_color_class_round_trip(c: TextColor)
    requires
        c != TextColor::Default,
    ensures
        spec_parse_color(seq![color_class(c)]) == Some(c),
{
    reveal_strlit("color-");
    reveal_strlit("-background");
    reveal_strlit("red");
    reveal_strlit("blue");
    reveal_strlit("green");
    reveal_strlit("yellow");
    reveal_strlit("orange");
    reveal_strlit("pink");
    reveal_strlit("purple");
    reveal_strlit("brown");
    reveal_strlit("gray");
    assert("red"@[0] == 'r' && "blue"@[0] == 'b' && "green"@[0] == 'g' && "yellow"@[0] == 'y');
    assert("orange"@[0] == 'o' && "pink"@[0] == 'p' && "purple"@[0] == 'p' && "brown"@[0] == 'b');
    assert("gray"@[0] == 'g');
    match c {
        TextColor::Gray => {
            reveal_strlit("color-gray");
            assert(color_class(c) =~= "color-"@ + "gray"@);
            lemma_text_part("gray"@, c);
            lemma_class_parses("gray"@, c);
        },
        TextColor::Brown => {
            reveal_strlit("color-brown");
            assert(color_class(c) =~= "color-"@ + "brown"@);
            lemma_text_part("brown"@, c);
            lemma_class_parses("brown"@, c);
        },
        TextColor::Orange => {
            reveal_strlit("color-orange");
            assert(color_class(c) =~= "color-"@ + "orange"@);
            lemma_text_part("orange"@, c);
            lemma_class_parses("orange"@, c);
        },
        TextColor::Yellow => {
            reveal_strlit("color-yellow");
            assert(color_class(c) =~= "color-"@ + "yellow"@);
            lemma_text_part("yellow"@, c);
            lemma_class_parses("yellow"@, c);
        },
        TextColor::Green => {
            reveal_strlit("color-green");
            assert(color_class(c) =~= "color-"@ + "green"@);
            lemma_text_part("green"@, c);
            lemma_class_parses("green"@, c);
        },
        TextColor::Blue => {
            reveal_strlit("color-blue");
            assert(color_class(c) =~= "color-"@ + "blue"@);
            lemma_text_part("blue"@, c);
            lemma_class_parses("blue"@, c);
        },
        TextColor::Purple => {
            reveal_strlit("color-purple");
            assert(color_class(c) =~= "color-"@ + "purple"@);
            lemma_text_part("purple"@, c);
            lemma_class_parses("purple"@, c);
        },
        TextColor::Pink => {
            reveal_strlit("color-pink");
            assert(color_class(c) =~= "color-"@ + "pink"@);
            lemma_text_part("pink"@, c);
            lemma_class_parses("pink"@, c);
        },
        TextColor::Red => {
            reveal_strlit("color-red");
            assert(color_class(c) =~= "color-"@ + "red"@);
            lemma_text_part("red"@, c);
            lemma_class_parses("red"@, c);
        },
        TextColor::GrayBackground => {
            reveal_strlit("color-gray-background");
            assert(color_class(c) =~= "color-"@ + ("gray"@ + "-background"@));
            lemma_background_part("gray"@, c);
            lemma_class_parses("gray"@ + "-background"@, c);
        },
        TextColor::BrownBackground => {
            reveal_strlit("color-brown-background");
            assert(color_class(c) =~= "color-"@ + ("brown"@ + "-background"@));
            lemma_background_part("brown"@, c);
            lemma_class_parses("brown"@ + "-background"@, c);
        },
        TextColor::OrangeBackground => {
            reveal_strlit("color-orange-background");
            assert(color_class(c) =~= "color-"@ + ("orange"@ + "-background"@));
            lemma_background_part("orange"@, c);
            lemma_class_parses("orange"@ + "-background"@, c);
        },
        TextColor::YellowBackground => {
            reveal_strlit("color-yellow-background");
            assert(color_class(c) =~= "color-"@ + ("yellow"@ + "-background"@));
            lemma_background_part("yellow"@, c);
            lemma_class_parses("yellow"@ + "-background"@, c);
        },
        TextColor::GreenBackground => {
            reveal_strlit("color-green-background");
            assert(color_class(c) =~= "color-"@ + ("green"@ + "-background"@));
            lemma_background_part("green"@, c);
            lemma_class_parses("green"@ + "-background"@, c);
        },
        TextColor::BlueBackground => {
            reveal_strlit("color-blue-background");
            assert(color_class(c) =~= "color-"@ + ("blue"@ + "-background"@));
            lemma_background_part("blue"@, c);
            lemma_class_parses("blue"@ + "-background"@, c);
        },
        TextColor::PurpleBackground => {
            reveal_strlit("color-purple-background");
            assert(color_class(c) =~= "color-"@ + ("purple"@ + "-background"@));
            lemma_background_part("purple"@, c);
            lemma_class_parses("purple"@ + "-background"@, c);
        },
        TextColor::PinkBackground => {
            reveal_strlit("color-pink-background");
            assert(color_class(c) =~= "color-"@ + ("pink"@ + "-background"@));
            lemma_background_part("pink"@, c);
            lemma_class_parses("pink"@ + "-background"@, c);
        },
        TextColor::RedBackground => {
            reveal_strlit("color-red-background");
            assert(color_class(c) =~= "color-"@ + ("red"@ + "-background"@));
            lemma_background_part("red"@, c);
            lemma_class_parses("red"@ + "-background"@, c);
        },
        TextColor::Default => {},
    }
}

/// A Notion heading of level 1, 2 or 3 becomes a Pandoc header of the same
/// level holding the heading's converted text.
pub proof fn law_heading_level_kept(t: SBlockType)
    requires
        heading_level(t) > 0,
    ensures
        spec_convert_heading(t) matches Some(SBlock::Header(l, _, inl)) && l == heading_level(t) && inl
            == spec_convert_rich_texts(heading_content(t).rich_text),
{
}

/// A span with the class `underline` underlines its content: the
/// formatting of its content is the surrounding one with underline added
/// (and the span's color, if it names one).
pub proof fn law_underline_class(ann: Annotations, classes: Seq<Seq<char>>)
    requires
        classes.contains("underline"@),
    ensures
        span_annotations(ann, classes).underline,
        span_annotations(ann, classes).bold == ann.bold,
        span_annotations(ann, classes).italic == ann.italic,
        span_annotations(ann, classes).strikethrough == ann.strikethrough,
        span_annotations(ann, classes).code == ann.code,
{
}

/// Words, spaces and line breaks in a span with the class `underline`
/// become text objects that are all underlined and hold the span's text.
pub proof fn law_underlined_span_text(a: SAttr, cs: Seq<SInline>)
    requires
        a.classes.contains("underline"@),
        words_only(cs),
    ensures
        spec_convert_inlines(seq![SInline::Span(a, cs)]) matches Ok(rts) && text_contents(rts)
            == spec_inlines_to_string(cs) && forall|i: int|
            0 <= i < rts.len() ==> ((#[trigger] rts[i]) matches SRichText::Text { annotations: Some(x), .. }
                && x.underline),
{
    let b0 = fresh(default_annotations(), None);
    let sa = span_annotations(default_annotations(), a.classes);
    let f = fresh(sa, None);
    let e = SInline::Span(a, cs);
    assert(seq![e].drop_last() =~= Seq::<SInline>::empty());
    assert(seq![e].last() == e);
    assert(spec_convert_elements(seq![e].drop_last(), b0) == Ok::<STextBuilder, Seq<char>>(b0));
    assert(spec_convert_elements(seq![e], b0) == spec_convert_element(e, b0));
    lemma_convert_words(cs, f);
    let n = spec_convert_elements(cs, f)->Ok_0;
    let c = commit(b0);
    assert(c == b0);
    let r = STextBuilder { rich_texts: c.rich_texts + finish(n), ..c };
    assert(spec_convert_element(e, b0) == Ok::<STextBuilder, Seq<char>>(r));
    assert(finish(r) == r.rich_texts);
    assert(c.rich_texts + finish(n) =~= finish(n));
    assert(all_text_with(finish(n), sa)) by {
        if n.current.len() > 0 {
            let fr = n.rich_texts.push(text_object(n.current, n.annotations, n.link));
            assert forall|i: int| 0 <= i < fr.len() implies ((#[trigger] fr[i]) matches SRichText::Text {
                annotations,
                link,
                ..
            } && annotations == Some(sa) && link is None) by {
                if i < n.rich_texts.len() {
                    assert(fr[i] == n.rich_texts[i]);
                }
            }
        }
    }
    assert(text_contents(finish(n)) == spec_inlines_to_string(cs)) by {
        assert(text_contents(f.rich_texts) == Seq::<char>::empty());
        if n.current.len() > 0 {
            let fr = n.rich_texts.push(text_object(n.current, n.annotations, n.link));
            assert(fr.drop_last() =~= n.rich_texts);
        } else {
            assert(n.current =~= Seq::<char>::empty());
        }
        assert(text_contents(f.rich_texts) + f.current + spec_inlines_to_string(cs) =~= spec_inlines_to_string(cs));
        assert(text_contents(n.rich_texts) + n.current =~= text_contents(finish(n)));
    }
    assert(sa.underline);
}

} // verus!
