//! Notion blocks for tests: each helper gives a block object with the
//! identifier that names it, `has_children` as given, and not archived.
use crate::notion_api::{
    notion_blocks_view, rich_texts_view, Annotations, BlockType, BulletedListItemValue,
    HeadingsValue, NotionBlock, NumberedListItemValue, ParagraphValue, QuoteValue, RichText,
    SBlockType, SHeadingsValue, SNotionBlock, SRichText, STextValue, SToDoValue, Text, TextColor,
    ToDoValue,
};
use crate::notion_api::opt_view;
use crate::outline::{add_chars, add_str, block_type_debug, counted, debug_block_type, push_line};
use crate::pandoc::strings_view;
use crate::strings::{chars_of, decimal, push_char, push_str, string_of};
use vstd::prelude::*;

verus! {

broadcast use crate::notion_api::lemma_notion_blocks_view;

/// Plain text holding `content`.
pub open spec fn spec_rich(content: Seq<char>) -> SRichText {
    SRichText::Text { content, link: None, annotations: None, plain_text: Some(content), href: None }
}

/// Text holding `content` with the given formatting.
pub open spec fn spec_formatted(content: Seq<char>, a: Annotations) -> SRichText {
    SRichText::Text { content, link: None, annotations: Some(a), plain_text: Some(content), href: None }
}

/// A block object with the given identifier, child flag and content.
pub open spec fn spec_shell(id: Seq<char>, has_children: bool, t: SBlockType) -> SNotionBlock {
    SNotionBlock {
        object: Some("block"@),
        id: Some(id),
        parent: None,
        archived: Some(false),
        has_children: Some(has_children),
        block_type: t,
    }
}

/// The heading kind of a level from 1 to 3.
pub open spec fn heading_kind(level: u8, h: SHeadingsValue) -> SBlockType {
    if level == 1 {
        SBlockType::Heading1(h)
    } else if level == 2 {
        SBlockType::Heading2(h)
    } else {
        SBlockType::Heading3(h)
    }
}

/// The digit of a level from 1 to 3.
pub open spec fn level_digit(level: u8) -> char {
    if level == 1 {
        '1'
    } else if level == 2 {
        '2'
    } else {
        '3'
    }
}

/// `prefix`, the level's digit, then `suffix`.
pub open spec fn with_level(prefix: Seq<char>, level: u8, suffix: Seq<char>) -> Seq<char> {
    prefix.push(level_digit(level)) + suffix
}

/// Plain text holding `content`.
pub fn create_rich_text(content: &str) -> (r: RichText)
    ensures
        r@ == spec_rich(content@),
{
    RichText::Text {
        text: Text { content: string_of(content), link: None },
        annotations: None,
        plain_text: Some(string_of(content)),
        href: None,
    }
}

/// Text holding `content` with the given formatting; the default color when
/// none is given.
pub fn create_formatted_rich_text(
    content: &str,
    bold: bool,
    italic: bool,
    strikethrough: bool,
    underline: bool,
    code: bool,
    color: Option<TextColor>,
) -> (r: RichText)
    ensures
        r@ == spec_formatted(
            content@,
            Annotations {
                bold,
                italic,
                strikethrough,
                underline,
                code,
                color: match color {
                    Some(c) => c,
                    None => TextColor::Default,
                },
            },
        ),
{
    let annotations = Annotations {
        bold,
        italic,
        strikethrough,
        underline,
        code,
        color: match color {
            Some(c) => c,
            None => TextColor::Default,
        },
    };
    RichText::Text {
        text: Text { content: string_of(content), link: None },
        annotations: Some(annotations),
        plain_text: Some(string_of(content)),
        href: None,
    }
}

/// `prefix`, the level's digit, then `suffix`, as a string.
fn level_name(prefix: &str, level: u8, suffix: &str) -> (r: String)
    requires
        1 <= level <= 3,
    ensures
        r@ == with_level(prefix@, level, suffix@),
{
    let mut s = string_of(prefix);
    let digit = if level == 1 {
        '1'
    } else if level == 2 {
        '2'
    } else {
        '3'
    };
    push_char(&mut s, digit);
    push_str(&mut s, suffix);
    s
}

fn shell(id: String, has_children: bool, block_type: BlockType) -> (r: NotionBlock)
    ensures
        r@ == spec_shell(id@, has_children, crate::notion_api::block_type_view(block_type)),
{
    NotionBlock {
        object: Some(string_of("block")),
        id: Some(id),
        parent: None,
        archived: Some(false),
        has_children: Some(has_children),
        block_type,
    }
}

fn heading_type(level: u8, rich_text: Vec<RichText>, toggleable: bool) -> (r: BlockType)
    requires
        1 <= level <= 3,
    ensures
        crate::notion_api::block_type_view(r) == heading_kind(
            level,
            SHeadingsValue { rich_text: rich_texts_view(rich_text@), color: None, is_toggleable: Some(toggleable) },
        ),
{
    let value = HeadingsValue { rich_text, color: None, is_toggleable: Some(toggleable) };
    if level == 1 {
        BlockType::Heading1 { heading_1: value }
    } else if level == 2 {
        BlockType::Heading2 { heading_2: value }
    } else {
        BlockType::Heading3 { heading_3: value }
    }
}

fn one_text(content: &str) -> (r: Vec<RichText>)
    ensures
        rich_texts_view(r@) == seq![spec_rich(content@)],
{
    let mut v = Vec::new();
    v.push(create_rich_text(content));
    assert(rich_texts_view(v@) =~= seq![spec_rich(content@)]);
    v
}

/// A heading of the given level holding `content`, not toggleable, under
/// `heading_<level>_id`.
pub fn create_heading_block(level: u8, content: &str) -> (r: NotionBlock)
    requires
        1 <= level <= 3,
    ensures
        r@ == spec_shell(
            with_level("heading_"@, level, "_id"@),
            false,
            heading_kind(
                level,
                SHeadingsValue { rich_text: seq![spec_rich(content@)], color: None, is_toggleable: Some(false) },
            ),
        ),
{
    shell(level_name("heading_", level, "_id"), false, heading_type(level, one_text(content), false))
}

/// A heading of the given level holding "Formatted **bold** and *italic*
/// heading" in five pieces, under `formatted_heading_<level>_id`.
pub fn create_heading_with_formatted_text(level: u8) -> (r: NotionBlock)
    requires
        1 <= level <= 3,
    ensures
        r@ == spec_shell(
            with_level("formatted_heading_"@, level, "_id"@),
            false,
            heading_kind(
                level,
                SHeadingsValue {
                    rich_text: seq![
                        spec_rich("Formatted "@),
                        spec_formatted("bold"@, Annotations { bold: true, ..crate::notion_api::default_annotations() }),
                        spec_rich(" and "@),
                        spec_formatted("italic"@, Annotations { italic: true, ..crate::notion_api::default_annotations() }),
                        spec_rich(" heading"@),
                    ],
                    color: None,
                    is_toggleable: Some(false),
                },
            ),
        ),
{
    let mut rich_text = Vec::new();
    rich_text.push(create_rich_text("Formatted "));
    rich_text.push(create_formatted_rich_text("bold", true, false, false, false, false, None));
    rich_text.push(create_rich_text(" and "));
    rich_text.push(create_formatted_rich_text("italic", false, true, false, false, false, None));
    rich_text.push(create_rich_text(" heading"));
    let ghost rv = rich_texts_view(rich_text@);
    assert(rv =~= seq![
        spec_rich("Formatted "@),
        spec_formatted("bold"@, Annotations { bold: true, ..crate::notion_api::default_annotations() }),
        spec_rich(" and "@),
        spec_formatted("italic"@, Annotations { italic: true, ..crate::notion_api::default_annotations() }),
        spec_rich(" heading"@),
    ]);
    shell(level_name("formatted_heading_", level, "_id"), false, heading_type(level, rich_text, false))
}

/// A paragraph holding `content`, under the given identifier or
/// `paragraph_id`.
pub fn create_paragraph_block(content: &str, id: Option<&str>) -> (r: NotionBlock)
    ensures
        r@ == spec_shell(
            match id {
                Some(i) => i@,
                None => "paragraph_id"@,
            },
            false,
            SBlockType::Paragraph(STextValue { rich_text: seq![spec_rich(content@)], color: None, children: None }),
        ),
{
    let id = match id {
        Some(i) => string_of(i),
        None => string_of("paragraph_id"),
    };
    shell(
        id,
        false,
        BlockType::Paragraph { paragraph: ParagraphValue { rich_text: one_text(content), color: None, children: None } },
    )
}

/// A toggleable heading of the given level that reports children, holding
/// "Heading <level> with children", under `heading_with_children_<level>_id`.
/// The children themselves are not attached.
pub fn create_heading_with_children(level: u8) -> (r: NotionBlock)
    requires
        1 <= level <= 3,
    ensures
        r@ == spec_shell(
            with_level("heading_with_children_"@, level, "_id"@),
            true,
            heading_kind(
                level,
                SHeadingsValue {
                    rich_text: seq![spec_rich(with_level("Heading "@, level, " with children"@))],
                    color: None,
                    is_toggleable: Some(true),
                },
            ),
        ),
{
    let text = level_name("Heading ", level, " with children");
    shell(
        level_name("heading_with_children_", level, "_id"),
        true,
        heading_type(level, one_text(text.as_str()), true),
    )
}

/// A toggleable heading holding `heading_content`, under
/// `heading_with_children_<level>_id`, followed by `child_blocks`.
pub fn create_heading_with_child_blocks(level: u8, heading_content: &str, child_blocks: Vec<NotionBlock>) -> (r: Vec<NotionBlock>)
    requires
        1 <= level <= 3,
    ensures
        notion_blocks_view(r@) == seq![
            spec_shell(
                with_level("heading_with_children_"@, level, "_id"@),
                true,
                heading_kind(
                    level,
                    SHeadingsValue { rich_text: seq![spec_rich(heading_content@)], color: None, is_toggleable: Some(true) },
                ),
            ),
        ] + notion_blocks_view(child_blocks@),
{
    let heading = shell(
        level_name("heading_with_children_", level, "_id"),
        true,
        heading_type(level, one_text(heading_content), true),
    );
    let mut blocks = Vec::new();
    blocks.push(heading);
    let ghost first = blocks@;
    let mut rest = child_blocks;
    let ghost cv = rest@;
    blocks.append(&mut rest);
    proof {
        crate::notion_api::lemma_notion_blocks_view_add(first, cv);
        assert(notion_blocks_view(first) =~= seq![first[0]@]);
    }
    blocks
}

/// An empty, not toggleable heading of the given level, under
/// `empty_heading_<level>_id`.
pub fn create_empty_heading(level: u8) -> (r: NotionBlock)
    requires
        1 <= level <= 3,
    ensures
        r@ == spec_shell(
            with_level("empty_heading_"@, level, "_id"@),
            false,
            heading_kind(level, SHeadingsValue { rich_text: Seq::empty(), color: None, is_toggleable: Some(false) }),
        ),
{
    let rich_text: Vec<RichText> = Vec::new();
    assert(rich_texts_view(rich_text@) =~= Seq::empty());
    shell(level_name("empty_heading_", level, "_id"), false, heading_type(level, rich_text, false))
}

/// The view of optional children.
pub open spec fn opt_children(c: Option<Vec<NotionBlock>>) -> Option<Seq<SNotionBlock>> {
    match c {
        Some(v) => Some(notion_blocks_view(v@)),
        None => None,
    }
}

/// A bulleted list item holding `content`, under `bulleted-list-<content>`;
/// it reports children when some are given.
pub fn create_bulleted_list_item(content: &str, color: Option<TextColor>, children: Option<Vec<NotionBlock>>) -> (r: NotionBlock)
    ensures
        r@ == spec_shell(
            "bulleted-list-"@ + content@,
            children is Some,
            SBlockType::BulletedListItem(
                STextValue {
                    rich_text: seq![spec_rich(content@)],
                    color: Some(match color {
                        Some(c) => c,
                        None => TextColor::Default,
                    }),
                    children: opt_children(children),
                },
            ),
        ),
{
    let mut id = string_of("bulleted-list-");
    push_str(&mut id, content);
    let has = children.is_some();
    shell(
        id,
        has,
        BlockType::BulletedListItem {
            bulleted_list_item: BulletedListItemValue {
                rich_text: one_text(content),
                color: match color {
                    Some(c) => c,
                    None => TextColor::Default,
                },
                children,
            },
        },
    )
}

/// A numbered list item holding `content`, under `numbered-list-<content>`;
/// it reports children when some are given.
pub fn create_numbered_list_item(content: &str, color: Option<TextColor>, children: Option<Vec<NotionBlock>>) -> (r: NotionBlock)
    ensures
        r@ == spec_shell(
            "numbered-list-"@ + content@,
            children is Some,
            SBlockType::NumberedListItem(
                STextValue {
                    rich_text: seq![spec_rich(content@)],
                    color: Some(match color {
                        Some(c) => c,
                        None => TextColor::Default,
                    }),
                    children: opt_children(children),
                },
            ),
        ),
{
    let mut id = string_of("numbered-list-");
    push_str(&mut id, content);
    let has = children.is_some();
    shell(
        id,
        has,
        BlockType::NumberedListItem {
            numbered_list_item: NumberedListItemValue {
                rich_text: one_text(content),
                color: match color {
                    Some(c) => c,
                    None => TextColor::Default,
                },
                children,
            },
        },
    )
}

/// A to-do item holding `content`, checked or not, under
/// `todo-list-<content>`; it reports children when some are given.
pub fn create_todo_item(content: &str, checked: bool, children: Option<Vec<NotionBlock>>) -> (r: NotionBlock)
    ensures
        r@ == spec_shell(
            "todo-list-"@ + content@,
            children is Some,
            SBlockType::ToDo(
                SToDoValue {
                    rich_text: seq![spec_rich(content@)],
                    checked: Some(checked),
                    color: None,
                    children: opt_children(children),
                },
            ),
        ),
{
    let mut id = string_of("todo-list-");
    push_str(&mut id, content);
    let has = children.is_some();
    shell(
        id,
        has,
        BlockType::ToDo {
            to_do: ToDoValue { rich_text: one_text(content), checked: Some(checked), color: None, children },
        },
    )
}

/// A quote holding `content` in the default color, under `quote-<content>`;
/// it reports children when some are given.
pub fn create_quote_block(content: &str, children: Option<Vec<NotionBlock>>) -> (r: NotionBlock)
    ensures
        r@ == spec_shell(
            "quote-"@ + content@,
            children is Some,
            SBlockType::Quote(
                STextValue {
                    rich_text: seq![spec_rich(content@)],
                    color: Some(TextColor::Default),
                    children: opt_children(children),
                },
            ),
        ),
{
    let mut id = string_of("quote-");
    push_str(&mut id, content);
    let has = children.is_some();
    shell(
        id,
        has,
        BlockType::Quote {
            quote: QuoteValue { rich_text: one_text(content), color: TextColor::Default, children },
        },
    )
}

/// The text of the plain-text objects of `rts`, one after another: what
/// each `Text` object reports as its plain text, nothing for any other kind.
pub open spec fn text_of(rts: Seq<SRichText>) -> Seq<char>
    decreases rts.len(),
{
    if rts.len() == 0 {
        Seq::empty()
    } else {
        text_of(rts.drop_last()) + match rts.last() {
            SRichText::Text { plain_text: Some(p), .. } => p,
            _ => Seq::empty(),
        }
    }
}

/// How an optional flag is shown: as Rust's `Debug` writes an
/// `Option<bool>`.
pub open spec fn opt_bool_debug(o: Option<bool>) -> Seq<char> {
    match o {
        Some(true) => "Some(true)"@,
        Some(false) => "Some(false)"@,
        None => "None"@,
    }
}

/// The `Debug` rendering of an optional string with the given characters,
/// as Rust writes an `Option<String>`.
pub uninterp spec fn opt_string_debug(o: Option<Seq<char>>) -> Seq<char>;

/// Formats an optional string with `format!("{:?}", ..)`.  How `Debug`
/// quotes and escapes the string is named by `opt_string_debug` and not
/// restated here.
#[verifier::external_body]
fn debug_opt_string(o: &Option<String>) -> (r: String)
    ensures
        r@ == opt_string_debug(opt_view(*o)),
{
    format!("{:?}", o)
}

/// The lines that describe a heading of the named level.
pub open spec fn heading_report(name: Seq<char>, h: SHeadingsValue, has_children: Option<bool>) -> Seq<Seq<char>> {
    seq![
        "  Type: "@ + name,
        "  Text: "@ + text_of(h.rich_text),
        "  Is toggleable: "@ + opt_bool_debug(h.is_toggleable),
    ] + if has_children == Some(true) {
        seq!["  Has children: true"@]
    } else {
        Seq::empty()
    }
}

/// The lines that describe a block: its identifier and child flag, then
/// for a heading its level, text and toggle flag, for a paragraph its text
/// and, when it holds children, their number and each child's description,
/// and for any other kind the `Debug` rendering of its kind.
pub open spec fn block_report(b: SNotionBlock) -> Seq<Seq<char>>
    decreases b, 1int, 0nat,
{
    seq!["  Block ID: "@ + opt_string_debug(b.id), "  Has children: "@ + opt_bool_debug(b.has_children)]
        + match b.block_type {
        SBlockType::Heading1(h) => heading_report("Heading1"@, h, b.has_children),
        SBlockType::Heading2(h) => heading_report("Heading2"@, h, b.has_children),
        SBlockType::Heading3(h) => heading_report("Heading3"@, h, b.has_children),
        SBlockType::Paragraph(p) => seq!["  Type: Paragraph"@, "  Text: "@ + text_of(p.rich_text)]
            + match p.children {
            Some(ch) => seq!["  Children count: "@ + decimal(ch.len())] + children_report(ch, ch.len()),
            None => Seq::empty(),
        },
        _ => seq!["  Type: Other ("@ + block_type_debug(b.block_type) + ")"@],
    }
}

/// The lines that describe the first `k` children: each child's number,
/// then its description.
pub open spec fn children_report(ch: Seq<SNotionBlock>, k: nat) -> Seq<Seq<char>>
    decreases ch, 0int, k,
{
    if k == 0 || k > ch.len() {
        Seq::empty()
    } else {
        children_report(ch, (k - 1) as nat) + seq!["  Child "@ + decimal((k - 1) as nat) + ":"@] + block_report(
            ch[k - 1],
        )
    }
}

/// The lines that describe `block` (see [`block_report`]).
pub fn describe_notion_block(block: &NotionBlock) -> (r: Vec<String>)
    ensures
        strings_view(r@) == block_report(block@),
{
    let mut out: Vec<String> = Vec::new();
    assert(strings_view(out@) =~= Seq::<Seq<char>>::empty());
    report_block(block, &mut out);
    assert(strings_view(out@) =~= block_report(block@));
    out
}

/// The plain text of `rts` (see [`text_of`]).
fn plain_text_of(rts: &Vec<RichText>) -> (r: Vec<char>)
    ensures
        r@ == text_of(rich_texts_view(rts@)),
{
    let ghost rv = rich_texts_view(rts@);
    let mut r: Vec<char> = Vec::new();
    for i in 0..rts.len()
        invariant
            rv == rich_texts_view(rts@),
            rv.len() == rts@.len(),
            r@ == text_of(rv.take(i as int)),
    {
        assert(rv.take(i + 1).drop_last() =~= rv.take(i as int));
        assert(rv[i as int] == rts@[i as int]@);
        match &rts[i] {
            RichText::Text { plain_text: Some(p), .. } => {
                let c = chars_of(p.as_str());
                add_chars(&mut r, &c);
            },
            _ => {
                assert(r@ =~= r@ + Seq::<char>::empty());
            },
        }
    }
    assert(rv.take(rts.len() as int) =~= rv);
    r
}

/// `label` followed by `rest`, as one line.
fn push_labelled(out: &mut Vec<String>, label: &str, rest: &Vec<char>)
    ensures
        strings_view(final(out)@) == strings_view(old(out)@).push(label@ + rest@),
{
    let mut line = chars_of(label);
    add_chars(&mut line, rest);
    push_line(out, &line);
}

/// How an optional flag is shown (see [`opt_bool_debug`]).
fn bool_debug_chars(o: Option<bool>) -> (r: Vec<char>)
    ensures
        r@ == opt_bool_debug(o),
{
    match o {
        Some(true) => chars_of("Some(true)"),
        Some(false) => chars_of("Some(false)"),
        None => chars_of("None"),
    }
}

/// Appends the lines that describe a heading.
fn report_heading(name: &str, h: &HeadingsValue, has_children: Option<bool>, out: &mut Vec<String>)
    ensures
        strings_view(final(out)@) == strings_view(old(out)@) + heading_report(name@, crate::notion_api::headings_view(*h), has_children),
{
    let ghost start = strings_view(out@);
    let n = chars_of(name);
    push_labelled(out, "  Type: ", &n);
    let t = plain_text_of(&h.rich_text);
    push_labelled(out, "  Text: ", &t);
    let g = bool_debug_chars(h.is_toggleable);
    push_labelled(out, "  Is toggleable: ", &g);
    if has_children == Some(true) {
        let e: Vec<char> = Vec::new();
        push_labelled(out, "  Has children: true", &e);
        assert("  Has children: true"@ + e@ =~= "  Has children: true"@);
    }
    assert(strings_view(out@) =~= start + heading_report(name@, crate::notion_api::headings_view(*h), has_children));
}

/// Appends the lines that describe `block`.
fn report_block(block: &NotionBlock, out: &mut Vec<String>)
    ensures
        strings_view(final(out)@) == strings_view(old(out)@) + block_report(block@),
    decreases *block, 1int,
{
    let ghost start = strings_view(out@);
    let id = debug_opt_string(&block.id);
    let idc = chars_of(id.as_str());
    push_labelled(out, "  Block ID: ", &idc);
    let hc = bool_debug_chars(block.has_children);
    push_labelled(out, "  Has children: ", &hc);
    let ghost head = strings_view(out@);
    match &block.block_type {
        BlockType::Heading1 { heading_1 } => report_heading("Heading1", heading_1, block.has_children, out),
        BlockType::Heading2 { heading_2 } => report_heading("Heading2", heading_2, block.has_children, out),
        BlockType::Heading3 { heading_3 } => report_heading("Heading3", heading_3, block.has_children, out),
        BlockType::Paragraph { paragraph } => {
            let kind = chars_of("Paragraph");
            push_labelled(out, "  Type: ", &kind);
            let t = plain_text_of(&paragraph.rich_text);
            push_labelled(out, "  Text: ", &t);
            assert("  Type: "@ + kind@ =~= "  Type: Paragraph"@) by {
                reveal_strlit("  Type: ");
                reveal_strlit("Paragraph");
                reveal_strlit("  Type: Paragraph");
            }
            let ghost typed = strings_view(out@);
            match &paragraph.children {
                Some(children) => {
                    let count = counted("", children.len(), "");
                    push_labelled(out, "  Children count: ", &count);
                    assert("  Children count: "@ + count@ =~= "  Children count: "@ + decimal(children@.len()))
                        by {
                        reveal_strlit("");
                    }
                    let ghost counted_lines = strings_view(out@);
                    report_children(children, out);
                    assert(strings_view(out@) =~= typed + seq!["  Children count: "@ + decimal(children@.len())]
                        + children_report(notion_blocks_view(children@), children@.len()));
                },
                None => {},
            }
        },
        _ => {
            let d = debug_block_type(&block.block_type);
            let mut w = chars_of(d.as_str());
            add_str(&mut w, ")");
            push_labelled(out, "  Type: Other (", &w);
            assert("  Type: Other ("@ + w@ =~= "  Type: Other ("@ + d@ + ")"@);
        },
    }
    assert(strings_view(out@) =~= start + block_report(block@));
}

/// Appends each child's number and description.
fn report_children(children: &Vec<NotionBlock>, out: &mut Vec<String>)
    ensures
        strings_view(final(out)@) == strings_view(old(out)@) + children_report(
            notion_blocks_view(children@),
            children@.len(),
        ),
    decreases children@, 0int,
{
    let ghost cv = notion_blocks_view(children@);
    let ghost before = strings_view(out@);
    for i in 0..children.len()
        invariant
            cv == notion_blocks_view(children@),
            cv.len() == children@.len(),
            strings_view(out@) == before + children_report(cv, i as nat),
    {
        let c = counted("  Child ", i, ":");
        push_line(out, &c);
        assert(cv[i as int] == children@[i as int]@);
        report_block(&children[i], out);
        assert(strings_view(out@) =~= before + children_report(cv, (i + 1) as nat));
    }
}

} // verus!
