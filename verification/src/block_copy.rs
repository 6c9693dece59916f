//! Deep copies of Notion blocks, equal to the copied block in every field.
use crate::notion_api::{
    children_view, notion_blocks_view, opt_view, rich_texts_view, BlockType, BulletedListItemValue,
    CodeValue, Equation, HeadingsValue, Link, NotionBlock, NumberedListItemValue, ParagraphValue,
    QuoteValue, RichText, Text, ToDoValue, ToggleValue,
};
use vstd::prelude::*;

verus! {

broadcast use crate::notion_api::lemma_notion_blocks_view;

/// A copy of an optional string.
pub fn copy_opt_string(s: &Option<String>) -> (r: Option<String>)
    ensures
        opt_view(r) == opt_view(*s),
{
    match s {
        Some(x) => Some(x.clone()),
        None => None,
    }
}

/// A copy of a rich-text object.
pub fn copy_rich_text(r: &RichText) -> (c: RichText)
    ensures
        c@ == r@,
{
    match r {
        RichText::Empty => RichText::Empty,
        RichText::Equation { equation, annotations, plain_text, href } => RichText::Equation {
            equation: Equation { expression: equation.expression.clone() },
            annotations: *annotations,
            plain_text: plain_text.clone(),
            href: copy_opt_string(href),
        },
        RichText::Mention { annotations, plain_text, href } => RichText::Mention {
            annotations: *annotations,
            plain_text: plain_text.clone(),
            href: copy_opt_string(href),
        },
        RichText::Text { text, annotations, plain_text, href } => RichText::Text {
            text: Text {
                content: text.content.clone(),
                link: match &text.link {
                    Some(l) => Some(Link { url: l.url.clone() }),
                    None => None,
                },
            },
            annotations: *annotations,
            plain_text: copy_opt_string(plain_text),
            href: copy_opt_string(href),
        },
    }
}

/// A copy of a sequence of rich-text objects.
pub fn copy_rich_texts(v: &Vec<RichText>) -> (c: Vec<RichText>)
    ensures
        rich_texts_view(c@) == rich_texts_view(v@),
{
    let mut c: Vec<RichText> = Vec::new();
    let mut i: usize = 0;
    while i < v.len()
        invariant
            i <= v.len(),
            c@.len() == i,
            forall|j: int| 0 <= j < i ==> (#[trigger] c@[j])@ == v@[j]@,
        decreases v.len() - i,
    {
        c.push(copy_rich_text(&v[i]));
        i = i + 1;
    }
    assert(rich_texts_view(c@) =~= rich_texts_view(v@));
    c
}

/// A copy of a sequence of blocks, children included.
pub fn copy_blocks(v: &Vec<NotionBlock>) -> (c: Vec<NotionBlock>)
    ensures
        notion_blocks_view(c@) == notion_blocks_view(v@),
    decreases v, 0nat,
{
    let mut c: Vec<NotionBlock> = Vec::new();
    let mut i: usize = 0;
    while i < v.len()
        invariant
            i <= v.len(),
            c@.len() == i,
            forall|j: int| 0 <= j < i ==> (#[trigger] c@[j])@ == v@[j]@,
        decreases v.len() - i,
    {
        proof {
            assert(decreases_to!(v => v@));
            assert(decreases_to!(v@ => v@[i as int]));
        }
        c.push(copy_block(&v[i]));
        i = i + 1;
    }
    assert(notion_blocks_view(c@) =~= notion_blocks_view(v@));
    c
}

/// A copy of optional children.
fn copy_children(ch: &Option<Vec<NotionBlock>>) -> (c: Option<Vec<NotionBlock>>)
    ensures
        children_view(c) == children_view(*ch),
    decreases ch, 1nat,
{
    match ch {
        Some(v) => Some(copy_blocks(v)),
        None => None,
    }
}

/// A copy of a block, children included.
pub fn copy_block(b: &NotionBlock) -> (c: NotionBlock)
    ensures
        c@ == b@,
    decreases b, 2nat,
{
    let block_type = match &b.block_type {
        BlockType::Paragraph { paragraph } => BlockType::Paragraph {
            paragraph: ParagraphValue {
                rich_text: copy_rich_texts(&paragraph.rich_text),
                color: paragraph.color,
                children: copy_children(&paragraph.children),
            },
        },
        BlockType::Heading1 { heading_1 } => BlockType::Heading1 { heading_1: copy_heading(heading_1) },
        BlockType::Heading2 { heading_2 } => BlockType::Heading2 { heading_2: copy_heading(heading_2) },
        BlockType::Heading3 { heading_3 } => BlockType::Heading3 { heading_3: copy_heading(heading_3) },
        BlockType::Quote { quote } => BlockType::Quote {
            quote: QuoteValue {
                rich_text: copy_rich_texts(&quote.rich_text),
                color: quote.color,
                children: copy_children(&quote.children),
            },
        },
        BlockType::Code { code } => BlockType::Code {
            code: CodeValue {
                caption: copy_rich_texts(&code.caption),
                rich_text: copy_rich_texts(&code.rich_text),
                language: code.language,
            },
        },
        BlockType::BulletedListItem { bulleted_list_item } => BlockType::BulletedListItem {
            bulleted_list_item: BulletedListItemValue {
                rich_text: copy_rich_texts(&bulleted_list_item.rich_text),
                color: bulleted_list_item.color,
                children: copy_children(&bulleted_list_item.children),
            },
        },
        BlockType::NumberedListItem { numbered_list_item } => BlockType::NumberedListItem {
            numbered_list_item: NumberedListItemValue {
                rich_text: copy_rich_texts(&numbered_list_item.rich_text),
                color: numbered_list_item.color,
                children: copy_children(&numbered_list_item.children),
            },
        },
        BlockType::ToDo { to_do } => BlockType::ToDo {
            to_do: ToDoValue {
                rich_text: copy_rich_texts(&to_do.rich_text),
                checked: to_do.checked,
                color: to_do.color,
                children: copy_children(&to_do.children),
            },
        },
        BlockType::Toggle { toggle } => BlockType::Toggle {
            toggle: ToggleValue {
                rich_text: copy_rich_texts(&toggle.rich_text),
                color: toggle.color,
                children: copy_children(&toggle.children),
            },
        },
        BlockType::Divider => BlockType::Divider,
        BlockType::Callout => BlockType::Callout,
        BlockType::Image => BlockType::Image,
        BlockType::Table => BlockType::Table,
        BlockType::TableRow => BlockType::TableRow,
        BlockType::File => BlockType::File,
        BlockType::Video => BlockType::Video,
        BlockType::Bookmark => BlockType::Bookmark,
        BlockType::Equation => BlockType::Equation,
        BlockType::Other(s) => BlockType::Other(s.clone()),
    };
    NotionBlock {
        object: copy_opt_string(&b.object),
        id: copy_opt_string(&b.id),
        parent: copy_opt_string(&b.parent),
        archived: b.archived,
        has_children: b.has_children,
        block_type,
    }
}

/// A copy of a heading's content.
fn copy_heading(h: &HeadingsValue) -> (c: HeadingsValue)
    ensures
        crate::notion_api::headings_view(c) == crate::notion_api::headings_view(*h),
{
    HeadingsValue {
        rich_text: copy_rich_texts(&h.rich_text),
        color: h.color,
        is_toggleable: h.is_toggleable,
    }
}

} // verus!
