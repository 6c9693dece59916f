use pandoc_notion::notion_api::{BlockType, NotionBlock, ParagraphValue, RichText, Text};
use pandoc_notion::outline::{notion_outline, pandoc_outline};
use pandoc_notion::pandoc::{Attr, Block, Inline, ListAttributes, ListNumberDelim, ListNumberStyle, OtherBlock};
use pandoc_notion::strings::{decimal_chars, join_chars, signed_decimal_chars};
use pandoc_notion::test_utils::notion_helpers::{create_heading_with_children, create_quote_block, describe_notion_block};

fn words(text: &str) -> Vec<Inline> {
    vec![Inline::Str(text.to_string()), Inline::Space, Inline::Str("x".to_string())]
}

#[test]
fn pandoc_outline_of_nested_document() {
    let blocks = vec![
        Block::Header(2, Attr::new(), words("Title")),
        Block::BlockQuote(vec![Block::Para(words("quoted"))]),
        Block::BulletList(vec![vec![Block::Plain(words("one"))], vec![]]),
        Block::CodeBlock(Attr { identifier: String::new(), classes: vec!["rust".to_string(), "numbered".to_string()], attributes: vec![] }, "héllo".to_string()),
        Block::Div(Attr::with_class("note".to_string()), vec![Block::HorizontalRule]),
        Block::Null,
    ];
    let lines = pandoc_outline(&blocks, 2);
    let expected = vec![
        "  Pandoc Blocks: 6 items",
        "  Block #0: Header level 2 with 3 inlines",
        "  Block #1: BlockQuote with 1 blocks",
        "      Pandoc Blocks: 1 items",
        "      Block #0: Para with 3 inlines",
        "  Block #2: BulletList with 2 items",
        "    Item #0 with 1 blocks",
        "          Pandoc Blocks: 1 items",
        "          Block #0: Plain with 3 inlines",
        "    Item #1 with 0 blocks",
        "          Pandoc Blocks: 0 items",
        "  Block #3: CodeBlock 'rust, numbered' (6 chars)",
        "  Block #4: Div 'note' with 1 blocks",
        "      Pandoc Blocks: 1 items",
        "      Block #0: HorizontalRule",
        "  Block #5: Null",
    ];
    assert_eq!(lines, expected);
}

#[test]
fn pandoc_outline_of_blocks_kept_as_other() {
    let attrs = ListAttributes { start_number: 1, style: ListNumberStyle::Decimal, delim: ListNumberDelim::Period };
    let blocks = vec![
        Block::Other(OtherBlock::LineBlock(3), "LineBlock([])".to_string()),
        Block::Other(OtherBlock::RawBlock("Format(\"html\")".to_string(), "<b>€</b>".to_string()), "RawBlock".to_string()),
        Block::Other(OtherBlock::DefinitionList(2), "DefinitionList([])".to_string()),
        Block::Other(OtherBlock::Table, "Table".to_string()),
        Block::Other(OtherBlock::Figure(vec![Block::Null]), "Figure".to_string()),
        Block::OrderedList(attrs, vec![]),
        Block::Header(-1, Attr::new(), vec![]),
    ];
    let lines = pandoc_outline(&blocks, 0);
    let expected = vec![
        "Pandoc Blocks: 7 items",
        "Block #0: LineBlock with 3 lines",
        "Block #1: RawBlock format 'Format(\"html\")' (10 chars)",
        "Block #2: DefinitionList with 2 items",
        "Block #3: Table",
        "Block #4: Figure with 1 blocks",
        "    Pandoc Blocks: 1 items",
        "    Block #0: Null",
        "Block #5: OrderedList with 0 items",
        "Block #6: Header level -1 with 0 inlines",
    ];
    assert_eq!(lines, expected);
}

fn paragraph(id: &str, children: Option<Vec<NotionBlock>>) -> NotionBlock {
    let text = RichText::Text {
        text: Text { content: id.to_string(), link: None },
        annotations: None,
        plain_text: Some(id.to_string()),
        href: None,
    };
    NotionBlock {
        object: Some("block".to_string()),
        id: Some(id.to_string()),
        parent: None,
        archived: Some(false),
        has_children: Some(children.is_some()),
        block_type: BlockType::Paragraph { paragraph: ParagraphValue { rich_text: vec![text], color: None, children } },
    }
}

#[test]
fn notion_outline_shows_children() {
    let child = paragraph("child", None);
    let child_kind = format!("{:?}", child.block_type);
    let parent = paragraph("parent", Some(vec![child]));
    let parent_kind = format!("{:?}", parent.block_type);
    let empty = paragraph("empty", Some(vec![]));
    let empty_kind = format!("{:?}", empty.block_type);
    let lines = notion_outline(&[parent, empty, NotionBlock { block_type: BlockType::Divider, ..paragraph("d", None) }], 1);
    assert_eq!(
        lines,
        vec![
            " Notion Blocks: 3 items".to_string(),
            format!(" Block #0: Type: {}", parent_kind),
            "   Has 1 children:".to_string(),
            "     Notion Blocks: 1 items".to_string(),
            format!("     Block #0: Type: {}", child_kind),
            format!(" Block #1: Type: {}", empty_kind),
            " Block #2: Type: Divider".to_string(),
        ]
    );
}

#[test]
fn numerals_and_joins() {
    assert_eq!(decimal_chars(0).into_iter().collect::<String>(), "0");
    assert_eq!(decimal_chars(1200).into_iter().collect::<String>(), "1200");
    assert_eq!(decimal_chars(u64::MAX).into_iter().collect::<String>(), u64::MAX.to_string());
    assert_eq!(signed_decimal_chars(-42).into_iter().collect::<String>(), "-42");
    assert_eq!(signed_decimal_chars(i64::MIN).into_iter().collect::<String>(), i64::MIN.to_string());
    let parts = vec!["a".to_string(), "b".to_string(), "c".to_string()];
    assert_eq!(join_chars(&parts, ", ").into_iter().collect::<String>(), "a, b, c");
    assert_eq!(join_chars(&vec![], ", ").into_iter().collect::<String>(), "");
}

#[test]
fn describe_heading_with_children() {
    let block = create_heading_with_children(2);
    let lines = describe_notion_block(&block);
    assert_eq!(
        lines,
        vec![
            "  Block ID: Some(\"heading_with_children_2_id\")",
            "  Has children: Some(true)",
            "  Type: Heading2",
            "  Text: Heading 2 with children",
            "  Is toggleable: Some(true)",
            "  Has children: true",
        ]
    );
}

#[test]
fn describe_paragraph_and_its_children() {
    let quote = create_quote_block("q", None);
    let quote_kind = format!("{:?}", quote.block_type);
    let mut parent = paragraph("parent", Some(vec![paragraph("child", None), quote]));
    parent.id = None;
    let lines = describe_notion_block(&parent);
    assert_eq!(
        lines,
        vec![
            "  Block ID: None".to_string(),
            "  Has children: Some(true)".to_string(),
            "  Type: Paragraph".to_string(),
            "  Text: parent".to_string(),
            "  Children count: 2".to_string(),
            "  Child 0:".to_string(),
            "  Block ID: Some(\"child\")".to_string(),
            "  Has children: Some(false)".to_string(),
            "  Type: Paragraph".to_string(),
            "  Text: child".to_string(),
            "  Child 1:".to_string(),
            "  Block ID: Some(\"quote-q\")".to_string(),
            "  Has children: Some(false)".to_string(),
            format!("  Type: Other ({})", quote_kind),
        ]
    );
}
