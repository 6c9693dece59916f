use pandoc_notion::n2p::block_dispatcher::{convert_block, convert_blocks, BlockConverter, NotionToPandocDispatcher};
use pandoc_notion::n2p::notion_block_visitor::NotionToPandocVisitor;
use pandoc_notion::n2p::notion_code::{convert_notion_code, convert_notion_language, try_convert_to_code, CodeBuilder};
use pandoc_notion::n2p::notion_divider::convert_notion_divider;
use pandoc_notion::n2p::notion_heading::{convert_notion_heading, generate_heading_id, slug};
use pandoc_notion::n2p::notion_list::ListBuilder;
use pandoc_notion::n2p::notion_paragraph::convert_notion_paragraph;
use pandoc_notion::n2p::notion_quote::QuoteBuilder;
use pandoc_notion::n2p::notion_toggle::{convert_notion_toggle, generate_toggle_id, ToggleBuilder};
use pandoc_notion::n2p::visitor::{NotionBlockVisitable, NotionBlockVisitor};
use pandoc_notion::n2p::supported_blocks::{SupportedBlock, SupportedBlockType};
use pandoc_notion::n2p::ConversionConfig;
use pandoc_notion::notion_api::{
    BlockType, BulletedListItemValue, CodeValue, HeadingsValue, Language, NotionBlock,
    NumberedListItemValue, ParagraphValue, QuoteValue, RichText, Text, TextColor, ToDoValue,
    ToggleValue,
};
use pandoc_notion::pandoc::{Block as PandocBlock, Inline, ListAttributes, ListNumberDelim, ListNumberStyle};

fn test_config() -> ConversionConfig {
    ConversionConfig { preserve_attributes: true, escape_markdown: false, render_toggle_div: false }
}

fn create_rich_text(content: &str) -> RichText {
    RichText::Text {
        text: Text { content: content.to_string(), link: None },
        annotations: None,
        plain_text: Some(content.to_string()),
        href: None,
    }
}

fn block(id: &str, has_children: Option<bool>, block_type: BlockType) -> NotionBlock {
    NotionBlock {
        object: Some("block".to_string()),
        id: Some(id.to_string()),
        parent: None,
        archived: Some(false),
        has_children,
        block_type,
    }
}

fn create_code_block(content: &str, language: Language) -> NotionBlock {
    block(
        "test_code_block_id",
        Some(false),
        BlockType::Code {
            code: CodeValue { rich_text: vec![create_rich_text(content)], language, caption: vec![] },
        },
    )
}

fn create_paragraph(text: &str, children: Option<Vec<NotionBlock>>) -> NotionBlock {
    block(
        "paragraph_id",
        Some(children.is_some()),
        BlockType::Paragraph {
            paragraph: ParagraphValue { rich_text: vec![create_rich_text(text)], color: None, children },
        },
    )
}

fn create_bulleted_list_item(text: &str, children: Option<Vec<NotionBlock>>) -> NotionBlock {
    block(
        &format!("bulleted-list-{}", text),
        Some(children.is_some()),
        BlockType::BulletedListItem {
            bulleted_list_item: BulletedListItemValue {
                rich_text: vec![create_rich_text(text)],
                color: TextColor::Default,
                children,
            },
        },
    )
}

fn create_numbered_list_item(text: &str, children: Option<Vec<NotionBlock>>) -> NotionBlock {
    block(
        &format!("numbered-list-{}", text),
        Some(children.is_some()),
        BlockType::NumberedListItem {
            numbered_list_item: NumberedListItemValue {
                rich_text: vec![create_rich_text(text)],
                color: TextColor::Default,
                children,
            },
        },
    )
}

fn create_todo_item(text: &str, checked: bool, children: Option<Vec<NotionBlock>>) -> NotionBlock {
    block(
        &format!("todo-list-{}", text),
        Some(children.is_some()),
        BlockType::ToDo {
            to_do: ToDoValue {
                rich_text: vec![create_rich_text(text)],
                checked: Some(checked),
                color: Some(TextColor::Default),
                children,
            },
        },
    )
}

fn create_heading(level: u8, text: &str, color: Option<TextColor>, toggleable: Option<bool>) -> NotionBlock {
    let value = HeadingsValue { rich_text: vec![create_rich_text(text)], color, is_toggleable: toggleable };
    let block_type = match level {
        1 => BlockType::Heading1 { heading_1: value },
        2 => BlockType::Heading2 { heading_2: value },
        _ => BlockType::Heading3 { heading_3: value },
    };
    block("heading_id", Some(false), block_type)
}

fn extract_text_from_inlines(inlines: &[Inline]) -> String {
    let mut text = String::new();
    for inline in inlines {
        match inline {
            Inline::Str(s) => text.push_str(s),
            Inline::Space => text.push(' '),
            _ => {},
        }
    }
    text.trim().to_string()
}

fn assert_inlines_text_eq(inlines: &[Inline], expected: &str) {
    assert_eq!(extract_text_from_inlines(inlines), expected);
}

#[test]
fn test_convert_notion_code() {
    let content = "fn main() {\n    println!(\"Hello, world!\");\n}";
    let code_block = create_code_block(content, Language::Rust);
    let result = convert_notion_code(&code_block, &test_config());
    assert!(result.is_some());
    let blocks = result.unwrap();
    assert_eq!(blocks.len(), 1);
    match &blocks[0] {
        PandocBlock::CodeBlock(attr, code_content) => {
            assert_eq!(code_content, content);
            assert!(attr.classes.contains(&"rust".to_string()));
            assert_eq!(attr.identifier, "");
            assert!(attr.attributes.is_empty());
        },
        _ => panic!("Expected CodeBlock, got something else"),
    }
}

#[test]
fn test_try_convert_to_code() {
    let content = "def hello():\n    print('Hello, world!')";
    let code_block = create_code_block(content, Language::Python);
    let result = try_convert_to_code(&code_block, &test_config());
    assert!(result.is_some());
    match result.unwrap() {
        PandocBlock::CodeBlock(attr, code_content) => {
            assert_eq!(code_content, content);
            assert!(attr.classes.contains(&"python".to_string()));
        },
        _ => panic!("Expected CodeBlock, got something else"),
    }
}

#[test]
fn notion_code_test_language_mapping() {
    assert_eq!(convert_notion_language(&Language::Javascript), "javascript");
    assert_eq!(convert_notion_language(&Language::Rust), "rust");
    assert_eq!(convert_notion_language(&Language::CPlusPlus), "cpp");
    assert_eq!(convert_notion_language(&Language::PlainText), "text");
    assert_eq!(convert_notion_language(&Language::JavaOrCOrCPlusPlusOrCSharp), "java");
}

#[test]
fn test_code_builder() {
    let builder = CodeBuilder::new()
        .language("python")
        .content("print('Hello')")
        .identifier("test-code")
        .attribute("data-line", "2");
    let block = builder.build(&test_config());
    match block {
        PandocBlock::CodeBlock(attr, content) => {
            assert_eq!(content, "print('Hello')");
            assert_eq!(attr.identifier, "test-code");
            assert_eq!(attr.classes, vec!["python"]);
            assert_eq!(attr.attributes, vec![("data-line".to_string(), "2".to_string())]);
        },
        _ => panic!("Expected CodeBlock, got something else"),
    }
}

#[test]
fn test_non_code_block() {
    let paragraph = create_paragraph("Not a code block", None);
    let result = convert_notion_code(&paragraph, &test_config());
    assert!(result.is_none(), "Not a code block");
}

#[test]
fn code_attributes_dropped_without_preserve() {
    let block = CodeBuilder::new()
        .language("Python")
        .content("x")
        .identifier("id")
        .attribute("k", "v")
        .build(&ConversionConfig::default());
    match block {
        PandocBlock::CodeBlock(attr, _) => {
            assert_eq!(attr.identifier, "");
            assert_eq!(attr.classes, vec!["python"]);
            assert!(attr.attributes.is_empty());
        },
        _ => panic!("Expected CodeBlock"),
    }
}

#[test]
fn test_convert_divider() {
    let block = block("divider", Some(false), BlockType::Divider);
    let config = ConversionConfig::default();
    let result = convert_notion_divider(&block, &config);
    assert!(result.is_some());
    match result.unwrap() {
        PandocBlock::HorizontalRule => (),
        other => panic!("Expected HorizontalRule, got {:?}", other),
    }
}

#[test]
fn test_bulleted_list_conversion() {
    let visitor = NotionToPandocVisitor::new();
    let item = create_bulleted_list_item("Bulleted item", None);
    let result = visitor.convert_blocks(&vec![item]);
    assert_eq!(result.len(), 1);
    if let PandocBlock::BulletList(items) = &result[0] {
        assert_eq!(items.len(), 1);
        if let PandocBlock::Plain(inlines) = &items[0][0] {
            assert_eq!(inlines.len(), 1);
            if let Inline::Span(_, span_inlines) = &inlines[0] {
                assert_inlines_text_eq(span_inlines, "Bulleted item");
            } else {
                panic!("Expected span");
            }
        } else {
            panic!("Expected plain block");
        }
    } else {
        panic!("Expected bullet list");
    }
}

#[test]
fn test_numbered_list_conversion() {
    let visitor = NotionToPandocVisitor::new();
    let item = create_numbered_list_item("Numbered item", None);
    let result = visitor.convert_blocks(&vec![item]);
    assert_eq!(result.len(), 1);
    if let PandocBlock::OrderedList(attrs, items) = &result[0] {
        assert_eq!(attrs.start_number, 1);
        assert_eq!(items.len(), 1);
        if let PandocBlock::Plain(inlines) = &items[0][0] {
            assert_eq!(inlines.len(), 1);
            if let Inline::Span(_, span_inlines) = &inlines[0] {
                assert_inlines_text_eq(span_inlines, "Numbered item");
            } else {
                panic!("Expected span");
            }
        } else {
            panic!("Expected plain block");
        }
    } else {
        panic!("Expected ordered list");
    }
}

fn check_todo(result: &[PandocBlock], checked: bool) {
    assert_eq!(result.len(), 1);
    if let PandocBlock::BulletList(items) = &result[0] {
        assert_eq!(items.len(), 1);
        if let PandocBlock::Plain(inlines) = &items[0][0] {
            assert_eq!(inlines.len(), 1);
            if let Inline::Span(_, span_inlines) = &inlines[0] {
                assert!(span_inlines.len() >= 4);
                if let Inline::Str(open_bracket) = &span_inlines[0] {
                    assert_eq!(open_bracket, "[");
                    if checked {
                        if let Inline::Str(x) = &span_inlines[1] {
                            assert_eq!(x, "x");
                        } else {
                            panic!("Expected 'x' in checkbox");
                        }
                    } else if !matches!(&span_inlines[1], Inline::Space) {
                        panic!("Expected space in checkbox");
                    }
                    if let Inline::Str(close_bracket) = &span_inlines[2] {
                        assert_eq!(close_bracket, "]");
                    } else {
                        panic!("Expected closing bracket");
                    }
                } else {
                    panic!("Expected opening bracket");
                }
            } else {
                panic!("Expected span");
            }
        } else {
            panic!("Expected plain block");
        }
    } else {
        panic!("Expected bullet list");
    }
}

#[test]
fn test_todo_list_conversion() {
    let visitor = NotionToPandocVisitor::new();
    let unchecked = create_todo_item("Unchecked task", false, None);
    let result = visitor.convert_blocks(&vec![unchecked]);
    check_todo(&result, false);
    let checked = create_todo_item("Checked task", true, None);
    let result = visitor.convert_blocks(&vec![checked]);
    check_todo(&result, true);
}

#[test]
fn test_nested_list_conversion() {
    let visitor = NotionToPandocVisitor::new();
    let child1 = create_bulleted_list_item("Child item 1", None);
    let child2 = create_bulleted_list_item("Child item 2", None);
    let parent = create_bulleted_list_item("Parent item", Some(vec![child1, child2]));
    let result = visitor.convert_blocks(&vec![parent]);
    assert_eq!(result.len(), 1);
    if let PandocBlock::BulletList(items) = &result[0] {
        assert_eq!(items.len(), 1);
        assert_eq!(items[0].len(), 2);
        if let PandocBlock::Plain(inlines) = &items[0][0] {
            assert_eq!(inlines.len(), 1);
            if let Inline::Span(_, span_inlines) = &inlines[0] {
                assert_inlines_text_eq(span_inlines, "Parent item");
            } else {
                panic!("Expected span");
            }
        } else {
            panic!("Expected plain block");
        }
        if let PandocBlock::BulletList(nested_items) = &items[0][1] {
            assert_eq!(nested_items.len(), 2, "Should have 2 nested items");
            for (i, nested_item) in nested_items.iter().enumerate() {
                if let PandocBlock::Plain(inlines) = &nested_item[0] {
                    assert_eq!(inlines.len(), 1);
                    if let Inline::Span(_, span_inlines) = &inlines[0] {
                        assert_inlines_text_eq(span_inlines, &format!("Child item {}", i + 1));
                    } else {
                        panic!("Expected span");
                    }
                } else {
                    panic!("Expected plain block");
                }
            }
        } else {
            panic!("Expected bullet list");
        }
    } else {
        panic!("Expected bullet list");
    }
}

#[test]
fn test_deeply_nested_lists() {
    let visitor = NotionToPandocVisitor::new();
    let grandchild = create_bulleted_list_item("Grandchild item", None);
    let child = create_bulleted_list_item("Child item", Some(vec![grandchild]));
    let parent = create_bulleted_list_item("Parent item", Some(vec![child]));
    let result = visitor.convert_blocks(&vec![parent]);
    assert_eq!(result.len(), 1);
    if let PandocBlock::BulletList(parent_items) = &result[0] {
        assert_eq!(parent_items.len(), 1);
        assert_eq!(parent_items[0].len(), 2);
        if let PandocBlock::Plain(inlines) = &parent_items[0][0] {
            assert_eq!(inlines.len(), 1);
            if let Inline::Span(_, span_inlines) = &inlines[0] {
                assert_inlines_text_eq(span_inlines, "Parent item");
            } else {
                panic!("Expected span");
            }
        } else {
            panic!("Expected plain block");
        }
        if let PandocBlock::BulletList(child_items) = &parent_items[0][1] {
            assert_eq!(child_items.len(), 1);
            assert_eq!(child_items[0].len(), 2);
            if let PandocBlock::Plain(inlines) = &child_items[0][0] {
                assert_eq!(inlines.len(), 1);
                if let Inline::Span(_, span_inlines) = &inlines[0] {
                    assert_inlines_text_eq(span_inlines, "Child item");
                } else {
                    panic!("Expected span");
                }
            } else {
                panic!("Expected plain block");
            }
            if let PandocBlock::BulletList(grandchild_items) = &child_items[0][1] {
                assert_eq!(grandchild_items.len(), 1);
                assert_eq!(grandchild_items[0].len(), 1);
                if let PandocBlock::Plain(inlines) = &grandchild_items[0][0] {
                    assert_eq!(inlines.len(), 1);
                    if let Inline::Span(_, span_inlines) = &inlines[0] {
                        assert_inlines_text_eq(span_inlines, "Grandchild item");
                    } else {
                        panic!("Expected span");
                    }
                } else {
                    panic!("Expected plain block");
                }
            } else {
                panic!("Expected bullet list for grandchild");
            }
        } else {
            panic!("Expected bullet list for child");
        }
    } else {
        panic!("Expected bullet list for parent");
    }
}

#[test]
fn test_mixed_list_types() {
    let visitor = NotionToPandocVisitor::new();
    let bulleted = create_bulleted_list_item("Bulleted item", None);
    let numbered = create_numbered_list_item("Numbered item", None);
    let todo = create_todo_item("Todo item", false, None);
    let result = visitor.convert_blocks(&vec![bulleted, numbered, todo]);
    assert_eq!(result.len(), 3);
    if let PandocBlock::BulletList(_) = &result[0] {
    } else {
        panic!("Expected bullet list");
    }
    if let PandocBlock::OrderedList(_, _) = &result[1] {
    } else {
        panic!("Expected ordered list");
    }
    if let PandocBlock::BulletList(_) = &result[2] {
    } else {
        panic!("Expected bullet list for todo");
    }
}

#[test]
fn consecutive_list_items_merge() {
    let visitor = NotionToPandocVisitor::new();
    let blocks = vec![
        create_bulleted_list_item("a", None),
        create_bulleted_list_item("b", None),
        create_paragraph("between", None),
        create_numbered_list_item("c", None),
        create_numbered_list_item("d", None),
    ];
    let result = visitor.convert_blocks(&blocks);
    assert_eq!(result.len(), 3);
    assert!(matches!(&result[0], PandocBlock::BulletList(items) if items.len() == 2));
    assert!(matches!(&result[1], PandocBlock::Para(_)));
    assert!(matches!(&result[2], PandocBlock::OrderedList(_, items) if items.len() == 2));
}

#[test]
fn collect_document_lists_merges_only_equal_attributes() {
    let a1 = ListAttributes { start_number: 1, style: ListNumberStyle::Decimal, delim: ListNumberDelim::Period };
    let a2 = ListAttributes { start_number: 3, style: ListNumberStyle::Decimal, delim: ListNumberDelim::Period };
    let item = |s: &str| vec![PandocBlock::Plain(vec![Inline::Str(s.to_string())])];
    let blocks = vec![
        PandocBlock::OrderedList(a1, vec![item("x")]),
        PandocBlock::OrderedList(a1, vec![item("y")]),
        PandocBlock::OrderedList(a2, vec![item("z")]),
        PandocBlock::BulletList(vec![item("p")]),
        PandocBlock::BulletList(vec![item("q")]),
    ];
    let result = ListBuilder::collect_document_lists(blocks);
    assert_eq!(result.len(), 3);
    assert!(matches!(&result[0], PandocBlock::OrderedList(a, items) if *a == a1 && items.len() == 2));
    assert!(matches!(&result[1], PandocBlock::OrderedList(a, items) if *a == a2 && items.len() == 1));
    assert!(matches!(&result[2], PandocBlock::BulletList(items) if items.len() == 2));
}

#[test]
fn list_builder_matches_document_merge() {
    let item = |s: &str| vec![PandocBlock::Plain(vec![Inline::Str(s.to_string())])];
    let make = || {
        vec![
            PandocBlock::BulletList(vec![item("a")]),
            PandocBlock::Para(vec![Inline::Str("p".to_string())]),
            PandocBlock::BulletList(vec![item("b")]),
            PandocBlock::BulletList(vec![item("c")]),
        ]
    };
    let built = ListBuilder::new().add_blocks(make()).build();
    let collected = ListBuilder::collect_document_lists(make());
    assert_eq!(format!("{:?}", built), format!("{:?}", collected));
    assert_eq!(built.len(), 3);
}

#[test]
fn test_simple_quote_building() {
    let text = vec![Inline::Str("Test quote".to_string())];
    let para = PandocBlock::Para(text);
    let builder = QuoteBuilder::new().add_content(para);
    let result = builder.build();
    match result {
        PandocBlock::BlockQuote(content) => {
            assert_eq!(content.len(), 1);
            match &content[0] {
                PandocBlock::Para(inlines) => match &inlines[0] {
                    Inline::Str(s) => assert_eq!(s, "Test quote"),
                    _ => panic!("Expected Str inline"),
                },
                _ => panic!("Expected Para block"),
            }
        },
        _ => panic!("Expected BlockQuote"),
    }
}

#[test]
fn test_nested_quote_order() {
    let lvl1_para = PandocBlock::Para(vec![Inline::Str("First level".to_string())]);
    let lvl2_para = PandocBlock::Para(vec![Inline::Str("Second level".to_string())]);
    let lvl2_quote = PandocBlock::BlockQuote(vec![lvl2_para]);
    let final_para = PandocBlock::Para(vec![Inline::Str("Back to first".to_string())]);
    let builder = QuoteBuilder::new().add_content(lvl1_para).add_content(lvl2_quote).add_content(final_para);
    let result = builder.build();
    match result {
        PandocBlock::BlockQuote(content) => {
            assert_eq!(content.len(), 3);
            match &content[0] {
                PandocBlock::Para(inlines) => match &inlines[0] {
                    Inline::Str(s) => assert_eq!(s, "First level"),
                    _ => panic!("Expected Str inline"),
                },
                _ => panic!("Expected Para block"),
            }
            match &content[1] {
                PandocBlock::BlockQuote(_) => {},
                _ => panic!("Expected BlockQuote"),
            }
            match &content[2] {
                PandocBlock::Para(inlines) => match &inlines[0] {
                    Inline::Str(s) => assert_eq!(s, "Back to first"),
                    _ => panic!("Expected Str inline"),
                },
                _ => panic!("Expected Para block"),
            }
        },
        _ => panic!("Expected BlockQuote"),
    }
}

#[test]
fn quote_holds_its_children() {
    let visitor = NotionToPandocVisitor::with_config(test_config());
    let child = create_paragraph("inner", None);
    let quote = block(
        "quote",
        Some(true),
        BlockType::Quote {
            quote: QuoteValue {
                rich_text: vec![create_rich_text("outer")],
                color: TextColor::Red,
                children: Some(vec![child]),
            },
        },
    );
    let result = visitor.convert_blocks(&vec![quote]);
    assert_eq!(result.len(), 1);
    let PandocBlock::BlockQuote(content) = &result[0] else { panic!("Expected BlockQuote") };
    assert_eq!(content.len(), 2);
    let PandocBlock::Para(inlines) = &content[0] else { panic!("Expected Para") };
    let Inline::Span(attr, inner) = &inlines[0] else { panic!("Expected Span") };
    assert_eq!(attr.attributes, vec![("data-color".to_string(), "Red".to_string())]);
    assert_inlines_text_eq(inner, "outer");
    assert!(matches!(&content[1], PandocBlock::Para(_)));
}

#[test]
fn paragraph_children_follow_it() {
    let visitor = NotionToPandocVisitor::new();
    let parent = create_paragraph("parent", Some(vec![create_paragraph("child", None)]));
    let result = visitor.convert_blocks(&vec![parent]);
    assert_eq!(result.len(), 2);
    let PandocBlock::Para(first) = &result[0] else { panic!("Expected Para") };
    assert_inlines_text_eq(first, "parent");
    let PandocBlock::Para(second) = &result[1] else { panic!("Expected Para") };
    assert_inlines_text_eq(second, "child");
}

#[test]
fn paragraph_color_span() {
    let paragraph = block(
        "p",
        Some(false),
        BlockType::Paragraph {
            paragraph: ParagraphValue {
                rich_text: vec![create_rich_text("blue")],
                color: Some(TextColor::Blue),
                children: None,
            },
        },
    );
    let preserved = convert_notion_paragraph(&paragraph, &test_config()).unwrap();
    let PandocBlock::Para(inlines) = preserved else { panic!("Expected Para") };
    let Inline::Span(attr, _) = &inlines[0] else { panic!("Expected Span") };
    assert_eq!(attr.attributes, vec![("data-color".to_string(), "Blue".to_string())]);
    let plain = convert_notion_paragraph(&paragraph, &ConversionConfig::default()).unwrap();
    let PandocBlock::Para(inlines) = plain else { panic!("Expected Para") };
    let Inline::Span(attr, _) = &inlines[0] else { panic!("Expected Span") };
    assert!(attr.attributes.is_empty());
}

#[test]
fn unsupported_block_becomes_marked_div() {
    let visitor = NotionToPandocVisitor::with_config(test_config());
    let result = visitor.convert_blocks(&vec![block("img", Some(false), BlockType::Image)]);
    assert_eq!(result.len(), 1);
    let PandocBlock::Div(attr, content) = &result[0] else { panic!("Expected Div") };
    assert_eq!(attr.classes, vec!["unsupported-block".to_string()]);
    assert_eq!(attr.attributes, vec![("data-block-type".to_string(), "image".to_string())]);
    let PandocBlock::Para(inlines) = &content[0] else { panic!("Expected Para") };
    assert!(matches!(&inlines[0], Inline::Str(s) if s == "Unsupported block type"));
    let plain = NotionToPandocVisitor::new().convert_blocks(&vec![block("img", Some(false), BlockType::Image)]);
    let PandocBlock::Div(attr, _) = &plain[0] else { panic!("Expected Div") };
    assert!(attr.classes.is_empty());
}

#[test]
fn heading_conversion_and_identifier() {
    let heading = create_heading(2, "Hello World!", Some(TextColor::Red), Some(true));
    let result = convert_notion_heading(&heading).unwrap();
    let PandocBlock::Header(level, attr, inlines) = result else { panic!("Expected Header") };
    assert_eq!(level, 2);
    assert_eq!(attr.identifier, "hello-world-");
    assert_eq!(attr.classes, vec!["toggleable".to_string()]);
    assert_eq!(attr.attributes, vec![("data-color".to_string(), "Red".to_string())]);
    assert_inlines_text_eq(&inlines, "Hello World!");
    assert_eq!(generate_heading_id(&vec![create_rich_text("A  B")]), "a-b");
    assert_eq!(slug("X -- Y"), "x--y");
    assert!(convert_notion_heading(&create_paragraph("no", None)).is_none());
}

#[test]
fn toggle_rendering() {
    let toggle = block(
        "t",
        Some(false),
        BlockType::Toggle {
            toggle: ToggleValue { rich_text: vec![create_rich_text("Open me")], color: TextColor::Green, children: None },
        },
    );
    let plain = convert_notion_toggle(&toggle, &ConversionConfig::default()).unwrap();
    let PandocBlock::Para(inlines) = plain else { panic!("Expected Para") };
    assert_inlines_text_eq(&inlines, "Open me");
    let config = ConversionConfig { preserve_attributes: true, escape_markdown: false, render_toggle_div: true };
    let div = convert_notion_toggle(&toggle, &config).unwrap();
    let PandocBlock::Div(attr, content) = div else { panic!("Expected Div") };
    assert_eq!(attr.identifier, "toggle-open-me");
    assert_eq!(attr.classes, vec!["toggle".to_string()]);
    assert_eq!(attr.attributes, vec![("data-color".to_string(), "Green".to_string())]);
    assert_eq!(content.len(), 1);
    assert_eq!(generate_toggle_id(&vec![create_rich_text("Hi There")]), "toggle-hi-there");
}

#[test]
fn toggle_builder_layout() {
    let with_children = ToggleBuilder::new()
        .rich_text(vec![Inline::Str("t".to_string())])
        .add_child(PandocBlock::HorizontalRule)
        .build();
    let PandocBlock::Div(attr, content) = with_children else { panic!("Expected Div") };
    assert_eq!(attr.classes, vec!["toggle".to_string()]);
    assert_eq!(content.len(), 3);
    assert!(matches!(&content[1], PandocBlock::Para(v) if v.is_empty()));
    let empty = ToggleBuilder::new().build();
    let PandocBlock::Div(_, content) = empty else { panic!("Expected Div") };
    assert_eq!(content.len(), 1);
}

#[test]
fn supported_and_implemented_kinds() {
    assert_eq!(SupportedBlockType::all().len(), 17);
    assert_eq!(SupportedBlockType::implemented().len(), 10);
    assert!(SupportedBlockType::Divider.is_implemented());
    assert!(!SupportedBlockType::Toggle.is_implemented());
    let toggle = block(
        "t",
        Some(false),
        BlockType::Toggle { toggle: ToggleValue { rich_text: vec![], color: TextColor::Default, children: None } },
    );
    assert_eq!(toggle.supported_type(), Some(SupportedBlockType::Toggle));
    assert!(toggle.is_supported());
    assert!(!SupportedBlock::is_implemented(&toggle));
    let other = block("o", None, BlockType::Other("child_page".to_string()));
    assert!(!other.is_supported());
    assert!(SupportedBlock::is_implemented(&create_paragraph("p", None)));
}

#[test]
fn dispatcher_converts_registered_kinds() {
    let converted = convert_block(&create_heading(1, "Title", None, None));
    assert_eq!(converted.len(), 1);
    assert!(matches!(&converted[0], PandocBlock::Header(1, _, _)));
    assert!(convert_block(&create_code_block("x", Language::Rust)).is_empty());
    let all = convert_blocks(&vec![create_paragraph("a", None), create_code_block("x", Language::Rust), create_paragraph("b", None)]);
    assert_eq!(all.len(), 2);
    let mut dispatcher = NotionToPandocDispatcher::new();
    dispatcher.register_converter("paragraph", BlockConverter::Heading);
    assert!(dispatcher.convert(&create_paragraph("a", None)).is_empty());
}

#[test]
fn visitor_reads_children_of_kinds_it_converts() {
    let visitor = NotionToPandocVisitor::new();
    let item = create_bulleted_list_item("parent", Some(vec![create_paragraph("child", None)]));
    assert_eq!(visitor.get_children(&item).len(), 1);
    let divider = block("d", None, BlockType::Divider);
    assert!(visitor.get_children(&divider).is_empty());
}

#[test]
fn accepted_block_goes_through_the_visitor() {
    let visitor = NotionToPandocVisitor::new();
    let parent = create_paragraph("parent", Some(vec![create_paragraph("child", None)]));
    let through_trait = parent.accept(&visitor);
    let direct = visitor.visit_block(&parent);
    assert_eq!(format!("{:?}", through_trait), format!("{:?}", direct));
    assert_eq!(through_trait.len(), 2);
    let children = NotionBlockVisitor::get_children(&visitor, &parent);
    assert_eq!(children.len(), 1);
    let converted = NotionBlockVisitor::process_children(&visitor, &children);
    let PandocBlock::Para(child) = &converted[0] else { panic!("Expected Para") };
    assert_inlines_text_eq(child, "child");
}

#[test]
fn merged_lists_keep_items_and_merge_once() {
    let item = |t: &str| vec![PandocBlock::Plain(vec![Inline::Str(t.to_string())])];
    let attrs = ListAttributes { start_number: 1, style: ListNumberStyle::Decimal, delim: ListNumberDelim::Period };
    let other = ListAttributes { start_number: 3, style: ListNumberStyle::Decimal, delim: ListNumberDelim::Period };
    let blocks = vec![
        PandocBlock::BulletList(vec![item("a")]),
        PandocBlock::BulletList(vec![item("b"), item("c")]),
        PandocBlock::OrderedList(attrs, vec![item("1")]),
        PandocBlock::OrderedList(attrs, vec![item("2")]),
        PandocBlock::OrderedList(other, vec![item("3")]),
        PandocBlock::Null,
        PandocBlock::BulletList(vec![item("d")]),
    ];
    let once = ListBuilder::collect_document_lists(blocks);
    assert_eq!(once.len(), 5);
    match &once[0] {
        PandocBlock::BulletList(items) => assert_eq!(items.len(), 3),
        _ => panic!("Expected BulletList"),
    }
    match &once[1] {
        PandocBlock::OrderedList(a, items) => {
            assert_eq!(*a, attrs);
            assert_eq!(items.len(), 2);
        }
        _ => panic!("Expected OrderedList"),
    }
    assert!(matches!(&once[2], PandocBlock::OrderedList(a, items) if *a == other && items.len() == 1));
    assert!(matches!(&once[3], PandocBlock::Null));
    let rendering = format!("{:?}", once);
    let twice = ListBuilder::collect_document_lists(once);
    assert_eq!(format!("{:?}", twice), rendering);
}
