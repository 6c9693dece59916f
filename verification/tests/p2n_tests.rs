use pandoc_notion::notion_api::{Annotations, BlockType, Language, Link, RichText, Text, TextColor};
use pandoc_notion::p2n::block_dispatcher::PandocToNotionDispatcher;
use pandoc_notion::p2n::pandoc_block_visitor::PandocToNotionVisitor;
use pandoc_notion::p2n::visitor::{PandocBlockVisitable, PandocBlockVisitor};
use pandoc_notion::p2n::pandoc_code::{NotionCodeBuilder, PandocCodeConverter};
use pandoc_notion::p2n::pandoc_divider::PandocDividerConverter;
use pandoc_notion::p2n::pandoc_heading::PandocHeadingConverter;
use pandoc_notion::p2n::pandoc_list::PandocListConverter;
use pandoc_notion::p2n::pandoc_paragraph::PandocParagraphConverter;
use pandoc_notion::p2n::pandoc_quote::PandocQuoteConverter;
use pandoc_notion::p2n::pandoc_text::{ConversionError, PandocTextConverter, TextBuilder};
use pandoc_notion::pandoc::{
    Attr, Block as PandocBlock, Inline, ListAttributes, ListNumberDelim, ListNumberStyle, MathType,
    Target,
};

fn create_text_inline(text: &str) -> Vec<Inline> {
    vec![Inline::Str(text.to_string())]
}

fn text_parts(r: &RichText) -> (String, Option<Annotations>) {
    match r {
        RichText::Text { text, annotations, .. } => (text.content.clone(), *annotations),
        _ => panic!("Expected Text variant"),
    }
}

// ---- Pandoc inlines to Notion rich text ----

#[test]
fn test_convert_simple_text() {
    let converter = PandocTextConverter::new();
    let elements = create_text_inline("Hello world");
    let result = converter.convert(&elements).unwrap();
    assert_eq!(result.len(), 1);
    match &result[0] {
        RichText::Text { text, .. } => assert_eq!(text.content, "Hello world"),
        _ => panic!("Expected Text variant"),
    }
}

#[test]
fn pandoc_text_test_convert_bold_text() {
    let converter = PandocTextConverter::new();
    let elements = vec![Inline::Strong(vec![Inline::Str("Bold text".to_string())])];
    let result = converter.convert(&elements).unwrap();
    assert_eq!(result.len(), 1);
    let (content, ann) = text_parts(&result[0]);
    assert_eq!(content, "Bold text");
    assert!(ann.expect("Expected annotations").bold);
}

#[test]
fn pandoc_text_test_convert_italic_text() {
    let converter = PandocTextConverter::new();
    let elements = vec![Inline::Emph(vec![Inline::Str("Italic text".to_string())])];
    let result = converter.convert(&elements).unwrap();
    assert_eq!(result.len(), 1);
    let (content, ann) = text_parts(&result[0]);
    assert_eq!(content, "Italic text");
    assert!(ann.expect("Expected annotations").italic);
}

#[test]
fn pandoc_text_test_convert_strikethrough_text() {
    let converter = PandocTextConverter::new();
    let elements = vec![Inline::Strikeout(vec![Inline::Str("Strikethrough text".to_string())])];
    let result = converter.convert(&elements).unwrap();
    assert_eq!(result.len(), 1);
    let (content, ann) = text_parts(&result[0]);
    assert_eq!(content, "Strikethrough text");
    assert!(ann.expect("Expected annotations").strikethrough);
}

#[test]
fn test_convert_code() {
    let converter = PandocTextConverter::new();
    let elements = vec![Inline::Code(Attr::new(), "code sample".to_string())];
    let result = converter.convert(&elements).unwrap();
    assert_eq!(result.len(), 1);
    let (content, ann) = text_parts(&result[0]);
    assert_eq!(content, "code sample");
    assert!(ann.expect("Expected annotations").code);
}

#[test]
fn test_convert_math() {
    let converter = PandocTextConverter::new();
    let elements = vec![Inline::Math(MathType::InlineMath, "E=mc^2".to_string())];
    let result = converter.convert(&elements).unwrap();
    assert_eq!(result.len(), 1);
    match &result[0] {
        RichText::Equation { equation, .. } => assert_eq!(equation.expression, "E=mc^2"),
        _ => panic!("Expected Equation variant"),
    }
}

#[test]
fn pandoc_text_test_convert_link() {
    let converter = PandocTextConverter::new();
    let elements = vec![Inline::Link(
        Attr::new(),
        vec![Inline::Str("Link text".to_string())],
        Target { url: "https://example.com".to_string(), title: "".to_string() },
    )];
    let result = converter.convert(&elements).unwrap();
    assert_eq!(result.len(), 1);
    match &result[0] {
        RichText::Text { text, .. } => {
            assert_eq!(text.content, "Link text");
            assert!(text.link.is_some());
            if let Some(link) = &text.link {
                assert_eq!(link.url, "https://example.com");
            }
        }
        _ => panic!("Expected Text variant"),
    }
}

#[test]
fn test_convert_nested_formatting() {
    let converter = PandocTextConverter::new();
    let elements = vec![Inline::Strong(vec![
        Inline::Str("Bold ".to_string()),
        Inline::Emph(vec![Inline::Str("and italic".to_string())]),
        Inline::Str(" text".to_string()),
    ])];
    let result = converter.convert(&elements).unwrap();
    assert_eq!(result.len(), 3);
    let (c0, a0) = text_parts(&result[0]);
    assert_eq!(c0, "Bold ");
    if let Some(ann) = a0 {
        assert!(ann.bold);
        assert!(!ann.italic);
    }
    let (c1, a1) = text_parts(&result[1]);
    assert_eq!(c1, "and italic");
    if let Some(ann) = a1 {
        assert!(ann.bold);
        assert!(ann.italic);
    }
    let (c2, a2) = text_parts(&result[2]);
    assert_eq!(c2, " text");
    if let Some(ann) = a2 {
        assert!(ann.bold);
        assert!(!ann.italic);
    }
}

#[test]
fn test_convert_color() {
    let converter = PandocTextConverter::new();
    let attr = Attr::with_class("color-red".to_string());
    let elements = vec![Inline::Span(attr, vec![Inline::Str("Colored text".to_string())])];
    let result = converter.convert(&elements).unwrap();
    assert_eq!(result.len(), 1);
    let (content, ann) = text_parts(&result[0]);
    assert_eq!(content, "Colored text");
    assert_eq!(ann.expect("Expected annotations").color, TextColor::Red);
}

#[test]
fn test_convert_complex_formatting() {
    let converter = PandocTextConverter::new();
    let color_attr = Attr::with_class("color-red".to_string());
    let elements = vec![Inline::Span(
        color_attr,
        vec![Inline::Strong(vec![
            Inline::Emph(vec![Inline::Str("Complex ".to_string())]),
            Inline::Str("formatting".to_string()),
        ])],
    )];
    let result = converter.convert(&elements).unwrap();
    assert_eq!(result.len(), 2);
    let (c0, a0) = text_parts(&result[0]);
    assert_eq!(c0, "Complex ");
    if let Some(ann) = a0 {
        assert!(ann.bold);
        assert!(ann.italic);
        assert_eq!(ann.color, TextColor::Red);
    }
    let (c1, a1) = text_parts(&result[1]);
    assert_eq!(c1, "formatting");
    if let Some(ann) = a1 {
        assert!(ann.bold);
        assert!(!ann.italic);
        assert_eq!(ann.color, TextColor::Red);
    }
}

#[test]
fn unsupported_inline_is_an_error() {
    let converter = PandocTextConverter::new();
    let elements = vec![Inline::Other("Superscript".to_string(), "Superscript([Str(\"2\")])".to_string())];
    assert!(converter.convert(&elements).is_err());
}

#[test]
fn spaces_and_breaks_join_text() {
    let converter = PandocTextConverter::new();
    let elements = vec![
        Inline::Str("a".to_string()),
        Inline::Space,
        Inline::Str("b".to_string()),
        Inline::SoftBreak,
        Inline::Str("c".to_string()),
        Inline::LineBreak,
        Inline::Str("d".to_string()),
    ];
    let result = converter.convert(&elements).unwrap();
    // A soft break starts a new object with a space, a line break one with
    // a newline.
    assert_eq!(result.len(), 3);
    assert_eq!(text_parts(&result[0]).0, "a b");
    assert_eq!(text_parts(&result[1]).0, " c");
    assert_eq!(text_parts(&result[2]).0, "\nd");
}

// ---- The rich-text builder ----

fn only_text(result: &[RichText]) -> (String, Option<Annotations>) {
    assert_eq!(result.len(), 1);
    text_parts(&result[0])
}

#[test]
fn test_text_builder_basics() {
    let mut builder = TextBuilder::new();
    builder.append_text("Hello");
    builder.append_text(" world");
    let result = builder.build().unwrap();
    assert_eq!(only_text(&result).0, "Hello world");
}

#[test]
fn test_text_builder_newlines() {
    let mut builder = TextBuilder::new();
    builder.append_text("Line 1");
    builder.append_text("\n");
    builder.append_text("Line 2");
    let result = builder.build().unwrap();
    assert_eq!(only_text(&result).0, "Line 1\nLine 2");
}

#[test]
fn test_text_builder_bold() {
    let mut builder = TextBuilder::new();
    builder.update_annotation(|a| Annotations { bold: true, ..a });
    builder.append_text("Bold text");
    let result = builder.build().unwrap();
    let (content, ann) = only_text(&result);
    assert_eq!(content, "Bold text");
    assert!(ann.expect("Expected annotations").bold);
}

#[test]
fn test_text_builder_italic() {
    let mut builder = TextBuilder::new();
    builder.update_annotation(|a| Annotations { italic: true, ..a });
    builder.append_text("Italic text");
    let result = builder.build().unwrap();
    let (content, ann) = only_text(&result);
    assert_eq!(content, "Italic text");
    assert!(ann.expect("Expected annotations").italic);
}

#[test]
fn test_text_builder_strikethrough() {
    let mut builder = TextBuilder::new();
    builder.update_annotation(|a| Annotations { strikethrough: true, ..a });
    builder.append_text("Strikethrough text");
    let result = builder.build().unwrap();
    let (content, ann) = only_text(&result);
    assert_eq!(content, "Strikethrough text");
    assert!(ann.expect("Expected annotations").strikethrough);
}

#[test]
fn test_text_builder_code() {
    let mut builder = TextBuilder::new();
    builder.update_annotation(|a| Annotations { code: true, ..a });
    builder.append_text("Code example");
    let result = builder.build().unwrap();
    let (content, ann) = only_text(&result);
    assert_eq!(content, "Code example");
    assert!(ann.expect("Expected annotations").code);
}

#[test]
fn test_text_builder_color() {
    let mut builder = TextBuilder::new();
    builder.update_annotation(|a| Annotations { color: TextColor::Red, ..a });
    builder.append_text("Red text");
    let result = builder.build().unwrap();
    let (content, ann) = only_text(&result);
    assert_eq!(content, "Red text");
    assert_eq!(ann.expect("Expected annotations").color, TextColor::Red);
}

#[test]
fn test_text_builder_background_color() {
    let mut builder = TextBuilder::new();
    builder.update_annotation(|a| Annotations { color: TextColor::BlueBackground, ..a });
    builder.append_text("Blue background text");
    let result = builder.build().unwrap();
    let (content, ann) = only_text(&result);
    assert_eq!(content, "Blue background text");
    assert_eq!(ann.expect("Expected annotations").color, TextColor::BlueBackground);
}

#[test]
fn test_text_builder_underline() {
    let mut builder = TextBuilder::new();
    builder.update_annotation(|a| Annotations { underline: true, ..a });
    builder.append_text("Underlined text");
    let result = builder.build().unwrap();
    let (content, ann) = only_text(&result);
    assert_eq!(content, "Underlined text");
    assert!(ann.expect("Expected annotations").underline);
}

#[test]
fn test_text_builder_equation() {
    let mut builder = TextBuilder::new();
    builder.commit_equation("E=mc^2");
    let result = builder.build().unwrap();
    assert_eq!(result.len(), 1);
    match &result[0] {
        RichText::Equation { equation, .. } => assert_eq!(equation.expression, "E=mc^2"),
        _ => panic!("Expected Equation variant"),
    }
}

#[test]
fn test_text_builder_link() {
    let mut builder = TextBuilder::new();
    builder.set_link(Link { url: "https://example.com".to_string() });
    builder.append_text("Link text");
    let result = builder.build().unwrap();
    assert_eq!(result.len(), 1);
    match &result[0] {
        RichText::Text { text, href, .. } => {
            assert_eq!(text.content, "Link text");
            assert!(text.link.is_some());
            if let Some(link) = &text.link {
                assert_eq!(link.url, "https://example.com");
            }
            assert_eq!(href, &Some("https://example.com".to_string()));
        }
        _ => panic!("Expected Text variant with link"),
    }
}

#[test]
fn test_text_builder_multiple_objects() {
    let mut builder = TextBuilder::new();
    builder.append_text("First part");
    builder.commit_current_text();
    builder.update_annotation(|a| Annotations { bold: true, ..a });
    builder.append_text("Second part");
    let result = builder.build().unwrap();
    assert_eq!(result.len(), 2);
    assert_eq!(text_parts(&result[0]).0, "First part");
    let (content, ann) = text_parts(&result[1]);
    assert_eq!(content, "Second part");
    assert!(ann.expect("Expected annotations").bold);
}

#[test]
fn test_text_builder_unicode() {
    let mut builder = TextBuilder::new();
    builder.append_text("Unicode: 你好, こんにちは, 안녕하세요, Привет, 😊");
    let result = builder.build().unwrap();
    assert_eq!(only_text(&result).0, "Unicode: 你好, こんにちは, 안녕하세요, Привет, 😊");
}

#[test]
fn test_text_builder_combined_formatting() {
    let mut builder = TextBuilder::new();
    builder.update_annotation(|a| Annotations { bold: true, italic: true, underline: true, ..a });
    builder.append_text("Bold, italic and underlined");
    let result = builder.build().unwrap();
    let (content, ann) = only_text(&result);
    assert_eq!(content, "Bold, italic and underlined");
    let ann = ann.expect("Expected annotations");
    assert!(ann.bold);
    assert!(ann.italic);
    assert!(ann.underline);
}

#[test]
fn empty_builder_builds_nothing() {
    let builder = TextBuilder::new();
    assert!(builder.build().unwrap().is_empty());
}

// ---- Code blocks ----

fn class_attr(classes: &[&str]) -> Attr {
    Attr {
        identifier: String::new(),
        classes: classes.iter().map(|c| c.to_string()).collect(),
        attributes: vec![],
    }
}

#[test]
fn test_convert_simple_code_block() {
    let code_converter = PandocCodeConverter::new();
    let attr = class_attr(&["python"]);
    let content = "def hello_world():\n    print('Hello, world!')";
    let result = code_converter.convert(&attr, content).unwrap();
    match &result.block_type {
        BlockType::Code { code } => {
            let combined_text: String =
                code.rich_text.iter().map(|rt| rt.plain_text().unwrap_or_default()).collect();
            assert_eq!(combined_text, content);
            assert_eq!(code.language, Language::Python);
            assert!(code.caption.is_empty());
        }
        _ => panic!("Expected a Code block"),
    }
}

#[test]
fn pandoc_code_test_language_mapping() {
    let code_converter = PandocCodeConverter::new();
    assert_eq!(code_converter.map_language_to_notion("python"), Language::Python);
    assert_eq!(code_converter.map_language_to_notion("py"), Language::Python);
    assert_eq!(code_converter.map_language_to_notion("rust"), Language::Rust);
    assert_eq!(code_converter.map_language_to_notion("js"), Language::Javascript);
    assert_eq!(code_converter.map_language_to_notion("c++"), Language::CPlusPlus);
    assert_eq!(code_converter.map_language_to_notion("plaintext"), Language::PlainText);
    assert_eq!(code_converter.map_language_to_notion("unknown"), Language::PlainText);
}

#[test]
fn pandoc_code_test_try_convert() {
    let code_converter = PandocCodeConverter::new();
    let attr = class_attr(&["rust"]);
    let content = "fn main() { println!(\"Hello\"); }";
    let block = PandocBlock::CodeBlock(attr, content.to_string());
    let result = code_converter.try_convert(&block, None).unwrap();
    assert!(result.is_some());
    let non_code_block = PandocBlock::Para(vec![Inline::Str("Not code".to_string())]);
    let result = code_converter.try_convert(&non_code_block, None).unwrap();
    assert!(result.is_none());
}

#[test]
fn test_builder() {
    let builder = NotionCodeBuilder::new().language(Language::Javascript).add_rich_text(RichText::Text {
        text: Text { content: "console.log('test');".to_string(), link: None },
        annotations: None,
        plain_text: Some("console.log('test');".to_string()),
        href: None,
    });
    let block = builder.build();
    match &block.block_type {
        BlockType::Code { code } => {
            assert_eq!(code.language, Language::Javascript);
            assert_eq!(code.rich_text.len(), 1);
            assert_eq!(code.rich_text[0].plain_text().unwrap(), "console.log('test');");
        }
        _ => panic!("Expected Code block"),
    }
}

#[test]
fn test_determine_language() {
    let code_converter = PandocCodeConverter::new();
    assert_eq!(code_converter.determine_language(&class_attr(&["python"])), Language::Python);
    assert_eq!(code_converter.determine_language(&class_attr(&["rust", "highlighted"])), Language::Rust);
    assert_eq!(code_converter.determine_language(&class_attr(&[])), Language::PlainText);
}

#[test]
fn language_aliases_and_case() {
    let c = PandocCodeConverter::new();
    assert_eq!(c.map_language_to_notion("ts"), Language::Typescript);
    assert_eq!(c.map_language_to_notion("TS"), Language::PlainText);
    assert_eq!(c.determine_language(&class_attr(&["TS"])), Language::Typescript);
    assert_eq!(c.map_language_to_notion("sh"), Language::Bash);
    assert_eq!(c.map_language_to_notion("yml"), Language::Yaml);
    assert_eq!(c.map_language_to_notion("go"), Language::Go);
}

// ---- Dividers ----

#[test]
fn test_convert_horizontal_rule() {
    let converter = PandocDividerConverter::new();
    let result = converter.convert(&PandocBlock::HorizontalRule, None).unwrap().unwrap();
    match result.block_type {
        BlockType::Divider => {}
        _ => panic!("Expected Divider block type"),
    }
}

#[test]
fn test_non_divider_block() {
    let converter = PandocDividerConverter::new();
    let result = converter.convert(&PandocBlock::Null, None).unwrap();
    assert!(result.is_none());
}

// ---- Headings ----

#[test]
fn test_convert_simple_heading() {
    let converter = PandocHeadingConverter::new();
    let heading = PandocBlock::Header(1, Attr::new(), vec![Inline::Str("Test Heading".to_string())]);
    let result = converter.convert(&heading, None).unwrap().unwrap();
    match result.block_type {
        BlockType::Heading1 { heading_1 } => {
            assert_eq!(heading_1.rich_text.len(), 1);
            assert_eq!(heading_1.rich_text[0].plain_text().unwrap(), "Test Heading");
            assert_eq!(heading_1.is_toggleable, None);
        }
        _ => panic!("Expected Heading1 block type"),
    }
}

#[test]
fn test_convert_toggleable_heading() {
    let converter = PandocHeadingConverter::new();
    let attr = Attr::with_class("toggleable".to_string());
    let heading = PandocBlock::Header(2, attr, vec![Inline::Str("Toggleable Heading".to_string())]);
    let result = converter.convert(&heading, None).unwrap().unwrap();
    match result.block_type {
        BlockType::Heading2 { heading_2 } => {
            assert_eq!(heading_2.rich_text.len(), 1);
            assert_eq!(heading_2.rich_text[0].plain_text().unwrap(), "Toggleable Heading");
            assert_eq!(heading_2.is_toggleable, Some(true));
        }
        _ => panic!("Expected Heading2 block type"),
    }
}

#[test]
fn test_convert_colored_heading() {
    let converter = PandocHeadingConverter::new();
    let attr = Attr::with_attribute("data-color".to_string(), "red".to_string());
    let heading = PandocBlock::Header(3, attr, vec![Inline::Str("Colored Heading".to_string())]);
    let result = converter.convert(&heading, None).unwrap().unwrap();
    match result.block_type {
        BlockType::Heading3 { heading_3 } => {
            assert_eq!(heading_3.rich_text.len(), 1);
            assert_eq!(heading_3.rich_text[0].plain_text().unwrap(), "Colored Heading");
            assert_eq!(heading_3.color, Some(TextColor::Red));
        }
        _ => panic!("Expected Heading3 block type"),
    }
}

#[test]
fn test_level_clamping() {
    let converter = PandocHeadingConverter::new();
    let heading = PandocBlock::Header(6, Attr::new(), vec![Inline::Str("Level 6 Heading".to_string())]);
    let result = converter.convert(&heading, None).unwrap().unwrap();
    match result.block_type {
        BlockType::Heading3 { heading_3 } => {
            assert_eq!(heading_3.rich_text.len(), 1);
            assert_eq!(heading_3.rich_text[0].plain_text().unwrap(), "Level 6 Heading");
        }
        _ => panic!("Expected Heading3 block type due to clamping"),
    }
}

#[test]
fn level_is_taken_as_a_byte_then_clamped() {
    let converter = PandocHeadingConverter::new();
    let heading = PandocBlock::Header(0, Attr::new(), vec![Inline::Str("H".to_string())]);
    match converter.convert(&heading, None).unwrap().unwrap().block_type {
        BlockType::Heading1 { .. } => {}
        _ => panic!("Expected Heading1"),
    }
    // -3 is 253 as a byte, which clamps to level 3.
    let heading = PandocBlock::Header(-3, Attr::new(), vec![Inline::Str("H".to_string())]);
    match converter.convert(&heading, None).unwrap().unwrap().block_type {
        BlockType::Heading3 { .. } => {}
        _ => panic!("Expected Heading3"),
    }
    // 257 is 1 as a byte.
    let heading = PandocBlock::Header(257, Attr::new(), vec![Inline::Str("H".to_string())]);
    match converter.convert(&heading, None).unwrap().unwrap().block_type {
        BlockType::Heading1 { .. } => {}
        _ => panic!("Expected Heading1"),
    }
}

// ---- Paragraphs ----

#[test]
fn test_convert_simple_paragraph() {
    let converter = PandocParagraphConverter::new();
    let paragraph = PandocBlock::Para(vec![Inline::Str("This is a test paragraph.".to_string())]);
    let result = converter.convert(&paragraph, None).unwrap().unwrap();
    match result.block_type {
        BlockType::Paragraph { paragraph } => {
            assert_eq!(paragraph.rich_text.len(), 1);
            assert_eq!(paragraph.rich_text[0].plain_text().unwrap(), "This is a test paragraph.");
            assert_eq!(paragraph.color, None);
        }
        _ => panic!("Expected Paragraph block type"),
    }
}

#[test]
fn test_convert_colored_paragraph() {
    let converter = PandocParagraphConverter::new();
    let attr = Attr::with_attribute("data-color".to_string(), "blue".to_string());
    let inner_content = vec![Inline::Str("This is a blue paragraph.".to_string())];
    let paragraph = PandocBlock::Para(vec![Inline::Span(attr, inner_content)]);
    let result = converter.convert(&paragraph, None).unwrap().unwrap();
    match result.block_type {
        BlockType::Paragraph { paragraph } => {
            assert_eq!(paragraph.rich_text.len(), 1);
            assert_eq!(paragraph.rich_text[0].plain_text().unwrap(), "This is a blue paragraph.");
            assert_eq!(paragraph.color, Some(TextColor::Blue));
        }
        _ => panic!("Expected Paragraph block type"),
    }
}

#[test]
fn test_convert_with_parent() {
    let converter = PandocParagraphConverter::new();
    let paragraph = PandocBlock::Para(vec![Inline::Str("Paragraph with parent.".to_string())]);
    let result = converter.convert(&paragraph, None).unwrap().unwrap();
    assert!(result.parent.is_none());
}

#[test]
fn test_convert_complex_paragraph() {
    let converter = PandocParagraphConverter::new();
    let paragraph = PandocBlock::Para(vec![
        Inline::Str("This is ".to_string()),
        Inline::Emph(vec![Inline::Str("emphasized".to_string())]),
        Inline::Str(" and ".to_string()),
        Inline::Strong(vec![Inline::Str("strong".to_string())]),
        Inline::Str(" text.".to_string()),
    ]);
    let result = converter.convert(&paragraph, None).unwrap().unwrap();
    match result.block_type {
        BlockType::Paragraph { paragraph } => {
            assert!(paragraph.rich_text.len() >= 3);
            let full_text: String = paragraph.rich_text.iter().filter_map(|rt| rt.plain_text()).collect();
            assert_eq!(full_text, "This is emphasized and strong text.");
        }
        _ => panic!("Expected Paragraph block type"),
    }
}

// ---- Quotes ----

#[test]
fn test_convert_simple_quote() {
    let quote_converter = PandocQuoteConverter::new();
    let para = PandocBlock::Para(vec![Inline::Str("This is a test quote".to_string())]);
    let block_quote = vec![para];
    let result = quote_converter.convert(&block_quote).unwrap();
    match &result.block_type {
        BlockType::Quote { quote } => {
            assert_eq!(quote.rich_text.len(), 1);
            assert_eq!(quote.rich_text[0].plain_text().unwrap(), "This is a test quote");
            assert_eq!(quote.color, TextColor::Default);
            assert!(quote.children.is_none());
        }
        _ => panic!("Expected a Quote block"),
    }
}

#[test]
fn test_convert_colored_quote() {
    let quote_converter = PandocQuoteConverter::new();
    let attr = Attr::with_attribute("data-color".to_string(), "blue".to_string());
    let span = Inline::Span(attr, vec![Inline::Str("This is a blue quote".to_string())]);
    let block_quote = vec![PandocBlock::Para(vec![span])];
    let result = quote_converter.convert(&block_quote).unwrap();
    match &result.block_type {
        BlockType::Quote { quote } => {
            assert_eq!(quote.rich_text.len(), 1);
            assert_eq!(quote.rich_text[0].plain_text().unwrap(), "This is a blue quote");
            assert_eq!(quote.color, TextColor::Blue);
        }
        _ => panic!("Expected a Quote block"),
    }
}

#[test]
fn pandoc_quote_test_try_convert() {
    let quote_converter = PandocQuoteConverter::new();
    let para = PandocBlock::Para(vec![Inline::Str("Quote content".to_string())]);
    let block = PandocBlock::BlockQuote(vec![para]);
    let result = quote_converter.try_convert(&block, None).unwrap();
    assert!(result.is_some());
    let non_quote_block = PandocBlock::Para(vec![Inline::Str("Not a quote".to_string())]);
    let result = quote_converter.try_convert(&non_quote_block, None).unwrap();
    assert!(result.is_none());
}

#[test]
fn quote_keeps_following_blocks_as_children() {
    let quote_converter = PandocQuoteConverter::new();
    let blocks = vec![
        PandocBlock::Para(vec![Inline::Str("Head".to_string())]),
        PandocBlock::Para(vec![Inline::Str("Second".to_string())]),
    ];
    let result = quote_converter.convert(&blocks).unwrap();
    match &result.block_type {
        BlockType::Quote { quote } => {
            let children = quote.children.as_ref().expect("children");
            assert_eq!(children.len(), 1);
            match &children[0].block_type {
                BlockType::Paragraph { paragraph } => {
                    assert_eq!(paragraph.rich_text[0].plain_text().unwrap(), "Second");
                }
                _ => panic!("Expected a paragraph child"),
            }
        }
        _ => panic!("Expected a Quote block"),
    }
}

// ---- Lists ----

fn list_text(b: &BlockType) -> String {
    match b {
        BlockType::BulletedListItem { bulleted_list_item } => {
            assert_eq!(bulleted_list_item.rich_text.len(), 1);
            bulleted_list_item.rich_text[0].plain_text().unwrap()
        }
        BlockType::NumberedListItem { numbered_list_item } => {
            assert_eq!(numbered_list_item.rich_text.len(), 1);
            numbered_list_item.rich_text[0].plain_text().unwrap()
        }
        _ => panic!("Expected a list item"),
    }
}

fn decimal_period() -> ListAttributes {
    ListAttributes { start_number: 1, style: ListNumberStyle::Decimal, delim: ListNumberDelim::Period }
}

#[test]
fn test_convert_simple_bullet_list() {
    let converter = PandocListConverter::new();
    let item1 = vec![PandocBlock::Plain(vec![Inline::Str("Item 1".to_string())])];
    let item2 = vec![PandocBlock::Plain(vec![Inline::Str("Item 2".to_string())])];
    let result = converter.convert(&PandocBlock::BulletList(vec![item1, item2])).unwrap();
    assert_eq!(result.len(), 2);
    for (block, expected) in result.iter().zip(["Item 1", "Item 2"]) {
        match &block.block_type {
            BlockType::BulletedListItem { bulleted_list_item } => {
                assert_eq!(list_text(&block.block_type), expected);
                assert_eq!(bulleted_list_item.color, TextColor::Default);
            }
            _ => panic!("Expected BulletedListItem block type"),
        }
    }
}

#[test]
fn test_convert_simple_ordered_list() {
    let converter = PandocListConverter::new();
    let item1 = vec![PandocBlock::Plain(vec![Inline::Str("First item".to_string())])];
    let item2 = vec![PandocBlock::Plain(vec![Inline::Str("Second item".to_string())])];
    let result = converter.convert(&PandocBlock::OrderedList(decimal_period(), vec![item1, item2])).unwrap();
    assert_eq!(result.len(), 2);
    for (block, expected) in result.iter().zip(["First item", "Second item"]) {
        match &block.block_type {
            BlockType::NumberedListItem { numbered_list_item } => {
                assert_eq!(list_text(&block.block_type), expected);
                assert_eq!(numbered_list_item.color, TextColor::Default);
            }
            _ => panic!("Expected NumberedListItem block type"),
        }
    }
}

#[test]
fn test_convert_todo_item() {
    let converter = PandocListConverter::new();
    let item = vec![PandocBlock::Plain(vec![
        Inline::Str("☐".to_string()),
        Inline::Space,
        Inline::Str("Unchecked task".to_string()),
    ])];
    let result = converter.process_potential_todo_item(&item).unwrap();
    assert!(result.is_some());
    match result.unwrap().block_type {
        BlockType::ToDo { to_do } => {
            assert_eq!(to_do.rich_text.len(), 1);
            assert_eq!(to_do.rich_text[0].plain_text().unwrap(), "Unchecked task");
            assert_eq!(to_do.checked, Some(false));
        }
        _ => panic!("Expected ToDo block type"),
    }
    let item = vec![PandocBlock::Plain(vec![
        Inline::Str("☒".to_string()),
        Inline::Space,
        Inline::Str("Checked task".to_string()),
    ])];
    let result = converter.process_potential_todo_item(&item).unwrap();
    assert!(result.is_some());
    match result.unwrap().block_type {
        BlockType::ToDo { to_do } => {
            assert_eq!(to_do.rich_text.len(), 1);
            assert_eq!(to_do.rich_text[0].plain_text().unwrap(), "Checked task");
            assert_eq!(to_do.checked, Some(true));
        }
        _ => panic!("Expected ToDo block type"),
    }
}

#[test]
fn test_nested_list() {
    let converter = PandocListConverter::new();
    let nested_item1 = vec![PandocBlock::Plain(vec![Inline::Str("Nested 1".to_string())])];
    let nested_item2 = vec![PandocBlock::Plain(vec![Inline::Str("Nested 2".to_string())])];
    let nested_list = PandocBlock::OrderedList(decimal_period(), vec![nested_item1, nested_item2]);
    let parent_item = vec![PandocBlock::Plain(vec![Inline::Str("Parent item".to_string())]), nested_list];
    let result = converter.convert(&PandocBlock::BulletList(vec![parent_item])).unwrap();
    assert_eq!(result.len(), 1);
    match &result[0].block_type {
        BlockType::BulletedListItem { bulleted_list_item } => {
            assert_eq!(list_text(&result[0].block_type), "Parent item");
            assert!(bulleted_list_item.children.is_some(), "Children is None, expected Some");
            let children = bulleted_list_item.children.as_ref().unwrap();
            assert_eq!(children.len(), 2);
            match &children[0].block_type {
                BlockType::NumberedListItem { .. } => assert_eq!(list_text(&children[0].block_type), "Nested 1"),
                _ => panic!("Expected NumberedListItem block type for first child"),
            }
            match &children[1].block_type {
                BlockType::NumberedListItem { .. } => assert_eq!(list_text(&children[1].block_type), "Nested 2"),
                _ => panic!("Expected NumberedListItem block type for second child"),
            }
        }
        _ => panic!("Expected BulletedListItem block type"),
    }
}

#[test]
fn non_list_block_gives_no_items() {
    let converter = PandocListConverter::new();
    let result = converter.convert(&PandocBlock::Para(vec![Inline::Str("x".to_string())])).unwrap();
    assert!(result.is_empty());
}

// ---- The block visitor ----

#[test]
fn test_convert_paragraph() {
    let visitor = PandocToNotionVisitor::new();
    let paragraph = PandocBlock::Para(vec![Inline::Str("Test paragraph".to_string())]);
    let result = visitor.visit_block(&paragraph, None).unwrap();
    assert_eq!(result.len(), 1);
    match &result[0].block_type {
        BlockType::Paragraph { paragraph } => {
            assert_eq!(paragraph.rich_text.len(), 1);
            assert_eq!(paragraph.rich_text[0].plain_text().unwrap(), "Test paragraph");
        }
        _ => panic!("Expected Paragraph block type"),
    }
}

#[test]
fn test_convert_header() {
    let visitor = PandocToNotionVisitor::new();
    let header = PandocBlock::Header(2, Attr::new(), vec![Inline::Str("Test heading".to_string())]);
    let result = visitor.visit_block(&header, None).unwrap();
    assert_eq!(result.len(), 1);
    match &result[0].block_type {
        BlockType::Heading2 { heading_2 } => {
            assert_eq!(heading_2.rich_text.len(), 1);
            assert_eq!(heading_2.rich_text[0].plain_text().unwrap(), "Test heading");
        }
        _ => panic!("Expected Heading2 block type"),
    }
}

#[test]
fn test_convert_plain() {
    let visitor = PandocToNotionVisitor::new();
    let plain = PandocBlock::Plain(vec![Inline::Str("Plain text".to_string())]);
    let result = visitor.visit_block(&plain, None).unwrap();
    assert_eq!(result.len(), 1);
    match &result[0].block_type {
        BlockType::Paragraph { paragraph } => {
            assert_eq!(paragraph.rich_text.len(), 1);
            assert_eq!(paragraph.rich_text[0].plain_text().unwrap(), "Plain text");
        }
        _ => panic!("Expected Paragraph block type"),
    }
}

#[test]
fn test_convert_unsupported() {
    let visitor = PandocToNotionVisitor::new();
    let code_block = PandocBlock::CodeBlock(Attr::new(), "function test() { return true; }".to_string());
    let result = visitor.visit_block(&code_block, None).unwrap();
    assert_eq!(result.len(), 1);
    match &result[0].block_type {
        BlockType::Paragraph { paragraph } => {
            assert_eq!(paragraph.rich_text.len(), 1);
            let text = paragraph.rich_text[0].plain_text().unwrap();
            assert!(text.contains("Unsupported Pandoc block type"));
            assert!(text.contains("CodeBlock"));
        }
        _ => panic!("Expected Paragraph block type"),
    }
}

#[test]
fn test_convert_blocks() {
    let visitor = PandocToNotionVisitor::new();
    let blocks = vec![
        PandocBlock::Header(1, Attr::new(), vec![Inline::Str("Document Title".to_string())]),
        PandocBlock::Para(vec![Inline::Str("First paragraph".to_string())]),
        PandocBlock::Header(2, Attr::new(), vec![Inline::Str("Section Heading".to_string())]),
        PandocBlock::Para(vec![Inline::Str("Second paragraph".to_string())]),
    ];
    let result = visitor.convert_blocks(&blocks, None).unwrap();
    assert_eq!(result.len(), 4);
    match &result[0].block_type {
        BlockType::Heading1 { heading_1 } => assert_eq!(heading_1.rich_text[0].plain_text().unwrap(), "Document Title"),
        _ => panic!("Expected Heading1 block type"),
    }
    match &result[1].block_type {
        BlockType::Paragraph { paragraph } => assert_eq!(paragraph.rich_text[0].plain_text().unwrap(), "First paragraph"),
        _ => panic!("Expected Paragraph block type"),
    }
    match &result[2].block_type {
        BlockType::Heading2 { heading_2 } => assert_eq!(heading_2.rich_text[0].plain_text().unwrap(), "Section Heading"),
        _ => panic!("Expected Heading2 block type"),
    }
    match &result[3].block_type {
        BlockType::Paragraph { paragraph } => assert_eq!(paragraph.rich_text[0].plain_text().unwrap(), "Second paragraph"),
        _ => panic!("Expected Paragraph block type"),
    }
}

#[test]
fn error_messages_name_their_kind() {
    assert_eq!(ConversionError::UnsupportedElement("X".to_string()).message(), "Unsupported element: X");
    assert_eq!(ConversionError::InvalidFormat("bad".to_string()).message(), "Invalid format: bad");
}

#[test]
fn cloned_dispatcher_converts_the_same() {
    let d = PandocToNotionDispatcher::new();
    let c = d.clone();
    let block = PandocBlock::Para(vec![Inline::Str("x".to_string())]);
    let a = d.convert(&block, None).unwrap();
    let b = c.convert(&block, None).unwrap();
    assert_eq!(a.is_some(), b.is_some());
    assert!(a.is_some());
}

#[test]
fn accepted_pandoc_block_goes_through_the_visitor() {
    let visitor = PandocToNotionVisitor::new();
    let header = PandocBlock::Header(3, Attr::new(), vec![Inline::Str("Deep".to_string())]);
    let through_trait = header.accept(&visitor, Some("page".to_string())).unwrap();
    assert_eq!(through_trait.len(), 1);
    assert_eq!(through_trait[0].parent, Some("page".to_string()));
    assert!(matches!(through_trait[0].block_type, BlockType::Heading3 { .. }));
    let blocks = vec![header, PandocBlock::Plain(vec![Inline::Str("text".to_string())])];
    let all = PandocBlockVisitor::process_blocks(&visitor, &blocks, None).unwrap();
    assert_eq!(all.len(), 2);
    assert!(matches!(all[1].block_type, BlockType::Paragraph { .. }));
}

#[test]
fn converted_text_keeps_the_inline_text() {
    let inlines = vec![
        Inline::Str("Hello".to_string()),
        Inline::Space,
        Inline::Strong(vec![Inline::Str("bold".to_string()), Inline::SoftBreak, Inline::Emph(vec![])]),
        Inline::LineBreak,
        Inline::Code(Attr::new(), "x+1".to_string()),
        Inline::Strikeout(vec![]),
    ];
    let rts = PandocTextConverter::new().convert(&inlines).unwrap();
    let mut text = String::new();
    for rt in &rts {
        match rt {
            RichText::Text { text: t, .. } => {
                assert!(!t.content.is_empty());
                text.push_str(&t.content);
            }
            _ => {}
        }
    }
    assert_eq!(text, "Hello bold \nx+1");
}
