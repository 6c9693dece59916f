use pandoc_notion::n2p::notion_text::NotionTextConverter;
use pandoc_notion::notion_api::{Annotations, Equation, Link, RichText, Text, TextColor};
use pandoc_notion::p2n::pandoc_text::PandocTextConverter;
use pandoc_notion::pandoc::{Inline, MathType};

fn create_text_rich_text(content: &str, annotations: Option<Annotations>, link: Option<Link>) -> RichText {
    RichText::Text {
        text: Text { content: content.to_string(), link },
        annotations,
        plain_text: Some(content.to_string()),
        href: None,
    }
}

fn create_equation_rich_text(expression: &str) -> RichText {
    RichText::Equation {
        equation: Equation { expression: expression.to_string() },
        annotations: Annotations::default(),
        plain_text: expression.to_string(),
        href: None,
    }
}

#[test]
fn test_convert_plain_text() {
    let rich_text = create_text_rich_text("Hello world", None, None);
    let result = NotionTextConverter::convert_single_rich_text(&rich_text);
    assert_eq!(result.len(), 3);
    assert!(matches!(result[0], Inline::Str(ref s) if s == "Hello"));
    assert!(matches!(result[1], Inline::Space));
    assert!(matches!(result[2], Inline::Str(ref s) if s == "world"));
}

#[test]
fn notion_text_test_convert_bold_text() {
    let mut annotations = Annotations::default();
    annotations.bold = true;
    let rich_text = create_text_rich_text("Bold text", Some(annotations), None);
    let result = NotionTextConverter::convert_single_rich_text(&rich_text);
    assert_eq!(result.len(), 1);
    assert!(matches!(result[0], Inline::Strong(_)));
    if let Inline::Strong(inner) = &result[0] {
        assert_eq!(inner.len(), 3);
    } else {
        panic!("Expected Strong element");
    }
}

#[test]
fn notion_text_test_convert_italic_text() {
    let mut annotations = Annotations::default();
    annotations.italic = true;
    let rich_text = create_text_rich_text("Italic text", Some(annotations), None);
    let result = NotionTextConverter::convert_single_rich_text(&rich_text);
    assert_eq!(result.len(), 1);
    assert!(matches!(result[0], Inline::Emph(_)));
}

#[test]
fn notion_text_test_convert_strikethrough_text() {
    let mut annotations = Annotations::default();
    annotations.strikethrough = true;
    let rich_text = create_text_rich_text("Strikethrough text", Some(annotations), None);
    let result = NotionTextConverter::convert_single_rich_text(&rich_text);
    assert_eq!(result.len(), 1);
    assert!(matches!(result[0], Inline::Strikeout(_)));
}

#[test]
fn test_convert_underline_text() {
    let mut annotations = Annotations::default();
    annotations.underline = true;
    let rich_text = create_text_rich_text("Underlined text", Some(annotations), None);
    let result = NotionTextConverter::convert_single_rich_text(&rich_text);
    assert_eq!(result.len(), 1);
    assert!(matches!(result[0], Inline::Span(_, _)));
    if let Inline::Span(attr, _) = &result[0] {
        assert!(attr.classes.contains(&"underline".to_string()));
    } else {
        panic!("Expected Span element");
    }
}

#[test]
fn test_convert_code_text() {
    let mut annotations = Annotations::default();
    annotations.code = true;
    let rich_text = create_text_rich_text("code sample", Some(annotations), None);
    let result = NotionTextConverter::convert_single_rich_text(&rich_text);
    assert_eq!(result.len(), 1);
    assert!(matches!(result[0], Inline::Code(_, _)));
    if let Inline::Code(_, content) = &result[0] {
        assert_eq!(content, "code sample");
    } else {
        panic!("Expected Code element");
    }
}

#[test]
fn test_convert_colored_text() {
    let mut annotations = Annotations::default();
    annotations.color = TextColor::Red;
    let rich_text = create_text_rich_text("Colored text", Some(annotations), None);
    let result = NotionTextConverter::convert_single_rich_text(&rich_text);
    assert_eq!(result.len(), 1);
    assert!(matches!(result[0], Inline::Span(_, _)));
    if let Inline::Span(attr, _) = &result[0] {
        assert!(attr.classes.contains(&"color-red".to_string()));
    } else {
        panic!("Expected Span element");
    }
}

#[test]
fn notion_text_test_convert_link() {
    let link = Link { url: "https://example.com".to_string() };
    let rich_text = create_text_rich_text("Link text", None, Some(link));
    let result = NotionTextConverter::convert_single_rich_text(&rich_text);
    assert_eq!(result.len(), 1);
    assert!(matches!(result[0], Inline::Link(_, _, _)));
    if let Inline::Link(_, content, target) = &result[0] {
        assert_eq!(target.url, "https://example.com");
        assert_eq!(content.len(), 3);
    } else {
        panic!("Expected Link element");
    }
}

#[test]
fn test_convert_equation() {
    let rich_text = create_equation_rich_text("E=mc^2");
    let result = NotionTextConverter::convert_single_rich_text(&rich_text);
    assert_eq!(result.len(), 1);
    assert!(matches!(result[0], Inline::Math(_, _)));
    if let Inline::Math(math_type, content) = &result[0] {
        assert!(matches!(math_type, MathType::InlineMath));
        assert_eq!(content, "E=mc^2");
    } else {
        panic!("Expected Math element");
    }
}

#[test]
fn test_convert_multiple_rich_texts() {
    let text1 = create_text_rich_text("Hello", None, None);
    let mut annotations = Annotations::default();
    annotations.bold = true;
    let text2 = create_text_rich_text("bold", Some(annotations), None);
    let rich_texts = vec![text1, text2];
    let result = NotionTextConverter::convert(&rich_texts);
    assert!(result.len() > 0);
    assert!(matches!(result[0], Inline::Str(ref s) if s == "Hello"));
    let bold_index = result.iter().position(|inline| matches!(inline, Inline::Strong(_)));
    assert!(bold_index.is_some());
}

#[test]
fn test_convert_none_rich_text() {
    let rich_text = RichText::Empty;
    let result = NotionTextConverter::convert_single_rich_text(&rich_text);
    assert_eq!(result.len(), 0);
}

#[test]
fn test_inlines_to_string() {
    let inlines = vec![
        Inline::Str("Hello".to_string()),
        Inline::Space,
        Inline::Str("world".to_string()),
    ];
    let result = NotionTextConverter::inlines_to_string(&inlines);
    assert_eq!(result, "Hello world");
}

#[test]
fn test_newline_to_linebreak() {
    let rich_text = create_text_rich_text("Line 1\nLine 2\nLine 3", None, None);
    let result = NotionTextConverter::convert(&[rich_text]);
    assert!(result.len() >= 5);
    let line_breaks = result.iter().filter(|inline| matches!(inline, Inline::LineBreak)).count();
    assert_eq!(line_breaks, 2, "Expected 2 LineBreak elements");
}

#[test]
fn text_to_inline_splits_words_spaces_and_lines() {
    let result = NotionTextConverter::text_to_inline("Hello  world\tagain\nend");
    assert_eq!(result.len(), 8);
    assert!(matches!(result[0], Inline::Str(ref s) if s == "Hello"));
    assert!(matches!(result[1], Inline::Space));
    assert!(matches!(result[2], Inline::Space));
    assert!(matches!(result[3], Inline::Str(ref s) if s == "world"));
    assert!(matches!(result[4], Inline::Space));
    assert!(matches!(result[5], Inline::Str(ref s) if s == "again"));
    assert!(matches!(result[6], Inline::LineBreak));
    assert!(matches!(result[7], Inline::Str(ref s) if s == "end"));
    assert_eq!(NotionTextConverter::text_to_inline("").len(), 0);
}

#[test]
fn text_round_trips_through_inlines() {
    let text = "A tab\there and  two spaces";
    let inlines = NotionTextConverter::text_to_inline(text);
    assert_eq!(NotionTextConverter::inlines_to_string(&inlines), "A tab here and  two spaces");
}

#[test]
fn annotations_nest_in_fixed_order() {
    let annotations = Annotations {
        bold: true,
        italic: true,
        strikethrough: true,
        underline: true,
        code: false,
        color: TextColor::BlueBackground,
    };
    let rich_text = create_text_rich_text("x", Some(annotations), None);
    let result = NotionTextConverter::convert_single_rich_text(&rich_text);
    assert_eq!(result.len(), 1);
    let Inline::Span(color_attr, inner) = &result[0] else { panic!("expected color span") };
    assert_eq!(color_attr.classes, vec!["color-blue-background".to_string()]);
    let Inline::Strong(inner) = &inner[0] else { panic!("expected strong") };
    let Inline::Emph(inner) = &inner[0] else { panic!("expected emphasis") };
    let Inline::Strikeout(inner) = &inner[0] else { panic!("expected strikeout") };
    let Inline::Span(underline_attr, inner) = &inner[0] else { panic!("expected underline span") };
    assert_eq!(underline_attr.classes, vec!["underline".to_string()]);
    assert!(matches!(inner[0], Inline::Str(ref s) if s == "x"));
}

#[test]
fn mention_keeps_its_plain_text() {
    let rich_text = RichText::Mention {
        annotations: Annotations::default(),
        plain_text: "@Someone".to_string(),
        href: None,
    };
    let result = NotionTextConverter::convert_single_rich_text(&rich_text);
    assert!(matches!(result[0], Inline::Str(ref s) if s == "@Someone"));
}

#[test]
fn color_class_names() {
    assert_eq!(NotionTextConverter::color_class_name(TextColor::Red), "color-red");
    assert_eq!(NotionTextConverter::color_class_name(TextColor::GrayBackground), "color-gray-background");
}

#[test]
fn plain_text_survives_the_round_trip() {
    let source = "first line\twith tab\nsecond  line ";
    let rich = vec![RichText::Text {
        text: Text { content: source.to_string(), link: None },
        annotations: None,
        plain_text: Some(source.to_string()),
        href: None,
    }];
    let inlines = NotionTextConverter::convert(&rich);
    let back = PandocTextConverter::new().convert(&inlines).unwrap();
    let text: String = back
        .iter()
        .map(|r| match r {
            RichText::Text { text, annotations, .. } => {
                assert_eq!(annotations.unwrap(), Annotations::default());
                assert!(text.link.is_none());
                text.content.clone()
            }
            _ => panic!("Expected text"),
        })
        .collect();
    assert_eq!(text, "first line with tab\nsecond  line ");
}

#[test]
fn test_text_to_inline() {
    // Basic text
    let result = NotionTextConverter::text_to_inline("Hello world");
    assert_eq!(result.len(), 3);

    // Newlines become hard breaks, as the converter and `test_newline_to_linebreak` have it
    let result = NotionTextConverter::text_to_inline("Hello\nworld");
    assert_eq!(result.len(), 3);
    assert!(matches!(result[1], Inline::LineBreak));

    // Multiple spaces
    let result = NotionTextConverter::text_to_inline("Hello  world");
    assert_eq!(result.len(), 4);
    assert!(matches!(result[1], Inline::Space));
    assert!(matches!(result[2], Inline::Space));
}
