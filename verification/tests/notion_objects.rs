use pandoc_notion::notion::blocks::{Block, BlockColor, BlockContent};
use pandoc_notion::notion::code::{create_code, create_code_with_caption, CodeLanguage};
use pandoc_notion::notion::headings::{create_heading1, create_heading2, create_heading3, create_toggleable_heading2};
use pandoc_notion::notion::list::{
    create_bulleted_list_item, create_bulleted_list_item_with_children, create_numbered_list_item, create_to_do,
};
use pandoc_notion::notion::paragraph::{create_paragraph, create_paragraph_with_children};
use pandoc_notion::notion::quote::{create_quote, create_quote_with_children};
use pandoc_notion::notion::text::{create_equation, create_formatted_text, create_text, Annotations, Color, RichTextObject};

fn content_of(r: &RichTextObject) -> &str {
    match r {
        RichTextObject::Text { text, .. } => text.content.as_str(),
        _ => panic!("Expected Text variant"),
    }
}

fn paragraph_content(b: &Block) -> &str {
    match &b.content {
        BlockContent::Paragraph { paragraph } => content_of(&paragraph.rich_text[0]),
        _ => panic!("Expected Paragraph variant"),
    }
}

#[test]
fn test_serialize_code() {
    let text = create_text("const hello = 'world';");
    let code = create_code(vec![text], CodeLanguage::Javascript);
    match &code.content {
        BlockContent::Code { code } => {
            assert!(matches!(code.rich_text[0], RichTextObject::Text { .. }));
            assert_eq!(content_of(&code.rich_text[0]), "const hello = 'world';");
            assert_eq!(code.language, CodeLanguage::Javascript);
            assert!(code.caption.is_empty());
        }
        _ => panic!("Expected Code variant"),
    }
}

#[test]
fn test_serialize_code_with_caption() {
    let code_text = create_text("SELECT * FROM users;");
    let caption_text = create_text("SQL Query");
    let code = create_code_with_caption(vec![code_text], CodeLanguage::Sql, vec![caption_text]);
    match &code.content {
        BlockContent::Code { code } => {
            assert_eq!(content_of(&code.rich_text[0]), "SELECT * FROM users;");
            assert_eq!(code.language, CodeLanguage::Sql);
            assert_eq!(content_of(&code.caption[0]), "SQL Query");
        }
        _ => panic!("Expected Code variant"),
    }
}

#[test]
fn test_serialize_headings() {
    let heading1 = create_heading1(vec![create_text("Heading 1")]);
    match &heading1.content {
        BlockContent::Heading1 { heading_1 } => {
            assert!(matches!(heading_1.rich_text[0], RichTextObject::Text { .. }));
            assert_eq!(content_of(&heading_1.rich_text[0]), "Heading 1");
            assert_eq!(heading_1.color, BlockColor::Default);
            assert_eq!(heading_1.is_toggleable, false);
        }
        _ => panic!("Expected Heading1 variant"),
    }
    let heading2 = create_heading2(vec![create_text("Heading 2")]);
    match &heading2.content {
        BlockContent::Heading2 { heading_2 } => assert_eq!(content_of(&heading_2.rich_text[0]), "Heading 2"),
        _ => panic!("Expected Heading2 variant"),
    }
    let heading3 = create_heading3(vec![create_text("Heading 3")]);
    match &heading3.content {
        BlockContent::Heading3 { heading_3 } => assert_eq!(content_of(&heading_3.rich_text[0]), "Heading 3"),
        _ => panic!("Expected Heading3 variant"),
    }
}

#[test]
fn test_toggleable_heading() {
    let child = create_paragraph(vec![create_text("Child block")]);
    let toggle_heading = create_toggleable_heading2(vec![create_text("Toggle Heading")], vec![child]);
    match &toggle_heading.content {
        BlockContent::Heading2 { heading_2 } => {
            assert_eq!(heading_2.is_toggleable, true);
            let children = heading_2.children.as_ref().unwrap();
            assert!(matches!(children[0].content, BlockContent::Paragraph { .. }));
            assert_eq!(paragraph_content(&children[0]), "Child block");
        }
        _ => panic!("Expected Heading2 variant"),
    }
}

#[test]
fn test_serialize_bulleted_list_item() {
    let item = create_bulleted_list_item(vec![create_text("Lacinato kale")]);
    match &item.content {
        BlockContent::BulletedListItem { bulleted_list_item } => {
            assert!(matches!(bulleted_list_item.rich_text[0], RichTextObject::Text { .. }));
            assert_eq!(content_of(&bulleted_list_item.rich_text[0]), "Lacinato kale");
            assert_eq!(bulleted_list_item.color, BlockColor::Default);
        }
        _ => panic!("Expected BulletedListItem variant"),
    }
}

#[test]
fn test_serialize_numbered_list_item() {
    let item = create_numbered_list_item(vec![create_text("Finish reading the docs")]);
    match &item.content {
        BlockContent::NumberedListItem { numbered_list_item } => {
            assert_eq!(content_of(&numbered_list_item.rich_text[0]), "Finish reading the docs");
        }
        _ => panic!("Expected NumberedListItem variant"),
    }
}

#[test]
fn test_serialize_to_do() {
    let item = create_to_do(vec![create_text("Finish Q3 goals")], false);
    match &item.content {
        BlockContent::ToDo { to_do } => {
            assert_eq!(content_of(&to_do.rich_text[0]), "Finish Q3 goals");
            assert_eq!(to_do.checked, false);
        }
        _ => panic!("Expected ToDo variant"),
    }
}

#[test]
fn test_nested_list_structure() {
    let nested_item = create_bulleted_list_item(vec![create_text("Nested list item")]);
    let nested_todo = create_to_do(vec![create_text("Nested to-do item")], false);
    let main_item = create_bulleted_list_item_with_children(vec![create_text("Main list item")], vec![nested_item, nested_todo]);
    match &main_item.content {
        BlockContent::BulletedListItem { bulleted_list_item } => {
            let children = bulleted_list_item.children.as_ref().unwrap();
            match &children[0].content {
                BlockContent::BulletedListItem { bulleted_list_item } => {
                    assert_eq!(content_of(&bulleted_list_item.rich_text[0]), "Nested list item");
                }
                _ => panic!("Expected BulletedListItem variant"),
            }
            assert!(matches!(children[1].content, BlockContent::ToDo { .. }));
        }
        _ => panic!("Expected BulletedListItem variant"),
    }
}

#[test]
fn test_serialize_paragraph() {
    let paragraph = create_paragraph(vec![create_text("Example paragraph")]);
    match &paragraph.content {
        BlockContent::Paragraph { paragraph } => {
            assert!(matches!(paragraph.rich_text[0], RichTextObject::Text { .. }));
            assert_eq!(content_of(&paragraph.rich_text[0]), "Example paragraph");
            assert_eq!(paragraph.color, BlockColor::Default);
        }
        _ => panic!("Expected Paragraph variant"),
    }
}

#[test]
fn test_nested_blocks() {
    let child = create_paragraph(vec![create_text("Child paragraph")]);
    let parent = create_paragraph_with_children(vec![create_text("Parent paragraph")], vec![child]);
    match &parent.content {
        BlockContent::Paragraph { paragraph } => {
            let children = paragraph.children.as_ref().unwrap();
            assert!(matches!(children[0].content, BlockContent::Paragraph { .. }));
            assert_eq!(paragraph_content(&children[0]), "Child paragraph");
        }
        _ => panic!("Expected Paragraph variant"),
    }
}

#[test]
fn test_serialize_quote() {
    let quote = create_quote(vec![create_text("To be or not to be...")]);
    match &quote.content {
        BlockContent::Quote { quote } => {
            assert!(matches!(quote.rich_text[0], RichTextObject::Text { .. }));
            assert_eq!(content_of(&quote.rich_text[0]), "To be or not to be...");
            assert_eq!(quote.color, BlockColor::Default);
        }
        _ => panic!("Expected Quote variant"),
    }
    let child = create_paragraph(vec![create_text("Child block")]);
    let quote_with_children = create_quote_with_children(vec![create_text("To be or not to be...")], vec![child]);
    match &quote_with_children.content {
        BlockContent::Quote { quote } => {
            assert!(matches!(quote.children.as_ref().unwrap()[0].content, BlockContent::Paragraph { .. }));
        }
        _ => panic!("Expected Quote variant"),
    }
}

#[test]
fn test_serialize_simple_text() {
    let text = create_text("Example text");
    assert!(matches!(text, RichTextObject::Text { .. }));
    assert_eq!(content_of(&text), "Example text");
}

#[test]
fn test_formatted_text_with_link() {
    let mut annotations = Annotations::default();
    annotations.bold = true;
    annotations.color = Color::Red;
    let text = create_formatted_text("Example text", annotations, Some("https://example.com".to_string()));
    match &text {
        RichTextObject::Text { text, annotations, .. } => {
            assert_eq!(text.content, "Example text");
            assert_eq!(text.link.as_ref().unwrap().url, "https://example.com");
            let a = annotations.unwrap();
            assert_eq!(a.bold, true);
            assert_eq!(a.color, Color::Red);
        }
        _ => panic!("Expected Text variant"),
    }
}

#[test]
fn test_equation() {
    let equation = create_equation("e=mc^2");
    match &equation {
        RichTextObject::Equation { equation, .. } => assert_eq!(equation.expression, "e=mc^2"),
        _ => panic!("Expected Equation variant"),
    }
}
