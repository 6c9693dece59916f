use pandoc_notion::test_utils::notion_helpers::{
    create_bulleted_list_item, create_empty_heading, create_formatted_rich_text, create_heading_block,
    create_heading_with_child_blocks, create_heading_with_children, create_heading_with_formatted_text,
    create_numbered_list_item, create_paragraph_block, create_quote_block, create_rich_text, create_todo_item,
};
use pandoc_notion::test_utils::pandoc_helpers::extract_text_from_inlines;
use pandoc_notion::api::ClientConfig;
use pandoc_notion::block_copy::{copy_block, copy_blocks};
use pandoc_notion::converter::pandoc_to_notion_blocks;
use pandoc_notion::notion::add;
use pandoc_notion::notion::toggleable::{ToggleableBlock, ToggleableBlockChildren};
use pandoc_notion::notion_api::{
    BlockType, HeadingsValue, NotionBlock, ParagraphValue, RichText, Text, TextColor, ToggleValue,
};
use pandoc_notion::notion_block_fetcher::{
    attach_children_to_block, block_has_children, children_request, finish_fetched_block,
    get_block_children, BlockFetcherConfig, BreadthFirstFetch, DepthFirstFetch, FetchStep,
};
use pandoc_notion::notion_block_putter::{
    extract_children, preprocess_blocks, split_into_batches, BlockPutterConfig, LevelOrderUpload,
};
use pandoc_notion::pandoc::{Attr, Block as PandocBlock, Inline};
use pandoc_notion::text::processor::{split_lines, PandocProcessor};
use pandoc_notion::text::{format_for_extension, parse_format, TextFormat, TextProcessingError};
use pandoc_notion::{create_text_processor, ConversionConfig};

#[test]
fn lib_it_works() {
    assert_eq!(2 + 2, 4);
    let result = add(2, 2);
    assert_eq!(result, 4);
}

fn rich(content: &str) -> RichText {
    RichText::Text {
        text: Text { content: content.to_string(), link: None },
        annotations: None,
        plain_text: Some(content.to_string()),
        href: None,
    }
}

fn shell(id: Option<&str>, has_children: Option<bool>, block_type: BlockType) -> NotionBlock {
    NotionBlock {
        object: Some("block".to_string()),
        id: id.map(|s| s.to_string()),
        parent: None,
        archived: None,
        has_children,
        block_type,
    }
}

fn heading(level: u8, content: &str, toggleable: bool, id: &str, has_children: bool) -> NotionBlock {
    let value = HeadingsValue { rich_text: vec![rich(content)], color: None, is_toggleable: Some(toggleable) };
    let block_type = match level {
        1 => BlockType::Heading1 { heading_1: value },
        2 => BlockType::Heading2 { heading_2: value },
        _ => BlockType::Heading3 { heading_3: value },
    };
    shell(Some(id), Some(has_children), block_type)
}

fn paragraph(content: &str, id: Option<&str>) -> NotionBlock {
    shell(
        id,
        Some(false),
        BlockType::Paragraph { paragraph: ParagraphValue { rich_text: vec![rich(content)], color: None, children: None } },
    )
}

fn toggle(id: &str, has_children: bool) -> NotionBlock {
    shell(
        Some(id),
        Some(has_children),
        BlockType::Toggle { toggle: ToggleValue { rich_text: vec![], color: TextColor::Default, children: None } },
    )
}

fn paragraph_text(b: &NotionBlock) -> String {
    match &b.block_type {
        BlockType::Paragraph { paragraph } => paragraph.rich_text[0].plain_text().unwrap(),
        _ => panic!("Expected paragraph block"),
    }
}

// ---- Toggleable blocks ----

#[test]
fn test_heading1_toggleable() {
    let block = shell(
        Some("test-id"),
        Some(true),
        BlockType::Heading1 {
            heading_1: HeadingsValue { rich_text: vec![], color: Some(TextColor::Default), is_toggleable: Some(true) },
        },
    );
    assert!(block.is_toggleable());
    assert_eq!(block.block_id(), Some("test-id"));
    assert!(block.has_children());
}

#[test]
fn test_heading1_not_toggleable() {
    let block = shell(
        Some("test-id"),
        None,
        BlockType::Heading1 {
            heading_1: HeadingsValue { rich_text: vec![], color: Some(TextColor::Default), is_toggleable: Some(false) },
        },
    );
    assert!(!block.is_toggleable());
    assert!(!block.has_children());
}

#[test]
fn test_toggle_block() {
    let block = toggle("test-id", true);
    assert!(block.is_toggleable());
    assert!(block.has_children());
}

#[test]
fn test_toggleable_block_trait() {
    let normal_heading = heading(1, "Normal Heading", false, "heading-1-normal", false);
    assert!(!normal_heading.is_toggleable());
    assert_eq!(normal_heading.block_id(), Some("heading-1-normal"));
    assert!(!normal_heading.has_children());
    let toggleable_heading = heading(2, "Heading 2 with children", true, "heading-2-toggle", true);
    assert!(toggleable_heading.is_toggleable());
    assert_eq!(toggleable_heading.block_id(), Some("heading-2-toggle"));
    assert!(toggleable_heading.has_children());
}

#[test]
fn test_toggleable_children_manager() {
    let mut manager = ToggleableBlockChildren::new();
    let heading_block = heading(1, "Heading 1 with children", true, "heading-1-toggle", true);
    let child1 = paragraph("Child paragraph 1", Some("paragraph-Child-paragraph-1"));
    let child2 = paragraph("Child paragraph 2", Some("paragraph-Child-paragraph-2"));
    let children = vec![child1, child2];
    let success = manager.add_children(&heading_block, copy_blocks(&children));
    assert!(success, "Children should be added successfully");
    assert!(manager.has_children_for(&heading_block));
    let retrieved_children = manager.get_children(&heading_block);
    assert!(retrieved_children.is_some());
    let retrieved_children = retrieved_children.unwrap();
    assert_eq!(retrieved_children.len(), 2);
    match &retrieved_children[0].block_type {
        BlockType::Paragraph { paragraph } => match &paragraph.rich_text[0] {
            RichText::Text { plain_text, .. } => {
                assert_eq!(plain_text.as_ref().unwrap(), "Child paragraph 1");
            }
            _ => panic!("Expected Text rich text type"),
        },
        _ => panic!("Expected paragraph block"),
    }
    let normal_heading = heading(1, "Normal Heading", false, "heading-1-normal", false);
    assert!(!manager.add_children(&normal_heading, vec![paragraph("This won't be added", None)]));
    assert!(!manager.has_children_for(&normal_heading));
}

#[test]
fn children_table_replaces_and_keeps_others() {
    let mut manager = ToggleableBlockChildren::new();
    let a = toggle("a", true);
    let b = toggle("b", true);
    assert!(manager.add_children(&a, vec![paragraph("one", None)]));
    assert!(manager.add_children(&b, vec![paragraph("two", None)]));
    assert!(manager.add_children(&a, vec![paragraph("three", None), paragraph("four", None)]));
    assert_eq!(manager.get_children(&a).unwrap().len(), 2);
    assert_eq!(paragraph_text(&manager.get_children(&a).unwrap()[0]), "three");
    assert_eq!(paragraph_text(&manager.get_children(&b).unwrap()[0]), "two");
    // A toggle without children is not recorded.
    let c = toggle("c", false);
    assert!(!manager.add_children(&c, vec![paragraph("five", None)]));
    assert!(manager.get_children(&c).is_none());
}

// ---- Copies ----

#[test]
fn copy_keeps_every_field() {
    let mut source = paragraph("text", Some("p1"));
    attach_children_to_block(&mut source, vec![paragraph("child", Some("c1"))]);
    let copy = copy_block(&source);
    assert_eq!(copy.id.as_deref(), Some("p1"));
    assert_eq!(copy.object.as_deref(), Some("block"));
    assert_eq!(paragraph_text(&copy), "text");
    let children = get_block_children(&copy).unwrap();
    assert_eq!(children.len(), 1);
    assert_eq!(children[0].id.as_deref(), Some("c1"));
}

// ---- Fetching ----

#[test]
fn fetcher_config_defaults() {
    let config = BlockFetcherConfig::default();
    assert_eq!(config.max_depth, 10);
    assert_eq!(config.api_call_delay_ms, 0);
    assert!(!config.breadth_first);
}

#[test]
fn has_children_reads_the_flag() {
    assert!(block_has_children(&toggle("t", true)));
    assert!(!block_has_children(&toggle("t", false)));
    assert!(!block_has_children(&shell(Some("d"), None, BlockType::Divider)));
}

#[test]
fn attach_then_get_children() {
    let mut p = paragraph("parent", Some("p"));
    assert!(get_block_children(&p).is_none());
    assert!(attach_children_to_block(&mut p, vec![paragraph("c", Some("c"))]));
    assert_eq!(get_block_children(&p).unwrap().len(), 1);
    // Nothing to attach, or a kind without children: unchanged.
    let mut q = paragraph("q", Some("q"));
    assert!(!attach_children_to_block(&mut q, vec![]));
    assert!(get_block_children(&q).is_none());
    let mut d = shell(Some("d"), Some(true), BlockType::Divider);
    assert!(!attach_children_to_block(&mut d, vec![paragraph("c", None)]));
    assert!(get_block_children(&d).is_none());
}

#[test]
fn depth_first_requests_and_finishing() {
    let config = BlockFetcherConfig { max_depth: 2, api_call_delay_ms: 0, breadth_first: false };
    let t = toggle("t1", true);
    assert_eq!(children_request(&t, 0, &config), Some("t1"));
    assert_eq!(children_request(&t, 1, &config), Some("t1"));
    assert_eq!(children_request(&t, 2, &config), None);
    assert_eq!(children_request(&paragraph("p", Some("p")), 0, &config), None);
    assert_eq!(children_request(&shell(None, Some(true), BlockType::Divider), 0, &config), None);

    let mut manager = ToggleableBlockChildren::new();
    let mut t = toggle("t1", true);
    finish_fetched_block(&mut t, vec![paragraph("inside", Some("i"))], &mut manager);
    assert_eq!(get_block_children(&t).unwrap().len(), 1);
    assert_eq!(manager.get_children(&t).unwrap().len(), 1);

    // A toggleable heading keeps its children in the table only.
    let mut h = heading(1, "H", true, "h1", true);
    finish_fetched_block(&mut h, vec![paragraph("under", Some("u"))], &mut manager);
    assert!(get_block_children(&h).is_none());
    assert_eq!(paragraph_text(&manager.get_children(&h).unwrap()[0]), "under");

    // Other blocks get their children attached and are not recorded.
    let mut p = shell(
        Some("p"),
        Some(true),
        BlockType::Paragraph { paragraph: ParagraphValue { rich_text: vec![rich("p")], color: None, children: None } },
    );
    finish_fetched_block(&mut p, vec![paragraph("c", Some("c"))], &mut manager);
    assert_eq!(get_block_children(&p).unwrap().len(), 1);
    assert!(manager.get_children(&p).is_none());
}

#[test]
fn breadth_first_fetch_assembles_the_tree() {
    let top = vec![
        toggle("t", true),
        paragraph("plain", Some("p")),
        shell(
            Some("q"),
            Some(true),
            BlockType::Paragraph { paragraph: ParagraphValue { rich_text: vec![rich("q")], color: None, children: None } },
        ),
        paragraph("no id", None),
    ];
    let mut fetch = BreadthFirstFetch::new(top, 10);
    assert_eq!(fetch.next_request().as_deref(), Some("t"));
    fetch.receive(vec![paragraph("in toggle", Some("c1")), toggle("t2", true)]);
    assert_eq!(fetch.next_request().as_deref(), Some("q"));
    fetch.receive(vec![paragraph("in q", Some("c2"))]);
    assert_eq!(fetch.next_request().as_deref(), Some("t2"));
    fetch.receive(vec![paragraph("deep", Some("c3"))]);
    assert_eq!(fetch.next_request(), None);

    let mut manager = ToggleableBlockChildren::new();
    let result = fetch.finish(&mut manager);
    // The block without an identifier is dropped; children are not top level.
    assert_eq!(result.len(), 3);
    assert_eq!(result[0].id.as_deref(), Some("t"));
    assert_eq!(result[1].id.as_deref(), Some("p"));
    assert_eq!(result[2].id.as_deref(), Some("q"));
    let t_children = get_block_children(&result[0]).unwrap();
    assert_eq!(t_children.len(), 2);
    assert_eq!(paragraph_text(&t_children[0]), "in toggle");
    // Attached children carry their own fetched children.
    let deep = get_block_children(&t_children[1]).unwrap();
    assert_eq!(deep.len(), 1);
    assert_eq!(paragraph_text(&deep[0]), "deep");
    assert_eq!(paragraph_text(&get_block_children(&result[2]).unwrap()[0]), "in q");
    // Both toggles have their children recorded.
    let recorded = manager.get_children(&result[0]).unwrap();
    assert_eq!(recorded.len(), 2);
    assert_eq!(get_block_children(&recorded[1]).unwrap().len(), 1);
    assert_eq!(paragraph_text(&manager.get_children(&toggle("t2", true)).unwrap()[0]), "deep");
}

#[test]
fn breadth_first_fetch_stops_at_the_depth_limit() {
    let mut fetch = BreadthFirstFetch::new(vec![toggle("t", true)], 1);
    assert_eq!(fetch.next_request().as_deref(), Some("t"));
    fetch.receive(vec![toggle("t2", true)]);
    assert_eq!(fetch.next_request(), None);
    let mut fetch = BreadthFirstFetch::new(vec![toggle("t", true)], 0);
    assert_eq!(fetch.next_request(), None);
    let mut manager = ToggleableBlockChildren::new();
    let result = fetch.finish(&mut manager);
    assert_eq!(result.len(), 1);
    assert!(get_block_children(&result[0]).is_none());
}

// ---- Uploading ----

#[test]
fn putter_config_defaults() {
    let config = BlockPutterConfig::default();
    assert_eq!(config.api_call_delay_ms, 100);
    assert_eq!(config.batch_size, 50);
}

#[test]
fn extract_takes_children_out() {
    let mut p = paragraph("parent", Some("p"));
    attach_children_to_block(&mut p, vec![paragraph("a", None), paragraph("b", None)]);
    let children = extract_children(&mut p);
    assert_eq!(children.len(), 2);
    assert!(get_block_children(&p).is_none());
    let mut d = shell(Some("d"), None, BlockType::Divider);
    assert!(extract_children(&mut d).is_empty());
}

#[test]
fn batches_of_fifty() {
    let blocks: Vec<NotionBlock> = (0..120).map(|i| paragraph(&i.to_string(), None)).collect();
    let batches = split_into_batches(blocks, 50);
    let sizes: Vec<usize> = batches.iter().map(|b| b.len()).collect();
    assert_eq!(sizes, vec![50, 50, 20]);
    assert_eq!(paragraph_text(&batches[2][0]), "100");
    assert!(split_into_batches(vec![], 50).is_empty());
}

#[test]
fn preprocess_gives_identifiers_and_keeps_children() {
    let mut with_children = paragraph("parent", None);
    attach_children_to_block(&mut with_children, vec![paragraph("child", None)]);
    let (processed, table) = preprocess_blocks(vec![with_children, paragraph("own", Some("own-id"))]);
    assert_eq!(processed.len(), 2);
    let fresh = processed[0].id.clone().unwrap();
    assert_eq!(fresh.len(), 36);
    assert_eq!(processed[1].id.as_deref(), Some("own-id"));
    assert!(get_block_children(&processed[0]).is_none());
    assert_eq!(table.get(fresh.as_str()).unwrap().len(), 1);
    assert!(table.get("own-id").is_none());
}

#[test]
fn level_order_upload_plan() {
    let mut parent = paragraph("parent", Some("tmp-1"));
    let mut item = paragraph("item", Some("tmp-2"));
    attach_children_to_block(&mut item, vec![paragraph("grandchild", None)]);
    attach_children_to_block(&mut parent, vec![item, paragraph("leaf", None)]);
    let (mut upload, top) = LevelOrderUpload::new(vec![parent, paragraph("alone", Some("tmp-3"))]);
    assert_eq!(top.len(), 2);
    assert!(get_block_children(&top[0]).is_none());
    upload.top_level_uploaded(vec!["notion-1".to_string(), "notion-3".to_string()]);
    let (parent_id, children) = upload.next_upload().unwrap();
    assert_eq!(parent_id, "notion-1");
    assert_eq!(children.len(), 2);
    // Every block goes without its children, under its own identifier or a
    // fresh one.
    assert!(get_block_children(&children[0]).is_none());
    assert_eq!(children[0].id.as_deref(), Some("tmp-2"));
    assert_eq!(children[1].id.as_ref().unwrap().len(), 36);
    upload.children_uploaded(vec!["notion-2".to_string(), "notion-4".to_string()]);
    // The grandchild follows under the identifier given to its parent.
    let (grand_parent, grandchildren) = upload.next_upload().unwrap();
    assert_eq!(grand_parent, "notion-2");
    assert_eq!(grandchildren.len(), 1);
    assert_eq!(paragraph_text(&grandchildren[0]), "grandchild");
    assert!(get_block_children(&grandchildren[0]).is_none());
    upload.children_uploaded(vec!["notion-5".to_string()]);
    assert!(upload.next_upload().is_none());
}

// ---- Converting a parsed document ----

#[test]
fn document_blocks_skip_failures() {
    let blocks = vec![
        PandocBlock::Header(1, Attr::new(), vec![Inline::Str("Title".to_string())]),
        PandocBlock::Para(vec![Inline::Other("Note".to_string(), "Note([])".to_string())]),
        PandocBlock::Para(vec![Inline::Str("Body".to_string())]),
    ];
    let (converted, errors) = pandoc_to_notion_blocks(&blocks);
    assert_eq!(converted.len(), 2);
    match &converted[0].block_type {
        BlockType::Heading1 { .. } => {}
        _ => panic!("Expected a heading"),
    }
    assert_eq!(paragraph_text(&converted[1]), "Body");
    assert_eq!(errors.len(), 1);
}

// ---- Client options ----

#[test]
fn client_config_selects_conversion_settings() {
    let config = ClientConfig::default();
    assert!(config.preserve_attributes.is_none());
    assert!(config.escape_markdown.is_none());
    assert!(config.conversion_config().is_none());
    let c = ClientConfig { preserve_attributes: Some(true), escape_markdown: None }.conversion_config().unwrap();
    assert!(c.preserve_attributes);
    assert!(c.escape_markdown);
    let c = ClientConfig { preserve_attributes: Some(false), escape_markdown: Some(false) }.conversion_config().unwrap();
    assert!(!c.preserve_attributes);
    assert!(!c.escape_markdown);
    let d = ConversionConfig::default();
    assert!(!d.preserve_attributes && !d.escape_markdown && !d.render_toggle_div);
}

// ---- Text formats and the Pandoc processor ----

#[test]
fn formats_and_extensions() {
    assert_eq!(TextFormat::Markdown.as_pandoc_format(), "markdown");
    assert_eq!(TextFormat::GithubMarkdown.as_pandoc_format(), "gfm");
    assert_eq!(TextFormat::Custom("docx").as_pandoc_format(), "docx");
    assert_eq!(TextFormat::from_extension("MD"), Some(TextFormat::Markdown));
    assert_eq!(TextFormat::from_extension("htm"), Some(TextFormat::Html));
    assert_eq!(TextFormat::from_extension("docx"), None);
    assert_eq!(format_for_extension(Some("tex")), TextFormat::Latex);
    assert_eq!(format_for_extension(Some("xyz")), TextFormat::Markdown);
    assert_eq!(format_for_extension(None), TextFormat::Markdown);
    assert_eq!(parse_format("gfm"), TextFormat::GithubMarkdown);
    assert_eq!(parse_format("plain"), TextFormat::PlainText);
    assert_eq!(parse_format("docx"), TextFormat::Custom("docx"));
    assert_ne!(TextFormat::Custom("a"), TextFormat::Custom("b"));
}

#[test]
fn processor_settings_and_arguments() {
    let p = create_text_processor();
    assert_eq!(p.pandoc_path(), "pandoc");
    let p = PandocProcessor::with_pandoc_path("/usr/bin/pandoc").with_default_option("--wrap=none");
    assert_eq!(p.pandoc_path(), "/usr/bin/pandoc");
    assert_eq!(p.command_args(&["-f", "json"]), vec!["--wrap=none", "-f", "json"]);
    assert_eq!(p.get_pandoc_format(TextFormat::Markdown), "commonmark_x");
    assert_eq!(p.get_pandoc_format(TextFormat::Html), "html");
}

#[test]
fn pandoc_outputs() {
    let p = PandocProcessor::new();
    assert_eq!(p.check_pandoc_availability(true, b"pandoc 3.1\nmore".to_vec()).unwrap(), "pandoc 3.1");
    assert!(matches!(p.check_pandoc_availability(false, vec![]), Err(TextProcessingError::PandocError(_))));
    assert!(matches!(p.check_pandoc_availability(true, vec![]), Err(TextProcessingError::Other(_))));
    assert!(matches!(p.check_pandoc_availability(true, vec![0xff]), Err(TextProcessingError::EncodingError(_))));
    assert_eq!(p.get_supported_formats(true, b"html\nmarkdown\n".to_vec()).unwrap(), vec!["html", "markdown"]);
    assert!(matches!(p.get_supported_formats(false, vec![]), Err(TextProcessingError::PandocError(_))));
}

#[test]
fn lines_of_text() {
    assert_eq!(split_lines("a\nb\r\n\nc"), vec!["a", "b", "", "c"]);
    assert_eq!(split_lines("x\n"), vec!["x"]);
    assert!(split_lines("").is_empty());
}

// ---- Test helpers ----


#[test]
fn extract_text_example() {
    let inlines = vec![Inline::Str("Hello".to_string()), Inline::Space, Inline::Str("world".to_string())];
    assert_eq!(extract_text_from_inlines(&inlines), "Hello world");
}

#[test]
fn extract_text_trims_and_skips_other_inlines() {
    let inlines = vec![
        Inline::Space,
        Inline::Str("a".to_string()),
        Inline::Emph(vec![Inline::Str("hidden".to_string())]),
        Inline::SoftBreak,
        Inline::Str("b\u{3000}".to_string()),
        Inline::Space,
    ];
    assert_eq!(extract_text_from_inlines(&inlines), "ab");
    assert_eq!(extract_text_from_inlines(&[]), "");
}

#[test]
fn helper_blocks_have_their_names() {
    let h = create_heading_block(2, "Title");
    assert_eq!(h.id.as_deref(), Some("heading_2_id"));
    assert_eq!(h.has_children, Some(false));
    match &h.block_type {
        BlockType::Heading2 { heading_2 } => {
            assert_eq!(heading_2.rich_text[0].plain_text().unwrap(), "Title");
            assert_eq!(heading_2.is_toggleable, Some(false));
        }
        _ => panic!("Expected a level 2 heading"),
    }
    let f = create_heading_with_formatted_text(1);
    assert_eq!(f.id.as_deref(), Some("formatted_heading_1_id"));
    match &f.block_type {
        BlockType::Heading1 { heading_1 } => {
            let text: String = heading_1.rich_text.iter().filter_map(|r| r.plain_text()).collect();
            assert_eq!(text, "Formatted bold and italic heading");
        }
        _ => panic!("Expected a level 1 heading"),
    }
    let c = create_heading_with_children(3);
    assert_eq!(c.id.as_deref(), Some("heading_with_children_3_id"));
    assert!(c.is_toggleable());
    match &c.block_type {
        BlockType::Heading3 { heading_3 } => {
            assert_eq!(heading_3.rich_text[0].plain_text().unwrap(), "Heading 3 with children")
        }
        _ => panic!("Expected a level 3 heading"),
    }
    let blocks = create_heading_with_child_blocks(1, "Parent", vec![paragraph("kid", None)]);
    assert_eq!(blocks.len(), 2);
    assert_eq!(blocks[0].id.as_deref(), Some("heading_with_children_1_id"));
    assert_eq!(paragraph_text(&blocks[1]), "kid");
    assert_eq!(create_empty_heading(2).id.as_deref(), Some("empty_heading_2_id"));
    let p = create_paragraph_block("Body", None);
    assert_eq!(p.id.as_deref(), Some("paragraph_id"));
    assert_eq!(paragraph_text(&p), "Body");
    assert_eq!(create_paragraph_block("Body", Some("p9")).id.as_deref(), Some("p9"));
    let b = create_bulleted_list_item("one", Some(TextColor::Red), None);
    assert_eq!(b.id.as_deref(), Some("bulleted-list-one"));
    assert_eq!(b.has_children, Some(false));
    let n = create_numbered_list_item("two", None, Some(vec![paragraph("x", None)]));
    assert_eq!(n.id.as_deref(), Some("numbered-list-two"));
    assert_eq!(n.has_children, Some(true));
    let t = create_todo_item("task", true, None);
    assert_eq!(t.id.as_deref(), Some("todo-list-task"));
    match &t.block_type {
        BlockType::ToDo { to_do } => assert_eq!(to_do.checked, Some(true)),
        _ => panic!("Expected a to-do"),
    }
    let q = create_quote_block("said", None);
    assert_eq!(q.id.as_deref(), Some("quote-said"));
    match create_rich_text("x") {
        RichText::Text { annotations, .. } => assert!(annotations.is_none()),
        _ => panic!("Expected text"),
    }
    match create_formatted_rich_text("y", true, false, false, true, false, None) {
        RichText::Text { annotations: Some(a), .. } => {
            assert!(a.bold && a.underline && !a.italic);
            assert_eq!(a.color, TextColor::Default);
        }
        _ => panic!("Expected formatted text"),
    }
}

#[test]
fn heading_survives_the_round_trip() {
    let block = shell(
        Some("h"),
        Some(false),
        BlockType::Heading2 {
            heading_2: HeadingsValue { rich_text: vec![rich("Big\ttitle")], color: Some(TextColor::Red), is_toggleable: Some(true) },
        },
    );
    let header = pandoc_notion::n2p::notion_heading::convert_notion_heading(&block).expect("a header");
    let back = pandoc_notion::p2n::pandoc_heading::PandocHeadingConverter::new().convert(&header, None).unwrap().unwrap();
    match back.block_type {
        BlockType::Heading2 { heading_2 } => {
            assert_eq!(heading_2.color, Some(TextColor::Red));
            assert_eq!(heading_2.is_toggleable, Some(true));
            let text: String = heading_2.rich_text.iter().filter_map(|r| r.plain_text()).collect();
            assert_eq!(text, "Big title");
        }
        _ => panic!("Expected a level 2 heading"),
    }
}

/// Runs a depth-first fetch, answering each request from `children_of`.
fn run_depth_first(
    top: Vec<NotionBlock>,
    max_depth: usize,
    children_of: &dyn Fn(&str) -> Vec<NotionBlock>,
    manager: &mut ToggleableBlockChildren,
) -> (Vec<NotionBlock>, Vec<String>) {
    let mut fetch = DepthFirstFetch::new(top, max_depth);
    let mut requests = Vec::new();
    loop {
        match fetch.step(manager) {
            FetchStep::Fetch(id) => {
                requests.push(id.clone());
                fetch.receive(children_of(&id));
            }
            FetchStep::Continue => {}
            FetchStep::Done => break,
        }
    }
    (fetch.finish(), requests)
}

#[test]
fn depth_first_fetch_builds_the_tree_in_order() {
    let top = vec![toggle("t", true), paragraph("plain", Some("p")), heading(1, "H", true, "h", true)];
    let children_of = |id: &str| -> Vec<NotionBlock> {
        match id {
            "t" => vec![toggle("t2", true), paragraph("after", Some("a"))],
            "t2" => vec![paragraph("deep", Some("d"))],
            "h" => vec![paragraph("under heading", Some("u"))],
            _ => vec![],
        }
    };
    let mut manager = ToggleableBlockChildren::new();
    let (result, requests) = run_depth_first(top, 10, &children_of, &mut manager);
    assert_eq!(requests, vec!["t", "t2", "h"]);
    assert_eq!(result.len(), 3);
    let t_children = get_block_children(&result[0]).unwrap();
    assert_eq!(t_children.len(), 2);
    // Unlike a breadth-first fetch, the nested toggle holds its own children.
    assert_eq!(paragraph_text(&get_block_children(&t_children[0]).unwrap()[0]), "deep");
    assert_eq!(paragraph_text(&t_children[1]), "after");
    // The toggleable heading keeps its children in the table only.
    assert!(get_block_children(&result[2]).is_none());
    assert_eq!(paragraph_text(&manager.get_children(&result[2]).unwrap()[0]), "under heading");
    assert_eq!(manager.get_children(&result[0]).unwrap().len(), 2);
}

#[test]
fn depth_first_fetch_respects_the_limit() {
    let children_of = |id: &str| -> Vec<NotionBlock> {
        match id {
            "t" => vec![toggle("t2", true)],
            _ => vec![paragraph("never", None)],
        }
    };
    let mut manager = ToggleableBlockChildren::new();
    let (result, requests) = run_depth_first(vec![toggle("t", true)], 1, &children_of, &mut manager);
    assert_eq!(requests, vec!["t"]);
    let children = get_block_children(&result[0]).unwrap();
    assert!(get_block_children(&children[0]).is_none());
    let (result, requests) = run_depth_first(vec![toggle("t", true)], 0, &children_of, &mut manager);
    assert!(requests.is_empty());
    assert_eq!(result.len(), 1);
    let (result, _) = run_depth_first(vec![], 3, &children_of, &mut manager);
    assert!(result.is_empty());
}

#[test]
fn breadth_first_fetch_keeps_grandchildren() {
    let nested = |content: &str, id: &str| shell(
        Some(id),
        Some(true),
        BlockType::Paragraph { paragraph: ParagraphValue { rich_text: vec![rich(content)], color: None, children: None } },
    );
    let mut fetch = BreadthFirstFetch::new(vec![nested("a", "a")], 10);
    assert_eq!(fetch.next_request().as_deref(), Some("a"));
    fetch.receive(vec![nested("b", "b")]);
    assert_eq!(fetch.next_request().as_deref(), Some("b"));
    fetch.receive(vec![paragraph("c", Some("c"))]);
    assert_eq!(fetch.next_request(), None);
    let mut manager = ToggleableBlockChildren::new();
    let result = fetch.finish(&mut manager);
    assert_eq!(result.len(), 1);
    let b = &get_block_children(&result[0]).unwrap()[0];
    assert_eq!(paragraph_text(b), "b");
    let c = &get_block_children(b).unwrap()[0];
    assert_eq!(paragraph_text(c), "c");
}
