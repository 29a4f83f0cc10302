use cast_ui::markdown::{blocks_from_events, list_marker, parse_markdown_blocks, MarkdownBlock, MdEvent, MdTag, MdTagKind};

#[test]
fn markdown_parser_extracts_headings_lists_and_code() {
    let blocks = parse_markdown_blocks(
        "# Result\n\n- Inspect output\n- [x] Patch\n\n```rust\nlet ok = true;\n```",
    );

    assert_eq!(
        blocks[0],
        MarkdownBlock::Heading {
            level: 1,
            text: "Result".to_owned()
        }
    );
    assert_eq!(
        blocks[1],
        MarkdownBlock::ListItem {
            text: "Inspect output".to_owned(),
            ordered: false,
            number: None,
            checked: None
        }
    );
    assert_eq!(
        blocks[2],
        MarkdownBlock::ListItem {
            text: "Patch".to_owned(),
            ordered: false,
            number: None,
            checked: Some(true)
        }
    );
    assert_eq!(
        blocks[3],
        MarkdownBlock::CodeBlock {
            language: Some("rust".to_owned()),
            code: "let ok = true;".to_owned()
        }
    );
}

#[test]
fn ordered_list_keeps_start_number() {
    let blocks = parse_markdown_blocks("3. Plan\n4. Patch");

    assert_eq!(
        blocks[0],
        MarkdownBlock::ListItem {
            text: "Plan".to_owned(),
            ordered: true,
            number: Some(3),
            checked: None
        }
    );
}

#[test]
fn ordered_list_numbers_count_on() {
    let blocks = parse_markdown_blocks("3. Plan\n4. Patch");
    assert_eq!(
        blocks[1],
        MarkdownBlock::ListItem {
            text: "Patch".to_owned(),
            ordered: true,
            number: Some(4),
            checked: None
        }
    );
}

#[test]
fn paragraphs_quotes_and_rules() {
    let blocks = parse_markdown_blocks("Hello *there*\n\n> Quoted\n\n---\n\n## Two");
    assert_eq!(blocks[0], MarkdownBlock::Paragraph("Hello there".to_owned()));
    assert_eq!(blocks[1], MarkdownBlock::Quote("Quoted".to_owned()));
    assert_eq!(blocks[2], MarkdownBlock::Rule);
    assert_eq!(
        blocks[3],
        MarkdownBlock::Heading {
            level: 2,
            text: "Two".to_owned()
        }
    );
    assert!(parse_markdown_blocks("").is_empty());
}

#[test]
fn list_markers() {
    assert_eq!(list_marker(false, None, Some(true)), "[x]");
    assert_eq!(list_marker(true, Some(3), Some(false)), "[ ]");
    assert_eq!(list_marker(true, Some(12), None), "12.");
    assert_eq!(list_marker(true, None, None), "1.");
    assert_eq!(list_marker(false, None, None), "-");
}

#[test]
fn html_math_and_breaks_join_the_paragraph_and_other_tags_are_skipped() {
    let events = vec![
        MdEvent::Start(MdTag::Other(MdTagKind::Paragraph)),
        MdEvent::Text("a".to_owned()),
        MdEvent::InlineHtml("<b>".to_owned()),
        MdEvent::InlineMath("x".to_owned()),
        MdEvent::Start(MdTag::Other(MdTagKind::Emphasis)),
        MdEvent::Code("y".to_owned()),
        MdEvent::End(MdTagKind::Emphasis),
        MdEvent::SoftBreak,
        MdEvent::Html("c".to_owned()),
        MdEvent::HardBreak,
        MdEvent::DisplayMath("z".to_owned()),
        MdEvent::End(MdTagKind::Paragraph),
        MdEvent::Start(MdTag::Other(MdTagKind::Table)),
        MdEvent::End(MdTagKind::Table),
    ];
    let blocks = blocks_from_events(&events);
    assert_eq!(blocks, vec![MarkdownBlock::Paragraph("a<b>`x``y`\nc\n`z`".to_owned())]);
}

#[test]
fn parsed_inline_html_stays_in_the_paragraph() {
    let blocks = parse_markdown_blocks("Some <b>bold</b> text");
    assert_eq!(blocks, vec![MarkdownBlock::Paragraph("Some <b>bold</b> text".to_owned())]);
}
