use blog_posts::markup::{BodyBlock, PostBody};

fn heading2(text: &str) -> BodyBlock {
    BodyBlock::Heading2(text.to_string())
}

fn heading3(text: &str) -> BodyBlock {
    BodyBlock::Heading3(text.to_string())
}

fn paragraph(text: &str) -> BodyBlock {
    BodyBlock::Paragraph(text.to_string())
}

#[test]
fn body_with_heading_and_paragraph() {
    let blocks = PostBody("### Section\nBody text".to_string());
    assert_eq!(blocks, vec![heading2("Section"), paragraph("Body text")]);
}

#[test]
fn blanks_after_the_marker_are_not_part_of_the_heading() {
    assert_eq!(PostBody("### Section".to_string()), vec![heading2("Section")]);
    assert_eq!(PostBody("###   Section".to_string()), vec![heading2("Section")]);
    assert_eq!(PostBody("###\tSection".to_string()), vec![heading2("Section")]);
    assert_eq!(PostBody("## \t Sub".to_string()), vec![heading3("Sub")]);
}

#[test]
fn blanks_inside_and_after_the_heading_stay() {
    assert_eq!(PostBody("### Two words ".to_string()), vec![heading2("Two words ")]);
    assert_eq!(PostBody("## a\tb".to_string()), vec![heading3("a\tb")]);
}

#[test]
fn heading_of_blanks_only_has_no_text() {
    assert_eq!(PostBody("### ".to_string()), vec![heading2("")]);
    assert_eq!(PostBody("##  \t".to_string()), vec![heading3("")]);
}

#[test]
fn paragraph_keeps_its_blanks() {
    assert_eq!(PostBody("  indented ".to_string()), vec![paragraph("  indented ")]);
    assert_eq!(PostBody("# x".to_string()), vec![paragraph("# x")]);
}

#[test]
fn three_number_signs_make_a_level_2_heading() {
    assert_eq!(PostBody("###Title".to_string()), vec![heading2("Title")]);
}

#[test]
fn two_number_signs_make_a_level_3_heading() {
    assert_eq!(PostBody("##Sub".to_string()), vec![heading3("Sub")]);
    assert_eq!(PostBody("## Sub title".to_string()), vec![heading3("Sub title")]);
}

#[test]
fn one_number_sign_is_a_paragraph() {
    assert_eq!(PostBody("# not a heading".to_string()), vec![paragraph("# not a heading")]);
}

#[test]
fn only_the_marker_is_stripped() {
    assert_eq!(PostBody("####x".to_string()), vec![heading2("#x")]);
    assert_eq!(PostBody("####y".to_string()), vec![heading2("#y")]);
    assert_eq!(PostBody("#####".to_string()), vec![heading2("##")]);
    assert_eq!(PostBody("### ## x".to_string()), vec![heading2("## x")]);
}

#[test]
fn bare_markers_are_empty_headings() {
    assert_eq!(PostBody("###".to_string()), vec![heading2("")]);
    assert_eq!(PostBody("##".to_string()), vec![heading3("")]);
}

#[test]
fn marker_must_start_the_line() {
    assert_eq!(PostBody(" ### x".to_string()), vec![paragraph(" ### x")]);
    assert_eq!(PostBody("a##".to_string()), vec![paragraph("a##")]);
}

#[test]
fn empty_body_is_one_empty_paragraph() {
    assert_eq!(PostBody(String::new()), vec![paragraph("")]);
}

#[test]
fn every_line_feed_starts_a_new_line() {
    assert_eq!(PostBody("\n".to_string()), vec![paragraph(""), paragraph("")]);
    assert_eq!(PostBody("a\n".to_string()), vec![paragraph("a"), paragraph("")]);
    assert_eq!(PostBody("\na".to_string()), vec![paragraph(""), paragraph("a")]);
    assert_eq!(
        PostBody("a\n\nb".to_string()),
        vec![paragraph("a"), paragraph(""), paragraph("b")]
    );
}

#[test]
fn carriage_return_stays_in_the_line() {
    assert_eq!(PostBody("a\r\nb".to_string()), vec![paragraph("a\r"), paragraph("b")]);
}

#[test]
fn lines_are_classified_one_by_one() {
    let body = "### One\nplain\n## Two\n### Three\nlast".to_string();
    assert_eq!(
        PostBody(body),
        vec![
            heading2("One"),
            paragraph("plain"),
            heading3("Two"),
            heading2("Three"),
            paragraph("last"),
        ]
    );
}

#[test]
fn text_beyond_ascii_is_kept() {
    assert_eq!(
        PostBody("##é\n### 日本語\nñandú".to_string()),
        vec![heading3("é"), heading2("日本語"), paragraph("ñandú")]
    );
    assert_eq!(PostBody("###\u{a0}x".to_string()), vec![heading2("\u{a0}x")]);
    assert_eq!(PostBody("#é#".to_string()), vec![paragraph("#é#")]);
}

#[test]
fn number_of_blocks_is_number_of_line_feeds_plus_one() {
    let body = "a\nb\nc\n\n\n";
    let feeds = body.chars().filter(|c| *c == '\n').count();
    assert_eq!(PostBody(body.to_string()).len(), feeds + 1);
}

#[test]
fn paragraphs_joined_give_the_body_back() {
    let body = "first\n\n  second \n# third\n";
    let lines: Vec<String> = PostBody(body.to_string())
        .into_iter()
        .map(|block| match block {
            BodyBlock::Paragraph(text) => text,
            other => panic!("expected a paragraph, got {:?}", other),
        })
        .collect();
    assert_eq!(lines.join("\n"), body);
}
