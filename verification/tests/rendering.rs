//! Document rendering scenarios: the fixed wrapper, the optional style block,
//! metadata-block handling, and the escape rules.

use jot::render::{
    escape_html, html_fragment, render_document, render_fragment, HtmlWriter, RenderError,
};

#[test]
fn document_without_stylesheet_has_no_style_block() {
    let doc = render_document("# Title\n\nbody", None).unwrap();
    assert!(doc.contains("<h1>Title</h1>"));
    assert!(doc.contains("<p>body</p>"));
    assert!(!doc.contains("<style>"));
    assert!(doc.starts_with("<!DOCTYPE html>\n<html>\n<head>\n"));
    assert!(doc.contains("<meta charset=\"utf-8\" />\n<title>Jot Note</title>\n"));
    assert!(doc.ends_with("</body>\n</html>\n"));
}

#[test]
fn document_with_stylesheet_inlines_it_verbatim() {
    let css = "body { margin: 0; }\n";
    let doc = render_document("# Title\n\nbody", Some(String::from(css))).unwrap();
    let style_start = doc.find("<style>\n").expect("style block missing");
    let style_end = doc.find("</style>\n").expect("style block unterminated");
    assert_eq!(&doc[style_start + "<style>\n".len()..style_end], css);
    let head_end = doc.find("</head>\n").unwrap();
    assert!(style_end < head_end);
}

#[test]
fn document_shape_is_exact() {
    let doc = render_document("hello", None).unwrap();
    let expected = format!(
        "<!DOCTYPE html>\n<html>\n<head>\n<meta charset=\"utf-8\" />\n<title>Jot Note</title>\n</head>\n<body>\n{}</body>\n</html>\n",
        markdown::to_html("hello")
    );
    assert_eq!(doc, expected);
}

#[test]
fn front_matter_renders_as_definition_list_before_the_body() {
    let doc = render_document("---\ntitle: test note\ndraft: yes\n---\nhello", None).unwrap();
    let dl = "<dl>\n<dt>title</dt>\n<dd>test note</dd>\n<dt>draft</dt>\n<dd>yes</dd>\n</dl>\n";
    assert!(doc.contains(dl));
    let body = format!("<body>\n{}{}</body>\n", dl, markdown::to_html("hello"));
    assert!(doc.contains(&body));
}

#[test]
fn front_matter_values_are_escaped() {
    let doc = render_document("---\nq: a < b & c\n---\nx", None).unwrap();
    assert!(doc.contains("<dd>a &lt; b &amp; c</dd>"));
}

#[test]
fn empty_front_matter_block_is_allowed() {
    let doc = render_document("---\n---\nhello", None).unwrap();
    assert!(doc.contains("<dl>\n</dl>\n"));
}

#[test]
fn front_matter_block_closing_at_end_of_input() {
    let doc = render_document("---\nk: v\n---", None).unwrap();
    assert!(doc.contains("<dt>k</dt>\n<dd>v</dd>"));
}

#[test]
fn unterminated_front_matter_is_malformed() {
    assert_eq!(
        render_document("---\ntitle: x\nno closing marker", None),
        Err(RenderError::MalformedFrontMatter)
    );
}

#[test]
fn front_matter_line_without_separator_is_malformed() {
    assert_eq!(
        render_document("---\njust words\n---\nbody", None),
        Err(RenderError::MalformedFrontMatter)
    );
}

#[test]
fn document_without_front_matter_renders_whole_input() {
    let doc = render_document("--x\nnot front matter", None).unwrap();
    let converted = markdown::to_html("--x\nnot front matter");
    assert!(doc.contains(&converted));
}

#[test]
fn fragment_is_bare_conversion() {
    assert_eq!(render_fragment("# Hi"), "<h1>Hi</h1>");
    assert_eq!(render_fragment("plain"), "<p>plain</p>");
}

#[test]
fn plain_converter_renders_commonmark() {
    assert_eq!(html_fragment("# Hi"), "<h1>Hi</h1>\n");
}

#[test]
fn escape_replaces_html_significant_characters() {
    assert_eq!(escape_html("a < b & c > \"d\""), "a &lt; b &amp; c &gt; &quot;d&quot;");
    assert_eq!(escape_html("plain"), "plain");
    assert_eq!(escape_html(""), "");
}

#[test]
fn writer_accumulates_markdown_only_output() {
    let mut w = HtmlWriter::new(None);
    w.write_markdown("# Hi").unwrap();
    assert_eq!(w.into_output(), markdown::to_html("# Hi"));
}

#[test]
fn writer_separates_metadata_from_body() {
    let mut w = HtmlWriter::new(None);
    w.write_markdown("---\na: b\n---\ntext").unwrap();
    let out = w.into_output();
    assert_eq!(
        out,
        format!("<dl>\n<dt>a</dt>\n<dd>b</dd>\n</dl>\n{}", markdown::to_html("text"))
    );
}

#[test]
fn opener_alone_is_unterminated() {
    assert_eq!(render_document("---\n", None), Err(RenderError::MalformedFrontMatter));
}

#[test]
fn three_dashes_without_newline_are_plain_markdown() {
    let doc = render_document("---", None).unwrap();
    assert!(doc.contains(&markdown::to_html("---")));
}

#[test]
fn metadata_value_may_contain_the_separator() {
    let doc = render_document("---\nwhen: 09:15:01\n---\nx", None).unwrap();
    assert!(doc.contains("<dt>when</dt>\n<dd>09:15:01</dd>"));
}
