use wokelang_ssg::content::{
    markdown_to_html, split_front_matter, ContentError, FrontMatter, FrontMatterFields,
    HeaderOutcome, Page, SourceOutcome, DEFAULT_TEMPLATE,
};
use wokelang_ssg::time::Timestamp;

fn text_field(value: &serde_yaml::Value, key: &str) -> Option<String> {
    value.get(key).and_then(|v| v.as_str()).map(|s| s.to_string())
}

fn decode(header: &str) -> HeaderOutcome {
    match serde_yaml::from_str::<serde_yaml::Value>(header) {
        Ok(value) => HeaderOutcome::Decoded(FrontMatterFields {
            title: text_field(&value, "title"),
            description: text_field(&value, "description"),
            date: None,
            draft: value.get("draft").and_then(|v| v.as_bool()),
            tags: value.get("tags").and_then(|v| v.as_sequence()).map(|items| {
                items.iter().filter_map(|v| v.as_str()).map(|s| s.to_string()).collect()
            }),
            template: text_field(&value, "template"),
        }),
        Err(error) => HeaderOutcome::Malformed(error.to_string()),
    }
}

fn parse_file(path: &str, content: &str) -> Result<Page, ContentError> {
    let split = split_front_matter(content);
    let header = match &split.header {
        Some(text) => decode(text),
        None => HeaderOutcome::Absent,
    };
    Page::from_file(path, SourceOutcome::Read { body: split.body, header })
}

fn parse_front_matter(content: &str) -> Result<(FrontMatter, String), ContentError> {
    let page = parse_file("page.md", content)?;
    Ok((page.front_matter, page.content))
}

fn no_fields() -> FrontMatterFields {
    FrontMatterFields {
        title: None,
        description: None,
        date: None,
        draft: None,
        tags: None,
        template: None,
    }
}

#[test]
fn test_parse_front_matter() {
    let content = "---\ntitle: Test Page\ndescription: A test page\n---\n# Hello World\n\nThis is content.";

    let (fm, md) = parse_front_matter(content).unwrap();
    assert_eq!(fm.title, "Test Page");
    assert_eq!(fm.description, "A test page");
    assert!(md.contains("# Hello World"));
}

#[test]
fn test_markdown_to_html() {
    let md = "# Hello\n\nThis is **bold**.";
    let html = markdown_to_html(md).unwrap();
    assert!(html.contains("<h1>"));
    assert!(html.contains("<strong>bold</strong>"));
}

#[test]
fn markdown_exact_paragraph() {
    assert_eq!(markdown_to_html("Hi *there*").unwrap(), "<p>Hi <em>there</em></p>\n");
}

#[test]
fn markdown_extensions_are_on() {
    let html = markdown_to_html("~~gone~~\n\n- [x] done\n\n| a | b |\n|---|---|\n| 1 | 2 |\n\n# Top {#first}\n").unwrap();
    assert!(html.contains("<del>gone</del>"));
    assert!(html.contains("type=\"checkbox\""));
    assert!(html.contains("<table>"));
    assert!(html.contains("<h1 id=\"first\">"));
    let noted = markdown_to_html("Text[^1].\n\n[^1]: Note.\n").unwrap();
    assert!(noted.contains("footnote"));
}

#[test]
fn split_recovers_header_and_body() {
    let split = split_front_matter("---\ntitle: Home\n---\n# Hi\n");
    assert_eq!(split.header.as_deref(), Some("title: Home"));
    assert_eq!(split.body, "# Hi\n");
}

#[test]
fn split_keeps_body_as_it_is() {
    let body = "line one\r\n\n---\nnot a header\n\u{e9}\u{4e16}\n";
    let content = format!("---\ntitle: T\ntags:\n  - a\n---\n{}", body);
    let split = split_front_matter(&content);
    assert_eq!(split.header.as_deref(), Some("title: T\ntags:\n  - a"));
    assert_eq!(split.body, body);
}

#[test]
fn split_ends_header_at_first_closing_line() {
    let split = split_front_matter("---\na: 1\n---\nbody\n---\nmore\n");
    assert_eq!(split.header.as_deref(), Some("a: 1"));
    assert_eq!(split.body, "body\n---\nmore\n");
}

#[test]
fn split_without_header_is_all_body() {
    let content = "# Just text\n\nNo header here.\n";
    let split = split_front_matter(content);
    assert_eq!(split.header, None);
    assert_eq!(split.body, content);
}

#[test]
fn split_without_closing_line_is_all_body() {
    let content = "---\ntitle: Lost\nno end";
    let split = split_front_matter(content);
    assert_eq!(split.header, None);
    assert_eq!(split.body, content);
}

#[test]
fn split_closing_line_may_end_the_file() {
    let split = split_front_matter("---\ntitle: T\n---");
    assert_eq!(split.header.as_deref(), Some("title: T"));
    assert_eq!(split.body, "");
}

#[test]
fn closing_line_at_end_of_file_closes_the_header() {
    let content = "---\ntitle: T\ntemplate: page.html\n---";
    let split = split_front_matter(content);
    assert_eq!(split.header.as_deref(), Some("title: T\ntemplate: page.html"));
    let (fm, md) = parse_front_matter(content).unwrap();
    assert_eq!(fm.title, "T");
    assert_eq!(fm.template, "page.html");
    assert_eq!(md, "");
}

#[test]
fn split_closing_line_directly_under_opening_line() {
    let split = split_front_matter("---\n---\nbody\n");
    assert_eq!(split.header.as_deref(), Some(""));
    assert_eq!(split.body, "body\n");
}

#[test]
fn split_of_two_dash_lines_and_nothing_else() {
    let split = split_front_matter("---\n---");
    assert_eq!(split.header.as_deref(), Some(""));
    assert_eq!(split.body, "");
    let ended = split_front_matter("---\n---\n");
    assert_eq!(ended.header.as_deref(), Some(""));
    assert_eq!(ended.body, "");
}

#[test]
fn split_of_opening_line_alone_is_all_body() {
    for content in ["---\n", "---", "---\n--", "---\ntitle: T\n--"] {
        let split = split_front_matter(content);
        assert_eq!(split.header, None);
        assert_eq!(split.body, content);
    }
}

#[test]
fn split_closing_line_holds_three_dashes_and_nothing_else() {
    for content in [
        "---\na: 1\n----\nbody",
        "---\na: 1\n--- \nbody",
        "---\na: 1\n ---\nbody",
        "---\na: 1\n---\r\nbody",
        "---\na: 1 ---\nbody",
        "---\na: 1\n--\nbody",
    ] {
        let split = split_front_matter(content);
        assert_eq!(split.header, None);
        assert_eq!(split.body, content);
    }
}

#[test]
fn split_header_of_one_empty_line() {
    let split = split_front_matter("---\n\n---\nbody");
    assert_eq!(split.header.as_deref(), Some(""));
    assert_eq!(split.body, "body");
}

#[test]
fn split_opening_line_needs_its_line_end() {
    for content in ["--- \na: 1\n---\n", "---\r\na: 1\n---\n", "----\na: 1\n---\n"] {
        let split = split_front_matter(content);
        assert_eq!(split.header, None);
        assert_eq!(split.body, content);
    }
}

#[test]
fn split_of_empty_text() {
    let split = split_front_matter("");
    assert_eq!(split.header, None);
    assert_eq!(split.body, "");
}

#[test]
fn split_header_must_open_the_file() {
    let content = "\n---\ntitle: T\n---\nbody";
    let split = split_front_matter(content);
    assert_eq!(split.header, None);
    assert_eq!(split.body, content);
}

#[test]
fn no_front_matter_takes_defaults() {
    let content = "Plain *text*.\n";
    let (fm, body) = parse_front_matter(content).unwrap();
    assert_eq!(fm.title, "");
    assert_eq!(fm.description, "");
    assert_eq!(fm.date, None);
    assert!(!fm.draft);
    assert!(fm.tags.is_empty());
    assert_eq!(fm.template, "page.html");
    assert_eq!(fm.template, DEFAULT_TEMPLATE);
    assert_eq!(body, content);
}

#[test]
fn default_front_matter_values() {
    let fm = FrontMatter::default();
    assert_eq!(fm.title, "");
    assert_eq!(fm.description, "");
    assert_eq!(fm.date, None);
    assert!(!fm.draft);
    assert!(fm.tags.is_empty());
    assert_eq!(fm.template, "page.html");
}

#[test]
fn fields_fall_back_to_defaults() {
    let fields = FrontMatterFields { title: Some("Only".to_string()), ..no_fields() };
    let fm = FrontMatter::from_fields("only.md", fields).unwrap();
    assert_eq!(fm.title, "Only");
    assert_eq!(fm.description, "");
    assert_eq!(fm.date, None);
    assert!(!fm.draft);
    assert!(fm.tags.is_empty());
    assert_eq!(fm.template, "page.html");
}

#[test]
fn fields_are_kept_as_named() {
    let date = Timestamp::new(1_431_648_000, 0).unwrap();
    let fields = FrontMatterFields {
        title: Some("T".to_string()),
        description: Some("D".to_string()),
        date: Some(date),
        draft: Some(true),
        tags: Some(vec!["a".to_string(), "b".to_string()]),
        template: Some("post.html".to_string()),
    };
    let fm = FrontMatter::from_fields("t.md", fields).unwrap();
    assert_eq!(fm.title, "T");
    assert_eq!(fm.description, "D");
    assert_eq!(fm.date, Some(date));
    assert!(fm.draft);
    assert_eq!(fm.tags, vec!["a".to_string(), "b".to_string()]);
    assert_eq!(fm.template, "post.html");
}

#[test]
fn fields_without_title_are_refused() {
    let fields = FrontMatterFields { description: Some("D".to_string()), ..no_fields() };
    match FrontMatter::from_fields("docs/untitled.md", fields) {
        Err(ContentError::MissingTitle { path }) => assert_eq!(path, "docs/untitled.md"),
        other => panic!("unexpected: {:?}", other),
    }
}

#[test]
fn header_without_title_is_an_error() {
    match parse_file("a/untitled.md", "---\ndescription: none\n---\nbody") {
        Err(error @ ContentError::MissingTitle { .. }) => assert_eq!(
            error.message(),
            "Failed to parse front matter: a/untitled.md: missing field `title`"
        ),
        other => panic!("unexpected: {:?}", other),
    }
}

#[test]
fn malformed_header_is_an_error() {
    let made = Page::from_file(
        "a.md",
        SourceOutcome::Read {
            body: "body".to_string(),
            header: HeaderOutcome::Malformed("bad indentation".to_string()),
        },
    );
    match made {
        Err(ContentError::MalformedHeader { path, reason }) => {
            assert_eq!(path, "a.md");
            assert_eq!(reason, "bad indentation");
        }
        other => panic!("unexpected: {:?}", other),
    }
}

#[test]
fn broken_yaml_header_is_an_error() {
    match parse_file("bad.md", "---\ntitle: [unclosed\n---\nx") {
        Err(error @ ContentError::MalformedHeader { .. }) => {
            assert!(error.message().starts_with("Failed to parse front matter: bad.md: "));
        }
        other => panic!("unexpected: {:?}", other),
    }
}

#[test]
fn page_from_file_fills_every_part() {
    let fields = FrontMatterFields { title: Some("Post".to_string()), ..no_fields() };
    let page = Page::from_file(
        "blog/2024/first-post.md",
        SourceOutcome::Read { body: "# Hello\n".to_string(), header: HeaderOutcome::Decoded(fields) },
    )
    .unwrap();
    assert_eq!(page.front_matter.title, "Post");
    assert_eq!(page.content, "# Hello\n");
    assert_eq!(page.html, "<h1>Hello</h1>\n");
    assert_eq!(page.slug, "first-post");
}

#[test]
fn content_error_messages() {
    let unreadable = ContentError::Unreadable {
        path: "content/a.md".to_string(),
        reason: "denied".to_string(),
    };
    assert_eq!(unreadable.message(), "Failed to read file: content/a.md: denied");
    let malformed = ContentError::MalformedHeader {
        path: "content/b.md".to_string(),
        reason: "line 2".to_string(),
    };
    assert_eq!(malformed.message(), "Failed to parse front matter: content/b.md: line 2");
    assert_eq!(
        ContentError::MissingTitle { path: "content/c.md".to_string() }.message(),
        "Failed to parse front matter: content/c.md: missing field `title`"
    );
    let highlight = ContentError::Highlight { reason: "regex".to_string() };
    assert_eq!(highlight.message(), "Failed to highlight code: regex");
}

#[test]
fn unreadable_file_is_an_error_that_names_it() {
    let source = SourceOutcome::Unreadable("No such file or directory".to_string());
    match Page::from_file("content/gone.md", source) {
        Err(ContentError::Unreadable { path, reason }) => {
            assert_eq!(path, "content/gone.md");
            assert_eq!(reason, "No such file or directory");
        }
        other => panic!("unexpected: {:?}", other),
    }
}

#[test]
fn unreadable_file_message() {
    let source = SourceOutcome::Unreadable("denied".to_string());
    let error = Page::from_file("content/gone.md", source).unwrap_err();
    assert_eq!(error.message(), "Failed to read file: content/gone.md: denied");
}

#[test]
fn highlight_code_is_reached_from_content() {
    let html = wokelang_ssg::content::highlight_code("x = 1\n", "py").unwrap();
    assert!(html.starts_with("<pre"));
}
