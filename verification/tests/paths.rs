use wokelang_ssg::paths::{
    extension_of, file_name_of, is_markdown_file, output_path_for, parent_of, slug_for, stem_of,
};

#[test]
fn file_name_follows_last_slash() {
    assert_eq!(file_name_of("a/b/c.md"), "c.md");
    assert_eq!(file_name_of("c.md"), "c.md");
    assert_eq!(file_name_of("a/"), "");
    assert_eq!(file_name_of(""), "");
}

#[test]
fn parent_stands_before_last_slash() {
    assert_eq!(parent_of("a/b/c.md"), "a/b");
    assert_eq!(parent_of("c.md"), "");
    assert_eq!(parent_of("/c.md"), "");
}

#[test]
fn stem_drops_last_extension_only() {
    assert_eq!(stem_of("post.md"), "post");
    assert_eq!(stem_of("archive.tar.gz"), "archive.tar");
    assert_eq!(stem_of("README"), "README");
    assert_eq!(stem_of(".hidden"), ".hidden");
    assert_eq!(stem_of(".hidden.md"), ".hidden");
    assert_eq!(stem_of("name."), "name");
}

#[test]
fn extension_follows_last_dot() {
    assert_eq!(extension_of("post.md"), Some("md".to_string()));
    assert_eq!(extension_of("archive.tar.gz"), Some("gz".to_string()));
    assert_eq!(extension_of("README"), None);
    assert_eq!(extension_of(".md"), None);
    assert_eq!(extension_of("name."), Some("".to_string()));
}

#[test]
fn only_lower_case_md_is_markdown() {
    assert!(is_markdown_file("index.md"));
    assert!(is_markdown_file("docs/guide/intro.md"));
    assert!(!is_markdown_file("index.MD"));
    assert!(!is_markdown_file("index.Md"));
    assert!(!is_markdown_file("index.markdown"));
    assert!(!is_markdown_file("index.md.bak"));
    assert!(!is_markdown_file("style.css"));
    assert!(!is_markdown_file("md"));
    assert!(!is_markdown_file(".md"));
    assert!(!is_markdown_file("docs.md/readme"));
}

#[test]
fn slug_is_base_name_without_extension() {
    assert_eq!(slug_for("index.md"), "index");
    assert_eq!(slug_for("a/b/post.md"), "post");
    assert_eq!(slug_for("a/b/my.first.post.md"), "my.first.post");
    assert_eq!(slug_for("notes"), "notes");
}

#[test]
fn slug_without_file_name_is_index() {
    assert_eq!(slug_for(""), "index");
    assert_eq!(slug_for("a/"), "index");
    assert_eq!(slug_for(".."), "index");
    assert_eq!(slug_for("a/.."), "index");
}

#[test]
fn output_path_keeps_directory() {
    assert_eq!(output_path_for("post.md", "post"), "post.html");
    assert_eq!(output_path_for("blog/post.md", "post"), "blog/post.html");
    assert_eq!(output_path_for("a/b/c/deep.md", "deep"), "a/b/c/deep.html");
}

#[test]
fn output_path_of_index_is_index_html() {
    assert_eq!(output_path_for("index.md", "index"), "index.html");
    assert_eq!(output_path_for("docs/index.md", "index"), "docs/index.html");
    assert_eq!(output_path_for("docs/index.md", "other"), "docs/index.html");
}

#[test]
fn index_pages_in_two_directories_do_not_collide() {
    let a = output_path_for("a/index.md", &slug_for("a/index.md"));
    let b = output_path_for("b/index.md", &slug_for("b/index.md"));
    assert_eq!(a, "a/index.html");
    assert_eq!(b, "b/index.html");
}
