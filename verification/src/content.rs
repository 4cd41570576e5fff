//! The content model: one source file as front matter, Markdown body,
//! rendered HTML and slug.

use crate::paths::{slug_for, slug_of};
use crate::text::{chars_of, has_prefix, join2, join3, matches_at, slice_text};
use crate::time::Timestamp;
use pulldown_cmark::{Options, Parser};
use vstd::prelude::*;

pub use crate::highlight::highlight_code;

verus! {

/// The template that renders a page whose front matter names none.
pub const DEFAULT_TEMPLATE: &'static str = "page.html";

/// The metadata that heads a content file.
#[derive(Debug, Clone)]
pub struct FrontMatter {
    pub title: String,
    pub description: String,
    pub date: Option<Timestamp>,
    pub draft: bool,
    pub tags: Vec<String>,
    pub template: String,
}

/// What a `FrontMatter` holds, as mathematical values.
pub struct FrontMatterView {
    pub title: Seq<char>,
    pub description: Seq<char>,
    pub date: Option<Timestamp>,
    pub draft: bool,
    pub tags: Seq<Seq<char>>,
    pub template: Seq<char>,
}

impl View for FrontMatter {
    type V = FrontMatterView;

    open spec fn view(&self) -> FrontMatterView {
        FrontMatterView {
            title: self.title@,
            description: self.description@,
            date: self.date,
            draft: self.draft,
            tags: self.tags.deep_view(),
            template: self.template@,
        }
    }
}

/// The front matter of a file that has none: no title, no description, no
/// date, no tags, not a draft, rendered by the default template.
pub open spec fn default_front_matter() -> FrontMatterView {
    FrontMatterView {
        title: Seq::empty(),
        description: Seq::empty(),
        date: None,
        draft: false,
        tags: Seq::empty(),
        template: DEFAULT_TEMPLATE@,
    }
}

impl Default for FrontMatter {
    fn default() -> (front_matter: Self)
        ensures
            front_matter@ == default_front_matter(),
    {
        let front_matter = FrontMatter {
            title: String::new(),
            description: String::new(),
            date: None,
            draft: false,
            tags: Vec::new(),
            template: DEFAULT_TEMPLATE.to_owned(),
        };
        assert(front_matter.tags.deep_view() =~= Seq::empty());
        front_matter
    }
}

/// The fields of a header block as they were decoded, each one absent where
/// the header does not name it.
#[derive(Debug, Clone)]
pub struct FrontMatterFields {
    pub title: Option<String>,
    pub description: Option<String>,
    pub date: Option<Timestamp>,
    pub draft: Option<bool>,
    pub tags: Option<Vec<String>>,
    pub template: Option<String>,
}

impl FrontMatterFields {
    /// The front matter that these fields stand for, each absent one at its
    /// default. Meant for fields that hold a title.
    pub open spec fn resolved(&self) -> FrontMatterView {
        FrontMatterView {
            title: match self.title {
                Some(title) => title@,
                None => Seq::empty(),
            },
            description: match self.description {
                Some(description) => description@,
                None => Seq::empty(),
            },
            date: self.date,
            draft: match self.draft {
                Some(draft) => draft,
                None => false,
            },
            tags: match self.tags {
                Some(tags) => tags.deep_view(),
                None => Seq::empty(),
            },
            template: match self.template {
                Some(template) => template@,
                None => DEFAULT_TEMPLATE@,
            },
        }
    }
}

/// Why a content file is no page.
#[derive(Debug, Clone)]
pub enum ContentError {
    /// The file could not be read.
    Unreadable { path: String, reason: String },
    /// The header block of the file is no well-formed metadata.
    MalformedHeader { path: String, reason: String },
    /// The header block of the file names no title.
    MissingTitle { path: String },
    /// The highlighter gave up on a piece of code.
    Highlight { reason: String },
}

impl FrontMatter {
    /// The front matter of the decoded header of the file at `path`. A
    /// header must name its title, else the error names the file; every other
    /// field falls back to its default.
    pub fn from_fields(path: &str, fields: FrontMatterFields) -> (made: Result<
        FrontMatter,
        ContentError,
    >)
        ensures
            fields.title is None ==> (made matches Err(ContentError::MissingTitle { path: at })
                && at@ == path@),
            fields.title is Some ==> (made matches Ok(front_matter) && front_matter@
                == fields.resolved()),
    {
        let FrontMatterFields { title, description, date, draft, tags, template } = fields;
        match title {
            None => Err(ContentError::MissingTitle { path: path.to_owned() }),
            Some(title) => {
                let front_matter = FrontMatter {
                    title,
                    description: match description {
                        Some(description) => description,
                        None => String::new(),
                    },
                    date,
                    draft: match draft {
                        Some(draft) => draft,
                        None => false,
                    },
                    tags: match tags {
                        Some(tags) => tags,
                        None => Vec::new(),
                    },
                    template: match template {
                        Some(template) => template,
                        None => DEFAULT_TEMPLATE.to_owned(),
                    },
                };
                assert(tags is None ==> front_matter.tags.deep_view() =~= Seq::empty());
                Ok(front_matter)
            },
        }
    }
}

/// The line that opens a header block, with its line end.
pub open spec fn header_open() -> Seq<char> {
    seq!['-', '-', '-', '\n']
}

/// Whether a line of exactly three dashes begins at position `at` of `text`:
/// the position opens a line, three dashes follow, and there the line ends,
/// at a line end or at the end of the text.
pub open spec fn dash_line_at(text: Seq<char>, at: int) -> bool {
    &&& 0 <= at
    &&& at + 3 <= text.len()
    &&& at == 0 || text[at - 1] == '\n'
    &&& text[at] == '-'
    &&& text[at + 1] == '-'
    &&& text[at + 2] == '-'
    &&& at + 3 == text.len() || text[at + 3] == '\n'
}

/// Whether `content` holds a header block whose closing line begins at
/// position `at`: it opens with the opening line, and the first line of
/// exactly three dashes after that line begins at `at`.
pub open spec fn header_ends_at(content: Seq<char>, at: int) -> bool {
    &&& has_prefix(content, header_open())
    &&& 4 <= at
    &&& dash_line_at(content, at)
    &&& forall|j: int| 4 <= j < at ==> !dash_line_at(content, j)
}

/// Whether `content` holds a header block.
pub open spec fn has_header(content: Seq<char>) -> bool {
    exists|at: int| header_ends_at(content, at)
}

/// Where the closing line of the header block of `content` begins.
pub open spec fn header_end(content: Seq<char>) -> int {
    choose|at: int| header_ends_at(content, at)
}

/// The header of a block whose closing line begins at `at`: the text between
/// the opening line and the line end before the closing line, and nothing
/// where the closing line follows the opening line directly.
pub open spec fn header_before(content: Seq<char>, at: int) -> Seq<char> {
    if at <= 4 {
        Seq::empty()
    } else {
        content.subrange(4, at - 1)
    }
}

/// The body behind a closing line that begins at `at`: what follows the line
/// end of that line, and nothing where the line ends the text.
pub open spec fn body_behind(content: Seq<char>, at: int) -> Seq<char> {
    if at + 4 >= content.len() {
        Seq::empty()
    } else {
        content.subrange(at + 4, content.len() as int)
    }
}

/// The text of the header block of `content`, between its two lines of
/// dashes.
pub open spec fn header_of(content: Seq<char>) -> Option<Seq<char>> {
    if has_header(content) {
        Some(header_before(content, header_end(content)))
    } else {
        None
    }
}

/// What of `content` is body: what follows the header block, and all of it
/// where there is none.
pub open spec fn body_of(content: Seq<char>) -> Seq<char> {
    if has_header(content) {
        body_behind(content, header_end(content))
    } else {
        content
    }
}

/// The closing line of a header block begins at one position only.
pub proof fn lemma_header_end_unique(content: Seq<char>, at: int)
    requires
        header_ends_at(content, at),
    ensures
        has_header(content),
        header_end(content) == at,
        header_of(content) == Some(header_before(content, at)),
        body_of(content) == body_behind(content, at),
{
    let other = header_end(content);
    assert(header_ends_at(content, other));
    if other < at {
        assert(!dash_line_at(content, other));
    } else if at < other {
        assert(!dash_line_at(content, at));
    }
}

/// A content file cut in two: the text of its header block, if it has one,
/// and its body.
#[derive(Debug, Clone)]
pub struct SourceSplit {
    pub header: Option<String>,
    pub body: String,
}

/// Whether a line of exactly three dashes begins at position `at`.
fn is_dash_line(chars: &Vec<char>, at: usize) -> (found: bool)
    ensures
        found == dash_line_at(chars@, at as int),
{
    if chars.len() < 3 || at > chars.len() - 3 {
        return false;
    }
    if at > 0 && chars[at - 1] != '\n' {
        return false;
    }
    if chars[at] != '-' || chars[at + 1] != '-' || chars[at + 2] != '-' {
        return false;
    }
    at + 3 == chars.len() || chars[at + 3] == '\n'
}

/// Cuts `content` into header and body.
///
/// The header block opens with a line of three dashes at the very start,
/// ended by a line end. It closes with the first line after it that holds
/// exactly three dashes, ended by a line end or by the end of the text. The
/// header is the text between the opening line and the line end before the
/// closing line, and empty where the closing line follows directly; the body
/// is what follows the line end of the closing line, and empty where that
/// line ends the text. Where `content` does not open with such a line, or no
/// closing line follows, all of it is body.
pub fn split_front_matter(content: &str) -> (split: SourceSplit)
    ensures
        match split.header {
            Some(header) => header_of(content@) == Some(header@),
            None => header_of(content@) is None,
        },
        split.body@ == body_of(content@),
{
    let chars = chars_of(content);
    let open: Vec<char> = vec!['-', '-', '-', '\n'];
    assert(open@ =~= header_open());
    if !matches_at(&chars, &open, 0) {
        assert(!has_header(content@));
        return SourceSplit { header: None, body: content.to_owned() };
    }
    let mut at: usize = 4;
    while at < chars.len()
        invariant
            4 <= at,
            chars@ == content@,
            has_prefix(content@, header_open()),
            forall|j: int| 4 <= j < at ==> !dash_line_at(content@, j),
        decreases chars.len() - at,
    {
        if is_dash_line(&chars, at) {
            proof {
                lemma_header_end_unique(content@, at as int);
            }
            let header = if at == 4 {
                String::new()
            } else {
                slice_text(content, 4, at - 1)
            };
            let body = if at + 3 == chars.len() {
                String::new()
            } else {
                slice_text(content, at + 4, chars.len())
            };
            return SourceSplit { header: Some(header), body };
        }
        at += 1;
    }
    assert(!has_header(content@));
    SourceSplit { header: None, body: content.to_owned() }
}

/// Whether `text` holds a line of exactly three dashes.
pub open spec fn holds_dash_line(text: Seq<char>) -> bool {
    exists|at: int| dash_line_at(text, at)
}

/// A header that holds no line of three dashes is recovered as it is, and so
/// is the body: a file of the opening line, `header`, a closing line and
/// `body` splits into exactly `header` and `body`.
pub proof fn lemma_split_recovers(header: Seq<char>, body: Seq<char>)
    requires
        !holds_dash_line(header),
    ensures
        header_of(header_open() + header + seq!['\n', '-', '-', '-', '\n'] + body) == Some(header),
        body_of(header_open() + header + seq!['\n', '-', '-', '-', '\n'] + body) == body,
{
    let close = seq!['\n', '-', '-', '-', '\n'];
    let content = header_open() + header + close + body;
    let at = 5 + header.len() as int;
    assert(content.subrange(0, 4) =~= header_open());
    assert(dash_line_at(content, at));
    assert(content.subrange(4, 4 + header.len() as int) =~= header);
    assert forall|j: int| 4 <= j < at implies !dash_line_at(content, j) by {
        lemma_no_line_in_header(header, content, j);
    }
    lemma_header_end_unique(content, at);
    assert(content.subrange(4, at - 1) =~= header);
    assert(content.subrange(at + 4, content.len() as int) =~= body);
    assert(body_behind(content, at) =~= body);
}

/// A closing line may end the file: a file of the opening line, `header` and
/// a closing line without line end splits into `header` and an empty body.
pub proof fn lemma_split_recovers_at_end(header: Seq<char>)
    requires
        !holds_dash_line(header),
    ensures
        header_of(header_open() + header + seq!['\n', '-', '-', '-']) == Some(header),
        body_of(header_open() + header + seq!['\n', '-', '-', '-']) == Seq::<char>::empty(),
{
    let content = header_open() + header + seq!['\n', '-', '-', '-'];
    let at = 5 + header.len() as int;
    assert(content.subrange(0, 4) =~= header_open());
    assert(dash_line_at(content, at));
    assert(content.subrange(4, 4 + header.len() as int) =~= header);
    assert forall|j: int| 4 <= j < at implies !dash_line_at(content, j) by {
        lemma_no_line_in_header(header, content, j);
    }
    lemma_header_end_unique(content, at);
    assert(content.subrange(4, at - 1) =~= header);
}

/// A closing line directly under the opening line closes an empty header:
/// what follows it is the body.
pub proof fn lemma_split_empty_header(body: Seq<char>)
    ensures
        header_of(header_open() + seq!['-', '-', '-', '\n'] + body) == Some(Seq::<char>::empty()),
        body_of(header_open() + seq!['-', '-', '-', '\n'] + body) == body,
        header_of(header_open() + seq!['-', '-', '-']) == Some(Seq::<char>::empty()),
        body_of(header_open() + seq!['-', '-', '-']) == Seq::<char>::empty(),
{
    let content = header_open() + seq!['-', '-', '-', '\n'] + body;
    assert(content.subrange(0, 4) =~= header_open());
    assert(dash_line_at(content, 4));
    lemma_header_end_unique(content, 4);
    assert(body_behind(content, 4) =~= body);
    let short = header_open() + seq!['-', '-', '-'];
    assert(short.subrange(0, 4) =~= header_open());
    assert(dash_line_at(short, 4));
    lemma_header_end_unique(short, 4);
}

/// Inside a header that holds no line of three dashes, and on the line end
/// behind it, no such line begins.
proof fn lemma_no_line_in_header(header: Seq<char>, content: Seq<char>, j: int)
    requires
        !holds_dash_line(header),
        4 <= j < 5 + header.len(),
        content.len() >= 5 + header.len(),
        content.subrange(0, 4) == header_open(),
        content.subrange(4, 4 + header.len() as int) == header,
        content[4 + header.len() as int] == '\n',
    ensures
        !dash_line_at(content, j),
{
    let k = j - 4;
    assert(content.subrange(0, 4)[3] == content[3]);
    assert forall|i: int| 0 <= i < header.len() implies header[i] == content[4 + i] by {
        assert(content.subrange(4, 4 + header.len() as int)[i] == content[4 + i]);
    }
    if dash_line_at(content, j) {
        if k + 3 <= header.len() {
            assert(dash_line_at(header, k));
        }
    }
}

/// A file that does not open with a line of three dashes has no header
/// block: all of it is body.
pub proof fn lemma_no_header_all_body(content: Seq<char>)
    requires
        !has_prefix(content, header_open()),
    ensures
        header_of(content) is None,
        body_of(content) == content,
{
}

/// The Markdown extensions that a rendering switches on.
#[derive(Debug, Clone, Copy, PartialEq, Eq)]
pub struct MarkdownExtensions {
    pub strikethrough: bool,
    pub tables: bool,
    pub footnotes: bool,
    pub tasklists: bool,
    pub heading_attributes: bool,
}

/// The HTML that the Markdown renderer makes of `markdown` under
/// `extensions`.
pub uninterp spec fn markdown_html(markdown: Seq<char>, extensions: MarkdownExtensions) -> Seq<
    char,
>;

/// The extensions under which page bodies are rendered: strikethrough,
/// tables, footnotes, task lists and heading attributes.
pub open spec fn page_extensions() -> MarkdownExtensions {
    MarkdownExtensions {
        strikethrough: true,
        tables: true,
        footnotes: true,
        tasklists: true,
        heading_attributes: true,
    }
}

/// Calls `pulldown_cmark::Parser::new_ext` on `markdown`, with the options
/// that `extensions` switches on, and `pulldown_cmark::html::push_html` on an
/// empty `String`. The HTML is a function of the text and the options alone.
#[verifier::external_body]
fn render_markdown(markdown: &str, extensions: MarkdownExtensions) -> (html: String)
    ensures
        html@ == markdown_html(markdown@, extensions),
{
    let mut options = Options::empty();
    options.set(Options::ENABLE_STRIKETHROUGH, extensions.strikethrough);
    options.set(Options::ENABLE_TABLES, extensions.tables);
    options.set(Options::ENABLE_FOOTNOTES, extensions.footnotes);
    options.set(Options::ENABLE_TASKLISTS, extensions.tasklists);
    options.set(Options::ENABLE_HEADING_ATTRIBUTES, extensions.heading_attributes);
    let mut html = String::new();
    pulldown_cmark::html::push_html(&mut html, Parser::new_ext(markdown, options));
    html
}

/// The body of a page as HTML: CommonMark with strikethrough, tables,
/// footnotes, task lists and heading attributes.
pub fn markdown_to_html(markdown: &str) -> (made: Result<String, ContentError>)
    ensures
        made matches Ok(html) && html@ == markdown_html(markdown@, page_extensions()),
{
    let extensions = MarkdownExtensions {
        strikethrough: true,
        tables: true,
        footnotes: true,
        tasklists: true,
        heading_attributes: true,
    };
    Ok(render_markdown(markdown, extensions))
}

/// One content file, parsed: its front matter, its Markdown body without the
/// header block, that body as HTML, and its slug.
#[derive(Debug, Clone)]
pub struct Page {
    pub front_matter: FrontMatter,
    pub content: String,
    pub html: String,
    pub slug: String,
}

/// What a `Page` holds, as mathematical values.
pub struct PageView {
    pub front_matter: FrontMatterView,
    pub content: Seq<char>,
    pub html: Seq<char>,
    pub slug: Seq<char>,
}

impl View for Page {
    type V = PageView;

    open spec fn view(&self) -> PageView {
        PageView {
            front_matter: self.front_matter@,
            content: self.content@,
            html: self.html@,
            slug: self.slug@,
        }
    }
}

/// What became of the header block of a content file when it was decoded.
#[derive(Debug, Clone)]
pub enum HeaderOutcome {
    /// The file has no header block.
    Absent,
    /// The header block decoded to these fields.
    Decoded(FrontMatterFields),
    /// The header block is no well-formed metadata, for this reason.
    Malformed(String),
}

/// What became of a content file when it was read.
#[derive(Debug, Clone)]
pub enum SourceOutcome {
    /// The file could not be read, for this reason.
    Unreadable(String),
    /// The file was read: this is its body, and this became of its header
    /// block.
    Read { body: String, header: HeaderOutcome },
}

/// The page that a source at `path` with body `body` makes under the front
/// matter `front_matter`.
pub open spec fn page_of(path: Seq<char>, body: Seq<char>, front_matter: FrontMatterView) -> PageView {
    PageView {
        front_matter,
        content: body,
        html: markdown_html(body, page_extensions()),
        slug: slug_of(path),
    }
}

impl Page {
    /// The page of the content file at `path`, from what became of reading
    /// it and of decoding its header block.
    ///
    /// A file without header block takes the default front matter. A file
    /// that could not be read, a header block that is malformed, and one that
    /// names no title are errors, and each names `path`. The slug is the file
    /// name of `path` without directory and extension.
    pub fn from_file(path: &str, source: SourceOutcome) -> (made: Result<Page, ContentError>)
        ensures
            match source {
                SourceOutcome::Unreadable(reason) => made matches Err(
                    ContentError::Unreadable { path: at, reason: told },
                ) && at@ == path@ && told@ == reason@,
                SourceOutcome::Read { body, header } => match header {
                    HeaderOutcome::Absent => made matches Ok(page) && page@ == page_of(
                        path@,
                        body@,
                        default_front_matter(),
                    ),
                    HeaderOutcome::Decoded(fields) => if fields.title is Some {
                        made matches Ok(page) && page@ == page_of(path@, body@, fields.resolved())
                    } else {
                        made matches Err(ContentError::MissingTitle { path: at }) && at@ == path@
                    },
                    HeaderOutcome::Malformed(reason) => made matches Err(
                        ContentError::MalformedHeader { path: at, reason: told },
                    ) && at@ == path@ && told@ == reason@,
                },
            },
    {
        let (body, header) = match source {
            SourceOutcome::Unreadable(reason) => {
                return Err(ContentError::Unreadable { path: path.to_owned(), reason });
            },
            SourceOutcome::Read { body, header } => (body, header),
        };
        let front_matter = match header {
            HeaderOutcome::Absent => FrontMatter::default(),
            HeaderOutcome::Decoded(fields) => match FrontMatter::from_fields(path, fields) {
                Ok(front_matter) => front_matter,
                Err(error) => {
                    return Err(error);
                },
            },
            HeaderOutcome::Malformed(reason) => {
                return Err(ContentError::MalformedHeader { path: path.to_owned(), reason });
            },
        };
        let html = render_markdown(body.as_str(), MarkdownExtensions {
            strikethrough: true,
            tables: true,
            footnotes: true,
            tasklists: true,
            heading_attributes: true,
        });
        let slug = slug_for(path);
        Ok(Page { front_matter, content: body, html, slug })
    }
}

impl ContentError {
    /// What went wrong, in words, with the path of the file where there is
    /// one.
    pub open spec fn describe(&self) -> Seq<char> {
        match *self {
            ContentError::Unreadable { path, reason } => "Failed to read file: "@ + path@ + ": "@
                + reason@,
            ContentError::MalformedHeader { path, reason } => "Failed to parse front matter: "@
                + path@ + ": "@ + reason@,
            ContentError::MissingTitle { path } => "Failed to parse front matter: "@ + path@
                + ": "@ + "missing field `title`"@,
            ContentError::Highlight { reason } => "Failed to highlight code: "@ + reason@,
        }
    }

    /// What went wrong, in words, with the path of the file where there is
    /// one.
    pub fn message(&self) -> (text: String)
        ensures
            text@ == self.describe(),
    {
        match self {
            ContentError::Unreadable { path, reason } => {
                let head = join2("Failed to read file: ", path.as_str());
                join3(head.as_str(), ": ", reason.as_str())
            },
            ContentError::MalformedHeader { path, reason } => {
                let head = join2("Failed to parse front matter: ", path.as_str());
                join3(head.as_str(), ": ", reason.as_str())
            },
            ContentError::MissingTitle { path } => {
                let head = join2("Failed to parse front matter: ", path.as_str());
                join3(head.as_str(), ": ", "missing field `title`")
            },
            ContentError::Highlight { reason } => join2("Failed to highlight code: ", reason.as_str()),
        }
    }
}

} // verus!
