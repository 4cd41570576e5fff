//! The build of a site, step by step: what to do next, given what happened.
//!
//! The build walks through its stages in order: discovering the sources,
//! parsing them, rendering the pages, copying the assets, generating the
//! feeds, generating the sitemap. The caller does the work of each step and
//! reports back; a failure at any step ends the build.

use crate::config::Config;
use crate::content::{ContentError, Page, PageView};
use crate::feeds::{
    atom_document, atom_entries_of, atom_head_of, page_views, rss_channel_of, rss_document,
};
use crate::sitemap::sitemap_document;
use crate::time::Timestamp;
use crate::paths::{is_markdown, is_markdown_file, output_path, output_path_for};
use crate::templates::TemplateError;
use crate::text::{join2, join3, lemma_filter_step};
use vstd::prelude::*;

verus! {

/// A page with the path of its source, relative to the source directory.
#[derive(Debug, Clone)]
pub struct SourcePage {
    pub path: String,
    pub page: Page,
}

/// What a `SourcePage` holds.
pub struct SourcePageView {
    pub path: Seq<char>,
    pub page: PageView,
}

impl View for SourcePage {
    type V = SourcePageView;

    open spec fn view(&self) -> SourcePageView {
        SourcePageView { path: self.path@, page: self.page@ }
    }
}

/// Where a build stands.
#[derive(Debug, Clone, Copy, PartialEq, Eq)]
pub enum BuildStage {
    Init,
    Discovering,
    Parsing,
    Rendering,
    CopyingAssets,
    GeneratingFeeds,
    GeneratingSitemap,
    Done,
    Failed,
}

/// Why a build failed.
#[derive(Debug, Clone)]
pub enum BuildError {
    /// A content file is no page.
    Content(ContentError),
    /// A page could not be rendered, or the templates could not be loaded.
    Template(TemplateError),
    /// Reading, writing or copying failed at this path.
    Io { path: String, reason: String },
    /// A report came that the step under way does not end with.
    Unexpected,
}

impl BuildError {
    /// What went wrong, in words.
    pub open spec fn describe(&self) -> Seq<char> {
        match *self {
            BuildError::Content(error) => error.describe(),
            BuildError::Template(error) => error.describe(),
            BuildError::Io { path, reason } => "I/O error: "@ + path@ + ": "@ + reason@,
            BuildError::Unexpected => "the build was told of a step that it had not asked for"@,
        }
    }

    /// What went wrong, in words.
    pub fn message(&self) -> (text: String)
        ensures
            text@ == self.describe(),
    {
        match self {
            BuildError::Content(error) => error.message(),
            BuildError::Template(error) => error.message(),
            BuildError::Io { path, reason } => {
                let head = join2("I/O error: ", path.as_str());
                join3(head.as_str(), ": ", reason.as_str())
            },
            BuildError::Unexpected => "the build was told of a step that it had not asked for".to_owned(),
        }
    }
}

/// What happened at the step that the build asked for.
#[derive(Debug)]
pub enum BuildEvent {
    /// The output directory is there and the templates are loaded.
    Started,
    /// These are the files below the source directory, each by its path
    /// relative to that directory, in the order of the traversal.
    Discovered(Vec<String>),
    /// The file asked for was read and parsed to this page.
    Parsed(Page),
    /// The page asked for was rendered and written.
    Rendered,
    /// The static assets were copied.
    AssetsCopied,
    /// There is no directory of static assets.
    AssetsMissing,
    /// The feeds were written.
    FeedsWritten,
    /// The sitemap was written.
    SitemapWritten,
    /// The step failed.
    Failed(BuildError),
}

/// What a `BuildEvent` holds.
pub enum BuildEventView {
    Started,
    Discovered(Seq<Seq<char>>),
    Parsed(PageView),
    Rendered,
    AssetsCopied,
    AssetsMissing,
    FeedsWritten,
    SitemapWritten,
    Failed(BuildError),
}

impl View for BuildEvent {
    type V = BuildEventView;

    open spec fn view(&self) -> BuildEventView {
        match self {
            BuildEvent::Started => BuildEventView::Started,
            BuildEvent::Discovered(files) => BuildEventView::Discovered(files.deep_view()),
            BuildEvent::Parsed(page) => BuildEventView::Parsed(page@),
            BuildEvent::Rendered => BuildEventView::Rendered,
            BuildEvent::AssetsCopied => BuildEventView::AssetsCopied,
            BuildEvent::AssetsMissing => BuildEventView::AssetsMissing,
            BuildEvent::FeedsWritten => BuildEventView::FeedsWritten,
            BuildEvent::SitemapWritten => BuildEventView::SitemapWritten,
            BuildEvent::Failed(error) => BuildEventView::Failed(*error),
        }
    }
}

/// What the build asks for next.
#[derive(Debug)]
pub enum BuildAction {
    /// Walk the source directory and report its files.
    Discover,
    /// Read and parse the source at this path, relative to the source
    /// directory.
    Parse { path: String },
    /// Render the page of this index with its template and write it to this
    /// path, relative to the output directory.
    Render { index: usize, output: String },
    /// Copy the static assets into the output directory, if there are any.
    CopyAssets,
    /// Generate the feeds from all pages and write them.
    WriteFeeds,
    /// Generate the sitemap from all pages and write it.
    WriteSitemap,
    /// Nothing: the build is done.
    Finish,
    /// Nothing: the build has failed, for this reason.
    Abort(BuildError),
}

/// What a `BuildAction` holds.
pub enum BuildActionView {
    Discover,
    Parse { path: Seq<char> },
    Render { index: int, output: Seq<char> },
    CopyAssets,
    WriteFeeds,
    WriteSitemap,
    Finish,
    Abort(BuildError),
}

impl View for BuildAction {
    type V = BuildActionView;

    open spec fn view(&self) -> BuildActionView {
        match self {
            BuildAction::Discover => BuildActionView::Discover,
            BuildAction::Parse { path } => BuildActionView::Parse { path: path@ },
            BuildAction::Render { index, output } => BuildActionView::Render {
                index: *index as int,
                output: output@,
            },
            BuildAction::CopyAssets => BuildActionView::CopyAssets,
            BuildAction::WriteFeeds => BuildActionView::WriteFeeds,
            BuildAction::WriteSitemap => BuildActionView::WriteSitemap,
            BuildAction::Finish => BuildActionView::Finish,
            BuildAction::Abort(error) => BuildActionView::Abort(*error),
        }
    }
}

/// A build under way: its stage, the sources it found, the pages it has
/// parsed so far, and how many of them it has had rendered.
#[derive(Debug)]
pub struct Build {
    stage: BuildStage,
    files: Vec<String>,
    pages: Vec<SourcePage>,
    rendered: usize,
}

/// What a `Build` holds.
pub struct BuildView {
    pub stage: BuildStage,
    pub files: Seq<Seq<char>>,
    pub pages: Seq<SourcePageView>,
    pub rendered: int,
}

/// The sources among `files`: those with the extension `md`, in their order.
pub open spec fn sources_among(files: Seq<Seq<char>>) -> Seq<Seq<char>> {
    files.filter(|path: Seq<char>| is_markdown(path))
}

/// The request to render the page of index `index`.
pub open spec fn render_request(pages: Seq<SourcePageView>, index: int) -> BuildActionView {
    BuildActionView::Render {
        index,
        output: output_path(pages[index].path, pages[index].page.slug),
    }
}

impl BuildView {
    /// The build at its start.
    pub open spec fn initial() -> BuildView {
        BuildView {
            stage: BuildStage::Init,
            files: Seq::empty(),
            pages: Seq::empty(),
            rendered: 0,
        }
    }

    /// Whether the build holds together. Before it parses it holds no page;
    /// while it parses, the pages are those of the first sources, one source
    /// at least is left and nothing is rendered; while it renders, there is
    /// one page for each source and one page at least is left to render.
    pub open spec fn coherent(self) -> bool {
        &&& self.pages.len() <= self.files.len()
        &&& forall|i: int|
            0 <= i < self.pages.len() ==> (#[trigger] self.pages[i]).path == self.files[i]
        &&& 0 <= self.rendered <= self.pages.len()
        &&& self.stage == BuildStage::Init || self.stage == BuildStage::Discovering
            ==> self.pages.len() == 0
        &&& self.stage == BuildStage::Parsing ==> self.pages.len() < self.files.len()
            && self.rendered == 0
        &&& self.stage == BuildStage::Rendering ==> self.rendered < self.pages.len()
            && self.pages.len() == self.files.len()
    }

    /// The page collection of the build: its pages, in the order in which
    /// their sources were found.
    pub open spec fn collection(self) -> Seq<PageView> {
        self.pages.map_values(|source: SourcePageView| source.page)
    }

    /// This build at another stage.
    pub open spec fn at(self, stage: BuildStage) -> BuildView {
        BuildView { stage, ..self }
    }

    /// This build, failed on `event`: for the failure that the event
    /// reports, or else because the report was not expected.
    pub open spec fn failed(self, event: BuildEventView) -> (BuildView, BuildActionView) {
        (
            self.at(BuildStage::Failed),
            BuildActionView::Abort(
                match event {
                    BuildEventView::Failed(error) => error,
                    _ => BuildError::Unexpected,
                },
            ),
        )
    }

    /// The build after `event`, and what it asks for next.
    ///
    /// Each stage ends with the report of its own step and leads to the next
    /// stage. Parsing and rendering take one report for each source and for
    /// each page; without sources there is nothing to parse or to render.
    /// Assets that are missing are no failure. The report of a failure fails
    /// the build, which aborts with that failure; a report that the step
    /// under way does not end with fails it as unexpected. A build that is
    /// done or has failed stays as it is.
    pub open spec fn after(self, event: BuildEventView) -> (BuildView, BuildActionView) {
        match self.stage {
            BuildStage::Done => (self, BuildActionView::Finish),
            BuildStage::Failed => (self, BuildActionView::Abort(BuildError::Unexpected)),
            BuildStage::Init => match event {
                BuildEventView::Started => (
                    self.at(BuildStage::Discovering),
                    BuildActionView::Discover,
                ),
                _ => self.failed(event),
            },
            BuildStage::Discovering => match event {
                BuildEventView::Discovered(files) => {
                    let found = BuildView { files: sources_among(files), ..self };
                    if found.files.len() == 0 {
                        (found.at(BuildStage::CopyingAssets), BuildActionView::CopyAssets)
                    } else {
                        (
                            found.at(BuildStage::Parsing),
                            BuildActionView::Parse { path: found.files[0] },
                        )
                    }
                },
                _ => self.failed(event),
            },
            BuildStage::Parsing => match event {
                BuildEventView::Parsed(page) => {
                    let path = self.files[self.pages.len() as int];
                    let more = BuildView {
                        pages: self.pages.push(SourcePageView { path, page }),
                        ..self
                    };
                    if more.pages.len() < more.files.len() {
                        (more, BuildActionView::Parse { path: more.files[more.pages.len() as int] })
                    } else {
                        (more.at(BuildStage::Rendering), render_request(more.pages, 0))
                    }
                },
                _ => self.failed(event),
            },
            BuildStage::Rendering => match event {
                BuildEventView::Rendered => {
                    let more = BuildView { rendered: self.rendered + 1, ..self };
                    if more.rendered < more.pages.len() {
                        (more, render_request(more.pages, more.rendered))
                    } else {
                        (more.at(BuildStage::CopyingAssets), BuildActionView::CopyAssets)
                    }
                },
                _ => self.failed(event),
            },
            BuildStage::CopyingAssets => match event {
                BuildEventView::AssetsCopied | BuildEventView::AssetsMissing => (
                    self.at(BuildStage::GeneratingFeeds),
                    BuildActionView::WriteFeeds,
                ),
                _ => self.failed(event),
            },
            BuildStage::GeneratingFeeds => match event {
                BuildEventView::FeedsWritten => (
                    self.at(BuildStage::GeneratingSitemap),
                    BuildActionView::WriteSitemap,
                ),
                _ => self.failed(event),
            },
            BuildStage::GeneratingSitemap => match event {
                BuildEventView::SitemapWritten => (
                    self.at(BuildStage::Done),
                    BuildActionView::Finish,
                ),
                _ => self.failed(event),
            },
        }
    }
}

impl View for Build {
    type V = BuildView;

    closed spec fn view(&self) -> BuildView {
        BuildView {
            stage: self.stage,
            files: self.files.deep_view(),
            pages: self.pages@.map_values(|page: SourcePage| page@),
            rendered: self.rendered as int,
        }
    }
}

impl Build {
    #[verifier::type_invariant]
    spec fn well_formed(self) -> bool {
        self@.coherent()
    }

    /// A build at its start.
    pub fn new() -> (build: Build)
        ensures
            build@ == BuildView::initial(),
    {
        let build = Build {
            stage: BuildStage::Init,
            files: Vec::new(),
            pages: Vec::new(),
            rendered: 0,
        };
        assert(build@.files =~= Seq::empty());
        assert(build@.pages =~= Seq::empty());
        build
    }

    /// Where the build stands.
    pub fn stage(&self) -> (stage: BuildStage)
        ensures
            stage == self@.stage,
            self@.coherent(),
    {
        proof {
            use_type_invariant(self);
        }
        self.stage
    }

    /// How many pages the build holds.
    pub fn page_count(&self) -> (count: usize)
        ensures
            count == self@.pages.len(),
    {
        self.pages.len()
    }

    /// The page of index `index` with the path of its source.
    pub fn page(&self, index: usize) -> (found: Option<&SourcePage>)
        ensures
            match found {
                Some(page) => index < self@.pages.len() && page@ == self@.pages[index as int],
                None => index >= self@.pages.len(),
            },
    {
        if index < self.pages.len() {
            Some(&self.pages[index])
        } else {
            None
        }
    }

    /// The pages that the build holds, in the order in which their sources
    /// were found: the one collection that feeds and sitemap are generated
    /// from.
    pub fn pages(&self) -> (pages: Vec<&Page>)
        ensures
            page_views(pages@) == self@.collection(),
    {
        let mut pages: Vec<&Page> = Vec::new();
        let mut i: usize = 0;
        while i < self.pages.len()
            invariant
                i <= self.pages.len(),
                pages@.len() == i,
                forall|j: int| 0 <= j < i ==> (#[trigger] pages@[j])@ == self.pages@[j].page@,
            decreases self.pages.len() - i,
        {
            pages.push(&self.pages[i].page);
            i += 1;
        }
        assert(page_views(pages@) =~= self@.collection());
        pages
    }
}

/// The sources among `files`, in their order.
fn select_sources(files: &Vec<String>) -> (sources: Vec<String>)
    ensures
        sources.deep_view() == sources_among(files.deep_view()),
{
    let ghost all = files.deep_view();
    let ghost keep = |path: Seq<char>| is_markdown(path);
    let mut sources: Vec<String> = Vec::new();
    let mut i: usize = 0;
    proof {
        lemma_filter_step(all.push(Seq::empty()), keep, 0);
        assert(all.push(Seq::empty()).take(0) =~= all.take(0));
        assert(sources.deep_view() =~= all.take(0).filter(keep));
    }
    while i < files.len()
        invariant
            i <= files.len(),
            all == files.deep_view(),
            keep == |path: Seq<char>| is_markdown(path),
            sources.deep_view() == all.take(i as int).filter(keep),
        decreases files.len() - i,
    {
        proof {
            lemma_filter_step(all, keep, i as int);
        }
        if is_markdown_file(files[i].as_str()) {
            let ghost before = sources.deep_view();
            sources.push(files[i].clone());
            assert(sources.deep_view() =~= before.push(all[i as int]));
        }
        i += 1;
    }
    assert(all.take(files.len() as int) =~= all);
    sources
}

/// The build after `event`, and what it asks for next.
///
/// To build a site, begin with `Build::new()` and the report `Started`; do
/// what the action asks for, report what happened, and go on until the action
/// is `Finish` or `Abort`.
pub fn build_site(build: Build, event: BuildEvent) -> (next: (Build, BuildAction))
    ensures
        (next.0@, next.1@) == build@.after(event@),
        next.0@.coherent(),
{
    proof {
        use_type_invariant(&build);
    }
    let ghost old_view = build@;
    let Build { stage, files, mut pages, rendered } = build;
    assert(old_view.pages.len() == pages@.len());
    assert(old_view.files.len() == files@.len());
    match stage {
        BuildStage::Done => (Build { stage, files, pages, rendered }, BuildAction::Finish),
        BuildStage::Failed => (
            Build { stage, files, pages, rendered },
            BuildAction::Abort(BuildError::Unexpected),
        ),
        _ => match (stage, event) {
            (BuildStage::Init, BuildEvent::Started) => (
                Build { stage: BuildStage::Discovering, files, pages, rendered },
                BuildAction::Discover,
            ),
            (BuildStage::Discovering, BuildEvent::Discovered(found)) => {
                let sources = select_sources(&found);
                if sources.len() == 0 {
                    (
                        Build { stage: BuildStage::CopyingAssets, files: sources, pages, rendered },
                        BuildAction::CopyAssets,
                    )
                } else {
                    let path = sources[0].clone();
                    (
                        Build { stage: BuildStage::Parsing, files: sources, pages, rendered },
                        BuildAction::Parse { path },
                    )
                }
            },
            (BuildStage::Parsing, BuildEvent::Parsed(page)) => {
                let path = files[pages.len()].clone();
                let ghost before = pages@.map_values(|page: SourcePage| page@);
                let source_page = SourcePage { path, page };
                pages.push(source_page);
                assert(pages@.map_values(|page: SourcePage| page@) =~= before.push(source_page@));
                if pages.len() < files.len() {
                    let path = files[pages.len()].clone();
                    (
                        Build { stage: BuildStage::Parsing, files, pages, rendered },
                        BuildAction::Parse { path },
                    )
                } else {
                    let output = output_path_for(pages[0].path.as_str(), pages[0].page.slug.as_str());
                    (
                        Build { stage: BuildStage::Rendering, files, pages, rendered },
                        BuildAction::Render { index: 0, output },
                    )
                }
            },
            (BuildStage::Rendering, BuildEvent::Rendered) => {
                assert(rendered < pages.len());
                let rendered = rendered + 1;
                if rendered < pages.len() {
                    let output = output_path_for(
                        pages[rendered].path.as_str(),
                        pages[rendered].page.slug.as_str(),
                    );
                    (
                        Build { stage: BuildStage::Rendering, files, pages, rendered },
                        BuildAction::Render { index: rendered, output },
                    )
                } else {
                    (
                        Build { stage: BuildStage::CopyingAssets, files, pages, rendered },
                        BuildAction::CopyAssets,
                    )
                }
            },
            (BuildStage::CopyingAssets, BuildEvent::AssetsCopied) => (
                Build { stage: BuildStage::GeneratingFeeds, files, pages, rendered },
                BuildAction::WriteFeeds,
            ),
            (BuildStage::CopyingAssets, BuildEvent::AssetsMissing) => (
                Build { stage: BuildStage::GeneratingFeeds, files, pages, rendered },
                BuildAction::WriteFeeds,
            ),
            (BuildStage::GeneratingFeeds, BuildEvent::FeedsWritten) => (
                Build { stage: BuildStage::GeneratingSitemap, files, pages, rendered },
                BuildAction::WriteSitemap,
            ),
            (BuildStage::GeneratingSitemap, BuildEvent::SitemapWritten) => (
                Build { stage: BuildStage::Done, files, pages, rendered },
                BuildAction::Finish,
            ),
            (_, BuildEvent::Failed(error)) => (
                Build { stage: BuildStage::Failed, files, pages, rendered },
                BuildAction::Abort(error),
            ),
            (_, _) => (
                Build { stage: BuildStage::Failed, files, pages, rendered },
                BuildAction::Abort(BuildError::Unexpected),
            ),
        },
    }
}

/// A step in laying out a new site.
#[derive(Debug, Clone)]
pub enum ScaffoldStep {
    /// Create this directory, and those above it.
    Directory { path: String },
    /// Write the configuration to this file.
    ConfigFile { path: String },
    /// Write this text to this file.
    File { path: String, content: String },
}

/// What a `ScaffoldStep` holds.
pub enum ScaffoldStepView {
    Directory { path: Seq<char> },
    ConfigFile { path: Seq<char> },
    File { path: Seq<char>, content: Seq<char> },
}

impl View for ScaffoldStep {
    type V = ScaffoldStepView;

    open spec fn view(&self) -> ScaffoldStepView {
        match self {
            ScaffoldStep::Directory { path } => ScaffoldStepView::Directory { path: path@ },
            ScaffoldStep::ConfigFile { path } => ScaffoldStepView::ConfigFile { path: path@ },
            ScaffoldStep::File { path, content } => ScaffoldStepView::File {
                path: path@,
                content: content@,
            },
        }
    }
}

/// The layout of a new site: the configuration it starts with, and the steps
/// that lay it out, each path relative to the directory of the site.
#[derive(Debug, Clone)]
pub struct SiteScaffold {
    pub config: Config,
    pub steps: Vec<ScaffoldStep>,
}

/// The first page of a new site.
pub const SAMPLE_INDEX: &'static str = "---\ntitle: Welcome to WokeLang\ndescription: A Human-Centered Programming Language\ntemplate: index.html\n---\n\n# Welcome to WokeLang\n\nWokeLang is a programming language designed with human values at its core:\n\n- **Consent-driven computing** - Programs request permission before accessing resources\n- **Gratitude system** - Dependencies are acknowledged explicitly\n- **Emotive programming** - Code can express tone and emotion\n- **Accessibility** - Natural language syntax for everyone\n\n## Quick Start\n\n```woke\nto main() {\n    print(\"Hello, World!\");\n}\n```\n\nLearn more in the [documentation](/docs/getting-started).\n";

/// The template that a new site renders its pages with.
pub const SAMPLE_TEMPLATE: &'static str = "<!DOCTYPE html>\n<html lang=\"{{ site.language }}\">\n<head>\n    <meta charset=\"UTF-8\">\n    <meta name=\"viewport\" content=\"width=device-width, initial-scale=1.0\">\n    <title>{{ page.title }} | {{ site.title }}</title>\n    <meta name=\"description\" content=\"{{ page.description | default(value=site.description) }}\">\n    <link rel=\"stylesheet\" href=\"/css/style.css\">\n</head>\n<body>\n    <header>\n        <h1>{{ site.title }}</h1>\n        <nav>\n            <a href=\"/\">Home</a>\n            <a href=\"/docs/\">Documentation</a>\n            <a href=\"/playground/\">Playground</a>\n        </nav>\n    </header>\n    <main>\n        {{ page.html | safe }}\n    </main>\n    <footer>\n        <p>&copy; 2026 {{ site.author }}. Released under PMPL-1.0-or-later.</p>\n    </footer>\n</body>\n</html>\n";

/// The steps that lay out a new site: the directories for content, templates
/// and static assets, the configuration file, one page and two templates.
pub open spec fn scaffold_steps() -> Seq<ScaffoldStepView> {
    seq![
        ScaffoldStepView::Directory { path: "content"@ },
        ScaffoldStepView::Directory { path: "content/pages"@ },
        ScaffoldStepView::Directory { path: "content/docs"@ },
        ScaffoldStepView::Directory { path: "templates"@ },
        ScaffoldStepView::Directory { path: "static"@ },
        ScaffoldStepView::Directory { path: "static/css"@ },
        ScaffoldStepView::Directory { path: "static/js"@ },
        ScaffoldStepView::ConfigFile { path: "config.yaml"@ },
        ScaffoldStepView::File { path: "content/index.md"@, content: SAMPLE_INDEX@ },
        ScaffoldStepView::File { path: "templates/index.html"@, content: SAMPLE_TEMPLATE@ },
        ScaffoldStepView::File { path: "templates/page.html"@, content: SAMPLE_TEMPLATE@ },
    ]
}

fn directory(path: &str) -> (step: ScaffoldStep)
    ensures
        step@ == (ScaffoldStepView::Directory { path: path@ }),
{
    ScaffoldStep::Directory { path: path.to_owned() }
}

fn file(path: &str, content: &str) -> (step: ScaffoldStep)
    ensures
        step@ == (ScaffoldStepView::File { path: path@, content: content@ }),
{
    ScaffoldStep::File { path: path.to_owned(), content: content.to_owned() }
}

/// The layout of a new site. Nothing is written: the caller carries out the
/// steps in their order, below the directory of the site.
pub fn init_site() -> (scaffold: SiteScaffold)
    ensures
        scaffold.steps@.map_values(|step: ScaffoldStep| step@) == scaffold_steps(),
        scaffold.config.site.title@ == "WokeLang"@,
        scaffold.config.site.url@ == "https://wokelang.org"@,
        scaffold.config.site.description@ == "A Human-Centered Programming Language"@,
        scaffold.config.site.author@ == "Jonathan D.A. Jewell"@,
        scaffold.config.site.language@ == "en"@,
        scaffold.config.build.is_conventional(),
{
    let mut steps: Vec<ScaffoldStep> = Vec::new();
    steps.push(directory("content"));
    steps.push(directory("content/pages"));
    steps.push(directory("content/docs"));
    steps.push(directory("templates"));
    steps.push(directory("static"));
    steps.push(directory("static/css"));
    steps.push(directory("static/js"));
    steps.push(ScaffoldStep::ConfigFile { path: "config.yaml".to_owned() });
    steps.push(file("content/index.md", SAMPLE_INDEX));
    steps.push(file("templates/index.html", SAMPLE_TEMPLATE));
    steps.push(file("templates/page.html", SAMPLE_TEMPLATE));
    assert(steps@.map_values(|step: ScaffoldStep| step@) =~= scaffold_steps());
    SiteScaffold { config: Config::default_wokelang(), steps }
}

/// The build after `count` reports of a rendered page.
pub open spec fn after_rendering(build: BuildView, count: nat) -> BuildView
    decreases count,
{
    if count == 0 {
        build
    } else {
        after_rendering(build, (count - 1) as nat).after(BuildEventView::Rendered).0
    }
}

/// Every page is rendered, drafts too. A build that begins to render gets to
/// each page in turn: after `count` reports, with pages left, it has asked
/// for the page of index `count` and waits for it; told of the last one, it
/// goes on to the assets.
pub proof fn lemma_every_page_rendered(build: BuildView, count: nat)
    requires
        build.coherent(),
        build.stage == BuildStage::Rendering,
        build.rendered == 0,
        count <= build.pages.len(),
    ensures
        after_rendering(build, count).pages == build.pages,
        after_rendering(build, count).rendered == count,
        after_rendering(build, count).coherent(),
        count < build.pages.len() ==> after_rendering(build, count).stage == BuildStage::Rendering,
        0 < count < build.pages.len() ==> after_rendering(build, (count - 1) as nat).after(
            BuildEventView::Rendered,
        ).1 == render_request(build.pages, count as int),
        count == build.pages.len() ==> after_rendering(build, count).stage
            == BuildStage::CopyingAssets,
    decreases count,
{
    if count > 0 {
        lemma_every_page_rendered(build, (count - 1) as nat);
    }
}

/// Once every source is parsed, the page collection stays as it is: rendering,
/// feeds and sitemap all see the same pages, whatever is reported.
pub proof fn lemma_collection_stays(build: BuildView, event: BuildEventView)
    requires
        build.stage != BuildStage::Init,
        build.stage != BuildStage::Discovering,
        build.stage != BuildStage::Parsing,
    ensures
        build.after(event).0.pages == build.pages,
        build.after(event).0.collection() == build.collection(),
{
}

/// The pages of a build are those of the sources that were found, in their
/// order: while the build holds together, the page of index `i` is the page
/// of the source of index `i`.
pub proof fn lemma_pages_follow_sources(build: BuildView, index: int)
    requires
        build.coherent(),
        0 <= index < build.pages.len(),
    ensures
        index < build.files.len(),
        build.pages[index].path == build.files[index],
{
}

/// Missing assets are no failure: a build that is told that there are none
/// goes on to the feeds, as one whose assets were copied.
pub proof fn lemma_missing_assets_no_failure(build: BuildView)
    requires
        build.stage == BuildStage::CopyingAssets,
    ensures
        build.after(BuildEventView::AssetsMissing) == build.after(BuildEventView::AssetsCopied),
        build.after(BuildEventView::AssetsMissing).0.stage == BuildStage::GeneratingFeeds,
        build.after(BuildEventView::AssetsMissing).1 == BuildActionView::WriteFeeds,
{
}

/// Whether two configurations describe the same site.
pub open spec fn same_site(first: Config, second: Config) -> bool {
    &&& first.site.title@ == second.site.title@
    &&& first.site.url@ == second.site.url@
    &&& first.site.description@ == second.site.description@
    &&& first.site.author@ == second.site.author@
    &&& first.site.language@ == second.site.language@
}

/// Building twice gives the same documents: two collections of pages that
/// hold the same, under two configurations of the same site and at the same
/// time, give the same feeds and the same sitemap.
pub proof fn lemma_rebuild_same_documents(
    first: Seq<&Page>,
    second: Seq<&Page>,
    config: Config,
    again: Config,
    now: Timestamp,
)
    requires
        page_views(first) == page_views(second),
        same_site(config, again),
    ensures
        rss_document(rss_channel_of(page_views(first), config)) == rss_document(
            rss_channel_of(page_views(second), again),
        ),
        atom_document(
            atom_head_of(config, now),
            atom_entries_of(page_views(first), config, now),
        ) == atom_document(
            atom_head_of(again, now),
            atom_entries_of(page_views(second), again, now),
        ),
        sitemap_document(page_views(first), config.site.url@) == sitemap_document(
            page_views(second),
            again.site.url@,
        ),
{
    let pages = page_views(first);
    assert(rss_channel_of(pages, config).items =~= rss_channel_of(pages, again).items);
    assert(atom_entries_of(pages, config, now) =~= atom_entries_of(pages, again, now));
}

} // verus!
