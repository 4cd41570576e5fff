//! What a template sees of a page and of the site, and which templates can
//! render it. The template engine itself stays outside: it is handed a
//! template's name and a context, and hands back HTML or a failure.

use crate::config::{Config, SiteConfig};
use crate::content::{Page, PageView};
use crate::text::{join2, same_text};
use crate::time::rfc3339_text;
use vstd::prelude::*;

verus! {

/// A value in the context of a template.
#[derive(Debug)]
pub enum TemplateValue {
    Absent,
    Bool(bool),
    Number(i64),
    Text(String),
    Sequence(Vec<TemplateValue>),
    Mapping(Vec<TemplateEntry>),
}

/// One binding of a mapping in the context of a template.
#[derive(Debug)]
pub struct TemplateEntry {
    pub key: String,
    pub value: TemplateValue,
}

/// What a `TemplateValue` holds, as a mathematical value.
pub enum TemplateModel {
    Absent,
    Bool(bool),
    Number(int),
    Text(Seq<char>),
    Sequence(Seq<TemplateModel>),
    Mapping(Seq<(Seq<char>, TemplateModel)>),
}

impl TemplateValue {
    /// What this value holds.
    pub open spec fn model(&self) -> TemplateModel
        decreases self,
    {
        match self {
            TemplateValue::Absent => TemplateModel::Absent,
            TemplateValue::Bool(b) => TemplateModel::Bool(*b),
            TemplateValue::Number(n) => TemplateModel::Number(*n as int),
            TemplateValue::Text(text) => TemplateModel::Text(text@),
            TemplateValue::Sequence(items) => TemplateModel::Sequence(
                Seq::new(
                    items@.len(),
                    |i: int|
                        if 0 <= i < items@.len() {
                            items@[i].model()
                        } else {
                            TemplateModel::Absent
                        },
                ),
            ),
            TemplateValue::Mapping(entries) => TemplateModel::Mapping(
                Seq::new(
                    entries@.len(),
                    |i: int|
                        if 0 <= i < entries@.len() {
                            (entries@[i].key@, entries@[i].value.model())
                        } else {
                            (Seq::empty(), TemplateModel::Absent)
                        },
                ),
            ),
        }
    }
}

/// The text `text` as a template value.
pub open spec fn text_model(text: Seq<char>) -> TemplateModel {
    TemplateModel::Text(text)
}

/// What a template sees of the site: title, url, description, author and
/// language.
pub open spec fn site_model(site: SiteConfig) -> TemplateModel {
    TemplateModel::Mapping(
        seq![
            ("title"@, text_model(site.title@)),
            ("url"@, text_model(site.url@)),
            ("description"@, text_model(site.description@)),
            ("author"@, text_model(site.author@)),
            ("language"@, text_model(site.language@)),
        ],
    )
}

/// The tags of a page as a template sees them.
pub open spec fn tags_model(tags: Seq<Seq<char>>) -> TemplateModel {
    TemplateModel::Sequence(tags.map_values(|tag: Seq<char>| text_model(tag)))
}

/// What a template sees of a page: title, description, the rendered body
/// under `html`, slug, the date after RFC 3339 where the page has one, and
/// the tags.
pub open spec fn page_model(page: PageView) -> TemplateModel {
    let head = seq![
        ("title"@, text_model(page.front_matter.title)),
        ("description"@, text_model(page.front_matter.description)),
        ("html"@, text_model(page.html)),
        ("slug"@, text_model(page.slug)),
    ];
    let date = match page.front_matter.date {
        Some(date) => seq![
            ("date"@, text_model(rfc3339_text(date.spec_seconds(), date.spec_nanoseconds()))),
        ],
        None => Seq::empty(),
    };
    TemplateModel::Mapping(head + date + seq![("tags"@, tags_model(page.front_matter.tags))])
}

/// The context that a page is rendered in: the page under `page`, the site
/// under `site`.
pub open spec fn context_model(page: PageView, site: SiteConfig) -> TemplateModel {
    TemplateModel::Mapping(seq![("page"@, page_model(page)), ("site"@, site_model(site))])
}

/// A text binding.
fn text_entry(key: &str, text: &String) -> (entry: TemplateEntry)
    ensures
        entry.key@ == key@,
        entry.value.model() == text_model(text@),
{
    TemplateEntry { key: key.to_owned(), value: TemplateValue::Text(text.clone()) }
}

/// What a template sees of the site.
pub fn site_context(site: &SiteConfig) -> (value: TemplateValue)
    ensures
        value.model() == site_model(*site),
{
    let mut entries: Vec<TemplateEntry> = Vec::new();
    entries.push(text_entry("title", &site.title));
    entries.push(text_entry("url", &site.url));
    entries.push(text_entry("description", &site.description));
    entries.push(text_entry("author", &site.author));
    entries.push(text_entry("language", &site.language));
    let value = TemplateValue::Mapping(entries);
    assert(value.model()->Mapping_0 =~= site_model(*site)->Mapping_0);
    value
}

/// The tags of a page as a template sees them.
fn tags_context(tags: &Vec<String>) -> (value: TemplateValue)
    ensures
        value.model() == tags_model(tags.deep_view()),
{
    let mut items: Vec<TemplateValue> = Vec::new();
    let mut i: usize = 0;
    while i < tags.len()
        invariant
            i <= tags.len(),
            items@.len() == i,
            forall|j: int| 0 <= j < i ==> (#[trigger] items@[j]).model() == text_model(tags@[j]@),
        decreases tags.len() - i,
    {
        items.push(TemplateValue::Text(tags[i].clone()));
        i += 1;
    }
    let value = TemplateValue::Sequence(items);
    assert(value.model()->Sequence_0 =~= tags_model(tags.deep_view())->Sequence_0);
    value
}

/// What a template sees of a page.
pub fn page_context(page: &Page) -> (value: TemplateValue)
    ensures
        value.model() == page_model(page@),
{
    let mut entries: Vec<TemplateEntry> = Vec::new();
    entries.push(text_entry("title", &page.front_matter.title));
    entries.push(text_entry("description", &page.front_matter.description));
    entries.push(text_entry("html", &page.html));
    entries.push(text_entry("slug", &page.slug));
    match page.front_matter.date {
        Some(date) => {
            let text = date.to_rfc3339();
            entries.push(text_entry("date", &text));
        },
        None => {},
    }
    entries.push(
        TemplateEntry { key: "tags".to_owned(), value: tags_context(&page.front_matter.tags) },
    );
    let value = TemplateValue::Mapping(entries);
    assert(value.model()->Mapping_0 =~= page_model(page@)->Mapping_0);
    value
}

/// The context that `page` is rendered in on the site of `config`.
pub fn render_context(page: &Page, config: &Config) -> (value: TemplateValue)
    ensures
        value.model() == context_model(page@, config.site),
{
    let mut entries: Vec<TemplateEntry> = Vec::new();
    entries.push(TemplateEntry { key: "page".to_owned(), value: page_context(page) });
    entries.push(TemplateEntry { key: "site".to_owned(), value: site_context(&config.site) });
    let value = TemplateValue::Mapping(entries);
    assert(value.model()->Mapping_0 =~= context_model(page@, config.site)->Mapping_0);
    value
}

/// Why a page could not be rendered.
#[derive(Debug, Clone)]
pub enum TemplateError {
    /// The templates of a directory did not compile.
    Load { directory: String, reason: String },
    /// No template of this name is loaded.
    Unknown { template: String },
    /// The engine failed while it rendered this template.
    Render { template: String, reason: String },
}

impl TemplateError {
    /// What went wrong, in words, with the name of the template or of the
    /// directory.
    pub open spec fn describe(&self) -> Seq<char> {
        match *self {
            TemplateError::Load { directory, reason } => "Failed to load templates from "@
                + directory@ + ": "@ + reason@,
            TemplateError::Unknown { template } => "Failed to render template: "@ + template@
                + ": "@ + "template not found"@,
            TemplateError::Render { template, reason } => "Failed to render template: "@
                + template@ + ": "@ + reason@,
        }
    }

    /// What went wrong, in words, with the name of the template or of the
    /// directory.
    pub fn message(&self) -> (text: String)
        ensures
            text@ == self.describe(),
    {
        match self {
            TemplateError::Load { directory, reason } => {
                let head = join2("Failed to load templates from ", directory.as_str());
                crate::text::join3(head.as_str(), ": ", reason.as_str())
            },
            TemplateError::Unknown { template } => {
                let head = join2("Failed to render template: ", template.as_str());
                crate::text::join3(head.as_str(), ": ", "template not found")
            },
            TemplateError::Render { template, reason } => {
                let head = join2("Failed to render template: ", template.as_str());
                crate::text::join3(head.as_str(), ": ", reason.as_str())
            },
        }
    }
}

/// The pattern that finds the templates of a directory: every `.html` file
/// in it, at any depth.
pub fn template_pattern(templates_dir: &str) -> (pattern: String)
    ensures
        pattern@ == templates_dir@ + "/**/*.html"@,
{
    join2(templates_dir, "/**/*.html")
}

/// The templates that the engine has loaded, by name. The name of a template
/// is its path below the templates directory.
#[derive(Debug, Clone)]
pub struct Templates {
    pub names: Vec<String>,
}

/// What the engine is asked to do for one page: render the template of this
/// name in this context.
#[derive(Debug)]
pub struct RenderJob {
    pub template: String,
    pub context: TemplateValue,
}

impl Templates {
    /// Whether a template of this name is loaded.
    pub open spec fn holds(&self, name: Seq<char>) -> bool {
        self.names.deep_view().contains(name)
    }

    /// The templates of `templates_dir`, from what the engine made of them:
    /// the names of the templates it compiled, or why it could not. One
    /// template that does not compile fails them all.
    pub fn load(templates_dir: &str, compiled: Result<Vec<String>, String>) -> (made: Result<
        Templates,
        TemplateError,
    >)
        ensures
            match compiled {
                Ok(names) => made matches Ok(templates) && templates.names.deep_view()
                    == names.deep_view(),
                Err(reason) => made matches Err(TemplateError::Load { directory, reason: told })
                    && directory@ == templates_dir@ && told@ == reason@,
            },
    {
        match compiled {
            Ok(names) => Ok(Templates { names }),
            Err(reason) => Err(
                TemplateError::Load { directory: templates_dir.to_owned(), reason },
            ),
        }
    }

    /// Whether a template of this name is loaded.
    pub fn contains(&self, name: &str) -> (found: bool)
        ensures
            found == self.holds(name@),
    {
        let mut i: usize = 0;
        while i < self.names.len()
            invariant
                i <= self.names.len(),
                forall|j: int| 0 <= j < i ==> self.names.deep_view()[j] != name@,
            decreases self.names.len() - i,
        {
            if same_text(self.names[i].as_str(), name) {
                assert(self.names.deep_view()[i as int] == name@);
                return true;
            }
            i += 1;
        }
        false
    }

    /// What the engine has to do to render `page` with the template
    /// `template_name`: the job names that template and holds the context of
    /// the page on the site of `config`. A name that no loaded template has is
    /// an error that names it.
    pub fn render(&self, template_name: &str, page: &Page, config: &Config) -> (made: Result<
        RenderJob,
        TemplateError,
    >)
        ensures
            self.holds(template_name@) ==> (made matches Ok(job) && job.template@
                == template_name@ && job.context.model() == context_model(page@, config.site)),
            !self.holds(template_name@) ==> (made matches Err(
                TemplateError::Unknown { template },
            ) && template@ == template_name@),
    {
        if self.contains(template_name) {
            Ok(
                RenderJob {
                    template: template_name.to_owned(),
                    context: render_context(page, config),
                },
            )
        } else {
            Err(TemplateError::Unknown { template: template_name.to_owned() })
        }
    }

    /// What a rendering comes to: the HTML that the engine made, or an error
    /// that names the template and tells why the engine failed.
    pub fn rendered(template_name: &str, outcome: Result<String, String>) -> (made: Result<
        String,
        TemplateError,
    >)
        ensures
            match outcome {
                Ok(html) => made matches Ok(kept) && kept@ == html@,
                Err(reason) => made matches Err(TemplateError::Render { template, reason: told })
                    && template@ == template_name@ && told@ == reason@,
            },
    {
        match outcome {
            Ok(html) => Ok(html),
            Err(reason) => Err(
                TemplateError::Render { template: template_name.to_owned(), reason },
            ),
        }
    }
}

} // verus!
