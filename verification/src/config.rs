//! Site configuration: site metadata and the build directory layout.

use crate::text::{join2, join3};
use vstd::prelude::*;

verus! {

/// Metadata of the site as a whole.
///
/// `url` is used as written: links are `url + "/" + slug`, so a trailing slash
/// in `url` shows up as a double slash in every link.
#[derive(Debug, Clone)]
pub struct SiteConfig {
    pub title: String,
    pub url: String,
    pub description: String,
    pub author: String,
    pub language: String,
}

/// Where the build reads from and writes to.
#[derive(Debug, Clone)]
pub struct BuildConfig {
    pub content_dir: String,
    pub output_dir: String,
    pub templates_dir: String,
    pub static_dir: String,
}

/// The whole configuration of one run.
#[derive(Debug, Clone)]
pub struct Config {
    pub site: SiteConfig,
    pub build: BuildConfig,
}

/// The directory that holds the Markdown sources unless configured otherwise.
pub fn default_content_dir() -> (dir: String)
    ensures
        dir@ == "content"@,
{
    "content".to_owned()
}

/// The directory that receives the built site unless configured otherwise.
pub fn default_output_dir() -> (dir: String)
    ensures
        dir@ == "public"@,
{
    "public".to_owned()
}

/// The directory that holds the templates unless configured otherwise.
pub fn default_templates_dir() -> (dir: String)
    ensures
        dir@ == "templates"@,
{
    "templates".to_owned()
}

/// The directory that holds the static assets unless configured otherwise.
pub fn default_static_dir() -> (dir: String)
    ensures
        dir@ == "static"@,
{
    "static".to_owned()
}

impl BuildConfig {
    /// The conventional layout: `content`, `public`, `templates`, `static`.
    pub open spec fn is_conventional(&self) -> bool {
        &&& self.content_dir@ == "content"@
        &&& self.output_dir@ == "public"@
        &&& self.templates_dir@ == "templates"@
        &&& self.static_dir@ == "static"@
    }
}

impl Default for BuildConfig {
    fn default() -> (build: Self)
        ensures
            build.is_conventional(),
    {
        BuildConfig {
            content_dir: default_content_dir(),
            output_dir: default_output_dir(),
            templates_dir: default_templates_dir(),
            static_dir: default_static_dir(),
        }
    }
}

impl Config {
    /// The configuration that a newly laid out site starts with.
    pub fn default_wokelang() -> (config: Self)
        ensures
            config.site.title@ == "WokeLang"@,
            config.site.url@ == "https://wokelang.org"@,
            config.site.description@ == "A Human-Centered Programming Language"@,
            config.site.author@ == "Jonathan D.A. Jewell"@,
            config.site.language@ == "en"@,
            config.build.is_conventional(),
    {
        Config {
            site: SiteConfig {
                title: "WokeLang".to_owned(),
                url: "https://wokelang.org".to_owned(),
                description: "A Human-Centered Programming Language".to_owned(),
                author: "Jonathan D.A. Jewell".to_owned(),
                language: "en".to_owned(),
            },
            build: BuildConfig::default(),
        }
    }
}

/// The `site` section of a configuration document as it was decoded, each
/// field absent where the document does not name it.
#[derive(Debug, Clone)]
pub struct SiteFields {
    pub title: Option<String>,
    pub url: Option<String>,
    pub description: Option<String>,
    pub author: Option<String>,
    pub language: Option<String>,
}

/// The `build` section of a configuration document as it was decoded.
#[derive(Debug, Clone)]
pub struct BuildFields {
    pub content_dir: Option<String>,
    pub output_dir: Option<String>,
    pub templates_dir: Option<String>,
    pub static_dir: Option<String>,
}

/// A configuration document as it was decoded.
#[derive(Debug, Clone)]
pub struct ConfigFields {
    pub site: Option<SiteFields>,
    pub build: Option<BuildFields>,
}

/// What became of the configuration document when it was read and decoded.
#[derive(Debug, Clone)]
pub enum ConfigOutcome {
    /// The document could not be read, for this reason.
    Unreadable(String),
    /// The document is no well-formed configuration, for this reason.
    Malformed(String),
    /// The document decoded to these fields.
    Decoded(ConfigFields),
}

/// Why there is no configuration.
#[derive(Debug, Clone)]
pub enum ConfigError {
    /// The document could not be read.
    Unreadable { path: String, reason: String },
    /// The document is no well-formed configuration.
    Malformed { path: String, reason: String },
    /// The document lacks a field that it must name.
    MissingField { path: String, field: String },
}

/// The first field among those that a configuration must name which `fields`
/// lacks: the `site` section, then its title, url and description.
pub open spec fn missing_field(fields: ConfigFields) -> Option<Seq<char>> {
    match fields.site {
        None => Some("site"@),
        Some(site) => if site.title is None {
            Some("site.title"@)
        } else if site.url is None {
            Some("site.url"@)
        } else if site.description is None {
            Some("site.description"@)
        } else {
            None
        },
    }
}

/// The text of `field`, and the empty text where it is absent.
pub open spec fn text_or_empty(field: Option<String>) -> Seq<char> {
    match field {
        Some(text) => text@,
        None => Seq::empty(),
    }
}

/// The text of `field`, and `default` where it is absent.
pub open spec fn text_or(field: Option<String>, default: Seq<char>) -> Seq<char> {
    match field {
        Some(text) => text@,
        None => default,
    }
}

impl ConfigFields {
    /// Whether `config` is what these fields stand for: the site as it is
    /// named, author and language empty where they are absent, and each
    /// directory of the build at its conventional path where it is absent.
    pub open spec fn resolve_to(&self, config: Config) -> bool {
        &&& self.site matches Some(site)
        &&& config.site.title@ == text_or_empty(site.title)
        &&& config.site.url@ == text_or_empty(site.url)
        &&& config.site.description@ == text_or_empty(site.description)
        &&& config.site.author@ == text_or_empty(site.author)
        &&& config.site.language@ == text_or_empty(site.language)
        &&& match self.build {
            Some(build) => {
                &&& config.build.content_dir@ == text_or(build.content_dir, "content"@)
                &&& config.build.output_dir@ == text_or(build.output_dir, "public"@)
                &&& config.build.templates_dir@ == text_or(build.templates_dir, "templates"@)
                &&& config.build.static_dir@ == text_or(build.static_dir, "static"@)
            },
            None => config.build.is_conventional(),
        }
    }
}

fn or_empty(field: Option<String>) -> (text: String)
    ensures
        text@ == text_or_empty(field),
{
    match field {
        Some(text) => text,
        None => String::new(),
    }
}

impl BuildConfig {
    /// The layout that a decoded `build` section stands for: each directory
    /// as it is named, and at its conventional path where it is absent.
    pub fn from_fields(fields: BuildFields) -> (build: Self)
        ensures
            build.content_dir@ == text_or(fields.content_dir, "content"@),
            build.output_dir@ == text_or(fields.output_dir, "public"@),
            build.templates_dir@ == text_or(fields.templates_dir, "templates"@),
            build.static_dir@ == text_or(fields.static_dir, "static"@),
    {
        BuildConfig {
            content_dir: match fields.content_dir {
                Some(dir) => dir,
                None => default_content_dir(),
            },
            output_dir: match fields.output_dir {
                Some(dir) => dir,
                None => default_output_dir(),
            },
            templates_dir: match fields.templates_dir {
                Some(dir) => dir,
                None => default_templates_dir(),
            },
            static_dir: match fields.static_dir {
                Some(dir) => dir,
                None => default_static_dir(),
            },
        }
    }
}

impl Config {
    /// The configuration of the document at `path`, from what became of
    /// reading and decoding it.
    ///
    /// A document that could not be read or decoded is an error that names
    /// `path` and the reason. A decoded document must name the site's title,
    /// url and description; author and language default to the empty text,
    /// and the directories of the build to `content`, `public`, `templates`
    /// and `static`.
    pub fn load(path: &str, outcome: ConfigOutcome) -> (made: Result<Config, ConfigError>)
        ensures
            match outcome {
                ConfigOutcome::Unreadable(reason) => made matches Err(
                    ConfigError::Unreadable { path: at, reason: told },
                ) && at@ == path@ && told@ == reason@,
                ConfigOutcome::Malformed(reason) => made matches Err(
                    ConfigError::Malformed { path: at, reason: told },
                ) && at@ == path@ && told@ == reason@,
                ConfigOutcome::Decoded(fields) => match missing_field(fields) {
                    Some(name) => made matches Err(ConfigError::MissingField { path: at, field })
                        && at@ == path@ && field@ == name,
                    None => made matches Ok(config) && fields.resolve_to(config),
                },
            },
    {
        let fields = match outcome {
            ConfigOutcome::Unreadable(reason) => {
                return Err(ConfigError::Unreadable { path: path.to_owned(), reason });
            },
            ConfigOutcome::Malformed(reason) => {
                return Err(ConfigError::Malformed { path: path.to_owned(), reason });
            },
            ConfigOutcome::Decoded(fields) => fields,
        };
        let ConfigFields { site, build } = fields;
        let site = match site {
            Some(site) => site,
            None => {
                return Err(
                    ConfigError::MissingField { path: path.to_owned(), field: "site".to_owned() },
                );
            },
        };
        let SiteFields { title, url, description, author, language } = site;
        let title = match title {
            Some(title) => title,
            None => {
                return Err(
                    ConfigError::MissingField {
                        path: path.to_owned(),
                        field: "site.title".to_owned(),
                    },
                );
            },
        };
        let url = match url {
            Some(url) => url,
            None => {
                return Err(
                    ConfigError::MissingField {
                        path: path.to_owned(),
                        field: "site.url".to_owned(),
                    },
                );
            },
        };
        let description = match description {
            Some(description) => description,
            None => {
                return Err(
                    ConfigError::MissingField {
                        path: path.to_owned(),
                        field: "site.description".to_owned(),
                    },
                );
            },
        };
        let build = match build {
            Some(build) => BuildConfig::from_fields(build),
            None => BuildConfig::default(),
        };
        Ok(
            Config {
                site: SiteConfig {
                    title,
                    url,
                    description,
                    author: or_empty(author),
                    language: or_empty(language),
                },
                build,
            },
        )
    }
}

impl ConfigError {
    /// What went wrong, in words, with the path of the document.
    pub open spec fn describe(&self) -> Seq<char> {
        match *self {
            ConfigError::Unreadable { path, reason } => "Failed to read config file: "@ + path@
                + ": "@ + reason@,
            ConfigError::Malformed { path, reason } => "Failed to parse config file: "@ + path@
                + ": "@ + reason@,
            ConfigError::MissingField { path, field } => "Failed to parse config file: "@ + path@
                + ": missing field "@ + field@,
        }
    }

    /// What went wrong, in words, with the path of the document.
    pub fn message(&self) -> (text: String)
        ensures
            text@ == self.describe(),
    {
        match self {
            ConfigError::Unreadable { path, reason } => {
                let head = join2("Failed to read config file: ", path.as_str());
                join3(head.as_str(), ": ", reason.as_str())
            },
            ConfigError::Malformed { path, reason } => {
                let head = join2("Failed to parse config file: ", path.as_str());
                join3(head.as_str(), ": ", reason.as_str())
            },
            ConfigError::MissingField { path, field } => {
                let head = join2("Failed to parse config file: ", path.as_str());
                join3(head.as_str(), ": missing field ", field.as_str())
            },
        }
    }
}

} // verus!
