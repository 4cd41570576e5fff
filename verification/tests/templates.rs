use wokelang_ssg::config::{BuildConfig, Config, SiteConfig};
use wokelang_ssg::content::{FrontMatter, Page};
use wokelang_ssg::templates::{
    page_context, render_context, site_context, template_pattern, TemplateEntry, TemplateError,
    TemplateValue, Templates,
};
use wokelang_ssg::time::Timestamp;

fn config() -> Config {
    Config {
        site: SiteConfig {
            title: "Example Site".to_string(),
            url: "https://example.com".to_string(),
            description: "About things".to_string(),
            author: "Ada".to_string(),
            language: "en".to_string(),
        },
        build: BuildConfig::default(),
    }
}

fn page(date: Option<Timestamp>) -> Page {
    Page {
        front_matter: FrontMatter {
            title: "Hello <World>".to_string(),
            description: "A page".to_string(),
            date,
            draft: false,
            tags: vec!["rust".to_string(), "web".to_string()],
            template: "page.html".to_string(),
        },
        content: "*hi*".to_string(),
        html: "<p><em>hi</em></p>\n".to_string(),
        slug: "hello".to_string(),
    }
}

fn entries(value: &TemplateValue) -> &Vec<TemplateEntry> {
    match value {
        TemplateValue::Mapping(entries) => entries,
        other => panic!("no mapping: {:?}", other),
    }
}

fn text(value: &TemplateValue) -> &str {
    match value {
        TemplateValue::Text(text) => text,
        other => panic!("no text: {:?}", other),
    }
}

fn to_json(value: &TemplateValue) -> tera::Value {
    match value {
        TemplateValue::Absent => tera::Value::Null,
        TemplateValue::Bool(b) => tera::Value::Bool(*b),
        TemplateValue::Number(n) => tera::Value::from(*n),
        TemplateValue::Text(t) => tera::Value::String(t.clone()),
        TemplateValue::Sequence(items) => tera::Value::Array(items.iter().map(to_json).collect()),
        TemplateValue::Mapping(entries) => tera::Value::Object(
            entries.iter().map(|e| (e.key.clone(), to_json(&e.value))).collect(),
        ),
    }
}

#[test]
fn site_context_names_five_fields() {
    let value = site_context(&config().site);
    let bound = entries(&value);
    let keys: Vec<&str> = bound.iter().map(|e| e.key.as_str()).collect();
    assert_eq!(keys, vec!["title", "url", "description", "author", "language"]);
    assert_eq!(text(&bound[0].value), "Example Site");
    assert_eq!(text(&bound[1].value), "https://example.com");
    assert_eq!(text(&bound[2].value), "About things");
    assert_eq!(text(&bound[3].value), "Ada");
    assert_eq!(text(&bound[4].value), "en");
}

#[test]
fn page_context_without_date_has_no_date_key() {
    let value = page_context(&page(None));
    let bound = entries(&value);
    let keys: Vec<&str> = bound.iter().map(|e| e.key.as_str()).collect();
    assert_eq!(keys, vec!["title", "description", "html", "slug", "tags"]);
    assert_eq!(text(&bound[0].value), "Hello <World>");
    assert_eq!(text(&bound[1].value), "A page");
    assert_eq!(text(&bound[2].value), "<p><em>hi</em></p>\n");
    assert_eq!(text(&bound[3].value), "hello");
    match &bound[4].value {
        TemplateValue::Sequence(tags) => {
            assert_eq!(tags.len(), 2);
            assert_eq!(text(&tags[0]), "rust");
            assert_eq!(text(&tags[1]), "web");
        }
        other => panic!("no sequence: {:?}", other),
    }
}

#[test]
fn page_context_with_date_has_rfc3339_text() {
    let date = Timestamp::new(1_431_648_000, 0).unwrap();
    let value = page_context(&page(Some(date)));
    let bound = entries(&value);
    let keys: Vec<&str> = bound.iter().map(|e| e.key.as_str()).collect();
    assert_eq!(keys, vec!["title", "description", "html", "slug", "date", "tags"]);
    assert_eq!(text(&bound[4].value), "2015-05-15T00:00:00+00:00");
}

#[test]
fn render_context_binds_page_and_site() {
    let value = render_context(&page(None), &config());
    let bound = entries(&value);
    let keys: Vec<&str> = bound.iter().map(|e| e.key.as_str()).collect();
    assert_eq!(keys, vec!["page", "site"]);
    assert_eq!(entries(&bound[0].value).len(), 5);
    assert_eq!(entries(&bound[1].value).len(), 5);
}

#[test]
fn template_pattern_finds_html_at_any_depth() {
    assert_eq!(template_pattern("templates"), "templates/**/*.html");
    assert_eq!(template_pattern(""), "/**/*.html");
}

#[test]
fn templates_load_keeps_names() {
    let names = vec!["page.html".to_string(), "partials/nav.html".to_string()];
    let templates = Templates::load("templates", Ok(names.clone())).unwrap();
    assert_eq!(templates.names, names);
    assert!(templates.contains("page.html"));
    assert!(templates.contains("partials/nav.html"));
    assert!(!templates.contains("nav.html"));
    assert!(!templates.contains("Page.html"));
    assert!(!templates.contains(""));
}

#[test]
fn templates_load_failure_names_directory() {
    let made = Templates::load("tpl", Err("unexpected end of block".to_string()));
    match made {
        Err(TemplateError::Load { directory, reason }) => {
            assert_eq!(directory, "tpl");
            assert_eq!(reason, "unexpected end of block");
        }
        other => panic!("unexpected: {:?}", other),
    }
}

#[test]
fn render_of_unknown_template_names_it() {
    let templates = Templates::load("templates", Ok(vec!["page.html".to_string()])).unwrap();
    let made = templates.render("missing.html", &page(None), &config());
    match made {
        Err(TemplateError::Unknown { template }) => assert_eq!(template, "missing.html"),
        other => panic!("unexpected: {:?}", other),
    }
}

#[test]
fn render_of_loaded_template_makes_a_job() {
    let templates = Templates::load("templates", Ok(vec!["page.html".to_string()])).unwrap();
    let job = templates.render("page.html", &page(None), &config()).unwrap();
    assert_eq!(job.template, "page.html");
    let bound = entries(&job.context);
    assert_eq!(bound.len(), 2);
    assert_eq!(bound[0].key, "page");
    assert_eq!(bound[1].key, "site");
}

#[test]
fn rendered_keeps_html_and_names_template_on_failure() {
    assert_eq!(Templates::rendered("page.html", Ok("<p>x</p>".to_string())).unwrap(), "<p>x</p>");
    match Templates::rendered("page.html", Err("Variable `x` not found".to_string())) {
        Err(TemplateError::Render { template, reason }) => {
            assert_eq!(template, "page.html");
            assert_eq!(reason, "Variable `x` not found");
        }
        other => panic!("unexpected: {:?}", other),
    }
}

#[test]
fn template_error_messages_name_the_template() {
    let load = TemplateError::Load { directory: "tpl".to_string(), reason: "bad".to_string() };
    assert_eq!(load.message(), "Failed to load templates from tpl: bad");
    let unknown = TemplateError::Unknown { template: "x.html".to_string() };
    assert_eq!(unknown.message(), "Failed to render template: x.html: template not found");
    let render = TemplateError::Render { template: "x.html".to_string(), reason: "why".to_string() };
    assert_eq!(render.message(), "Failed to render template: x.html: why");
}

#[test]
fn engine_renders_context_with_html_unescaped() {
    let mut engine = tera::Tera::default();
    engine
        .add_raw_template(
            "page.html",
            "<title>{{ page.title }} | {{ site.title }}</title><main>{{ page.html | safe }}</main>{% for tag in page.tags %}[{{ tag }}]{% endfor %}{% if page.date %}dated{% else %}undated{% endif %}",
        )
        .unwrap();
    let templates = Templates::load("templates", Ok(vec!["page.html".to_string()])).unwrap();
    let job = templates.render("page.html", &page(None), &config()).unwrap();
    let context = tera::Context::from_value(to_json(&job.context)).unwrap();
    let outcome = engine.render(&job.template, &context).map_err(|e| e.to_string());
    let html = Templates::rendered(&job.template, outcome).unwrap();
    assert_eq!(
        html,
        "<title>Hello &lt;World&gt; | Example Site</title><main><p><em>hi</em></p>\n</main>[rust][web]undated"
    );
}
