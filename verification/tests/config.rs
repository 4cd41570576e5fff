use wokelang_ssg::config::{
    default_content_dir, default_output_dir, default_static_dir, default_templates_dir,
    BuildConfig, BuildFields, Config, ConfigError, ConfigFields, ConfigOutcome, SiteFields,
};

fn full_site() -> SiteFields {
    SiteFields {
        title: Some("T".to_string()),
        url: Some("https://t.example".to_string()),
        description: Some("D".to_string()),
        author: None,
        language: None,
    }
}

#[test]
fn default_directories() {
    assert_eq!(default_content_dir(), "content");
    assert_eq!(default_output_dir(), "public");
    assert_eq!(default_templates_dir(), "templates");
    assert_eq!(default_static_dir(), "static");
}

#[test]
fn default_build_config_is_conventional() {
    let build = BuildConfig::default();
    assert_eq!(build.content_dir, "content");
    assert_eq!(build.output_dir, "public");
    assert_eq!(build.templates_dir, "templates");
    assert_eq!(build.static_dir, "static");
}

#[test]
fn default_wokelang_values() {
    let config = Config::default_wokelang();
    assert_eq!(config.site.title, "WokeLang");
    assert_eq!(config.site.url, "https://wokelang.org");
    assert_eq!(config.site.description, "A Human-Centered Programming Language");
    assert_eq!(config.site.author, "Jonathan D.A. Jewell");
    assert_eq!(config.site.language, "en");
    assert_eq!(config.build.content_dir, "content");
    assert_eq!(config.build.output_dir, "public");
    assert_eq!(config.build.templates_dir, "templates");
    assert_eq!(config.build.static_dir, "static");
}

#[test]
fn load_fills_defaults() {
    let fields = ConfigFields { site: Some(full_site()), build: None };
    let config = Config::load("config.yaml", ConfigOutcome::Decoded(fields)).unwrap();
    assert_eq!(config.site.title, "T");
    assert_eq!(config.site.url, "https://t.example");
    assert_eq!(config.site.description, "D");
    assert_eq!(config.site.author, "");
    assert_eq!(config.site.language, "");
    assert_eq!(config.build.content_dir, "content");
    assert_eq!(config.build.output_dir, "public");
    assert_eq!(config.build.templates_dir, "templates");
    assert_eq!(config.build.static_dir, "static");
}

#[test]
fn load_keeps_what_is_named() {
    let site = SiteFields {
        author: Some("Ada".to_string()),
        language: Some("fr".to_string()),
        ..full_site()
    };
    let build = BuildFields {
        content_dir: Some("src".to_string()),
        output_dir: None,
        templates_dir: Some("tpl".to_string()),
        static_dir: None,
    };
    let fields = ConfigFields { site: Some(site), build: Some(build) };
    let config = Config::load("config.yaml", ConfigOutcome::Decoded(fields)).unwrap();
    assert_eq!(config.site.author, "Ada");
    assert_eq!(config.site.language, "fr");
    assert_eq!(config.build.content_dir, "src");
    assert_eq!(config.build.output_dir, "public");
    assert_eq!(config.build.templates_dir, "tpl");
    assert_eq!(config.build.static_dir, "static");
}

#[test]
fn load_keeps_trailing_slash_of_url() {
    let site = SiteFields { url: Some("https://t.example/".to_string()), ..full_site() };
    let fields = ConfigFields { site: Some(site), build: None };
    let config = Config::load("config.yaml", ConfigOutcome::Decoded(fields)).unwrap();
    assert_eq!(config.site.url, "https://t.example/");
}

#[test]
fn load_reports_first_missing_field() {
    let cases: Vec<(ConfigFields, &str)> = vec![
        (ConfigFields { site: None, build: None }, "site"),
        (
            ConfigFields { site: Some(SiteFields { title: None, url: None, ..full_site() }), build: None },
            "site.title",
        ),
        (
            ConfigFields { site: Some(SiteFields { url: None, description: None, ..full_site() }), build: None },
            "site.url",
        ),
        (
            ConfigFields { site: Some(SiteFields { description: None, ..full_site() }), build: None },
            "site.description",
        ),
    ];
    for (fields, expected) in cases {
        match Config::load("site/config.yaml", ConfigOutcome::Decoded(fields)) {
            Err(ConfigError::MissingField { path, field }) => {
                assert_eq!(path, "site/config.yaml");
                assert_eq!(field, expected);
            }
            other => panic!("unexpected: {:?}", other),
        }
    }
}

#[test]
fn load_of_unreadable_document() {
    match Config::load("config.yaml", ConfigOutcome::Unreadable("No such file".to_string())) {
        Err(error @ ConfigError::Unreadable { .. }) => {
            assert_eq!(error.message(), "Failed to read config file: config.yaml: No such file");
        }
        other => panic!("unexpected: {:?}", other),
    }
}

#[test]
fn load_of_malformed_document() {
    match Config::load("config.yaml", ConfigOutcome::Malformed("line 3".to_string())) {
        Err(error @ ConfigError::Malformed { .. }) => {
            assert_eq!(error.message(), "Failed to parse config file: config.yaml: line 3");
        }
        other => panic!("unexpected: {:?}", other),
    }
}

#[test]
fn missing_field_message() {
    let error = ConfigError::MissingField { path: "c.yaml".to_string(), field: "site.url".to_string() };
    assert_eq!(error.message(), "Failed to parse config file: c.yaml: missing field site.url");
}
