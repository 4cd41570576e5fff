//! A static site generator's core: configuration, content model, template
//! context, feeds, sitemap and the build pipeline, with machine-checked
//! contracts.

pub mod builder;
pub mod config;
pub mod content;
pub mod feeds;
pub mod highlight;
pub mod paths;
pub mod sitemap;
pub mod templates;
pub mod text;
pub mod time;
