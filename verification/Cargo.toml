[package]
name = "wokelang_ssg"
version = "0.1.0"
edition = "2021"
publish = false

[dependencies]
anyhow = "1"
atom_syndication = "*"
axum = "0.7"
chrono = { version = "0.4", features = ["serde"] }
clap = { version = "4", features = ["derive"] }
pulldown-cmark = "*"
quick-xml = "*"
rss = "2"
serde = { version = "1", features = ["derive"] }
serde_yaml = "0.9"
syntect = { version = "5", default-features = false, features = ["default-fancy"] }
tera = { version = "1", default-features = false }
tokio = { version = "1", features = ["rt-multi-thread", "macros", "net"] }
tower-http = { version = "0.5", features = ["fs", "trace"] }
tower-livereload = "0.9"
walkdir = "2"
