[package]
name = "mdbook_handlebars"
version = "0.1.0"
edition = "2021"
publish = false

[dependencies]
anyhow = "=1.0.104"
handlebars = "=6.4.4"
mdbook-preprocessor = "=0.5.4"
mdbook-preprocessor-boilerplate = "=0.2.0"
serde-frontmatter = "=0.1.0"
serde_json = "=1.0.151"
