[package]
name = "markdown_site"
version = "0.1.0"
edition = "2021"
publish = false

[dependencies]
handlebars = "*"
pulldown-cmark = "*"
serde = "*"
serde_json = "*"
yaml-front-matter = "*"
