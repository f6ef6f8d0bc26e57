[package]
name = "mdbook_api"
version = "0.1.0"
edition = "2021"
publish = false

[dependencies]
handlebars = "=2.0.4"
mdbook = { version = "0.4", default-features = false }
pulldown-cmark = { version = "=0.7.2", default-features = false }
regex = "=1.13.1"
serde = { version = "=1.0.229", features = ["derive"] }
serde_json = "=1.0.154"
