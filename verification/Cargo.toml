[package]
name = "aiken-tooling"
version = "0.1.0"
edition = "2021"
publish = false

[dependencies]
aiken-lang = "*"
askama = "0.12"
itertools = "0.10"
lsp-types = "0.94"
pulldown-cmark = { version = "0.9", default-features = false }
serde = { version = "1", features = ["derive"] }
serde_json = "1"
