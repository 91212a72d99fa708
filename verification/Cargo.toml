[package]
name = "messenger_search"
version = "0.1.0"
edition = "2021"
publish = false

[dependencies]
serde_json = "1"
tantivy = "*"
chrono = "0.4"
structopt = "0.3"

[dev-dependencies]
tempfile = "3"
