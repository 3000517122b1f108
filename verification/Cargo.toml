[package]
name = "mastodon_link"
version = "0.1.0"
edition = "2021"
publish = false

[dependencies]
mastodon-async = "=1.3.2"
serde_json = "=1.0.154"
spdlog-rs = "=0.3.13"
sqlx = { version = "=0.7.4", features = ["sqlite", "runtime-tokio"] }
# Not called by this crate. teloxide asks for takecell 0.1, and 0.1.2 needs a
# newer compiler than the one this crate is built with.
takecell = "<0.1.2"
teloxide = { version = "=0.12.2", features = ["macros"] }
