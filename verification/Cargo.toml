[package]
name = "bookmarks"
version = "0.1.0"
edition = "2021"
publish = false

[dependencies]
env_logger = "*"
serde = { version = "*", features = ["derive"] }
serde_json = "*"
serde_yaml = "*"
tantivy = "*"
thiserror = "*"
tokio = { version = "*", features = ["macros", "rt-multi-thread"] }
url = { version = "*", features = ["serde"] }
uuid = { version = "*", features = ["v4"] }
warp = "0.3"
