[package]
name = "llm_chat"
version = "0.1.0"
edition = "2021"
publish = false

[dependencies]
serde_json = "=1.0.151"
serde = { version = "*", features = ["derive"] }
serde_with = "*"
reqwest = { version = "=0.13.5", default-features = false, features = ["json", "query", "stream"] }
futures = "*"
bytes = "*"
anyhow = "*"
dotenv = "*"
lazy_static = "*"
thiserror = "*"
tracing = "*"
