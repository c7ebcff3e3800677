[package]
name = "rust_docs_mcp"
version = "0.1.0"
edition = "2021"
publish = false

[dependencies]
rustdoc-types = "*"
serde = { version = "1", features = ["derive"] }

[dev-dependencies]
serde_json = "1"
