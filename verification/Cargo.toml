[package]
name = "mcp_atlassian"
version = "0.1.0"
edition = "2021"
publish = false

[dependencies]
reqwest = { version = "0.12", default-features = false, features = ["json", "rustls-tls"] }
rmcp = { version = "1", features = ["server", "macros"] }
serde = { version = "1", features = ["derive"] }
serde_json = "1"
