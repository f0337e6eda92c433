[package]
name = "rust_meth"
version = "0.4.0"
edition = "2021"
publish = false

[dependencies]
fuzzy-matcher = "0.3"
serde = { version = "1", features = ["derive"] }
serde_json = "1"
dialoguer = { version = "0.11", features = ["fuzzy-select"] }
indicatif = "0.17"
owo-colors = "4"
syntect = { version = "5", default-features = false, features = ["default-fancy"] }
thiserror = "2"
anyhow = "1"
