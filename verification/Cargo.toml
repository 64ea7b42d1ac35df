[package]
name = "helixdb_explorer"
version = "0.1.0"
edition = "2021"
publish = false

[dependencies]
serde_json = "=1.0.154"
serde = { version = "=1.0.229", features = ["derive"] }
reqwest = { version = "=0.12.28", features = ["json"] }
tokio = { version = "=1.54.1", features = ["rt", "macros"] }
rand = "=0.8.8"
regex = "=1.13.1"
