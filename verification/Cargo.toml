[package]
name = "atem_core"
version = "0.1.0"
edition = "2021"
publish = false

[dependencies]
necromancer = "*"
tokio = { version = "1", features = ["sync", "rt", "macros"] }
serde = { version = "1", features = ["derive"] }
thiserror = "*"
tracing = "*"
