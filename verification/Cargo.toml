[package]
name = "axiom_annotations"
version = "0.1.0"
edition = "2021"
publish = false

[dependencies]
serde_qs = "*"
serde = { version = "1", features = ["derive"] }
serde_json = "1"
tracing = "0.1"
