[package]
name = "borkcraft"
version = "0.1.0"
edition = "2021"
publish = false

[dependencies]
poll-promise = "*"
chrono = "0.4"
ureq = { version = "2", features = ["json"] }
serde = { version = "1", features = ["derive"] }
serde_json = "1"
tokio = { version = "1", features = ["rt-multi-thread"] }
