[package]
name = "usage_dashboard"
version = "0.1.0"
edition = "2021"
publish = false

[dependencies]
serde = { version = "*", features = ["derive"] }
serde_json = "*"
chrono = "*"
tokio = { version = "*", features = ["macros", "rt-multi-thread", "sync", "time"] }
reqwest = { version = "*", default-features = false }
notify = "*"
dirs = "*"
