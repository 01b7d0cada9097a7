[package]
name = "scan_statistics"
version = "0.1.0"
edition = "2021"
publish = false

[dependencies]
console = "0.14"
indicatif = "0.15"
log = "0.4"
reqwest = { version = "0.10", default-features = false }
serde = { version = "1", features = ["derive"] }
serde_json = "1"
tokio = { version = "0.2", features = ["macros", "rt-core", "rt-threaded", "sync"] }
