[package]
name = "job_receipts"
version = "0.1.0"
edition = "2021"
publish = false

[dependencies]
serde_json = "1"
time = { version = "0.3", features = ["parsing", "formatting"] }
rusqlite = { version = "*", features = ["bundled"] }
