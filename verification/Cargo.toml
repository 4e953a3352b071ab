[package]
name = "lorri"
version = "0.1.0"
edition = "2021"
publish = false

[dependencies]
tempfile = "*"
serde = { version = "*", features = ["derive"] }
serde_json = "*"
notify = "*"
slog = "*"
