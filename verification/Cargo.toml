[package]
name = "pathignore"
version = "0.1.0"
edition = "2021"
publish = false

[dependencies]
globset = "*"
anyhow = "*"
loc = "*"
serde = { version = "*", features = ["derive"] }
serde_json = "*"
thiserror = "*"
ureq = "*"
walkdir = "*"
