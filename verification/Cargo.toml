[package]
name = "example_lib"
version = "0.1.0"
edition = "2021"
publish = false

[dependencies]
dirs = "*"
thiserror = "*"
tokio = { version = "1", features = ["time"] }
tracing = "*"
tauri = { version = "2", default-features = false }
