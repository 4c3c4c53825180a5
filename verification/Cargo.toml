[package]
name = "rust_runner"
version = "0.1.0"
edition = "2021"
publish = false

[dependencies]
anyhow = "1"
clap = { version = "4", features = ["derive"] }
serde = { version = "1", features = ["derive"] }
serde_json = "1"
serde_yaml = "0.9"
shell-escape = "0.1"
tera = "1"
tokio = { version = "1", features = ["process", "io-util", "macros", "rt-multi-thread"] }
