[package]
name = "docker_registry"
version = "0.1.0"
edition = "2021"

[dependencies]
atty = "*"
clap = { version = "*", features = ["derive"] }
dirs = "*"
futures = "*"
lazy_static = "*"
reqwest = { version = "*", default-features = false }
rpassword = "*"
rust-ini = "*"
serde_json = "*"
tokio = { version = "*", features = ["macros", "rt-multi-thread"] }
