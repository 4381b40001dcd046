[package]
name = "repo_mirror"
version = "0.1.0"
edition = "2021"
publish = false

[dependencies]
chrono = "*"
reqwest = { version = "*", default-features = false, features = ["json", "rustls-tls"] }
serde = "*"
serde_derive = "*"
tokio = { version = "*", features = ["macros", "rt-multi-thread"] }
