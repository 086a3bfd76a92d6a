[package]
name = "distribbuidora_pdv"
version = "0.1.0"
edition = "2021"
publish = false

[dependencies]
argon2 = { version = "0.5", features = ["std"] }
dirs = "*"
serde = { version = "1", features = ["derive"] }
sqlx = { version = "0.8", default-features = false, features = ["sqlite", "runtime-tokio", "macros", "migrate"] }
thiserror = "*"
tokio = { version = "1", features = ["macros", "rt-multi-thread", "sync"] }
