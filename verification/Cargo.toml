[package]
name = "informed_tally"
version = "0.1.0"
edition = "2021"
publish = false

[dependencies]
anyhow = "*"
clap = { version = "*", features = ["derive", "env"] }
sqlx = { version = "*", features = ["sqlite", "runtime-tokio"], default-features = false }
tokio = { version = "*", features = ["rt-multi-thread", "macros"] }
