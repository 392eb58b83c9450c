[package]
name = "anyhow_ctx"
version = "0.1.0"
edition = "2021"
publish = false

[dependencies]
syn = { version = "*", features = ["full"] }
quote = "*"
proc-macro2 = "*"

[dev-dependencies]
anyhow = "*"
tokio = { version = "*", features = ["rt"] }
