[package]
name = "pb_devtools"
version = "0.1.0"
edition = "2021"
publish = false

[dependencies]
lockfile = "*"
tokio = { version = "*", features = ["full"] }
tracing = "*"
tracing-subscriber = { version = "*", features = ["env-filter"] }
tracing-appender = "*"
thiserror = "*"
inkview = "*"
inkview-eg = "*"
