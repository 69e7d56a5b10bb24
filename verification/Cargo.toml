[package]
name = "masir"
version = "0.1.0"
edition = "2021"
publish = false

[dependencies]
clap = { version = "*", features = ["derive"] }
color-eyre = "*"
ctrlc = "*"
dirs = "*"
tracing = "*"
tracing-subscriber = { version = "*", features = ["env-filter"] }
