[package]
name = "outlook_cli"
version = "0.1.0"
edition = "2021"
publish = false

[dependencies]
anyhow = "=1.0.104"
clap = { version = "=4.5.61", features = ["derive", "env"] }
dotenvy = "=0.15.7"
tokio = { version = "=1.53.2", features = ["rt-multi-thread", "macros"] }
