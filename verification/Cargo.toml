[package]
name = "galileo"
version = "0.1.0"
edition = "2021"
publish = false

[dependencies]
anyhow = "1"
clap = { version = "3.2", features = ["derive"] }
directories = "4"
futures = "0.3"
humantime = "2"
serenity = "0.11"
tokio = { version = "1", features = ["full"] }
tracing = "0.1"
url = "2"
