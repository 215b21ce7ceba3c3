[package]
name = "mapradar"
version = "0.1.0"
edition = "2021"
publish = false

[dependencies]
clap = { version = "*", features = ["derive", "env"] }
colored = "*"
dotenvy = "*"
serde = { version = "*", features = ["derive"] }
serde_json = "*"
