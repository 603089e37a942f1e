[package]
name = "nitora"
version = "0.1.0"
edition = "2021"
publish = false

[dependencies]
anyhow = "1"
clap = { version = "4", features = ["derive"] }
core-graphics2 = "*"
dirs = "*"
objc2 = "*"
objc2-app-kit = "*"
objc2-core-foundation = "*"
objc2-core-graphics = "*"
objc2-foundation = "*"
objc2-io-kit = "*"
objc2-metal = "*"
objc2-quartz-core = "*"
serde = { version = "1", features = ["derive"] }
serde_json = "1"
