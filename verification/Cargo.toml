[package]
name = "xberg"
version = "0.1.0"
edition = "2021"
publish = false

[dependencies]
async-trait = "0.1"
cfb = "=0.16.0"
clap = { version = "4", features = ["derive"] }
mime_guess = "=2.0.5"
parking_lot = "0.12"
serde = { version = "1", features = ["derive"] }
serde_json = "1"
tokio = { version = "1", features = ["rt", "fs"] }
tracing = "0.1"
zip = { version = "=8.6.0", default-features = false, features = ["deflate"] }

[dev-dependencies]
ahash = "0.8"
