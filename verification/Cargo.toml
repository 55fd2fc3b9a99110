[package]
name = "catscii"
version = "0.1.0"
edition = "2021"
publish = false

[dependencies]
image = "*"
artem = "*"
axum = "*"
tokio = { version = "*", features = ["full"] }
reqwest = { version = "*", default-features = false }
