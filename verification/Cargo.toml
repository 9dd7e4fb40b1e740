[package]
name = "nautilus_model"
version = "0.1.0"
edition = "2021"
publish = false

[dependencies]
anyhow = "1"
rust_decimal = { version = "1", features = ["serde"] }
serde = { version = "1", features = ["derive"] }
