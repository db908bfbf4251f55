[package]
name = "abt_purchase"
version = "0.1.0"
edition = "2021"
publish = false

[dependencies]
rust_decimal = "1"
chrono = "0.4"
serde = { version = "1", features = ["derive"] }
serde_json = "1"
maud = "*"
