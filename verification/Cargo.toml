[package]
name = "hdi_extensions"
version = "0.1.0"
edition = "2021"
publish = false

[dependencies]
hdi = "=0.7.3"
serde = { version = "1", features = ["derive"] }
