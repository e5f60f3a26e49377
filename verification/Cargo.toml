[package]
name = "code_share"
version = "0.1.0"
edition = "2021"
publish = false

[dependencies]
eframe = { version = "=0.16.0", features = ["persistence"] }
serde = { version = "=1.0.229", features = ["derive"] }
