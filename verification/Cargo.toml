[package]
name = "workgen"
version = "0.1.0"
edition = "2021"
publish = false

[dependencies]
rand = "0.9"
rapidhash = "*"
serde = { version = "1", features = ["derive"] }
