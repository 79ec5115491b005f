[package]
name = "parachain_spec"
version = "0.1.0"
edition = "2021"
publish = false

[dependencies]
sp-core = "*"
sp-runtime = "*"
serde = { version = "1", features = ["derive"] }
