[package]
name = "payments_engine"
version = "0.1.0"
edition = "2021"
publish = false

[dependencies]
anyhow = "1"
csv = "1"
indexmap = "2"
rust_decimal = "1"
serde = { version = "1", features = ["derive"] }
structopt = "0.3"
strum = { version = "0.26", features = ["derive"] }
thiserror = "1"
