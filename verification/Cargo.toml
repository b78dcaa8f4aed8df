[package]
name = "rfham_rigs"
version = "0.1.0"
edition = "2021"
publish = false

[dependencies]
serde = { version = "1", features = ["derive"] }
strum = { version = "*", features = ["derive"] }
thiserror = "*"
tracing = "*"
num = "*"
rfham-itu = "*"
rfham-core = "*"
rfham-config = "*"
serialport = { version = "*", default-features = false }
toml = "*"
