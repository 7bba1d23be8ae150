[package]
name = "abstract_value_engine"
version = "0.1.0"
edition = "2021"
publish = false

[dependencies]
log = "0.4"
log-derive = "*"
mirai-annotations = "1"
serde = { version = "1", features = ["derive", "rc"] }
