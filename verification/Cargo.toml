[package]
name = "hopper_lib"
version = "0.1.0"
edition = "2021"
publish = false

[dependencies]
actix = "*"
serde = { version = "*", features = ["derive"] }
serde_cbor = "*"
