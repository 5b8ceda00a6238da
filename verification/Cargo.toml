[package]
name = "decode_kyma_vcs_event"
version = "0.1.0"
edition = "2021"
publish = false

[dependencies]
inflate = "0.4"
flate2 = "1"
serde = { version = "1", features = ["derive"] }
