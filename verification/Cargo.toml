[package]
name = "hterm_h2"
version = "0.1.0"
edition = "2021"
publish = false

[dependencies]
anyhow = "1"
log = "0.4"
parking_lot = "0.12"
serde_json = "1"
url = "2"
