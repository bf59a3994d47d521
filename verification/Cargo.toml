[package]
name = "hex_serde_util"
version = "0.1.0"
edition = "2021"

[dependencies]
paste = "1"
serde = "1"

[dev-dependencies]
serde_json = "1"
