[package]
name = "geph5_broker"
version = "0.1.0"
edition = "2021"
publish = false

[dependencies]
blake3 = "*"
ed25519-dalek = "2"
isocountry = "*"
rand = "*"
dirs = "*"
