[package]
name = "rkl"
version = "0.1.0"
edition = "2021"
publish = false

[dependencies]
anyhow = "1"
libcontainer = { version = "*", default-features = false }
libcgroups = { version = "*", default-features = false }
