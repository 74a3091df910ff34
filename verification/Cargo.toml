[package]
name = "rutcl"
version = "1.0.0"
edition = "2021"
publish = false

[dependencies]
anyhow = "1"
rand = "0.8"
serde = "1"
serde_json = "1"
simd-json = "0.13"
thiserror = "1"
