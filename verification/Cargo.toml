[package]
name = "capi_targets"
version = "0.1.0"
edition = "2021"
publish = false

[dependencies]
anyhow = "1"
itertools = "0.14"
