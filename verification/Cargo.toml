[package]
name = "yara"
version = "0.1.0"
edition = "2021"

[dependencies]
failure = "0.1"
lazy_static = "1"
