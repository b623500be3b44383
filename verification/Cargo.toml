[package]
name = "sema"
version = "0.1.0"
edition = "2021"
publish = false

[dependencies]
phf = "0.7"
phf_builder = "0.7"
lazy_static = "1"
