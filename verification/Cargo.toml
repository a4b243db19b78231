[package]
name = "rdc"
version = "0.1.0"
edition = "2021"
publish = false

[dependencies]
genco = "0.17"
