[package]
name = "logical_types"
version = "0.1.0"
edition = "2021"
publish = false

[dependencies]
arrow = { version = "*", default-features = false }
arrow-array = "*"
arrow-schema = "*"
bigdecimal = "0.4"
