[package]
name = "typed_uint"
version = "0.1.0"
edition = "2021"
publish = false

[dependencies]
num-bigint = "0.2"
