[package]
name = "creditcard_identifier"
version = "0.1.0"
edition = "2021"
publish = false

[dependencies]
regex = "*"
