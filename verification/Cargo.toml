[package]
name = "svdgen"
version = "0.1.0"
edition = "2021"
publish = false

[dependencies]
csv = "1"
yaserde = "*"
yaserde_derive = "*"
