[package]
name = "tensorism"
version = "0.1.0"
edition = "2021"
publish = false

[dependencies]
proc-macro2 = "1"
rand = "0.8"
base64 = "0.21"
