[package]
name = "error-code"
version = "0.1.0"
edition = "2021"
publish = false

[dependencies]
base64 = "=0.22.1"
syn = { version = "=2.0.119", features = ["full"] }
