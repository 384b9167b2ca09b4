[package]
name = "xccute_decisions"
version = "0.1.0"
edition = "2021"
publish = false

[dependencies]
xccute_runtime = "*"
