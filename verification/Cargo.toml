[package]
name = "glmy"
version = "0.1.0"
edition = "2021"
publish = false

[dependencies]
home = "*"
serde_json = "*"
