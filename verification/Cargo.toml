[package]
name = "chainbridge-transfer"
version = "0.1.0"
edition = "2021"
publish = false

[dependencies]
parity-scale-codec = "*"
sp-io = "*"

[dev-dependencies]
sp-core = "*"
