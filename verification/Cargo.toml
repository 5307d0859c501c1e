[package]
name = "gear_logic"
version = "0.1.0"
edition = "2021"
publish = false

[dependencies]
region = "3"
parity-scale-codec = { version = "3", features = ["derive"] }
wasmi = "0.9"
sp-io = "*"
