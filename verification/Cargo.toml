[package]
name = "storage_meter"
version = "0.1.0"
edition = "2021"
publish = false

[dependencies]
sp-runtime = "49.0.0"
frame-support = "49.0.0"
parity-scale-codec = "3"
log = "0.4"
