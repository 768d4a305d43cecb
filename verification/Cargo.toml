[package]
name = "belize_governance"
version = "0.1.0"
edition = "2021"
publish = false

[dependencies]
parity-scale-codec = { version = "3", default-features = false, features = ["derive", "std"] }
scale-info = { version = "2", default-features = false, features = ["derive", "std"] }
sp-io = "*"
sp-runtime = "*"
frame-support = "*"
frame-system = "*"
