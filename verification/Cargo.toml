[package]
name = "loans"
version = "0.1.0"
edition = "2021"
publish = false

[dependencies]
sp-runtime = "6.0.0"
frame-support = ">=4.0.0, <5.0.0"
frame-system = ">=4.0.0, <5.0.0"
sp-std = "4.0.0"
parity-scale-codec = { version = "3.0.0", features = ["derive"] }
scale-info = { version = "2.0.0", features = ["derive"] }
substrate-bip39 = "=0.4.4"
