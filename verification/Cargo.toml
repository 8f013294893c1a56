[package]
name = "product_registry"
version = "2.0.0"
edition = "2021"
publish = false

[dependencies]
frame-support = "=2.0.1"
frame-system = "=2.0.1"
pallet-timestamp = "=2.0.1"
parity-scale-codec = { version = "=1.3.7", features = ["derive"] }
substrate-bip39 = "=0.4.2"
syn = "=1.0.58"
