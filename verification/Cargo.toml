[package]
name = "malus"
version = "0.1.0"
edition = "2021"
publish = false

[dependencies]
parity-scale-codec = { version = "2.3", features = ["derive"] }
scale-info = { version = "1.0", features = ["derive"] }
sp-std = "4.0.0"
parity-util-mem = "0.10"
futures = "0.3"
tracing = "0.1"
