[package]
name = "soroban_governor"
version = "0.1.0"
edition = "2021"
publish = false

[dependencies]
soroban-sdk = "=20.5.0"
soroban-fixed-point-math = "=1.0.0"
sep-41-token = "=0.3.0"

[dev-dependencies]
soroban-sdk = { version = "=20.5.0", features = ["testutils"] }
derive_arbitrary = "=1.3.2"
