[package]
name = "propchain_security_tests"
version = "0.1.0"
edition = "2021"
publish = false

[dependencies]
soroban-sdk = { version = "=29.0.1", features = ["testutils"] }
soroban-env-host = "=29.0.1"
serde = { version = "=1.0.229", features = ["derive"] }
proptest = "=1.12.0"

[dev-dependencies]
ed25519-dalek = "=2.2.0"
