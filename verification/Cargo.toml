[package]
name = "polymesh_primitives"
version = "0.1.0"
edition = "2021"
publish = false

[dependencies]
confidential_identity_v1 = { version = "=1.1.2", default-features = false, features = ["u64_backend", "wasm"] }
parity-scale-codec = { version = "=3.7.5", default-features = false, features = ["derive", "std"] }
