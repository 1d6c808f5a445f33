[package]
name = "pake_registration"
version = "0.1.0"
edition = "2021"
publish = false

[dependencies]
opaque-ke = "1.2"
rand = "0.8"
curve25519-dalek = "3"
sha2 = "0.9"
digest = "0.9"
generic-array = "0.14"
argon2 = "0.5"
tokio = { version = "1", default-features = false, features = ["sync"] }
