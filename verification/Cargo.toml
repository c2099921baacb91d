[package]
name = "pedersen_commitments"
version = "0.1.0"
edition = "2021"
publish = false

[dependencies]
curve25519-dalek = { version = "3.2", features = ["serde"] }
sha2 = "0.9"
rand_core = { version = "0.5", features = ["getrandom"] }
hex = "0.4"
bincode = "1.3"
