[package]
name = "pqmudh"
version = "0.1.0"
edition = "2021"
publish = false

[dependencies]
clap = { version = "=4.5.61", features = ["derive"] }
curve25519-dalek = "=4.1.3"
hkdf = "=0.12.4"
num-bigint = "=0.4.8"
rand = "=0.9.5"
sha2 = "=0.10.9"
