[package]
name = "c0dl3_privacy"
version = "0.1.0"
edition = "2021"
publish = false

[dependencies]
sha2 = "0.10"
hex = "0.4"
rand = "0.8"
chacha20poly1305 = "0.10"
serde = { version = "1", features = ["derive"] }
serde_json = "1"
bulletproofs = "4"
curve25519-dalek-ng = "4"
merlin = "3"
anyhow = "1"
once_cell = "1"
rayon = "1"
num_cpus = "1"
tokio = { version = "1", features = ["rt", "rt-multi-thread", "sync", "time", "macros"] }
winter-math = "*"
winter-crypto = "*"
winter-fri = "*"
winter-air = "*"
winter-utils = "*"
