[package]
name = "near_client"
version = "0.1.0"
edition = "2021"

[dependencies]
actix = "0.13"
borsh = "=1.8.1"
chrono = { version = "=0.4.45", default-features = false, features = ["std"] }
log = "=0.4.35"
near-async = "=0.24.1"
near-cache = "=0.24.1"
near-chain-primitives = "=0.24.1"
near-crypto = "=0.24.1"
near-primitives = { version = "=0.24.1", default-features = false }
rayon = "=1.12.0"
tracing = "=0.1.44"
