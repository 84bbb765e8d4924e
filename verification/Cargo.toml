[package]
name = "stark_verifier"
version = "0.1.0"
edition = "2021"
publish = false

[dependencies]
winter-air = "0.4"
winter-crypto = "0.4"
winter-fri = "0.4"
winter-math = "0.4"
winter-utils = "0.4"

[dev-dependencies]
winter-prover = "0.4"
