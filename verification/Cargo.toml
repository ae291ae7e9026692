[package]
name = "groth16_verifier"
version = "0.1.0"
edition = "2021"
publish = false

[dependencies]
ark-bn254 = "0.3"
ark-ec = "0.3"
ark-ff = "0.3"
ark-relations = "0.3"
ark-serialize = "0.3"
ark-std = "0.3"
