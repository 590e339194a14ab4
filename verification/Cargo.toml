[package]
name = "identifi_core"
version = "0.1.0"
edition = "2021"
publish = false

[dependencies]
ark-bn254 = "0.4"
ark-ec = "0.4"
ark-ff = "0.4"
ark-serialize = "0.4"
ark-std = "0.4"
ark-groth16 = { version = "0.4", default-features = false, features = ["std"] }
ark-snark = "0.4"
ark-relations = "0.4"
ark-r1cs-std = "0.4"
ark-crypto-primitives = { version = "0.4", features = ["sponge", "r1cs"] }
getrandom = "0.2"
hex = "0.4"
wasm-bindgen = "0.2"
zeroize = { version = "1", features = ["derive"] }
