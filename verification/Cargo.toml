[package]
name = "halo2_vote"
version = "0.1.0"
edition = "2021"
publish = false

[dependencies]
halo2_proofs = "0.3"
halo2_gadgets = "0.5"
pasta_curves = "0.5"
rand_core = { version = "0.6", features = ["getrandom"] }
wasm-bindgen = "0.2"
