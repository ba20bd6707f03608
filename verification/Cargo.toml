[package]
name = "darkpool"
version = "0.1.0"
edition = "2021"
publish = false

[dependencies]
light-poseidon = "=0.4.0"
ark-bn254 = "=0.5.0"
ark-ff = "=0.5.0"
