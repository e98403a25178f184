[package]
name = "naive_measure"
version = "0.1.0"
edition = "2021"
publish = false

[dependencies]
rand = { version = "0.8", default-features = false }
rand_xoshiro = "0.6"
