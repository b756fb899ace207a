[package]
name = "synja"
version = "0.1.0"
edition = "2021"
publish = false

[dependencies]
rand_pcg = "*"
rand_core = "*"
