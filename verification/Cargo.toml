[package]
name = "bba_lib"
version = "0.1.0"
edition = "2021"
publish = false

[dependencies]
rand_core = { version = "=0.6.4", features = ["getrandom"] }
serde = "1"
bincode = "1"
