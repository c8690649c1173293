[package]
name = "fhe_sum"
version = "0.1.0"
edition = "2021"
publish = false

[dependencies]
tfhe = { version = "=0.6.4", default-features = false, features = ["integer", "x86_64-unix"] }
bincode = "=1.3.3"
base64 = "=0.22.1"
