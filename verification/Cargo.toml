[package]
name = "fhe_hamming"
version = "0.1.0"
edition = "2021"
publish = false

[dependencies]
npyz = "=0.9.1"
tfhe = { version = "=0.10.0", default-features = false, features = ["integer", "x86_64-unix"] }
