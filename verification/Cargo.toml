[package]
name = "sgx_attestation"
version = "0.1.0"
edition = "2021"
publish = false

[dependencies]
chrono = { version = "=0.4.45", default-features = false, features = ["alloc"] }
hex = { version = "=0.4.3", default-features = false, features = ["alloc"] }
parity-scale-codec = "=3.7.5"
pem = "=4.0.0"
pink-json = { version = "=0.4.0", features = ["std"] }
ring = "=0.17.14"
rustls-webpki = { version = "=0.102.8", default-features = false, features = ["alloc", "ring", "std"] }
serde = { version = "=1.0.229", features = ["derive"] }
