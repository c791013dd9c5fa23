[package]
name = "sealpack"
version = "0.1.0"
edition = "2021"
publish = false

[dependencies]
anyhow = "=1.0.104"
bgzip = "=0.3.1"
flate2 = "=1.1.10"
libsw = "=3.5.0"
ring = "=0.17.14"
serde = "=1.0.229"
serde-encrypt = "=0.7.0"
serde-encrypt-core = "=0.7.0"
