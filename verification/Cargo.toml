[package]
name = "rust_tls_duplex_stream"
version = "0.1.0"
edition = "2021"
publish = false

[dependencies]
rustls = { version = "*", default-features = false, features = ["std"] }
defer-heavy = "*"
