[package]
name = "c2pa_testfile_maker"
version = "0.1.0"
edition = "2021"
publish = false

[dependencies]
anyhow = "=1.0.104"
c2pa = { version = "=0.78.8", default-features = false, features = ["file_io", "rust_native_crypto"] }
clap = { version = "=4.6.7", features = ["derive"] }
ed25519-dalek = "=2.2.0"
pem = "=3.0.6"
serde_json = "=1.0.154"
