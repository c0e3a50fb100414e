[package]
name = "vtok_init"
version = "0.1.0"
edition = "2021"
publish = false

[dependencies]
chrono = { version = "0.4", default-features = false, features = ["clock", "std"] }
log = { version = "0.4", features = ["std"] }
