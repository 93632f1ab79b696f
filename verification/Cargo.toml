[package]
name = "bosminer-am1-s9"
version = "0.1.0"
edition = "2021"
publish = false

[dependencies]
embedded-hal = { version = "=0.2.7", features = ["unproven"] }
failure = "=0.1.8"
futures = "0.3"
lazy_static = "1.4"
packed_struct = "=0.3.1"
