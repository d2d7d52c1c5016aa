[package]
name = "horned_owl"
version = "0.1.0"
edition = "2021"
publish = false

[dependencies]
curie = "=0.1.4"
failure = "=0.1.8"
sophia = { version = "=0.3.0", features = ["xml"] }
