[package]
name = "failure_ext"
version = "0.5.0"
edition = "2021"
publish = false

[dependencies]
failure = { version = "0.1", default-features = false, features = ["std"] }
yansi = "0.5"
