[package]
name = "commercetools"
version = "0.1.0"
edition = "2021"
publish = false

[dependencies]
chrono = "0.4"
rustc-serialize = "0.3"
hyper = "0.10"
