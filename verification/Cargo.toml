[package]
name = "arducam-legacy"
version = "0.2.0"
edition = "2021"
publish = false

[dependencies]
embedded-hal = "1.0.0"
embedded-hal-async = "1.0.0"
thiserror = "2"
