[package]
name = "payments_engine"
version = "0.1.0"
edition = "2021"
publish = false

[dependencies]
csv = "1"
fallible-iterator = "0.2"
serde = "1"
serde_derive = "1"
thiserror = "1"
