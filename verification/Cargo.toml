[package]
name = "getport"
version = "0.1.0"
edition = "2021"
publish = false

[dependencies]
thiserror = "1"

[dev-dependencies]
fastrand = "2"
