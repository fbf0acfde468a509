[package]
name = "toolchain_guard"
version = "0.1.0"
edition = "2021"
publish = false

[dependencies]
rustc_version = "0.4"
semver = "1"
