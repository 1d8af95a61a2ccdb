[package]
name = "gdnative_core"
version = "0.1.0"
edition = "2021"
publish = false

[dependencies]
semver = "1"
parking_lot = "0.12"
bitflags = "1"
libc = "0.2"

[dev-dependencies]
approx = "0.5"
