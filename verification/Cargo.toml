[package]
name = "kord_model"
version = "0.1.0"
edition = "2021"
publish = false

[dependencies]
# Not called by this crate. burn-core 0.13 is written against this release
# candidate of bincode and does not compile against the releases after it.
bincode = { version = "=2.0.0-rc.3", default-features = false }
burn = { version = "=0.13.2", default-features = false, features = ["std", "ndarray"] }
