[package]
name = "suite_runner"
version = "0.1.0"
edition = "2021"
publish = false

[dependencies]
ethers = { version = "2", default-features = false }
eyre = "0.6"
rayon = "1"
