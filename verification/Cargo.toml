[package]
name = "feenk-signer"
version = "0.1.0"
edition = "2021"
publish = false

[dependencies]
clap = { version = "4", features = ["derive", "env"] }
execute = "0.2"
ndk-build = "0.10"
rand = "0.8"
