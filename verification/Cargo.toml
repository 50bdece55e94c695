[package]
name = "vanity_grinder"
version = "0.1.0"
edition = "2021"
publish = false

[dependencies]
blake2 = "0.10"
bs58 = { version = "0.5", features = ["check"] }
clap = { version = "4", features = ["cargo"] }
csv = "1"
num-bigint = { version = "0.4", features = ["rand"] }
num-format = { version = "0.4", features = ["with-system-locale"] }
rand = "0.8"
