[package]
name = "hummingbird_daemon"
version = "0.1.0"
edition = "2021"
publish = false

[dependencies]
rand = "*"
nix = { version = "*", features = ["signal"] }
pipeliner = "*"
structopt = "*"
