[package]
name = "condo"
version = "0.1.0"
edition = "2021"
publish = false

[dependencies]
argparse = "0.2"
hyper = "0.10"
log = "0.4"
log4rs = "1"
nix = { version = "0.29", features = ["signal"] }
serde = { version = "1", features = ["derive"] }
serde_json = "1"
url = "2"
