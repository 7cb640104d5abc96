[package]
name = "sns_testing"
version = "0.1.0"
edition = "2021"
publish = false

[dependencies]
wasmtime-environ = { version = "=36.0.20", default-features = false }
candid = "=0.10.39"
clap = { version = "=4.6.7", features = ["derive"] }
tokio = { version = "=1.54.1", features = ["rt-multi-thread", "macros"] }
futures = "=0.3.34"
url = "=2.5.8"
serde = { version = "=1.0.229", features = ["derive"] }
nix = { version = "=0.29.0", features = ["signal"] }
libc = "=0.2.191"
scopeguard = "=1.2.0"
prost = "=0.13.5"
ic-stable-structures = "=0.7.2"
