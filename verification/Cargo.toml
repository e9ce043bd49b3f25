[package]
name = "eth_sweeper"
version = "0.1.0"
edition = "2021"
publish = false

[dependencies]
secp256k1 = { version = "=0.27.0", features = ["rand-std"] }
web3 = { version = "=0.19.0", default-features = false, features = ["signing", "ws-tokio"] }
tokio = { version = "=1.53.2", features = ["rt-multi-thread", "macros", "time"] }
num_cpus = "=1.17.0"
ansi_term = "=0.12.1"
