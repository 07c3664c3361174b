[package]
name = "yee_branch_node"
version = "0.1.0"
edition = "2021"
publish = false

[dependencies]
ansi_term = "0.11"
names = { version = "0.11", default-features = false }
log = "0.4"
futures = "0.1"
tokio = "0.1"
exit-future = "0.1"
parking_lot = "0.7"
signal-hook = "0.1"
structopt = "0.2"
error-chain = "0.12"
