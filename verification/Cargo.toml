[package]
name = "bitcoin_rpc"
version = "0.1.0"
edition = "2021"
publish = false

[dependencies]
jsonrpc = "0.9"
strason = "0.4"
serde = "1"
bitcoin = "0.13"
bitcoin-rpc-json = "*"
