[package]
name = "eth_rpc"
version = "0.1.0"
edition = "2021"
publish = false

[dependencies]
ethereum = "=0.18.2"
ethereum-types = "=0.15.1"
rlp = "=0.6.1"
sha3 = "=0.10.9"
jsonrpc-core = "=18.0.0"
futures = "=0.3.34"
