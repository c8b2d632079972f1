[package]
name = "web3_signer"
version = "0.1.0"
edition = "2021"
publish = false

[dependencies]
rlp = "0.5"
tiny-keccak = { version = "2.0", features = ["keccak"] }
serde = { version = "1", features = ["derive"] }
serde_json = "1"
jsonrpc-core = "18"
futures = "0.3"
pin-project = "1"
derive_more = "0.99"
derive_builder = "0.12"
ethabi = "17"
ic-cdk = "0.7"
