[package]
name = "cosmos_client"
version = "0.1.0"
edition = "2021"
publish = false

[dependencies]
bip32 = "=0.4.0"
ibc = "=0.28.0"
ibc-proto = { version = "=0.25.0", features = ["client"] }
log = "0.4"
prost = "=0.11.9"
serde = { version = "1", features = ["derive"] }
tendermint = "=0.28.0"
tendermint-light-client = "=0.28.0"
tendermint-rpc = { version = "=0.28.0", features = ["http-client"] }
tonic = "=0.8.3"
