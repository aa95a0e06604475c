[package]
name = "rbuilder"
version = "0.1.0"
edition = "2021"
publish = false

[dependencies]
sha2 = "=0.11.1"
tree_hash = "=0.12.1"
tree_hash_derive = "=0.12.1"
ssz_types = "=0.14.1"
ethereum_ssz = "=0.10.4"
ethereum_ssz_derive = "=0.10.4"
typenum = "=1.20.1"
dashmap = "=6.2.1"
alloy-primitives = "=1.7.3"
alloy-rlp = "=0.3.17"
alloy-eips = "=2.5.0"
alloy-consensus = "=2.5.0"
alloy-rpc-types = "=2.5.0"
alloy-rpc-types-beacon = { version = "=2.5.0", features = ["ssz"] }
serde = { version = "=1.0.229", features = ["derive"] }
serde_json = "=1.0.154"
serde_with = "=3.24.0"
eyre = "=0.6.14"
tokio = { version = "=1.54.1", features = ["full"] }
warp = { version = "=0.4.3", features = ["server"] }
