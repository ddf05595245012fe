[package]
name = "irn"
version = "0.1.0"
edition = "2021"
publish = false

[dependencies]
anyhow = "1"
axum = { version = "0.5", features = ["ws"] }
axum-extra = { version = "0.3", features = ["erased-json"] }
bincode = "1"
bs58 = "0.4"
clap = { version = "3", features = ["derive"] }
crossbeam = "0.8"
dashmap = "5"
ed25519-dalek = "1"
either = "1"
futures = "0.3"
libp2p = { version = "0.53", default-features = false, features = ["dns", "ed25519", "gossipsub", "macros", "noise", "tcp", "tokio", "yamux"] }
multihash = { version = "0.19", features = ["serde"] }
once_cell = "1"
rand = "0.7"
serde = { version = "1", features = ["derive"] }
serde_json = "1"
sha3 = "0.10"
thiserror = "1"
tokio = { version = "1", features = ["macros", "rt-multi-thread", "sync"] }
tracing = "0.1"
tracing-subscriber = "0.3"
