[package]
name = "swapbytes"
version = "0.1.0"
edition = "2021"
publish = false

[dependencies]
libp2p = { version = "*", features = ["tokio", "tcp", "noise", "yamux", "quic", "mdns", "gossipsub", "kad", "request-response", "cbor", "macros"] }
libp2p-identity = { version = "*", features = ["peerid", "ed25519", "rand"] }
serde = { version = "*", features = ["derive"] }
tokio = { version = "*", features = ["rt-multi-thread", "macros", "io-std", "io-util", "fs"] }
futures = "*"
