[package]
name = "kaspa_faucet"
version = "0.1.0"
edition = "2021"
publish = false

[dependencies]
anyhow = "=1.0.104"
axum = { version = "=0.7.9", default-features = false, features = ["http1", "json", "tokio"] }
kaspa-addresses = "=0.15.0"
kaspa-consensus-core = "=0.15.0"
kaspa-grpc-client = "=0.15.0"
kaspa-hashes = "=0.15.0"
kaspa-rpc-core = "=0.15.0"
kaspa-txscript = "=0.15.0"
kaspa-utils = "=0.15.0"
secp256k1 = { version = "=0.29.1", features = ["global-context"] }
serde = { version = "=1.0.229", features = ["derive"] }
tokio = { version = "=1.54.1", features = ["rt-multi-thread", "macros", "net", "time", "sync"] }
toml = "=0.8.23"
tower-http = { version = "=0.5.2", features = ["cors", "fs"] }
tracing = "=0.1.44"
tracing-subscriber = { version = "=0.3.23", default-features = false, features = ["fmt", "std"] }
wasm-bindgen = "=0.2.93"
