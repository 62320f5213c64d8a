[package]
name = "rollbar_rust"
version = "0.1.0"
edition = "2021"
publish = false

[dependencies]
aho-corasick = "0.6"
rust-ini = "*"
clap = "2"
serde = { version = "1", features = ["derive"] }
serde_json = "1"
toml = "*"
log = "0.4"
simple_logger = "*"
tokio = { version = "1", features = ["rt-multi-thread", "sync", "time"] }
reqwest = { version = "0.12", default-features = false, features = ["json", "gzip", "rustls-tls"] }
futures = "0.3"
uuid = { version = "1", features = ["v4"] }
wasm-bindgen-futures = "0.4"
