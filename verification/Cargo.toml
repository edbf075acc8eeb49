[package]
name = "gql_async_graphql"
version = "0.1.0"
edition = "2021"
publish = false

[dependencies]
async-graphql = "=7.2.1"
base64 = "=0.22.1"
http = "=1.5.0"
send_wrapper = { version = "=0.6.0", features = ["futures"] }
serde = { version = "1", features = ["derive"] }
serde_json = "=1.0.154"
serde-wasm-bindgen = "=0.6.5"
url = "=2.5.8"
wasm-bindgen-futures = "=0.4.80"
web-sys = { version = "=0.3.107", features = ["WorkerGlobalScope", "Crypto", "SubtleCrypto", "CryptoKey"] }
worker = { version = "=0.7.5", features = ["http"] }
