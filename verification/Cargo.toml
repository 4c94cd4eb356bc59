[package]
name = "opcua_client"
version = "0.1.0"
edition = "2021"
publish = false

[dependencies]
async-opcua-core = "=0.17.1"
async-opcua-crypto = "=0.17.1"
async-opcua-types = "=0.17.1"
async-trait = "0.1"
futures = "0.3"
parking_lot = "0.12"
tokio = { version = "1", features = ["io-util", "macros", "net", "rt", "sync", "time"] }
tokio-util = { version = "0.7", features = ["codec"] }
tracing = "0.1"
