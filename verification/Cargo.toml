[package]
name = "mullvad-api"
version = "0.1.0"
edition = "2021"
publish = false

[dependencies]
hyper = { version = "1", default-features = false, features = ["client", "http1"] }
tonic = { version = "*", default-features = false }
tokio = { version = "1", default-features = false, features = ["rt", "fs", "io-util", "net", "sync", "time"] }
futures = "0.3"
log = "0.4"
thiserror = "*"
async-trait = "0.1"
serde = { version = "1", features = ["derive"] }
serde_json = "1"
http-body-util = "0.1"
hyper-util = { version = "0.1", default-features = false, features = ["tokio"] }
