[package]
name = "ag_ui"
version = "0.1.0"
edition = "2021"
publish = false

[dependencies]
uuid = { version = "1", features = ["v4", "v5"] }
serde = { version = "1", features = ["derive"] }
serde_json = "1"
json-patch = "*"
bytes = "1"
futures = "0.3"
async-trait = "0.1"
parking_lot = "0.12"
tokio-util = "0.7"
thiserror = "*"
log = "0.4"
reqwest = { version = "*", default-features = false, features = ["json", "stream"] }
