[package]
name = "simple-db"
version = "0.1.0"
edition = "2021"
publish = false

[dependencies]
async-trait = "0.1"
chrono = { version = "0.4", default-features = false, features = ["std"] }
rust_decimal = "1"
serde_json = "1"
smallvec = "1"
smol_str = "0.2"
thiserror = "1"
tokio = { version = "1", features = ["sync"] }
uuid = { version = "1", features = ["v7"] }
