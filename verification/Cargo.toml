[package]
name = "evm_wallet_api"
version = "0.1.0"
edition = "2021"
publish = false

[dependencies]
ethers = { version = "2.0", default-features = false }
bip39 = "2"
rand = "0.8"
axum = "0.6"
tokio = { version = "1", features = ["macros", "rt-multi-thread"] }
tower-http = { version = "0.4", features = ["cors", "trace"] }
tracing = "0.1"
tracing-subscriber = { version = "0.3", features = ["env-filter"] }
dotenv = "0.15"
reqwest = { version = "0.11", default-features = false, features = ["json"] }
serde = { version = "1", features = ["derive"] }
serde_json = "1"
