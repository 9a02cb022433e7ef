[package]
name = "marketplace"
version = "0.1.0"
edition = "2021"
publish = false

[dependencies]
rust_decimal = "1"
url = "2"
uuid = { version = "1", features = ["v4", "serde"] }
serde = { version = "1", features = ["derive"] }
serde_json = "1"
rusty-money = { version = "0.4", features = ["crypto"] }
reqwest = { version = "0.11", default-features = false, features = ["json"] }
async-trait = "0.1"
thiserror = "1"
anyhow = "1"
chrono = "0.4"
derive_more = "0.99"
log = "0.4"
syn = "1"
quote = "1"
