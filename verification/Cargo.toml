[package]
name = "rust_chart_lib"
version = "0.1.0"
edition = "2021"
publish = false

[dependencies]
anyhow = "1"
async-trait = "0.1"
futures-util = "0.3"
reqwest = { version = "0.12", features = ["json"] }
serde = { version = "1", features = ["derive"] }
serde_json = "1"
ta = "0.5"
tokio = { version = "1", features = ["full"] }
tokio-tungstenite = "*"
url = "2"
