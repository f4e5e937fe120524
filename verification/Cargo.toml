[package]
name = "agent_plugins"
version = "0.1.0"
edition = "2021"
publish = false

[dependencies]
async-openai = "=0.10.3"
async-trait = "=0.1.92"
reqwest = { version = "=0.11.27", default-features = false, features = ["rustls-tls-native-roots"] }
serde = { version = "=1.0.229", features = ["derive"] }
serde_json = "=1.0.154"
