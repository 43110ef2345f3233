[package]
name = "chat_cli"
version = "0.1.0"
edition = "2021"
publish = false

[dependencies]
serde_json = "1"
serde = { version = "1", features = ["derive"] }
chrono = "0.4"
regex = "1"
glob = "0.3"
anyhow = "1"
async-trait = "0.1"
futures = "0.3"
tokio = { version = "1", features = ["full"] }
reqwest = { version = "0.12", features = ["json", "stream"] }
crossterm = "*"
dotenv = "0.15"
rpassword = "7"
rmcp = { version = "*", features = ["client", "transport-child-process"] }
