[package]
name = "chatbench"
version = "0.1.0"
edition = "2021"
publish = false

[dependencies]
tokenizers = { version = "=0.23.2", default-features = false, features = ["onig"] }
anyhow = "=1.0.104"
async-openai = { version = "=0.42.1", features = ["chat-completion"] }
clap = { version = "=4.6.7", features = ["derive"] }
csv = "=1.4.0"
futures-util = "=0.3.34"
glob = "=0.3.4"
rand = "=0.10.3"
tokio = { version = "=1.53.2", features = ["full"] }

[dev-dependencies]
ahash = "=0.8.12"
