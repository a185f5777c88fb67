[package]
name = "potr"
version = "0.1.0"
edition = "2021"
publish = false

[dependencies]
anyhow = "=1.0.104"
async-openai = { version = "=0.42.1", features = ["chat-completion"] }
clap = { version = "=4.6.7", features = ["derive"] }
ctrlc = "=3.5.2"
deepl = "=0.8.2"
polib = "=0.3.0"
regex = "=1.13.1"
tokio = { version = "=1.53.2", default-features = false, features = ["rt"] }
