[package]
name = "gpt_ask"
version = "0.1.0"
edition = "2021"
publish = false

[dependencies]
anyhow = "1"
chatgpt_rs = "*"
clap = { version = "4", features = ["cargo"] }
tokio = { version = "1", features = ["macros", "rt-multi-thread"] }
