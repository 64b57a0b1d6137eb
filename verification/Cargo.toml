[package]
name = "git_commit_helper"
version = "0.1.0"
edition = "2021"
publish = false

[dependencies]
git2 = { version = "=0.21.0", default-features = false }
clap = { version = "=4.6.7", features = ["derive"] }
tokio = { version = "=1.53.2", features = ["macros", "rt-multi-thread"] }
async-openai = { version = "=0.42.1", features = ["chat-completion"] }
ollama-rs = "=0.3.6"
