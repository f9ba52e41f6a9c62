[package]
name = "markdown_translator"
version = "0.1.0"
edition = "2021"
publish = false

[dependencies]
clap = { version = "4", features = ["derive"] }
dotenvy = "0.15"
openai = "=1.0.0-alpha.13"
tokio = { version = "1", features = ["rt-multi-thread"] }
