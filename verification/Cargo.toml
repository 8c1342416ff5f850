[package]
name = "openai_cli"
version = "0.1.0"
edition = "2021"
publish = false

[dependencies]
syntect = { version = "5", default-features = false, features = ["default-fancy"] }
clap = { version = "4", features = ["derive", "env"] }
inquire = "*"
openai-rust = "*"
tokio = { version = "1", features = ["macros", "rt-multi-thread"] }
futures-util = "*"
