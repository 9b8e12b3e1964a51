[package]
name = "illa"
version = "0.1.0"
edition = "2021"
publish = false

[dependencies]
anyhow = "1"
bollard = "0.14"
clap = { version = "4", features = ["derive"] }
console = "0.15"
futures-util = "0.3"
indicatif = "0.17"
prettytable-rs = "0.10"
tokio = { version = "1", features = ["macros", "rt-multi-thread"] }
uuid = { version = "1", features = ["v4"] }
