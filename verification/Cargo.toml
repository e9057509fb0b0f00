[package]
name = "block_monitor"
version = "0.1.0"
edition = "2021"
publish = false

[dependencies]
chrono = { version = "*", default-features = false, features = ["clock"] }
clap = { version = "*", default-features = false, features = ["std", "derive", "help", "usage"] }
eyre = "*"
futures-util = { version = "*", default-features = false, features = ["std"] }
tokio = { version = "*", features = ["macros", "rt-multi-thread"] }
