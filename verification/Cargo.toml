[package]
name = "pandoc_notion"
version = "0.1.0"
edition = "2021"
publish = false

[dependencies]
uuid = { version = "1", features = ["v4"] }
notion-client = "*"
pandoc_types = "*"
serde = { version = "1", features = ["derive"] }
serde_json = "1"
thiserror = "*"
log = "0.4"
env_logger = "*"
clap = { version = "4", features = ["derive"] }
tokio = { version = "1", features = ["macros", "rt-multi-thread", "time"] }
