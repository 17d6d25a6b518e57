[package]
name = "baldguard"
version = "0.1.0"
edition = "2021"
publish = false

[dependencies]
regex = "=1.13.1"
serde = { version = "=1.0.229", features = ["derive"] }
tokio = { version = "=1.54.1", features = ["macros", "rt-multi-thread", "sync", "time"] }
teloxide = "=0.13.0"
mongodb = "=3.9.1"
futures = "=0.3.34"
log = "=0.4.34"
pretty_env_logger = "=0.5.0"
takecell = "=0.1.1"
lalrpop-util = "*"
