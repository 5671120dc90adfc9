[package]
name = "role_enforcer"
version = "0.1.0"
edition = "2021"
publish = false

[dependencies]
env_logger = "*"
log = "0.4"
serenity = "0.12"
sqlite = "*"
tokio = { version = "1", features = ["macros", "rt-multi-thread", "sync", "time"] }
