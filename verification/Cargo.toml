[package]
name = "guild_music"
version = "0.1.0"
edition = "2021"
publish = false

[dependencies]
regex = "1"
ogg = "*"
serde = { version = "1", features = ["derive"] }
serde_json = "1"
serenity = { version = "0.11", features = ["voice"] }
songbird = "0.3"
tokio = { version = "1", features = ["macros", "rt-multi-thread", "signal", "process", "fs", "io-util", "sync", "time"] }
rusqlite = "0.28"
tokio-rusqlite = "0.3"
env_logger = "*"
log = "0.4"
lazy_static = "1"
