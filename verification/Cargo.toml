[package]
name = "twitch_discord_relay"
version = "0.1.0"
edition = "2021"
publish = false

[dependencies]
regex = "1"
serenity = "0.10"
tokio = { version = "1", features = ["macros", "rt-multi-thread", "sync", "time"] }
