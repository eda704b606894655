[package]
name = "guild_core"
version = "0.1.0"
edition = "2021"
publish = false

[dependencies]
dashmap = "5"
rand = "0.8"
