[package]
name = "jshell"
version = "0.1.0"
edition = "2021"
publish = false

[dependencies]
dotenvy = "0.15"
rand = "0.8"
serenity = "0.12"
thiserror = "1"
tokio = { version = "1", features = ["io-util", "macros", "process", "rt-multi-thread", "sync", "time"] }
