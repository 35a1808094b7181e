[package]
name = "rantbot"
version = "0.1.0"
edition = "2021"
publish = false

[dependencies]
rand = "=0.8.8"
rant = "=4.0.0-alpha.21"
serenity = "=0.10.10"
tokio = { version = "=1.54.1", features = ["io-util", "macros", "process", "rt-multi-thread", "time"] }

[dev-dependencies]
regex = "=1.13.1"
