[package]
name = "eventsub_client"
version = "0.1.0"
edition = "2021"
publish = false

[dependencies]
dotenvy = "*"
eyre = "*"
futures = "*"
reqwest = "=0.13.5"
rpassword = "*"
serde_json = "=1.0.151"
tokio = { version = "*", features = ["macros", "net", "rt-multi-thread", "time"] }
tokio-tungstenite = "=0.30.0"
twitch_api = { version = "=0.8.0", features = ["client", "eventsub", "helix", "reqwest"] }
