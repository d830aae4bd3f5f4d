[package]
name = "s2yt"
version = "0.1.0"
edition = "2021"
publish = false

[dependencies]
urlencoding = "*"
rspotify = "*"
invidious = "*"
actix-web = "*"
tokio = { version = "*", features = ["full"] }
confy = "*"
open = "*"
cli-clipboard = "*"
serde = { version = "*", features = ["derive"] }
