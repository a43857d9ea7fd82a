[package]
name = "capybara"
version = "0.1.0"
edition = "2021"
publish = false

[dependencies]
glow = "*"
fastrand = "*"
rustc-hash = "*"
glam = "*"
log = "*"
instant = "*"
anyhow = "*"
png = "*"
tinyjson = "*"
zip = { version = "*", default-features = false, features = ["deflate"] }
tokio = { version = "*", features = ["rt-multi-thread", "macros"] }
tokio-tungstenite = "*"
futures-util = "*"
futures-channel = "*"
url = "*"
arrayvec = "*"
parking_lot = "*"
rayon = "*"
