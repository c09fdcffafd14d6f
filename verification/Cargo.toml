[package]
name = "desox"
version = "0.1.0"
edition = "2021"
publish = false

[dependencies]
aes = "*"
cbc = "*"
crc32fast = "*"
des = "*"
getrandom = "*"
thiserror = "*"
tokio = { version = "*", features = ["sync", "io-util"] }
