[package]
name = "looper"
version = "0.1.0"
edition = "2021"
publish = false

[dependencies]
libc = "*"
log = "*"
mio = { version = "*", features = ["os-poll", "net", "os-ext"] }
signal-hook = "*"
tungstenite = "*"
