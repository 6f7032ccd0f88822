[package]
name = "computer_use_hyprland"
version = "0.1.0"
edition = "2021"
publish = false

[dependencies]
anyhow = "1"
base64 = "0.22"
evdev = "0.13"
futures-util = "0.3"
image = { version = "0.25", default-features = false, features = ["png", "jpeg"] }
libc = "0.2"
mimalloc = "*"
rmcp = { version = "*", features = ["server", "macros", "transport-io", "schemars"] }
schemars = "1"
serde = { version = "1", features = ["derive"] }
serde_json = "1"
tokio = { version = "1", features = ["rt-multi-thread", "macros", "process", "time", "sync", "io-util", "io-std", "net", "fs"] }
zbus = { version = "5", default-features = false, features = ["tokio"] }
