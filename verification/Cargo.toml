[package]
name = "deadlock-rpc"
version = "0.1.0"
edition = "2021"
publish = false

[dependencies]
regex = "1"
zip = { version = "2", default-features = false, features = ["deflate"] }
serde = { version = "1", features = ["derive"] }
toml = "0.8"
reqwest = { version = "0.12", default-features = false, features = ["blocking", "json", "rustls-tls"] }
discord-rich-presence = "0.2"
notify-rust = "4"
image = { version = "0.25", default-features = false, features = ["png"] }
log = "0.4"
simplelog = "0.12"
ksni = "0.2"
tray-icon = "0.19"
winapi = { version = "0.3", features = ["winuser"] }
