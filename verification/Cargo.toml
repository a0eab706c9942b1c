[package]
name = "stremio-presence"
version = "0.1.0"
edition = "2021"
publish = false

[dependencies]
discord-rich-presence = "=1.1.0"
flume = "=0.12.0"
libmpv2 = "=4.1.0"
libmpv2-sys = "*"
native-windows-gui = "*"
reqwest = { version = "=0.12.28", default-features = false, features = ["blocking", "rustls-tls"] }
rust-ini = { version = "=0.21.3", features = ["inline-comment"] }
serde_json = "=1.0.154"
urlencoding = "=2.1.3"
winapi = { version = "0.3", features = ["windef"] }
