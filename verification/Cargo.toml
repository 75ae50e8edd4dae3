[package]
name = "redirect_tap"
version = "0.1.0"
edition = "2021"
publish = false

[dependencies]
hex = "0.4"
libc = "0.2"
native-tls = "0.2"
openssl = "0.10"
serde = "1"
serde_derive = "1"
serde_json = "1"
tokio = { version = "1", features = ["io-util", "macros", "net", "rt-multi-thread", "time"] }
toml = "0.8"
uuid = { version = "1", features = ["v4"] }
