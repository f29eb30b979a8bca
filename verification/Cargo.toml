[package]
name = "ferristream"
version = "0.1.0"
edition = "2021"
publish = false

[dependencies]
tokio = { version = "*", features = ["rt", "rt-multi-thread", "macros", "sync", "time", "process", "io-util", "net", "fs"] }
tokio-util = "*"
reqwest = { version = "*", default-features = false, features = ["json"] }
serde = { version = "*", features = ["derive"] }
serde_json = "*"
toml = "*"
url = "=2.5.8"
urlencoding = "=2.1.3"
directories = "*"
