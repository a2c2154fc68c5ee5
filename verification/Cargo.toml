[package]
name = "acctrl"
version = "0.1.0"
edition = "2021"
publish = false

[dependencies]
clap = "4"
futures = "0.3"
gpio-cdev = { version = "*", features = ["async-tokio"] }
libc = "0.2"
serde = { version = "1", features = ["derive"] }
serde_json = "1"
tokio = { version = "1", features = ["macros", "rt-multi-thread", "sync", "time"] }
