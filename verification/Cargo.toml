[package]
name = "auth_proxy"
version = "0.1.0"
edition = "2021"
publish = false

[dependencies]
cookie = "0.16"
frank_jwt = "3.1"
hyper = { version = "0.14", features = ["client", "server", "http1", "tcp"] }
serde_json = "1"
tokio = { version = "1", features = ["macros", "rt-multi-thread"] }
