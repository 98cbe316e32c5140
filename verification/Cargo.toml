[package]
name = "haystack"
version = "0.1.0"
edition = "2021"
publish = false

[dependencies]
anyhow = "1"
url = "2"
chrono = "0.4"
chrono-tz = "*"
tokio = { version = "1", features = ["sync", "macros", "rt-multi-thread"] }
base64 = "0.13"
scram = "*"
reqwest = { version = "0.12", default-features = false, features = ["rustls-tls"] }
futures = "0.3"
clap = { version = "4", features = ["cargo"] }
saphyr = "*"
dialoguer = "*"
dirs = "*"
is-terminal = "*"
reedline-repl-rs = { version = "*", features = ["async"] }
mlua = { version = "*", features = ["lua54", "vendored"] }
