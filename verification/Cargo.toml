[package]
name = "vita"
version = "0.1.0"
edition = "2021"
publish = false

[dependencies]
addr = "*"
regex = "*"
url = "*"
reqwest = { version = "*", default-features = false, features = ["json", "rustls-tls"] }
tokio = { version = "*", features = ["macros", "rt-multi-thread", "sync", "time"] }
serde = { version = "*", features = ["derive"] }
serde_json = "*"
async-trait = "*"
futures = "*"
clap = "*"
dotenv = "*"
tracing = "*"
tracing-subscriber = { version = "*", features = ["env-filter"] }
