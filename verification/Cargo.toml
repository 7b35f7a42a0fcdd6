[package]
name = "trackscape-discord-shared"
version = "0.1.0"
edition = "2021"
publish = false

[dependencies]
regex = "1"
urlencoding = "2"
xxhash-rust = { version = "0.8", features = ["xxh3"] }
rand = "0.8"
capitalize = "*"
num-format = "0.4"
bson = "2"
serde = { version = "1", features = ["derive"] }
serde_json = "1"
anyhow = "1"
log = "0.4"
tracing = "0.1"
chrono = "0.4"
futures = "0.3"
async-trait = "0.1"
async-recursion = "1"
once_cell = "1"
tokio = { version = "1", features = ["time", "macros", "rt-multi-thread"] }
redis = "0.23"
mongodb = "2.8"
reqwest = { version = "0.11", default-features = false, features = ["json", "rustls-tls"] }
scraper = "*"
wom_rs = "*"
