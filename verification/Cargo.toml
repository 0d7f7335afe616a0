[package]
name = "musicbirb"
version = "0.1.0"
edition = "2021"
publish = false

[dependencies]
rand = "=0.9.5"
md5 = "=0.7.0"
serde = { version = "=1.0.229", features = ["derive"] }
serde_json = "=1.0.154"
tokio = { version = "=1.54.1", features = ["rt-multi-thread", "sync", "macros", "time"] }
directories = "=6.0.0"
thiserror = "=2.0.21"
anyhow = "=1.0.104"
async-trait = "=0.1.92"
futures = "=0.3.34"
async-stream = "=0.3.6"
moka = { version = "=0.12.16", features = ["future"] }
ratatui = "=0.30.2"
chrono = { version = "0.4", default-features = false, features = ["serde", "clock", "std"] }
reqwest = { version = "0.12", default-features = false, features = ["json", "rustls-tls"] }
